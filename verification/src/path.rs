//! Byte paths on a Unix file system: joining and program resolution.

use vstd::prelude::*;

verus! {

/// The separator byte `/`.
pub open spec fn is_sep(b: u8) -> bool {
    b == 0x2fu8
}

/// A path is absolute when it starts with `/`.
pub open spec fn spec_is_absolute(p: Seq<u8>) -> bool {
    p.len() > 0 && is_sep(p[0])
}

/// Whether some byte of `p` is `/`.
pub open spec fn spec_has_sep(p: Seq<u8>) -> bool {
    exists|i: int| 0 <= i < p.len() && is_sep(#[trigger] p[i])
}

/// What joining `tail` onto `base` gives: an absolute `tail` replaces `base`;
/// otherwise `tail` is appended, with a `/` in between when `base` is
/// non-empty and does not already end in one.
pub open spec fn joined(base: Seq<u8>, tail: Seq<u8>) -> Seq<u8> {
    if spec_is_absolute(tail) {
        tail
    } else if base.len() > 0 && !is_sep(base.last()) {
        base + seq![0x2fu8] + tail
    } else {
        base + tail
    }
}

/// The program path that is spawned from inside the workspace for a program
/// named on the command line while the caller stood in `cwd`: a bare name (no
/// `/`, looked up on `PATH`) and an absolute path are kept; any other relative
/// path is anchored at `cwd`, so that it still names the same file once the
/// child runs in the workspace.
pub open spec fn resolved_program(program: Seq<u8>, cwd: Seq<u8>) -> Seq<u8> {
    if spec_is_absolute(program) || !spec_has_sep(program) {
        program
    } else {
        joined(cwd, program)
    }
}

/// `p` lies strictly below the directory `dir`.
pub open spec fn is_below(p: Seq<u8>, dir: Seq<u8>) -> bool {
    &&& dir.len() > 0
    &&& p.len() > dir.len() + 1
    &&& p.subrange(0, dir.len() as int) == dir
    &&& is_sep(p[dir.len() as int])
}

/// Whether `p` is absolute.
pub fn is_absolute(p: &[u8]) -> (r: bool)
    ensures
        r == spec_is_absolute(p@),
{
    p.len() > 0 && p[0] == 0x2fu8
}

/// Whether `p` holds a `/`.
pub fn has_sep(p: &[u8]) -> (r: bool)
    ensures
        r == spec_has_sep(p@),
{
    let mut i: usize = 0;
    while i < p.len()
        invariant
            i <= p.len(),
            forall|j: int| 0 <= j < i ==> !is_sep(#[trigger] p@[j]),
        decreases p.len() - i,
    {
        if p[i] == 0x2fu8 {
            return true;
        }
        i = i + 1;
    }
    false
}

/// Appends the bytes of `src` to `dst`.
pub fn extend_bytes(dst: &mut Vec<u8>, src: &[u8])
    ensures
        final(dst)@ == old(dst)@ + src@,
{
    let mut i: usize = 0;
    while i < src.len()
        invariant
            i <= src.len(),
            dst@ == old(dst)@ + src@.subrange(0, i as int),
        decreases src.len() - i,
    {
        dst.push(src[i]);
        i = i + 1;
        assert(src@.subrange(0, i as int) == src@.subrange(0, i - 1) + seq![src@[i - 1]]);
    }
    assert(src@.subrange(0, src.len() as int) == src@);
}

/// A copy of `src`.
pub fn copy_bytes(src: &[u8]) -> (r: Vec<u8>)
    ensures
        r@ == src@,
{
    let mut r: Vec<u8> = Vec::new();
    extend_bytes(&mut r, src);
    assert(r@ == Seq::<u8>::empty() + src@);
    r
}

/// `tail` joined onto `base`, as `Path::join` joins on Unix.
pub fn join(base: &[u8], tail: &[u8]) -> (r: Vec<u8>)
    ensures
        r@ == joined(base@, tail@),
{
    if is_absolute(tail) {
        return copy_bytes(tail);
    }
    let mut r = copy_bytes(base);
    if base.len() > 0 && base[base.len() - 1] != 0x2fu8 {
        r.push(0x2fu8);
    }
    extend_bytes(&mut r, tail);
    r
}

/// The program path to spawn; see [`resolved_program`].
pub fn resolve_program(program: &[u8], cwd: &[u8]) -> (r: Vec<u8>)
    ensures
        r@ == resolved_program(program@, cwd@),
{
    if is_absolute(program) || !has_sep(program) {
        copy_bytes(program)
    } else {
        join(cwd, program)
    }
}

/// Whether two byte strings are equal.
pub fn bytes_eq(a: &[u8], b: &[u8]) -> (r: bool)
    ensures
        r == (a@ == b@),
{
    if a.len() != b.len() {
        return false;
    }
    let mut i: usize = 0;
    while i < a.len()
        invariant
            a.len() == b.len(),
            i <= a.len(),
            forall|j: int| 0 <= j < i ==> a@[j] == b@[j],
        decreases a.len() - i,
    {
        if a[i] != b[i] {
            return false;
        }
        i = i + 1;
    }
    assert(a@ =~= b@);
    true
}

} // verus!
