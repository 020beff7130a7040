//! Generation identifiers: each run works in a DRAM workspace named by a
//! fresh random UUID below the storage root.

use vstd::prelude::*;
use crate::path::{is_sep, joined, is_below, spec_has_sep, spec_is_absolute};

verus! {

/// A lower-case hexadecimal digit, `0`-`9` or `a`-`f`.
pub open spec fn is_lower_hex(b: u8) -> bool {
    (0x30u8 <= b <= 0x39u8) || (0x61u8 <= b <= 0x66u8)
}

/// The positions of the four hyphens in the hyphenated UUID text.
pub open spec fn is_hyphen_position(i: int) -> bool {
    i == 8 || i == 13 || i == 18 || i == 23
}

/// `s` is the hyphenated lower-case text of a random (version 4, RFC 4122
/// variant) UUID, such as `67e55044-10b1-426f-9247-bb680e5fe0c8`.
pub open spec fn is_random_uuid_text(s: Seq<u8>) -> bool {
    &&& s.len() == 36
    &&& forall|i: int|
        0 <= i < 36 ==> if is_hyphen_position(i) {
            #[trigger] s[i] == 0x2du8
        } else {
            is_lower_hex(s[i])
        }
    &&& s[14] == 0x34u8
    &&& (s[19] == 0x38u8 || s[19] == 0x39u8 || s[19] == 0x61u8 || s[19] == 0x62u8)
}

/// The workspace directory of generation `id` under `storage_root`.
pub open spec fn workspace_of(storage_root: Seq<u8>, id: Seq<u8>) -> Seq<u8> {
    joined(storage_root, id)
}

/// Sixteen bytes from the system's random source, or the text of the error
/// that kept it from giving them.
///
/// Calls `getrandom::fill` on a 16-byte buffer. The contract claims nothing
/// of the bytes, which are random, nor of when the source fails; the call
/// reports a failure as an error and does not panic.
#[verifier::external_body]
pub(crate) fn random_bytes() -> (r: Result<[u8; 16], String>)
{
    let mut bytes = [0u8; 16];
    getrandom::fill(&mut bytes).map(|()| bytes).map_err(|e| e.to_string())
}

/// The hyphenated lower-case text of the random (version 4) UUID that is
/// built from `bytes`.
pub uninterp spec fn uuid_text(bytes: Seq<u8>) -> Seq<u8>;

/// The text of the random UUID built from `bytes`, as bytes.
///
/// Calls `uuid::Builder::from_random_bytes(bytes).into_uuid()` and formats
/// the UUID with its `Display` impl. The text is named [`uuid_text`] of the
/// bytes; its shape is stated too, as `from_random_bytes` sets the version
/// nibble to 4 and the variant bits to `10` on any bytes, and the formatter
/// writes lower-case hex with hyphens at 8, 13, 18 and 23.
#[verifier::external_body]
pub(crate) fn uuid_text_from(bytes: [u8; 16]) -> (id: Vec<u8>)
    ensures
        id@ == uuid_text(bytes@),
        is_random_uuid_text(id@),
{
    uuid::Builder::from_random_bytes(bytes).into_uuid().to_string().into_bytes()
}

/// A fresh generation name: the text of a random UUID, or the text of the
/// error that kept the random source from giving its bytes.
pub fn draw_generation_id() -> (r: Result<Vec<u8>, String>)
    ensures
        r matches Ok(id) ==> is_random_uuid_text(id@),
{
    match random_bytes() {
        Ok(bytes) => Ok(uuid_text_from(bytes)),
        Err(m) => Err(m),
    }
}

/// The workspace directory of generation `id` under `storage_root`.
pub fn workspace_dir(storage_root: &[u8], id: &[u8]) -> (r: Vec<u8>)
    ensures
        r@ == workspace_of(storage_root@, id@),
{
    crate::path::join(storage_root, id)
}

/// A generation's text holds no `/`, is not empty and does not end in `/`.
pub proof fn lemma_uuid_text_is_one_component(id: Seq<u8>)
    requires
        is_random_uuid_text(id),
    ensures
        !spec_has_sep(id),
        !spec_is_absolute(id),
        id.len() > 0,
        !is_sep(id.last()),
{
    assert forall|i: int| 0 <= i < id.len() implies !is_sep(#[trigger] id[i]) by {
        if is_hyphen_position(i) {
            assert(id[i] == 0x2du8);
        } else {
            assert(is_lower_hex(id[i]));
        }
    }
    assert(id.last() == id[35]);
}

/// Every workspace is a directory directly inside the storage root (given a
/// root that is not empty and does not end in `/`), and its path does not end
/// in `/`.
pub proof fn lemma_workspace_below_root(storage_root: Seq<u8>, id: Seq<u8>)
    requires
        is_random_uuid_text(id),
        storage_root.len() > 0,
        !is_sep(storage_root.last()),
    ensures
        is_below(workspace_of(storage_root, id), storage_root),
        !is_sep(workspace_of(storage_root, id).last()),
        workspace_of(storage_root, id).len() > 0,
{
    lemma_uuid_text_is_one_component(id);
    let w = workspace_of(storage_root, id);
    assert(w == storage_root + seq![0x2fu8] + id);
    assert(w.subrange(0, storage_root.len() as int) =~= storage_root);
    assert(w[storage_root.len() as int] == 0x2fu8);
    assert(w.last() == id.last());
}

} // verus!
