//! What every run of `buas` keeps, stated over the session model and proved.

use vstd::prelude::*;
use crate::path::{joined, is_below, is_sep, spec_has_sep, spec_is_absolute};
use crate::error::{ErrorModel, diagnostic_of};
use crate::generation::workspace_of;
use crate::path::resolved_program;
use crate::session::{
    Phase, SessionModel, EventModel, ActionModel, wf, next, action_of, initial, draws_generation,
    exit_code_of, diagnostics_of, lemma_initial_wf, lemma_next_preserves_wf,
};

verus! {

/// The outcome of drawing a generation name: the name, or why none could be
/// drawn.
pub type Draw = Result<Seq<u8>, Seq<char>>;

/// The session reached from `s` by the events `es` in turn, the generation
/// draw giving the outcomes `draws` (one per event, used only where a name is
/// drawn).
pub open spec fn run(s: SessionModel, es: Seq<EventModel>, draws: Seq<Draw>) -> SessionModel
    decreases es.len(),
{
    if es.len() == 0 {
        s
    } else {
        run(next(s, es[0], draws[0]), es.drop_first(), draws.drop_first())
    }
}

/// Every session reached from a start, by any events whatever, is
/// well-formed, so that each law below that asks for `wf` holds of it.
pub proof fn law_reachable_wf(
    command: Seq<Seq<u8>>,
    storage_root: Seq<u8>,
    es: Seq<EventModel>,
    draws: Seq<Draw>,
)
    ensures
        wf(run(initial(command, storage_root), es, draws)),
{
    lemma_initial_wf(command, storage_root);
    lemma_run_keeps_wf(initial(command, storage_root), es, draws);
}

/// Events keep a session well-formed.
proof fn lemma_run_keeps_wf(s: SessionModel, es: Seq<EventModel>, draws: Seq<Draw>)
    requires
        wf(s),
    ensures
        wf(run(s, es, draws)),
    decreases es.len(),
{
    if es.len() > 0 {
        lemma_next_preserves_wf(s, es[0], draws[0]);
        lemma_run_keeps_wf(next(s, es[0], draws[0]), es.drop_first(), draws.drop_first());
    }
}

/// Nothing is published before the command has exited with code 0: while
/// the workspace is listed and its entries are linked, the command exited
/// with 0 and nothing has failed.
pub proof fn law_publish_only_after_success(s: SessionModel)
    requires
        wf(s),
        s.phase == Phase::OpenWorkspace || s.phase == Phase::NextEntry || s.phase == Phase::Link,
    ensures
        s.child_code == Some(0i32),
        s.failure is None,
{
}

/// Publishing starts only when the command exited with code 0, and only
/// right after it exited.
pub proof fn law_publish_starts_on_success(s: SessionModel, e: EventModel, fresh: Draw)
    requires
        wf(s),
        next(s, e, fresh).phase == Phase::OpenWorkspace,
        s.phase != Phase::OpenWorkspace,
    ensures
        s.phase == Phase::Spawn,
        e == EventModel::ChildExited(Some(0i32)),
{
}

/// The generation's name is announced before its workspace is created.
pub proof fn law_announce_before_workspace(s: SessionModel, e: EventModel, fresh: Draw)
    requires
        next(s, e, fresh).phase == Phase::CreateWorkspace,
        s.phase != Phase::CreateWorkspace,
    ensures
        s.phase == Phase::Announce,
        e == EventModel::Announced,
        action_of(s) == ActionModel::Announce(s.id),
{
}

/// A finished run stays as it is, whatever is handed to it.
pub proof fn law_finished_is_final(s: SessionModel, e: EventModel, fresh: Draw)
    requires
        s.phase == Phase::Finished,
    ensures
        next(s, e, fresh) == s,
{
}

/// The command runs only once its workspace was created: right after that,
/// or after anchoring a relative program path at the working directory, which
/// itself only follows the workspace's creation.
pub proof fn law_spawn_after_workspace(s: SessionModel, e: EventModel, fresh: Draw)
    requires
        next(s, e, fresh).phase == Phase::Spawn || next(s, e, fresh).phase == Phase::ResolveProgram,
        next(s, e, fresh).phase != s.phase,
    ensures
        (s.phase == Phase::CreateWorkspace && e == EventModel::WorkspaceCreated(Ok(())))
            || (s.phase == Phase::ResolveProgram && next(s, e, fresh).phase == Phase::Spawn
            && e matches EventModel::CurrentDir(Ok(_))),
{
    if let EventModel::WorkspaceCreated(Ok(u)) = e {
        assert(u == ());
    }
}

/// Each published symlink stands in the caller's directory under the entry's
/// own name and points at that entry in this generation's workspace.
pub proof fn law_link_names_entry(s: SessionModel)
    requires
        s.phase == Phase::Link,
    ensures
        action_of(s) == (ActionModel::CreateSymlink {
            target: joined(s.workspace, s.pending),
            link: joined(s.cwd, s.pending),
        }),
{
}

/// A symlink is recorded as this run's only once this run created it: the
/// record grows by the pending entry exactly when its symlink was created.
pub proof fn law_published_only_when_created(s: SessionModel, e: EventModel, fresh: Draw)
    requires
        next(s, e, fresh).published != s.published,
    ensures
        s.phase == Phase::Link,
        e == EventModel::SymlinkCreated(Ok(())),
        next(s, e, fresh).published == s.published.push(s.pending),
{
    if let EventModel::SymlinkCreated(Ok(u)) = e {
        assert(u == ());
    }
}

/// Rolling back removes only symlinks that this run created, and each only
/// after reading that it still points at its entry in this generation's
/// workspace.
pub proof fn law_rollback_removes_only_own_links(s: SessionModel, e: EventModel, fresh: Draw)
    requires
        wf(s),
        next(s, e, fresh).phase matches Phase::Unlink(_),
        next(s, e, fresh).phase != s.phase,
    ensures
        ({
            let i = next(s, e, fresh).phase->Unlink_0 as int;
            &&& s.phase == Phase::Inspect(i as usize)
            &&& 0 <= i < s.published.len()
            &&& e == EventModel::LinkRead(Some(joined(s.workspace, s.published[i])))
            &&& action_of(next(s, e, fresh)) == ActionModel::RemoveSymlink(
                joined(s.cwd, s.published[i]),
            )
        }),
{
}

/// The only paths ever removed one by one are symlinks this run published.
pub proof fn law_removed_path_is_published(s: SessionModel)
    requires
        wf(s),
        action_of(s) matches ActionModel::RemoveSymlink(_),
    ensures
        exists|i: int|
            0 <= i < s.published.len() && action_of(s) == ActionModel::RemoveSymlink(
                joined(s.cwd, #[trigger] s.published[i]),
            ),
{
    let i = s.phase->Unlink_0 as int;
    assert(action_of(s) == ActionModel::RemoveSymlink(joined(s.cwd, s.published[i])));
}

/// Rolling back visits the published symlinks in order: from symlink `i` it
/// goes on to removing it, to symlink `i + 1`, or, past the last one, to the
/// workspace; a failed removal ends it at once.
pub proof fn law_rollback_in_order(s: SessionModel, e: EventModel, fresh: Draw)
    requires
        wf(s),
        s.published.len() <= usize::MAX,
        s.phase matches Phase::Inspect(_) || s.phase matches Phase::Unlink(_),
    ensures
        ({
            let i: int = match s.phase {
                Phase::Inspect(i) => i as int,
                Phase::Unlink(i) => i as int,
                _ => 0,
            };
            let p = next(s, e, fresh).phase;
            ||| p == s.phase
            ||| p == Phase::Unlink(i as usize)
            ||| (i + 1 < s.published.len() && p == Phase::Inspect((i + 1) as usize))
            ||| (i + 1 == s.published.len() && p == Phase::RemoveWorkspace)
            ||| (p == Phase::Finished && e matches EventModel::SymlinkRemoved(Err(_)))
        }),
{
}

/// The first symlink of this run that cannot be removed ends the rollback:
/// the failure is recorded after the one that caused the rollback, the later
/// symlinks are left as they are, and the workspace is kept.
pub proof fn law_rollback_stops_at_failed_removal(
    s: SessionModel,
    i: usize,
    m: Seq<char>,
    fresh: Draw,
)
    requires
        wf(s),
        s.phase == Phase::Unlink(i),
    ensures
        ({
            let n = next(s, EventModel::SymlinkRemoved(Err(m)), fresh);
            &&& n.phase == Phase::Finished
            &&& n.failure == s.failure
            &&& n.published == s.published
            &&& n.cleanup_errors == s.cleanup_errors.push(
                ErrorModel::RemoveSymlink { path: joined(s.cwd, s.published[i as int]), source: m },
            )
            &&& action_of(n) matches ActionModel::Finish { .. }
        }),
{
}

/// The workspace is removed only after the rollback: either nothing had been
/// published, or the last published symlink has just been dealt with; and
/// never after a symlink of this run failed to be removed (the workspace is
/// then kept, so that no symlink is left pointing into nothing).
pub proof fn law_workspace_removed_after_rollback(s: SessionModel, e: EventModel, fresh: Draw)
    requires
        wf(s),
        s.published.len() <= usize::MAX,
        next(s, e, fresh).phase == Phase::RemoveWorkspace,
        s.phase != Phase::RemoveWorkspace,
    ensures
        next(s, e, fresh).cleanup_errors.len() == 0,
        s.published.len() == 0 || (s.phase matches Phase::Inspect(i) && i + 1 == s.published.len())
            || (s.phase matches Phase::Unlink(i) && i + 1 == s.published.len()),
{
}

/// The workspace is removed only when the command failed or `buas` did: a
/// successful run keeps it.
pub proof fn law_workspace_kept_on_success(s: SessionModel)
    requires
        wf(s),
        action_of(s) matches ActionModel::RemoveWorkspace(_),
    ensures
        s.failure is Some || s.child_code != Some(0i32),
{
}

/// A failure, once it happened, stays the failure of the run, whatever
/// happens while cleaning up after it.
pub proof fn law_failure_is_kept(s: SessionModel, e: EventModel, fresh: Draw)
    requires
        wf(s),
        s.failure is Some,
    ensures
        next(s, e, fresh).failure == s.failure,
{
}

/// A finished run reports the failure that ended it first, then each failure
/// of the cleanup, and exits with 1; without a failure it exits with the
/// command's exit code and reports only failures of cleaning up after the
/// command failed.
pub proof fn law_finish_reports(s: SessionModel)
    requires
        s.phase == Phase::Finished,
    ensures
        action_of(s) matches ActionModel::Finish { code, diagnostics } && {
            &&& (s.failure matches Some(err) ==> code == 1 && diagnostics.len()
                == 1 + s.cleanup_errors.len() && diagnostics[0] == diagnostic_of(err))
            &&& (s.failure is None ==> code == exit_code_of(s.child_code)
                && diagnostics.len() == s.cleanup_errors.len())
            &&& forall|j: int|
                0 <= j < s.cleanup_errors.len() ==> #[trigger] diagnostics[diagnostics.len()
                    - s.cleanup_errors.len() + j] == diagnostic_of(s.cleanup_errors[j])
        },
{
}

/// Every diagnostic of `buas` starts with `buas: `.
pub proof fn law_diagnostics_prefixed(s: SessionModel)
    requires
        s.phase == Phase::Finished,
    ensures
        action_of(s) matches ActionModel::Finish { diagnostics, .. } && forall|j: int|
            0 <= j < diagnostics.len() ==> (#[trigger] diagnostics[j]).subrange(
                0,
                "buas: "@.len() as int,
            ) == "buas: "@,
{
    let d = diagnostics_of(s);
    assert forall|j: int| 0 <= j < d.len() implies (#[trigger] d[j]).subrange(
        0,
        "buas: "@.len() as int,
    ) == "buas: "@ by {
        let head: Seq<Seq<char>> = match s.failure {
            Some(e) => seq![diagnostic_of(e)],
            None => Seq::empty(),
        };
        let e: ErrorModel = if j < head.len() {
            s.failure->0
        } else {
            s.cleanup_errors[j - head.len()]
        };
        assert(d[j] == diagnostic_of(e));
        assert(diagnostic_of(e).subrange(0, "buas: "@.len() as int) =~= "buas: "@);
    }
}

/// The exit code keeps the command's exit code when it fits in a byte, and
/// is 1 when a signal ended the command.
pub proof fn law_exit_code(c: i32)
    ensures
        0 <= c <= 255 ==> exit_code_of(Some(c)) == c,
        exit_code_of(None) == 1,
{
}

/// Without a command, `buas` finishes at once: it exits with 1 and reports
/// that no command was given.
pub proof fn law_missing_command(storage_root: Seq<u8>)
    ensures
        action_of(initial(Seq::empty(), storage_root)) == (ActionModel::Finish {
            code: 1,
            diagnostics: seq![diagnostic_of(ErrorModel::MissingCommand)],
        }),
{
    let s = initial(Seq::empty(), storage_root);
    assert(diagnostics_of(s) =~= seq![diagnostic_of(ErrorModel::MissingCommand)]);
}

/// The workspace is fixed when the generation is drawn: it is the generation
/// below the storage root, and no later step changes it. When no name could
/// be drawn, the run ends with that failure.
pub proof fn law_workspace_fixed(s: SessionModel, e: EventModel, fresh: Draw)
    ensures
        draws_generation(s, e) && fresh is Ok ==> next(s, e, fresh).workspace == workspace_of(
            s.storage_root,
            fresh->Ok_0,
        ) && next(s, e, fresh).id == fresh->Ok_0,
        draws_generation(s, e) && fresh is Err ==> next(s, e, fresh).phase == Phase::Finished
            && next(s, e, fresh).failure == Some(ErrorModel::GenerationId { source: fresh->Err_0 }),
        !draws_generation(s, e) ==> next(s, e, fresh).workspace == s.workspace && next(
            s,
            e,
            fresh,
        ).id == s.id,
{
}

/// An entry of the workspace (a name that is not empty and holds no `/`)
/// lies inside the workspace, given a workspace path that does not end in `/`:
/// every symlink of this run points into this generation.
pub proof fn law_targets_inside_workspace(workspace: Seq<u8>, name: Seq<u8>)
    requires
        workspace.len() > 0,
        !is_sep(workspace.last()),
        name.len() > 0,
        !spec_has_sep(name),
    ensures
        is_below(joined(workspace, name), workspace),
{
    assert(!spec_is_absolute(name)) by {
        assert(!is_sep(name[0]));
    }
    let p = joined(workspace, name);
    assert(p == workspace + seq![0x2fu8] + name);
    assert(p.subrange(0, workspace.len() as int) =~= workspace);
    assert(p[workspace.len() as int] == 0x2fu8);
}

// What each step does, stated by its inputs and its outcome.

/// Joining a relative tail keeps the base in front and the tail at the end,
/// with one `/` in between exactly when the base is not empty and does not
/// already end in one; an absolute tail replaces the base.
pub proof fn law_join_layout(base: Seq<u8>, tail: Seq<u8>)
    ensures
        spec_is_absolute(tail) ==> joined(base, tail) == tail,
        !spec_is_absolute(tail) ==> ({
            let r = joined(base, tail);
            let gap: int = if base.len() > 0 && !is_sep(base.last()) {
                1
            } else {
                0
            };
            &&& r.len() == base.len() + gap + tail.len()
            &&& r.subrange(0, base.len() as int) == base
            &&& r.subrange(base.len() + gap, r.len() as int) == tail
            &&& gap == 1 ==> is_sep(r[base.len() as int])
        }),
{
    if !spec_is_absolute(tail) {
        let r = joined(base, tail);
        if base.len() > 0 && !is_sep(base.last()) {
            assert(r.subrange(0, base.len() as int) =~= base);
            assert(r.subrange(base.len() + 1 as int, r.len() as int) =~= tail);
        } else {
            assert(r.subrange(0, base.len() as int) =~= base);
            assert(r.subrange(base.len() as int, r.len() as int) =~= tail);
        }
    }
}

/// A relative program path that holds a `/`, whatever its form (`./x`,
/// `../x`, `dir/x`), is anchored at the caller's directory: it becomes that
/// directory, a `/`, and the path, when the directory does not end in `/`.
pub proof fn law_relative_program_anchored(program: Seq<u8>, cwd: Seq<u8>)
    requires
        !spec_is_absolute(program),
        spec_has_sep(program),
    ensures
        resolved_program(program, cwd) == joined(cwd, program),
        cwd.len() > 0 && !is_sep(cwd.last()) ==> resolved_program(program, cwd) == cwd + seq![
            0x2fu8,
        ] + program,
{
}

/// A bare program name (found on `PATH`) and an absolute path are spawned as
/// they were given.
pub proof fn law_bare_or_absolute_program_kept(program: Seq<u8>, cwd: Seq<u8>)
    requires
        spec_is_absolute(program) || !spec_has_sep(program),
    ensures
        resolved_program(program, cwd) == program,
{
}

/// Once the working directory is known and a generation name drawn, the
/// name is announced, the workspace is that name below the storage root, and
/// the program is the command's first word.
pub proof fn law_working_directory_known(s: SessionModel, cwd: Seq<u8>, id: Seq<u8>)
    requires
        wf(s),
        s.phase == Phase::AwaitCwd,
        s.command.len() > 0,
    ensures
        ({
            let n = next(s, EventModel::CurrentDir(Ok(cwd)), Ok(id));
            &&& action_of(n) == ActionModel::Announce(id)
            &&& n.cwd == cwd
            &&& n.id == id
            &&& n.workspace == joined(s.storage_root, id)
            &&& n.program == s.command[0]
            &&& n.failure is None
            &&& action_of(next(n, EventModel::Announced, Ok(id))) == ActionModel::CreateWorkspace(
                joined(s.storage_root, id),
            )
        }),
{
}

/// Without a working directory the run ends at once, exiting with 1.
pub proof fn law_working_directory_unknown(s: SessionModel, m: Seq<char>, fresh: Draw)
    requires
        wf(s),
        s.phase == Phase::AwaitCwd,
    ensures
        action_of(next(s, EventModel::CurrentDir(Err(m)), fresh)) == (ActionModel::Finish {
            code: 1,
            diagnostics: seq![diagnostic_of(ErrorModel::CurrentDirectory { source: m })],
        }),
{
    let n = next(s, EventModel::CurrentDir(Err(m)), fresh);
    assert(diagnostics_of(n) =~= seq![diagnostic_of(ErrorModel::CurrentDirectory { source: m })]);
}

/// A workspace that cannot be created ends the run, exiting with 1.
pub proof fn law_workspace_not_created(s: SessionModel, m: Seq<char>, fresh: Draw)
    requires
        wf(s),
        s.phase == Phase::CreateWorkspace,
    ensures
        action_of(next(s, EventModel::WorkspaceCreated(Err(m)), fresh)) == (ActionModel::Finish {
            code: 1,
            diagnostics: seq![
                diagnostic_of(ErrorModel::CreateWorkspace { path: s.workspace, source: m }),
            ],
        }),
{
    let n = next(s, EventModel::WorkspaceCreated(Err(m)), fresh);
    assert(diagnostics_of(n) =~= seq![
        diagnostic_of(ErrorModel::CreateWorkspace { path: s.workspace, source: m }),
    ]);
}

/// Once the workspace exists, a bare or absolute program is spawned there
/// with every argument of the command line, and a relative path that holds a
/// `/` first waits for the working directory, at which it is anchored.
pub proof fn law_spawn_after_creation(s: SessionModel, d: Seq<u8>, fresh: Draw)
    requires
        wf(s),
        s.phase == Phase::CreateWorkspace,
        s.command.len() > 0,
    ensures
        ({
            let n = next(s, EventModel::WorkspaceCreated(Ok(())), fresh);
            &&& (spec_is_absolute(s.program) || !spec_has_sep(s.program)) ==> action_of(n) == (
            ActionModel::Spawn {
                program: s.program,
                args: s.command.subrange(1, s.command.len() as int),
                dir: s.workspace,
            })
            &&& (!spec_is_absolute(s.program) && spec_has_sep(s.program)) ==> {
                &&& action_of(n) == ActionModel::QueryCurrentDir
                &&& action_of(next(n, EventModel::CurrentDir(Ok(d)), fresh)) == (
                ActionModel::Spawn {
                    program: joined(d, s.program),
                    args: s.command.subrange(1, s.command.len() as int),
                    dir: s.workspace,
                })
            }
        }),
{
}

/// The command is spawned with every word of the command line after the
/// first, in order, whatever its length.
pub proof fn law_spawn_passes_every_argument(s: SessionModel)
    requires
        s.phase == Phase::Spawn,
        s.command.len() > 0,
    ensures
        action_of(s) matches ActionModel::Spawn { program, args, dir } && {
            &&& program == s.program
            &&& dir == s.workspace
            &&& args.len() + 1 == s.command.len()
            &&& forall|j: int| 0 <= j < args.len() ==> #[trigger] args[j] == s.command[j + 1]
        },
{
}

/// A program that cannot be started fails the run; the workspace is removed.
pub proof fn law_spawn_failure(s: SessionModel, m: Seq<char>, fresh: Draw)
    requires
        wf(s),
        s.phase == Phase::Spawn,
    ensures
        ({
            let n = next(s, EventModel::SpawnFailed(m), fresh);
            &&& n.failure == Some(ErrorModel::SpawnCommand { program: s.program, source: m })
            &&& action_of(n) == ActionModel::RemoveWorkspace(s.workspace)
        }),
{
}

/// The command's exit status is kept as it is, whatever the code. On code 0
/// the workspace is listed; on any other outcome it is removed and the run
/// exits with the code's low eight bits (1 after a signal), reporting a failed
/// removal besides.
pub proof fn law_command_exit_recorded(s: SessionModel, c: Option<i32>, m: Seq<char>, fresh: Draw)
    requires
        wf(s),
        s.phase == Phase::Spawn,
    ensures
        ({
            let n = next(s, EventModel::ChildExited(c), fresh);
            let code: u8 = match c {
                Some(x) => x as u8,
                None => 1u8,
            };
            &&& n.child_code == c
            &&& n.failure is None
            &&& c == Some(0i32) ==> action_of(n) == ActionModel::OpenWorkspace(s.workspace)
            &&& c != Some(0i32) ==> {
                &&& action_of(n) == ActionModel::RemoveWorkspace(s.workspace)
                &&& action_of(next(n, EventModel::WorkspaceRemoved(Ok(())), fresh)) == (
                ActionModel::Finish { code: code, diagnostics: Seq::empty() })
                &&& action_of(next(n, EventModel::WorkspaceRemoved(Err(m)), fresh)) == (
                ActionModel::Finish {
                    code: code,
                    diagnostics: seq![
                        diagnostic_of(ErrorModel::RemoveWorkspace { path: s.workspace, source: m }),
                    ],
                })
            }
        }),
{
    let n = next(s, EventModel::ChildExited(c), fresh);
    if c != Some(0i32) {
        let f1 = next(n, EventModel::WorkspaceRemoved(Ok(())), fresh);
        let f2 = next(n, EventModel::WorkspaceRemoved(Err(m)), fresh);
        assert(diagnostics_of(f1) =~= Seq::<Seq<char>>::empty());
        assert(diagnostics_of(f2) =~= seq![
            diagnostic_of(ErrorModel::RemoveWorkspace { path: s.workspace, source: m }),
        ]);
    }
}

/// Each listed entry is published under its own name in the caller's
/// directory, pointing at it in the workspace; once created, its name is
/// recorded and the next entry is asked for.
pub proof fn law_entry_published(s: SessionModel, name: Seq<u8>, fresh: Draw)
    requires
        wf(s),
        s.phase == Phase::NextEntry,
    ensures
        ({
            let n = next(s, EventModel::Entry(Ok(Some(name))), fresh);
            let c = next(n, EventModel::SymlinkCreated(Ok(())), fresh);
            &&& action_of(n) == (ActionModel::CreateSymlink {
                target: joined(s.workspace, name),
                link: joined(s.cwd, name),
            })
            &&& c.published == s.published.push(name)
            &&& action_of(c) == ActionModel::NextEntry
            &&& c.failure is None
        }),
{
}

/// When the listing ends, every entry having been published, the run exits
/// with 0 and reports nothing; the workspace stays.
pub proof fn law_listing_done(s: SessionModel, fresh: Draw)
    requires
        wf(s),
        s.phase == Phase::NextEntry,
    ensures
        action_of(next(s, EventModel::Entry(Ok(None)), fresh)) == (ActionModel::Finish {
            code: 0,
            diagnostics: Seq::empty(),
        }),
{
    let n = next(s, EventModel::Entry(Ok(None)), fresh);
    assert(diagnostics_of(n) =~= Seq::<Seq<char>>::empty());
}

/// A symlink that cannot be created fails the run, whatever was published
/// before: the failure names the entry and its destination, and the rollback
/// starts from the first published symlink (or, with none, the workspace is
/// removed).
pub proof fn law_publish_failure_fails_run(s: SessionModel, m: Seq<char>, fresh: Draw)
    requires
        wf(s),
        s.phase == Phase::Link,
    ensures
        ({
            let n = next(s, EventModel::SymlinkCreated(Err(m)), fresh);
            &&& n.failure == Some(ErrorModel::PublishEntry {
                source_dir: joined(s.workspace, s.pending),
                destination_dir: joined(s.cwd, s.pending),
                error: m,
            })
            &&& n.published == s.published
            &&& s.published.len() > 0 ==> action_of(n) == ActionModel::ReadLink(
                joined(s.cwd, s.published[0]),
            )
            &&& s.published.len() == 0 ==> action_of(n) == ActionModel::RemoveWorkspace(s.workspace)
        }),
{
}

/// A listing that cannot be opened or read on fails the run in the same way,
/// naming the workspace.
pub proof fn law_listing_failure_fails_run(s: SessionModel, m: Seq<char>, fresh: Draw)
    requires
        wf(s),
        s.phase == Phase::OpenWorkspace || s.phase == Phase::NextEntry,
    ensures
        ({
            let e = if s.phase == Phase::OpenWorkspace {
                EventModel::WorkspaceOpened(Err(m))
            } else {
                EventModel::Entry(Err(m))
            };
            let n = next(s, e, fresh);
            &&& n.failure == Some(ErrorModel::ReadWorkspace { path: s.workspace, source: m })
            &&& n.published == s.published
            &&& s.published.len() > 0 ==> action_of(n) == ActionModel::ReadLink(
                joined(s.cwd, s.published[0]),
            )
            &&& s.published.len() == 0 ==> action_of(n) == ActionModel::RemoveWorkspace(s.workspace)
        }),
{
}

/// Each published symlink, at any position, that still points at its entry
/// in this generation is removed.
pub proof fn law_rollback_removes_each_own_link(s: SessionModel, i: usize, fresh: Draw)
    requires
        wf(s),
        s.phase == Phase::Inspect(i),
    ensures
        ({
            let n = next(
                s,
                EventModel::LinkRead(Some(joined(s.workspace, s.published[i as int]))),
                fresh,
            );
            &&& n.phase == Phase::Unlink(i)
            &&& action_of(n) == ActionModel::RemoveSymlink(joined(s.cwd, s.published[i as int]))
            &&& n.published == s.published
            &&& n.failure == s.failure
        }),
{
}

/// After a published symlink was removed, or found no longer to be this
/// run's, the rollback goes on to the next one, or, past the last, removes
/// the workspace.
pub proof fn law_rollback_moves_on(s: SessionModel, i: usize, t: Option<Seq<u8>>, fresh: Draw)
    requires
        wf(s),
        s.published.len() <= usize::MAX,
        s.phase == Phase::Inspect(i) || s.phase == Phase::Unlink(i),
        s.phase == Phase::Inspect(i) ==> t != Some(joined(s.workspace, s.published[i as int])),
    ensures
        ({
            let e = if s.phase == Phase::Inspect(i) {
                EventModel::LinkRead(t)
            } else {
                EventModel::SymlinkRemoved(Ok(()))
            };
            let n = next(s, e, fresh);
            &&& i + 1 < s.published.len() ==> action_of(n) == ActionModel::ReadLink(
                joined(s.cwd, s.published[i + 1]),
            )
            &&& i + 1 == s.published.len() ==> action_of(n) == ActionModel::RemoveWorkspace(
                s.workspace,
            )
            &&& n.failure == s.failure
            &&& n.cleanup_errors == s.cleanup_errors
        }),
{
}

/// After a failure, removing the workspace ends the run with exit code 1 and
/// the failure reported first, then a failed removal.
pub proof fn law_failed_run_finishes(s: SessionModel, m: Seq<char>, fresh: Draw)
    requires
        wf(s),
        s.phase == Phase::RemoveWorkspace,
        s.failure is Some,
    ensures
        action_of(next(s, EventModel::WorkspaceRemoved(Ok(())), fresh)) == (ActionModel::Finish {
            code: 1,
            diagnostics: seq![diagnostic_of(s.failure->0)],
        }),
        action_of(next(s, EventModel::WorkspaceRemoved(Err(m)), fresh)) == (ActionModel::Finish {
            code: 1,
            diagnostics: seq![
                diagnostic_of(s.failure->0),
                diagnostic_of(ErrorModel::RemoveWorkspace { path: s.workspace, source: m }),
            ],
        }),
{
    let f1 = next(s, EventModel::WorkspaceRemoved(Ok(())), fresh);
    let f2 = next(s, EventModel::WorkspaceRemoved(Err(m)), fresh);
    assert(diagnostics_of(f1) =~= seq![diagnostic_of(s.failure->0)]);
    assert(diagnostics_of(f2) =~= seq![
        diagnostic_of(s.failure->0),
        diagnostic_of(ErrorModel::RemoveWorkspace { path: s.workspace, source: m }),
    ]);
}

/// The exit code is the command's exit code modulo 256: a negative code
/// wraps around, and codes that differ by 256 give the same exit code.
pub proof fn law_exit_code_wraps(c: i32)
    ensures
        -256 <= c < 0 ==> exit_code_of(Some(c)) == c + 256,
        c <= i32::MAX - 256 ==> exit_code_of(Some((c + 256) as i32)) == exit_code_of(Some(c)),
{
    if -256 <= c < 0 {
        assert(-256 <= c < 0 ==> (c as u8) as int == c + 256) by (bit_vector);
    }
    if c <= i32::MAX - 256 {
        assert(c <= 0x7fff_feffi32 ==> ((c + 256) as i32) as u8 == c as u8) by (bit_vector);
    }
}

/// A session on a command line starts by asking for the working directory,
/// with nothing failed or published.
pub proof fn law_start(command: Seq<Seq<u8>>, storage_root: Seq<u8>)
    requires
        command.len() > 0,
    ensures
        action_of(initial(command, storage_root)) == ActionModel::QueryCurrentDir,
        initial(command, storage_root).failure is None,
        initial(command, storage_root).published.len() == 0,
        initial(command, storage_root).command == command,
{
}

/// When the working directory cannot be queried again to anchor the program,
/// the run fails and the workspace is removed.
pub proof fn law_anchor_directory_unknown(s: SessionModel, m: Seq<char>, fresh: Draw)
    requires
        wf(s),
        s.phase == Phase::ResolveProgram,
    ensures
        ({
            let n = next(s, EventModel::CurrentDir(Err(m)), fresh);
            &&& n.failure == Some(ErrorModel::CurrentDirectory { source: m })
            &&& action_of(n) == ActionModel::RemoveWorkspace(s.workspace)
        }),
{
}

/// The kind of event that each phase waits for.
pub open spec fn awaited(p: Phase, e: EventModel) -> bool {
    match p {
        Phase::AwaitCwd | Phase::ResolveProgram => e is CurrentDir,
        Phase::Announce => e is Announced,
        Phase::CreateWorkspace => e is WorkspaceCreated,
        Phase::Spawn => e is ChildExited || e is SpawnFailed,
        Phase::OpenWorkspace => e is WorkspaceOpened,
        Phase::NextEntry => e is Entry,
        Phase::Link => e is SymlinkCreated,
        Phase::Inspect(_) => e is LinkRead,
        Phase::Unlink(_) => e is SymlinkRemoved,
        Phase::RemoveWorkspace => e is WorkspaceRemoved,
        Phase::Finished => false,
    }
}

/// An event that the session does not wait for changes nothing, and an event
/// it waits for always moves it on to another phase.
pub proof fn law_only_awaited_events_count(s: SessionModel, e: EventModel, fresh: Draw)
    requires
        wf(s),
        s.published.len() <= usize::MAX,
    ensures
        !awaited(s.phase, e) ==> next(s, e, fresh) == s,
        awaited(s.phase, e) ==> next(s, e, fresh).phase != s.phase,
{
}

} // verus!
