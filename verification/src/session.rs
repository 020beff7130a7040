//! One run of `buas` as a state machine.
//!
//! A [`Session`] decides; its driver does the outside work. The driver asks
//! for the pending [`Action`], performs it (query the working directory,
//! create the workspace, run the command, list the workspace, create, read or
//! remove a symlink, remove the workspace) and hands the outcome back as an
//! [`Event`], until the action is [`Action::Finish`], which carries the exit
//! code and the diagnostics to print.
//!
//! The run follows the command-line contract of `buas`:
//! - a generation is named by a fresh random UUID and worked in below the
//!   DRAM storage root; its name is announced on standard output; when the
//!   random source fails, the run ends with that failure;
//! - the command runs with the workspace as its working directory; a relative
//!   program path that holds a `/` is first anchored at the working
//!   directory, queried again once the workspace exists;
//! - only when it exits with code 0 are the workspace's top-level entries
//!   published, each as a symlink in the caller's directory;
//! - when running or publishing fails, what this run created is cleaned up:
//!   first the symlinks it made, in order, each only after checking that it
//!   still points at the entry in this generation, then the workspace; the
//!   first symlink that cannot be removed ends the cleanup, leaving the later
//!   symlinks and the workspace as they are; a failed cleanup is reported in
//!   addition to the error that caused it, which stays the main error;
//! - the command's exit code becomes the exit code of `buas` (the low eight
//!   bits; 1 when it was killed by a signal), and a failure of `buas` itself
//!   exits with 1, its diagnostics prefixed with `buas: `.

use vstd::prelude::*;
use crate::path::{joined, resolved_program, spec_is_absolute, spec_has_sep, is_absolute, has_sep, copy_bytes, join, resolve_program, bytes_eq};
use crate::error::{BuasError, ErrorModel, diagnostic_of};
use crate::generation::{workspace_of, workspace_dir, draw_generation_id, is_random_uuid_text};

verus! {

/// Where a session stands: which outcome it waits for.
#[derive(Clone, Copy, PartialEq, Eq, Structural, Debug)]
pub enum Phase {
    /// Waiting for the caller's working directory.
    AwaitCwd,
    /// Waiting for the generation's name to be announced.
    Announce,
    /// Waiting for the workspace to be created.
    CreateWorkspace,
    /// Waiting for the working directory again, to anchor a relative program
    /// path at it.
    ResolveProgram,
    /// Waiting for the command to run.
    Spawn,
    /// Waiting for the workspace listing to open.
    OpenWorkspace,
    /// Waiting for the next entry of the listing.
    NextEntry,
    /// Waiting for the pending entry's symlink to be created.
    Link,
    /// Rolling back: waiting for the target of the given published symlink.
    Inspect(usize),
    /// Rolling back: waiting for the given published symlink to be removed.
    Unlink(usize),
    /// Waiting for the workspace to be removed.
    RemoveWorkspace,
    /// Done.
    Finished,
}

/// An outcome of outside work, handed back to the session.
#[derive(Debug, PartialEq, Eq)]
pub enum Event {
    /// The caller's working directory, or why it could not be determined.
    CurrentDir(Result<Vec<u8>, String>),
    /// The generation's name was announced.
    Announced,
    /// The workspace was created, or why not.
    WorkspaceCreated(Result<(), String>),
    /// The command ran and exited: its exit code, `None` when a signal ended it.
    ChildExited(Option<i32>),
    /// The command could not be started: the operating system's report.
    SpawnFailed(String),
    /// The workspace listing opened, or why not.
    WorkspaceOpened(Result<(), String>),
    /// The next entry's file name, `None` at the end, or why it could not be read.
    Entry(Result<Option<Vec<u8>>, String>),
    /// The symlink was created, or why not.
    SymlinkCreated(Result<(), String>),
    /// What the symlink points at; `None` when it is no longer a readable symlink.
    LinkRead(Option<Vec<u8>>),
    /// The symlink was removed, or why not.
    SymlinkRemoved(Result<(), String>),
    /// The workspace was removed, or why not.
    WorkspaceRemoved(Result<(), String>),
}

/// Outside work that a session asks for.
#[derive(Debug, Clone, PartialEq, Eq)]
pub enum Action {
    /// Determine the current working directory.
    QueryCurrentDir,
    /// Print this line (the generation's name) on standard output.
    Announce(Vec<u8>),
    /// Create this directory, with its missing parents.
    CreateWorkspace(Vec<u8>),
    /// Run `program` with `args`, in the directory `dir`, and wait for it.
    Spawn { program: Vec<u8>, args: Vec<Vec<u8>>, dir: Vec<u8> },
    /// Start listing this directory.
    OpenWorkspace(Vec<u8>),
    /// Read the next entry of the listing.
    NextEntry,
    /// Create a symlink at `link` that points at `target`.
    CreateSymlink { target: Vec<u8>, link: Vec<u8> },
    /// Read what the symlink at this path points at.
    ReadLink(Vec<u8>),
    /// Remove the symlink at this path.
    RemoveSymlink(Vec<u8>),
    /// Remove this directory with all it holds.
    RemoveWorkspace(Vec<u8>),
    /// Print `diagnostics` on standard error, one per line, and exit with `code`.
    Finish { code: u8, diagnostics: Vec<String> },
}

/// The mathematical value of an [`Event`].
pub enum EventModel {
    CurrentDir(Result<Seq<u8>, Seq<char>>),
    Announced,
    WorkspaceCreated(Result<(), Seq<char>>),
    ChildExited(Option<i32>),
    SpawnFailed(Seq<char>),
    WorkspaceOpened(Result<(), Seq<char>>),
    Entry(Result<Option<Seq<u8>>, Seq<char>>),
    SymlinkCreated(Result<(), Seq<char>>),
    LinkRead(Option<Seq<u8>>),
    SymlinkRemoved(Result<(), Seq<char>>),
    WorkspaceRemoved(Result<(), Seq<char>>),
}

/// The mathematical value of an [`Action`].
pub enum ActionModel {
    QueryCurrentDir,
    Announce(Seq<u8>),
    CreateWorkspace(Seq<u8>),
    Spawn { program: Seq<u8>, args: Seq<Seq<u8>>, dir: Seq<u8> },
    OpenWorkspace(Seq<u8>),
    NextEntry,
    CreateSymlink { target: Seq<u8>, link: Seq<u8> },
    ReadLink(Seq<u8>),
    RemoveSymlink(Seq<u8>),
    RemoveWorkspace(Seq<u8>),
    Finish { code: u8, diagnostics: Seq<Seq<char>> },
}

/// The views of a list of byte strings.
pub open spec fn bytes_list(v: Seq<Vec<u8>>) -> Seq<Seq<u8>> {
    v.map_values(|b: Vec<u8>| b@)
}

/// A result that carries a reported failure, by its view.
pub open spec fn unit_result(r: Result<(), String>) -> Result<(), Seq<char>> {
    match r {
        Ok(()) => Ok(()),
        Err(m) => Err(m@),
    }
}

impl View for Event {
    type V = EventModel;

    open spec fn view(&self) -> EventModel {
        match self {
            Event::CurrentDir(r) => EventModel::CurrentDir(
                match r {
                    Ok(d) => Ok(d@),
                    Err(m) => Err(m@),
                },
            ),
            Event::Announced => EventModel::Announced,
            Event::WorkspaceCreated(r) => EventModel::WorkspaceCreated(unit_result(*r)),
            Event::ChildExited(c) => EventModel::ChildExited(*c),
            Event::SpawnFailed(m) => EventModel::SpawnFailed(m@),
            Event::WorkspaceOpened(r) => EventModel::WorkspaceOpened(unit_result(*r)),
            Event::Entry(r) => EventModel::Entry(
                match r {
                    Ok(Some(n)) => Ok(Some(n@)),
                    Ok(None) => Ok(None),
                    Err(m) => Err(m@),
                },
            ),
            Event::SymlinkCreated(r) => EventModel::SymlinkCreated(unit_result(*r)),
            Event::LinkRead(t) => EventModel::LinkRead(
                match t {
                    Some(t) => Some(t@),
                    None => None,
                },
            ),
            Event::SymlinkRemoved(r) => EventModel::SymlinkRemoved(unit_result(*r)),
            Event::WorkspaceRemoved(r) => EventModel::WorkspaceRemoved(unit_result(*r)),
        }
    }
}

impl View for Action {
    type V = ActionModel;

    open spec fn view(&self) -> ActionModel {
        match self {
            Action::QueryCurrentDir => ActionModel::QueryCurrentDir,
            Action::Announce(l) => ActionModel::Announce(l@),
            Action::CreateWorkspace(d) => ActionModel::CreateWorkspace(d@),
            Action::Spawn { program, args, dir } => ActionModel::Spawn {
                program: program@,
                args: bytes_list(args@),
                dir: dir@,
            },
            Action::OpenWorkspace(d) => ActionModel::OpenWorkspace(d@),
            Action::NextEntry => ActionModel::NextEntry,
            Action::CreateSymlink { target, link } => ActionModel::CreateSymlink {
                target: target@,
                link: link@,
            },
            Action::ReadLink(p) => ActionModel::ReadLink(p@),
            Action::RemoveSymlink(p) => ActionModel::RemoveSymlink(p@),
            Action::RemoveWorkspace(d) => ActionModel::RemoveWorkspace(d@),
            Action::Finish { code, diagnostics } => ActionModel::Finish {
                code: *code,
                diagnostics: diagnostics@.map_values(|d: String| d@),
            },
        }
    }
}

/// The mathematical value of a [`Session`].
#[verifier::ext_equal]
pub struct SessionModel {
    pub phase: Phase,
    /// The command line: the program, then its arguments.
    pub command: Seq<Seq<u8>>,
    /// The directory below which generations are made.
    pub storage_root: Seq<u8>,
    /// The caller's working directory, where entries are published.
    pub cwd: Seq<u8>,
    /// The generation's name.
    pub id: Seq<u8>,
    /// The generation's workspace.
    pub workspace: Seq<u8>,
    /// The program as it is spawned.
    pub program: Seq<u8>,
    /// The command's exit code once it exited; `None` before, or when a signal ended it.
    pub child_code: Option<i32>,
    /// The file name of the entry being published.
    pub pending: Seq<u8>,
    /// The file names whose symlinks this run created, in order.
    pub published: Seq<Seq<u8>>,
    /// The failure that ended the run.
    pub failure: Option<ErrorModel>,
    /// Failures while cleaning up after it.
    pub cleanup_errors: Seq<ErrorModel>,
}

/// Where the entry named `name` is published: in the caller's directory.
pub open spec fn link_path(s: SessionModel, name: Seq<u8>) -> Seq<u8> {
    joined(s.cwd, name)
}

/// The entry named `name` in this generation's workspace.
pub open spec fn target_path(s: SessionModel, name: Seq<u8>) -> Seq<u8> {
    joined(s.workspace, name)
}

/// The exit code for a command's exit status: its exit code cut to its low
/// eight bits (as `as u8` cuts it), and 1 when it did not exit with a code.
pub open spec fn exit_code_of(code: Option<i32>) -> u8 {
    match code {
        Some(c) => c as u8,
        None => 1,
    }
}

/// The exit code of a finished run.
pub open spec fn final_code(s: SessionModel) -> u8 {
    if s.failure is Some {
        1
    } else {
        exit_code_of(s.child_code)
    }
}

/// The diagnostics of a finished run: the failure that ended it, then each
/// failure of the cleanup after it.
pub open spec fn diagnostics_of(s: SessionModel) -> Seq<Seq<char>> {
    (match s.failure {
        Some(e) => seq![diagnostic_of(e)],
        None => Seq::empty(),
    }) + s.cleanup_errors.map_values(|e: ErrorModel| diagnostic_of(e))
}

/// The arguments on a command line: all but its first word.
pub open spec fn arguments_of(command: Seq<Seq<u8>>) -> Seq<Seq<u8>> {
    if command.len() > 0 {
        command.drop_first()
    } else {
        Seq::empty()
    }
}

/// What the session asks for next.
pub open spec fn action_of(s: SessionModel) -> ActionModel {
    match s.phase {
        Phase::AwaitCwd => ActionModel::QueryCurrentDir,
        Phase::Announce => ActionModel::Announce(s.id),
        Phase::CreateWorkspace => ActionModel::CreateWorkspace(s.workspace),
        Phase::ResolveProgram => ActionModel::QueryCurrentDir,
        Phase::Spawn => ActionModel::Spawn {
            program: s.program,
            args: arguments_of(s.command),
            dir: s.workspace,
        },
        Phase::OpenWorkspace => ActionModel::OpenWorkspace(s.workspace),
        Phase::NextEntry => ActionModel::NextEntry,
        Phase::Link => ActionModel::CreateSymlink {
            target: target_path(s, s.pending),
            link: link_path(s, s.pending),
        },
        Phase::Inspect(i) => ActionModel::ReadLink(link_path(s, s.published[i as int])),
        Phase::Unlink(i) => ActionModel::RemoveSymlink(link_path(s, s.published[i as int])),
        Phase::RemoveWorkspace => ActionModel::RemoveWorkspace(s.workspace),
        Phase::Finished => ActionModel::Finish { code: final_code(s), diagnostics: diagnostics_of(s) },
    }
}

/// Rolling back from published symlink `start` on; past the last one, on to
/// the workspace.
pub open spec fn rollback_from(s: SessionModel, start: int) -> Phase {
    if start < s.published.len() && start <= usize::MAX {
        Phase::Inspect(start as usize)
    } else {
        Phase::RemoveWorkspace
    }
}

/// A program path that is relative yet names a directory (holds a `/`):
/// it is anchored at the working directory before it is spawned.
pub open spec fn needs_anchor(program: Seq<u8>) -> bool {
    !spec_is_absolute(program) && spec_has_sep(program)
}

/// `s` failed with `e`: recorded, and on to `phase`.
pub open spec fn failed(s: SessionModel, e: ErrorModel) -> SessionModel {
    SessionModel { failure: Some(e), ..s }
}

/// The session after `e` happened in `s`. A generation name is drawn as the
/// working directory becomes known; `fresh` is the outcome of that draw: the
/// name, or why none could be drawn. An event that the session does not wait
/// for leaves it as it is.
pub open spec fn next(s: SessionModel, e: EventModel, fresh: Result<Seq<u8>, Seq<char>>) -> SessionModel {
    match (s.phase, e) {
        (Phase::AwaitCwd, EventModel::CurrentDir(Ok(cwd))) => match fresh {
            Ok(id) => SessionModel {
                phase: Phase::Announce,
                cwd: cwd,
                id: id,
                workspace: workspace_of(s.storage_root, id),
                program: if s.command.len() > 0 {
                    s.command[0]
                } else {
                    Seq::empty()
                },
                ..s
            },
            Err(m) => SessionModel {
                phase: Phase::Finished,
                cwd: cwd,
                ..failed(s, ErrorModel::GenerationId { source: m })
            },
        },
        (Phase::AwaitCwd, EventModel::CurrentDir(Err(m))) => SessionModel {
            phase: Phase::Finished,
            ..failed(s, ErrorModel::CurrentDirectory { source: m })
        },
        (Phase::Announce, EventModel::Announced) => SessionModel {
            phase: Phase::CreateWorkspace,
            ..s
        },
        (Phase::CreateWorkspace, EventModel::WorkspaceCreated(Ok(()))) => SessionModel {
            phase: if needs_anchor(s.program) {
                Phase::ResolveProgram
            } else {
                Phase::Spawn
            },
            ..s
        },
        (Phase::ResolveProgram, EventModel::CurrentDir(Ok(dir))) => SessionModel {
            phase: Phase::Spawn,
            program: resolved_program(s.program, dir),
            ..s
        },
        (Phase::ResolveProgram, EventModel::CurrentDir(Err(m))) => SessionModel {
            phase: Phase::RemoveWorkspace,
            ..failed(s, ErrorModel::CurrentDirectory { source: m })
        },
        (Phase::CreateWorkspace, EventModel::WorkspaceCreated(Err(m))) => SessionModel {
            phase: Phase::Finished,
            ..failed(s, ErrorModel::CreateWorkspace { path: s.workspace, source: m })
        },
        (Phase::Spawn, EventModel::ChildExited(c)) => SessionModel {
            phase: if c == Some(0i32) {
                Phase::OpenWorkspace
            } else {
                Phase::RemoveWorkspace
            },
            child_code: c,
            ..s
        },
        (Phase::Spawn, EventModel::SpawnFailed(m)) => SessionModel {
            phase: Phase::RemoveWorkspace,
            ..failed(s, ErrorModel::SpawnCommand { program: s.program, source: m })
        },
        (Phase::OpenWorkspace, EventModel::WorkspaceOpened(Ok(()))) => SessionModel {
            phase: Phase::NextEntry,
            ..s
        },
        (Phase::OpenWorkspace, EventModel::WorkspaceOpened(Err(m))) => SessionModel {
            phase: rollback_from(s, 0),
            ..failed(s, ErrorModel::ReadWorkspace { path: s.workspace, source: m })
        },
        (Phase::NextEntry, EventModel::Entry(Ok(Some(name)))) => SessionModel {
            phase: Phase::Link,
            pending: name,
            ..s
        },
        (Phase::NextEntry, EventModel::Entry(Ok(None))) => SessionModel {
            phase: Phase::Finished,
            ..s
        },
        (Phase::NextEntry, EventModel::Entry(Err(m))) => SessionModel {
            phase: rollback_from(s, 0),
            ..failed(s, ErrorModel::ReadWorkspace { path: s.workspace, source: m })
        },
        (Phase::Link, EventModel::SymlinkCreated(Ok(()))) => SessionModel {
            phase: Phase::NextEntry,
            published: s.published.push(s.pending),
            ..s
        },
        (Phase::Link, EventModel::SymlinkCreated(Err(m))) => SessionModel {
            phase: rollback_from(s, 0),
            ..failed(
                s,
                ErrorModel::PublishEntry {
                    source_dir: target_path(s, s.pending),
                    destination_dir: link_path(s, s.pending),
                    error: m,
                },
            )
        },
        (Phase::Inspect(i), EventModel::LinkRead(t)) => SessionModel {
            phase: if t == Some(target_path(s, s.published[i as int])) {
                Phase::Unlink(i)
            } else {
                rollback_from(s, i + 1)
            },
            ..s
        },
        (Phase::Unlink(i), EventModel::SymlinkRemoved(Ok(()))) => SessionModel {
            phase: rollback_from(s, i + 1),
            ..s
        },
        (Phase::Unlink(i), EventModel::SymlinkRemoved(Err(m))) => SessionModel {
            phase: Phase::Finished,
            cleanup_errors: s.cleanup_errors.push(
                ErrorModel::RemoveSymlink { path: link_path(s, s.published[i as int]), source: m },
            ),
            ..s
        },
        (Phase::RemoveWorkspace, EventModel::WorkspaceRemoved(Ok(()))) => SessionModel {
            phase: Phase::Finished,
            ..s
        },
        (Phase::RemoveWorkspace, EventModel::WorkspaceRemoved(Err(m))) => SessionModel {
            phase: Phase::Finished,
            cleanup_errors: s.cleanup_errors.push(
                ErrorModel::RemoveWorkspace { path: s.workspace, source: m },
            ),
            ..s
        },
        _ => s,
    }
}

/// The outcome of a generation draw, by its view.
pub open spec fn draw_view(r: Result<Vec<u8>, String>) -> Result<Seq<u8>, Seq<char>> {
    match r {
        Ok(id) => Ok(id@),
        Err(m) => Err(m@),
    }
}

/// The outcome of the generation draw that a session `s` recorded: the
/// failure to draw, or its name.
pub open spec fn drawn(s: SessionModel) -> Result<Seq<u8>, Seq<char>> {
    match s.failure {
        Some(ErrorModel::GenerationId { source }) => Err(source),
        _ => Ok(s.id),
    }
}

/// Whether `e` in `s` is the event on which a fresh generation name is drawn.
pub open spec fn draws_generation(s: SessionModel, e: EventModel) -> bool {
    s.phase == Phase::AwaitCwd && e matches EventModel::CurrentDir(Ok(_))
}

/// The session when it starts on `command` with generations below `storage_root`.
pub open spec fn initial(command: Seq<Seq<u8>>, storage_root: Seq<u8>) -> SessionModel {
    SessionModel {
        phase: if command.len() == 0 {
            Phase::Finished
        } else {
            Phase::AwaitCwd
        },
        command: command,
        storage_root: storage_root,
        cwd: Seq::empty(),
        id: Seq::empty(),
        workspace: Seq::empty(),
        program: Seq::empty(),
        child_code: None,
        pending: Seq::empty(),
        published: Seq::empty(),
        failure: if command.len() == 0 {
            Some(ErrorModel::MissingCommand)
        } else {
            None
        },
        cleanup_errors: Seq::empty(),
    }
}

/// What every session reached from [`initial`] keeps.
pub open spec fn wf(s: SessionModel) -> bool {
    &&& (s.phase matches Phase::Inspect(i) ==> i < s.published.len())
    &&& (s.phase matches Phase::Unlink(i) ==> i < s.published.len())
    // before the command ran, nothing was published and nothing failed
    &&& (s.phase == Phase::AwaitCwd || s.phase == Phase::Announce || s.phase == Phase::CreateWorkspace
        || s.phase == Phase::ResolveProgram || s.phase == Phase::Spawn) ==> s.published.len() == 0
        && s.failure is None && s.cleanup_errors.len() == 0
    &&& s.phase == Phase::OpenWorkspace ==> s.published.len() == 0
    // nothing is published before the command has exited with code 0
    &&& (s.published.len() > 0 || s.phase == Phase::OpenWorkspace || s.phase == Phase::NextEntry
        || s.phase == Phase::Link) ==> s.child_code == Some(0i32)
    &&& (s.phase == Phase::OpenWorkspace || s.phase == Phase::NextEntry || s.phase == Phase::Link)
        ==> s.failure is None && s.cleanup_errors.len() == 0
    // rolling back and removing the workspace only follow a failure
    &&& (s.phase matches Phase::Inspect(_) || s.phase matches Phase::Unlink(_)) ==> s.failure is Some
        && s.cleanup_errors.len() == 0
    &&& s.phase == Phase::RemoveWorkspace ==> (s.failure is Some || s.child_code != Some(0i32))
    &&& s.phase == Phase::RemoveWorkspace ==> s.cleanup_errors.len() == 0
    // the failures of a cleanup only follow the failure or the command's failure
    &&& s.cleanup_errors.len() > 0 ==> (s.failure is Some || s.child_code != Some(0i32))
}

/// A session starts well-formed.
pub proof fn lemma_initial_wf(command: Seq<Seq<u8>>, storage_root: Seq<u8>)
    ensures
        wf(initial(command, storage_root)),
{
}

/// Every step keeps a session well-formed.
pub proof fn lemma_next_preserves_wf(s: SessionModel, e: EventModel, fresh: Result<Seq<u8>, Seq<char>>)
    requires
        wf(s),
    ensures
        wf(next(s, e, fresh)),
{
}

/// One run of `buas`; see the module documentation.
pub struct Session {
    phase: Phase,
    command: Vec<Vec<u8>>,
    storage_root: Vec<u8>,
    cwd: Vec<u8>,
    id: Vec<u8>,
    workspace: Vec<u8>,
    program: Vec<u8>,
    child_code: Option<i32>,
    pending: Vec<u8>,
    published: Vec<Vec<u8>>,
    failure: Option<BuasError>,
    cleanup_errors: Vec<BuasError>,
}

/// The views of a list of errors.
pub open spec fn error_list(v: Seq<BuasError>) -> Seq<ErrorModel> {
    v.map_values(|e: BuasError| e@)
}

impl View for Session {
    type V = SessionModel;

    closed spec fn view(&self) -> SessionModel {
        SessionModel {
            phase: self.phase,
            command: bytes_list(self.command@),
            storage_root: self.storage_root@,
            cwd: self.cwd@,
            id: self.id@,
            workspace: self.workspace@,
            program: self.program@,
            child_code: self.child_code,
            pending: self.pending@,
            published: bytes_list(self.published@),
            failure: match self.failure {
                Some(e) => Some(e@),
                None => None,
            },
            cleanup_errors: error_list(self.cleanup_errors@),
        }
    }
}

/// The exit code for a command's exit status; see [`exit_code_of`].
pub fn exit_code(code: Option<i32>) -> (r: u8)
    ensures
        r == exit_code_of(code),
{
    match code {
        Some(c) => {
            c as u8
        },
        None => 1,
    }
}

/// A copy of a list of byte strings from index `start` on.
fn copy_list_from(v: &Vec<Vec<u8>>, start: usize) -> (r: Vec<Vec<u8>>)
    requires
        start <= v.len(),
    ensures
        bytes_list(r@) == bytes_list(v@).subrange(start as int, v.len() as int),
{
    let mut r: Vec<Vec<u8>> = Vec::new();
    let mut i = start;
    while i < v.len()
        invariant
            start <= i <= v.len(),
            r@.len() == i - start,
            forall|j: int| 0 <= j < r@.len() ==> #[trigger] r@[j]@ == v@[start + j]@,
        decreases v.len() - i,
    {
        r.push(copy_bytes(v[i].as_slice()));
        i = i + 1;
    }
    assert(bytes_list(r@) =~= bytes_list(v@).subrange(start as int, v.len() as int));
    r
}

impl Session {
    /// A session for the command line `command` (the program, then its
    /// arguments), working below `storage_root`. Without a program it is
    /// finished at once with [`BuasError::MissingCommand`].
    pub fn new(command: Vec<Vec<u8>>, storage_root: Vec<u8>) -> (s: Session)
        ensures
            s@ == initial(bytes_list(command@), storage_root@),
    {
        let empty = command.len() == 0;
        let s = Session {
            phase: if empty {
                Phase::Finished
            } else {
                Phase::AwaitCwd
            },
            command,
            storage_root,
            cwd: Vec::new(),
            id: Vec::new(),
            workspace: Vec::new(),
            program: Vec::new(),
            child_code: None,
            pending: Vec::new(),
            published: Vec::new(),
            failure: if empty {
                Some(BuasError::MissingCommand)
            } else {
                None
            },
            cleanup_errors: Vec::new(),
        };
        assert(s@ =~= initial(bytes_list(s.command@), s.storage_root@));
        s
    }

    /// Where this session stands.
    pub fn phase(&self) -> (p: Phase)
        ensures
            p == self@.phase,
    {
        self.phase
    }

    /// The generation's name, once drawn.
    pub fn generation_id(&self) -> (r: &[u8])
        ensures
            r@ == self@.id,
    {
        self.id.as_slice()
    }

    /// The generation's workspace, once known.
    pub fn workspace(&self) -> (r: &[u8])
        ensures
            r@ == self@.workspace,
    {
        self.workspace.as_slice()
    }

    /// The exit code of this session were it finished now.
    fn code(&self) -> (r: u8)
        ensures
            r == final_code(self@),
    {
        if self.failure.is_some() {
            1
        } else {
            exit_code(self.child_code)
        }
    }

    /// The diagnostic lines of this session were it finished now.
    fn diagnostics(&self) -> (d: Vec<String>)
        ensures
            d@.map_values(|x: String| x@) == diagnostics_of(self@),
    {
        let mut d: Vec<String> = Vec::new();
        match &self.failure {
            Some(e) => d.push(e.diagnostic()),
            None => {},
        }
        let ghost head = d@.map_values(|x: String| x@);
        assert(head =~= (match self@.failure {
            Some(e) => seq![diagnostic_of(e)],
            None => Seq::empty(),
        }));
        let base = d.len();
        let mut i: usize = 0;
        while i < self.cleanup_errors.len()
            invariant
                base == head.len(),
                base <= 1,
                i <= self.cleanup_errors.len(),
                d@.len() == base + i,
                forall|j: int| 0 <= j < base ==> #[trigger] d@[j]@ == head[j],
                forall|j: int|
                    0 <= j < i ==> #[trigger] d@[base + j]@ == diagnostic_of(
                        self.cleanup_errors@[j]@,
                    ),
            decreases self.cleanup_errors.len() - i,
        {
            d.push(self.cleanup_errors[i].diagnostic());
            i = i + 1;
        }
        proof {
            let lhs = d@.map_values(|x: String| x@);
            let rhs = diagnostics_of(self@);
            let tail = self@.cleanup_errors.map_values(|e: ErrorModel| diagnostic_of(e));
            assert(rhs == head + tail);
            assert forall|j: int| 0 <= j < lhs.len() implies lhs[j] == rhs[j] by {
                if j < base {
                    assert(d@[j]@ == head[j]);
                } else {
                    assert(d@[base + (j - base)]@ == diagnostic_of(self.cleanup_errors@[j - base]@));
                }
            }
            assert(lhs =~= rhs);
        }
        d
    }

    /// The outside work that this session asks for next.
    pub fn action(&self) -> (a: Action)
        requires
            wf(self@),
        ensures
            a@ == action_of(self@),
    {
        match self.phase {
            Phase::AwaitCwd => Action::QueryCurrentDir,
            Phase::Announce => Action::Announce(copy_bytes(self.id.as_slice())),
            Phase::CreateWorkspace => Action::CreateWorkspace(copy_bytes(self.workspace.as_slice())),
            Phase::ResolveProgram => Action::QueryCurrentDir,
            Phase::Spawn => {
                let args = if self.command.len() > 0 {
                    copy_list_from(&self.command, 1)
                } else {
                    Vec::new()
                };
                proof {
                    if self.command.len() == 0 {
                        assert(bytes_list(args@) =~= arguments_of(self@.command));
                    } else {
                        assert(bytes_list(self.command@).subrange(1, self.command.len() as int)
                            =~= arguments_of(self@.command));
                    }
                }
                Action::Spawn {
                    program: copy_bytes(self.program.as_slice()),
                    args,
                    dir: copy_bytes(self.workspace.as_slice()),
                }
            },
            Phase::OpenWorkspace => Action::OpenWorkspace(copy_bytes(self.workspace.as_slice())),
            Phase::NextEntry => Action::NextEntry,
            Phase::Link => Action::CreateSymlink {
                target: join(self.workspace.as_slice(), self.pending.as_slice()),
                link: join(self.cwd.as_slice(), self.pending.as_slice()),
            },
            Phase::Inspect(i) => Action::ReadLink(
                join(self.cwd.as_slice(), self.published[i].as_slice()),
            ),
            Phase::Unlink(i) => Action::RemoveSymlink(
                join(self.cwd.as_slice(), self.published[i].as_slice()),
            ),
            Phase::RemoveWorkspace => Action::RemoveWorkspace(copy_bytes(self.workspace.as_slice())),
            Phase::Finished => Action::Finish { code: self.code(), diagnostics: self.diagnostics() },
        }
    }

    /// The phase that rolls back from published symlink `start` on.
    fn rollback_phase(&self, start: usize) -> (p: Phase)
        ensures
            p == rollback_from(self@, start as int),
    {
        if start < self.published.len() {
            Phase::Inspect(start)
        } else {
            Phase::RemoveWorkspace
        }
    }

    /// Takes in what happened. When the working directory becomes known, the
    /// generation's name is drawn here: a fresh random UUID.
    pub fn step(&mut self, event: Event)
        requires
            wf(old(self)@),
        ensures
            final(self)@ == next(old(self)@, event@, drawn(final(self)@)),
            draws_generation(old(self)@, event@) && final(self)@.failure is None
                ==> is_random_uuid_text(final(self)@.id),
            wf(final(self)@),
    {
        let draws = match &event {
            Event::CurrentDir(Ok(_)) => self.phase == Phase::AwaitCwd,
            _ => false,
        };
        let fresh = if draws {
            draw_generation_id()
        } else {
            Ok(copy_bytes(self.id.as_slice()))
        };
        self.step_with_draw(event, fresh);
    }

    /// Takes in what happened, with `fresh` as the outcome of the generation
    /// draw should one be made now (see [`draws_generation`]).
    pub fn step_with_draw(&mut self, event: Event, fresh: Result<Vec<u8>, String>)
        requires
            wf(old(self)@),
        ensures
            final(self)@ == next(old(self)@, event@, draw_view(fresh)),
            wf(final(self)@),
    {
        let ghost s0 = self@;
        let ghost e = event@;
        let ghost f = draw_view(fresh);
        match event {
            Event::CurrentDir(r) => {
                if self.phase == Phase::AwaitCwd {
                    match r {
                        Ok(cwd) => match fresh {
                            Ok(id) => {
                                let program = if self.command.len() > 0 {
                                    copy_bytes(self.command[0].as_slice())
                                } else {
                                    Vec::new()
                                };
                                self.workspace = workspace_dir(self.storage_root.as_slice(), id.as_slice());
                                self.program = program;
                                self.cwd = cwd;
                                self.id = id;
                                self.phase = Phase::Announce;
                            },
                            Err(m) => {
                                self.cwd = cwd;
                                self.failure = Some(BuasError::GenerationId { source: m });
                                self.phase = Phase::Finished;
                            },
                        },
                        Err(m) => {
                            self.failure = Some(BuasError::CurrentDirectory { source: m });
                            self.phase = Phase::Finished;
                        },
                    }
                } else if self.phase == Phase::ResolveProgram {
                    match r {
                        Ok(dir) => {
                            self.program = resolve_program(self.program.as_slice(), dir.as_slice());
                            self.phase = Phase::Spawn;
                        },
                        Err(m) => {
                            self.failure = Some(BuasError::CurrentDirectory { source: m });
                            self.phase = Phase::RemoveWorkspace;
                        },
                    }
                }
            },
            Event::Announced => {
                if self.phase == Phase::Announce {
                    self.phase = Phase::CreateWorkspace;
                }
            },
            Event::WorkspaceCreated(r) => {
                if self.phase == Phase::CreateWorkspace {
                    match r {
                        Ok(()) => {
                            self.phase = if !is_absolute(self.program.as_slice())
                                && has_sep(self.program.as_slice()) {
                                Phase::ResolveProgram
                            } else {
                                Phase::Spawn
                            };
                        },
                        Err(m) => {
                            let path = copy_bytes(self.workspace.as_slice());
                            self.failure = Some(BuasError::CreateWorkspace { path, source: m });
                            self.phase = Phase::Finished;
                        },
                    }
                }
            },
            Event::ChildExited(c) => {
                if self.phase == Phase::Spawn {
                    self.child_code = c;
                    self.phase = if c == Some(0i32) {
                        Phase::OpenWorkspace
                    } else {
                        Phase::RemoveWorkspace
                    };
                }
            },
            Event::SpawnFailed(m) => {
                if self.phase == Phase::Spawn {
                    let program = copy_bytes(self.program.as_slice());
                    self.failure = Some(BuasError::SpawnCommand { program, source: m });
                    self.phase = Phase::RemoveWorkspace;
                }
            },
            Event::WorkspaceOpened(r) => {
                if self.phase == Phase::OpenWorkspace {
                    match r {
                        Ok(()) => {
                            self.phase = Phase::NextEntry;
                        },
                        Err(m) => {
                            let path = copy_bytes(self.workspace.as_slice());
                            let p = self.rollback_phase(0);
                            self.failure = Some(BuasError::ReadWorkspace { path, source: m });
                            self.phase = p;
                        },
                    }
                }
            },
            Event::Entry(r) => {
                if self.phase == Phase::NextEntry {
                    match r {
                        Ok(Some(name)) => {
                            self.pending = name;
                            self.phase = Phase::Link;
                        },
                        Ok(None) => {
                            self.phase = Phase::Finished;
                        },
                        Err(m) => {
                            let path = copy_bytes(self.workspace.as_slice());
                            let p = self.rollback_phase(0);
                            self.failure = Some(BuasError::ReadWorkspace { path, source: m });
                            self.phase = p;
                        },
                    }
                }
            },
            Event::SymlinkCreated(r) => {
                if self.phase == Phase::Link {
                    match r {
                        Ok(()) => {
                            let name = copy_bytes(self.pending.as_slice());
                            self.published.push(name);
                            self.phase = Phase::NextEntry;
                        },
                        Err(m) => {
                            let source_dir = join(self.workspace.as_slice(), self.pending.as_slice());
                            let destination_dir = join(self.cwd.as_slice(), self.pending.as_slice());
                            let p = self.rollback_phase(0);
                            self.failure = Some(
                                BuasError::PublishEntry { source_dir, destination_dir, error: m },
                            );
                            self.phase = p;
                        },
                    }
                }
            },
            Event::LinkRead(t) => {
                match self.phase {
                    Phase::Inspect(i) => {
                        assert(i < self.published.len());
                        let target = join(self.workspace.as_slice(), self.published[i].as_slice());
                        let ours = match &t {
                            Some(t) => bytes_eq(t.as_slice(), target.as_slice()),
                            None => false,
                        };
                        if ours {
                            self.phase = Phase::Unlink(i);
                        } else {
                            self.phase = self.rollback_phase(i + 1);
                        }
                    },
                    _ => {},
                }
            },
            Event::SymlinkRemoved(r) => {
                match self.phase {
                    Phase::Unlink(i) => {
                        assert(i < self.published.len());
                        match r {
                            Ok(()) => {
                                self.phase = self.rollback_phase(i + 1);
                            },
                            Err(m) => {
                                let path = join(self.cwd.as_slice(), self.published[i].as_slice());
                                self.cleanup_errors.push(BuasError::RemoveSymlink { path, source: m });
                                self.phase = Phase::Finished;
                            },
                        }
                    },
                    _ => {},
                }
            },
            Event::WorkspaceRemoved(r) => {
                if self.phase == Phase::RemoveWorkspace {
                    match r {
                        Ok(()) => {
                            self.phase = Phase::Finished;
                        },
                        Err(m) => {
                            let path = copy_bytes(self.workspace.as_slice());
                            self.cleanup_errors.push(BuasError::RemoveWorkspace { path, source: m });
                            self.phase = Phase::Finished;
                        },
                    }
                }
            },
        }
        assert(self@ =~= next(s0, e, f));
        proof {
            lemma_next_preserves_wf(s0, e, f);
        }
    }
}

} // verus!
