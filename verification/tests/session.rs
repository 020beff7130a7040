use buas::session::{exit_code, Action, Event, Phase, Session};

const ROOT: &[u8] = b"/dev/shm/buas";
const ID: &[u8] = b"67e55044-10b1-426f-9247-bb680e5fe0c8";
const WS: &[u8] = b"/dev/shm/buas/67e55044-10b1-426f-9247-bb680e5fe0c8";

fn cmd(words: &[&str]) -> Vec<Vec<u8>> {
    words.iter().map(|w| w.as_bytes().to_vec()).collect()
}

fn cat(a: &[u8], b: &str) -> Vec<u8> {
    let mut v = a.to_vec();
    v.extend_from_slice(b.as_bytes());
    v
}

/// A session for `words`, in `/p`, that has run its command with exit code 0
/// and opened the workspace listing.
fn listing(words: &[&str]) -> Session {
    let mut s = Session::new(cmd(words), ROOT.to_vec());
    s.step_with_draw(Event::CurrentDir(Ok(b"/p".to_vec())), Ok(ID.to_vec()));
    s.step(Event::Announced);
    s.step(Event::WorkspaceCreated(Ok(())));
    s.step(Event::ChildExited(Some(0)));
    s.step(Event::WorkspaceOpened(Ok(())));
    s
}

fn publish(s: &mut Session, name: &str) {
    s.step(Event::Entry(Ok(Some(name.as_bytes().to_vec()))));
    assert_eq!(
        s.action(),
        Action::CreateSymlink { target: cat(WS, &format!("/{name}")), link: cat(b"/p/", name) }
    );
    s.step(Event::SymlinkCreated(Ok(())));
}

fn finish(code: u8, diagnostics: &[&str]) -> Action {
    Action::Finish { code, diagnostics: diagnostics.iter().map(|d| d.to_string()).collect() }
}

#[test]
fn successful_run_publishes_every_entry_and_keeps_workspace() {
    let mut s = Session::new(cmd(&["uv", "sync"]), ROOT.to_vec());
    assert_eq!(s.action(), Action::QueryCurrentDir);
    s.step_with_draw(Event::CurrentDir(Ok(b"/p".to_vec())), Ok(ID.to_vec()));
    assert_eq!(s.action(), Action::Announce(ID.to_vec()));
    s.step(Event::Announced);
    assert_eq!(s.action(), Action::CreateWorkspace(WS.to_vec()));
    s.step(Event::WorkspaceCreated(Ok(())));
    assert_eq!(
        s.action(),
        Action::Spawn { program: b"uv".to_vec(), args: cmd(&["sync"]), dir: WS.to_vec() }
    );
    s.step(Event::ChildExited(Some(0)));
    assert_eq!(s.action(), Action::OpenWorkspace(WS.to_vec()));
    s.step(Event::WorkspaceOpened(Ok(())));
    assert_eq!(s.action(), Action::NextEntry);
    publish(&mut s, ".venv");
    publish(&mut s, "large.bin");
    assert_eq!(s.action(), Action::NextEntry);
    s.step(Event::Entry(Ok(None)));
    assert_eq!(s.phase(), Phase::Finished);
    assert_eq!(s.action(), finish(0, &[]));
}

#[test]
fn relative_program_is_spawned_by_its_path_from_the_caller() {
    let mut s = Session::new(cmd(&["tests/fixtures/gen.sh", "dataset", "10"]), ROOT.to_vec());
    s.step_with_draw(Event::CurrentDir(Ok(b"/p".to_vec())), Ok(ID.to_vec()));
    s.step(Event::Announced);
    s.step(Event::WorkspaceCreated(Ok(())));
    // the working directory is queried again to anchor the path
    assert_eq!(s.action(), Action::QueryCurrentDir);
    s.step(Event::CurrentDir(Ok(b"/p".to_vec())));
    assert_eq!(
        s.action(),
        Action::Spawn {
            program: b"/p/tests/fixtures/gen.sh".to_vec(),
            args: cmd(&["dataset", "10"]),
            dir: WS.to_vec()
        }
    );
}

#[test]
fn failed_command_removes_workspace_and_passes_exit_code_on() {
    let mut s = Session::new(cmd(&["false"]), ROOT.to_vec());
    s.step_with_draw(Event::CurrentDir(Ok(b"/p".to_vec())), Ok(ID.to_vec()));
    s.step(Event::Announced);
    s.step(Event::WorkspaceCreated(Ok(())));
    s.step(Event::ChildExited(Some(3)));
    assert_eq!(s.action(), Action::RemoveWorkspace(WS.to_vec()));
    s.step(Event::WorkspaceRemoved(Ok(())));
    assert_eq!(s.action(), finish(3, &[]));
}

#[test]
fn failed_workspace_removal_is_reported_besides_the_exit_code() {
    let mut s = Session::new(cmd(&["false"]), ROOT.to_vec());
    s.step_with_draw(Event::CurrentDir(Ok(b"/p".to_vec())), Ok(ID.to_vec()));
    s.step(Event::Announced);
    s.step(Event::WorkspaceCreated(Ok(())));
    s.step(Event::ChildExited(Some(1)));
    s.step(Event::WorkspaceRemoved(Err("busy".to_string())));
    let expected = format!("buas: DRAM workspace {} を削除できません: busy", String::from_utf8_lossy(WS));
    assert_eq!(s.action(), finish(1, &[&expected]));
}

#[test]
fn command_ended_by_signal_exits_with_one() {
    let mut s = Session::new(cmd(&["sleep", "9"]), ROOT.to_vec());
    s.step_with_draw(Event::CurrentDir(Ok(b"/p".to_vec())), Ok(ID.to_vec()));
    s.step(Event::Announced);
    s.step(Event::WorkspaceCreated(Ok(())));
    s.step(Event::ChildExited(None));
    assert_eq!(s.action(), Action::RemoveWorkspace(WS.to_vec()));
    s.step(Event::WorkspaceRemoved(Ok(())));
    assert_eq!(s.action(), finish(1, &[]));
}

#[test]
fn spawn_failure_cleans_workspace_and_reports() {
    let mut s = Session::new(cmd(&["./nosuch"]), ROOT.to_vec());
    s.step_with_draw(Event::CurrentDir(Ok(b"/p".to_vec())), Ok(ID.to_vec()));
    s.step(Event::Announced);
    s.step(Event::WorkspaceCreated(Ok(())));
    s.step(Event::CurrentDir(Ok(b"/p".to_vec())));
    s.step(Event::SpawnFailed("No such file or directory (os error 2)".to_string()));
    assert_eq!(s.action(), Action::RemoveWorkspace(WS.to_vec()));
    s.step(Event::WorkspaceRemoved(Ok(())));
    assert_eq!(
        s.action(),
        finish(1, &["buas: コマンド /p/./nosuch を起動できません: No such file or directory (os error 2)"])
    );
}

#[test]
fn workspace_creation_failure_ends_the_run() {
    let mut s = Session::new(cmd(&["uv"]), ROOT.to_vec());
    s.step_with_draw(Event::CurrentDir(Ok(b"/p".to_vec())), Ok(ID.to_vec()));
    s.step(Event::Announced);
    s.step(Event::WorkspaceCreated(Err("No space left on device (os error 28)".to_string())));
    let expected = format!(
        "buas: DRAM workspace {} を作成できません: No space left on device (os error 28)",
        String::from_utf8_lossy(WS)
    );
    assert_eq!(s.action(), finish(1, &[&expected]));
}

#[test]
fn unknown_working_directory_ends_the_run() {
    let mut s = Session::new(cmd(&["uv"]), ROOT.to_vec());
    s.step(Event::CurrentDir(Err("gone".to_string())));
    assert_eq!(s.action(), finish(1, &["buas: 現在の作業ディレクトリを取得できません: gone"]));
    assert_eq!(s.generation_id(), b"");
}

#[test]
fn missing_command_is_reported() {
    let s = Session::new(Vec::new(), ROOT.to_vec());
    assert_eq!(s.phase(), Phase::Finished);
    assert_eq!(s.action(), finish(1, &["buas: コマンドが指定されていません"]));
}

#[test]
fn publish_failure_rolls_back_only_own_symlinks_then_removes_workspace() {
    let mut s = listing(&["uv", "sync"]);
    publish(&mut s, "a");
    publish(&mut s, "b");
    s.step(Event::Entry(Ok(Some(b"c".to_vec()))));
    s.step(Event::SymlinkCreated(Err("File exists (os error 17)".to_string())));
    assert_eq!(s.action(), Action::ReadLink(b"/p/a".to_vec()));
    s.step(Event::LinkRead(Some(cat(WS, "/a"))));
    assert_eq!(s.action(), Action::RemoveSymlink(b"/p/a".to_vec()));
    s.step(Event::SymlinkRemoved(Ok(())));
    assert_eq!(s.action(), Action::ReadLink(b"/p/b".to_vec()));
    // replaced by someone else since: left alone
    s.step(Event::LinkRead(Some(b"/elsewhere/b".to_vec())));
    assert_eq!(s.action(), Action::RemoveWorkspace(WS.to_vec()));
    s.step(Event::WorkspaceRemoved(Ok(())));
    let expected = format!(
        "buas: {}/c を /p/c として公開できません: File exists (os error 17)",
        String::from_utf8_lossy(WS)
    );
    assert_eq!(s.action(), finish(1, &[&expected]));
}

#[test]
fn entry_that_is_no_longer_a_symlink_is_not_removed() {
    let mut s = listing(&["uv"]);
    publish(&mut s, "a");
    s.step(Event::Entry(Err("Input/output error (os error 5)".to_string())));
    assert_eq!(s.action(), Action::ReadLink(b"/p/a".to_vec()));
    s.step(Event::LinkRead(None));
    assert_eq!(s.action(), Action::RemoveWorkspace(WS.to_vec()));
}

#[test]
fn failed_symlink_removal_ends_rollback_and_keeps_workspace_and_original_error() {
    let mut s = listing(&["uv"]);
    publish(&mut s, "a");
    publish(&mut s, "b");
    s.step(Event::Entry(Err("Input/output error (os error 5)".to_string())));
    s.step(Event::LinkRead(Some(cat(WS, "/a"))));
    assert_eq!(s.action(), Action::RemoveSymlink(b"/p/a".to_vec()));
    s.step(Event::SymlinkRemoved(Err("Permission denied (os error 13)".to_string())));
    // no further symlink is read or removed, and the workspace stays
    let first = format!(
        "buas: workspace {} を読み取れません: Input/output error (os error 5)",
        String::from_utf8_lossy(WS)
    );
    assert_eq!(s.phase(), Phase::Finished);
    assert_eq!(
        s.action(),
        finish(1, &[&first, "buas: symlink /p/a を削除できません: Permission denied (os error 13)"])
    );
}

#[test]
fn failed_generation_draw_ends_the_run() {
    let mut s = Session::new(cmd(&["uv"]), ROOT.to_vec());
    s.step_with_draw(Event::CurrentDir(Ok(b"/p".to_vec())), Err("entropy unavailable".to_string()));
    assert_eq!(s.action(), finish(1, &["buas: generation の ID を生成できません: entropy unavailable"]));
}

#[test]
fn failed_second_directory_query_cleans_workspace() {
    let mut s = Session::new(cmd(&["bin/build", "x"]), ROOT.to_vec());
    s.step_with_draw(Event::CurrentDir(Ok(b"/p".to_vec())), Ok(ID.to_vec()));
    s.step(Event::Announced);
    s.step(Event::WorkspaceCreated(Ok(())));
    assert_eq!(s.action(), Action::QueryCurrentDir);
    s.step(Event::CurrentDir(Err("gone".to_string())));
    assert_eq!(s.action(), Action::RemoveWorkspace(WS.to_vec()));
    s.step(Event::WorkspaceRemoved(Ok(())));
    assert_eq!(s.action(), finish(1, &["buas: 現在の作業ディレクトリを取得できません: gone"]));
}

#[test]
fn bare_and_absolute_programs_need_no_second_query() {
    for program in ["uv", "/usr/bin/uv"] {
        let mut s = Session::new(cmd(&[program]), ROOT.to_vec());
        s.step_with_draw(Event::CurrentDir(Ok(b"/p".to_vec())), Ok(ID.to_vec()));
        s.step(Event::Announced);
        s.step(Event::WorkspaceCreated(Ok(())));
        assert_eq!(
            s.action(),
            Action::Spawn { program: program.as_bytes().to_vec(), args: Vec::new(), dir: WS.to_vec() }
        );
    }
}

#[test]
fn unreadable_workspace_with_nothing_published_removes_workspace() {
    let mut s = Session::new(cmd(&["uv"]), ROOT.to_vec());
    s.step_with_draw(Event::CurrentDir(Ok(b"/p".to_vec())), Ok(ID.to_vec()));
    s.step(Event::Announced);
    s.step(Event::WorkspaceCreated(Ok(())));
    s.step(Event::ChildExited(Some(0)));
    s.step(Event::WorkspaceOpened(Err("denied".to_string())));
    assert_eq!(s.action(), Action::RemoveWorkspace(WS.to_vec()));
}

#[test]
fn unexpected_event_changes_nothing() {
    let mut s = Session::new(cmd(&["uv"]), ROOT.to_vec());
    s.step(Event::Announced);
    s.step(Event::ChildExited(Some(0)));
    assert_eq!(s.action(), Action::QueryCurrentDir);
    assert_eq!(s.phase(), Phase::AwaitCwd);
}

#[test]
fn finished_session_stays_finished() {
    let mut s = Session::new(Vec::new(), ROOT.to_vec());
    s.step(Event::CurrentDir(Ok(b"/p".to_vec())));
    assert_eq!(s.action(), finish(1, &["buas: コマンドが指定されていません"]));
}

fn is_uuid_text(id: &[u8]) -> bool {
    id.len() == 36
        && id.iter().enumerate().all(|(i, b)| {
            if [8, 13, 18, 23].contains(&i) {
                *b == b'-'
            } else {
                b.is_ascii_digit() || (b'a'..=b'f').contains(b)
            }
        })
        && id[14] == b'4'
        && [b'8', b'9', b'a', b'b'].contains(&id[19])
}

#[test]
fn generation_is_a_fresh_random_uuid_below_the_storage_root() {
    let mut a = Session::new(cmd(&["uv"]), ROOT.to_vec());
    let mut b = Session::new(cmd(&["uv"]), ROOT.to_vec());
    a.step(Event::CurrentDir(Ok(b"/p".to_vec())));
    b.step(Event::CurrentDir(Ok(b"/p".to_vec())));
    let id = a.generation_id().to_vec();
    assert!(is_uuid_text(&id), "{:?}", String::from_utf8_lossy(&id));
    assert_ne!(id, b.generation_id().to_vec());
    assert_eq!(a.workspace(), cat(ROOT, &format!("/{}", String::from_utf8_lossy(&id))).as_slice());
    assert_eq!(a.action(), Action::Announce(id.clone()));
    // later steps keep the generation
    a.step(Event::Announced);
    assert_eq!(a.generation_id(), id.as_slice());
}

#[test]
fn exit_codes() {
    assert_eq!(exit_code(Some(0)), 0);
    assert_eq!(exit_code(Some(42)), 42);
    assert_eq!(exit_code(Some(255)), 255);
    assert_eq!(exit_code(Some(256)), 0);
    assert_eq!(exit_code(Some(-1)), 255);
    assert_eq!(exit_code(None), 1);
}
