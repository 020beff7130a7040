use buas::error::BuasError;

fn s(x: &str) -> String {
    x.to_string()
}

#[test]
fn missing_command_message() {
    assert_eq!(BuasError::MissingCommand.message(), "コマンドが指定されていません");
    assert_eq!(BuasError::MissingCommand.diagnostic(), "buas: コマンドが指定されていません");
}

#[test]
fn create_workspace_message() {
    let e = BuasError::CreateWorkspace { path: b"/dev/shm/buas/g".to_vec(), source: s("Permission denied (os error 13)") };
    assert_eq!(e.message(), "DRAM workspace /dev/shm/buas/g を作成できません: Permission denied (os error 13)");
}

#[test]
fn spawn_command_message() {
    let e = BuasError::SpawnCommand { program: b"nosuch".to_vec(), source: s("No such file or directory (os error 2)") };
    assert_eq!(e.message(), "コマンド nosuch を起動できません: No such file or directory (os error 2)");
}

#[test]
fn read_workspace_message() {
    let e = BuasError::ReadWorkspace { path: b"/w".to_vec(), source: s("boom") };
    assert_eq!(e.message(), "workspace /w を読み取れません: boom");
}

#[test]
fn remove_workspace_message() {
    let e = BuasError::RemoveWorkspace { path: b"/w".to_vec(), source: s("busy") };
    assert_eq!(e.message(), "DRAM workspace /w を削除できません: busy");
}

#[test]
fn remove_symlink_message() {
    let e = BuasError::RemoveSymlink { path: b"/p/.venv".to_vec(), source: s("denied") };
    assert_eq!(e.message(), "symlink /p/.venv を削除できません: denied");
}

#[test]
fn publish_entry_message() {
    let e = BuasError::PublishEntry {
        source_dir: b"/w/.venv".to_vec(),
        destination_dir: b"/p/.venv".to_vec(),
        error: s("File exists (os error 17)"),
    };
    assert_eq!(e.message(), "/w/.venv を /p/.venv として公開できません: File exists (os error 17)");
    assert_eq!(e.diagnostic(), "buas: /w/.venv を /p/.venv として公開できません: File exists (os error 17)");
}

#[test]
fn current_directory_message() {
    let e = BuasError::CurrentDirectory { source: s("gone") };
    assert_eq!(e.message(), "現在の作業ディレクトリを取得できません: gone");
}

#[test]
fn invalid_utf8_path_is_shown_with_replacement_character() {
    let e = BuasError::RemoveSymlink { path: vec![b'/', b'a', 0xff, b'b'], source: s("x") };
    assert_eq!(e.message(), "symlink /a\u{fffd}b を削除できません: x");
}

#[test]
fn utf8_path_is_shown_unchanged() {
    let e = BuasError::ReadWorkspace { path: "/作業".as_bytes().to_vec(), source: s("x") };
    assert_eq!(e.message(), "workspace /作業 を読み取れません: x");
}

#[test]
fn generation_id_message() {
    let e = BuasError::GenerationId { source: s("unavailable") };
    assert_eq!(e.diagnostic(), "buas: generation の ID を生成できません: unavailable");
}
