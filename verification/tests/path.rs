use buas::path::{bytes_eq, has_sep, is_absolute, join, resolve_program};
use buas::generation::workspace_dir;

#[test]
fn join_appends_with_one_separator() {
    assert_eq!(join(b"/home/u/project", b"large.bin"), b"/home/u/project/large.bin".to_vec());
    assert_eq!(join(b"/home/u/project/", b"large.bin"), b"/home/u/project/large.bin".to_vec());
}

#[test]
fn join_with_absolute_tail_replaces_base() {
    assert_eq!(join(b"/home/u", b"/usr/bin/dd"), b"/usr/bin/dd".to_vec());
}

#[test]
fn join_onto_empty_base_adds_no_separator() {
    assert_eq!(join(b"", b"x"), b"x".to_vec());
}

#[test]
fn absolute_and_separator_checks() {
    assert!(is_absolute(b"/bin/sh"));
    assert!(!is_absolute(b"bin/sh"));
    assert!(!is_absolute(b""));
    assert!(has_sep(b"./gen.sh"));
    assert!(!has_sep(b"uv"));
}

#[test]
fn bare_program_name_is_kept() {
    assert_eq!(resolve_program(b"uv", b"/home/u/project"), b"uv".to_vec());
}

#[test]
fn absolute_program_is_kept() {
    assert_eq!(resolve_program(b"/usr/bin/dd", b"/home/u/project"), b"/usr/bin/dd".to_vec());
}

#[test]
fn relative_program_path_is_anchored_at_caller_directory() {
    assert_eq!(
        resolve_program(b"tests/fixtures/generate_dummy_files.sh", b"/home/u/project"),
        b"/home/u/project/tests/fixtures/generate_dummy_files.sh".to_vec()
    );
    assert_eq!(resolve_program(b"./build.sh", b"/p"), b"/p/./build.sh".to_vec());
}

#[test]
fn byte_equality() {
    assert!(bytes_eq(b"abc", b"abc"));
    assert!(!bytes_eq(b"abc", b"abd"));
    assert!(!bytes_eq(b"abc", b"ab"));
}

#[test]
fn workspace_is_generation_below_storage_root() {
    let id = b"67e55044-10b1-426f-9247-bb680e5fe0c8";
    assert_eq!(
        workspace_dir(b"/dev/shm/buas", id),
        b"/dev/shm/buas/67e55044-10b1-426f-9247-bb680e5fe0c8".to_vec()
    );
}
