//! Errors of `buas` itself, and the diagnostics that report them.
//!
//! Paths are held as the raw bytes of the file system; the operating
//! system's error reports are held as the text they display as.

use vstd::prelude::*;
use vstd::string::*;
use vstd::utf8::{valid_utf8, decode_utf8};

verus! {

/// A failure of `buas` itself, as opposed to a failure of the command it runs.
#[derive(Debug, Clone, PartialEq, Eq)]
pub enum BuasError {
    /// No command was given.
    MissingCommand,
    /// The DRAM workspace could not be created.
    CreateWorkspace { path: Vec<u8>, source: String },
    /// The command could not be started.
    SpawnCommand { program: Vec<u8>, source: String },
    /// The workspace could not be listed.
    ReadWorkspace { path: Vec<u8>, source: String },
    /// The DRAM workspace could not be removed.
    RemoveWorkspace { path: Vec<u8>, source: String },
    /// A published symlink could not be removed.
    RemoveSymlink { path: Vec<u8>, source: String },
    /// A workspace entry could not be published at its destination.
    PublishEntry { source_dir: Vec<u8>, destination_dir: Vec<u8>, error: String },
    /// The caller's working directory could not be determined.
    CurrentDirectory { source: String },
    /// No generation name could be drawn: the random source failed.
    GenerationId { source: String },
}

/// The mathematical value of a [`BuasError`].
pub enum ErrorModel {
    MissingCommand,
    CreateWorkspace { path: Seq<u8>, source: Seq<char> },
    SpawnCommand { program: Seq<u8>, source: Seq<char> },
    ReadWorkspace { path: Seq<u8>, source: Seq<char> },
    RemoveWorkspace { path: Seq<u8>, source: Seq<char> },
    RemoveSymlink { path: Seq<u8>, source: Seq<char> },
    PublishEntry { source_dir: Seq<u8>, destination_dir: Seq<u8>, error: Seq<char> },
    CurrentDirectory { source: Seq<char> },
    GenerationId { source: Seq<char> },
}

impl View for BuasError {
    type V = ErrorModel;

    open spec fn view(&self) -> ErrorModel {
        match self {
            BuasError::MissingCommand => ErrorModel::MissingCommand,
            BuasError::CreateWorkspace { path, source } => ErrorModel::CreateWorkspace {
                path: path@,
                source: source@,
            },
            BuasError::SpawnCommand { program, source } => ErrorModel::SpawnCommand {
                program: program@,
                source: source@,
            },
            BuasError::ReadWorkspace { path, source } => ErrorModel::ReadWorkspace {
                path: path@,
                source: source@,
            },
            BuasError::RemoveWorkspace { path, source } => ErrorModel::RemoveWorkspace {
                path: path@,
                source: source@,
            },
            BuasError::RemoveSymlink { path, source } => ErrorModel::RemoveSymlink {
                path: path@,
                source: source@,
            },
            BuasError::PublishEntry { source_dir, destination_dir, error } =>
                ErrorModel::PublishEntry {
                    source_dir: source_dir@,
                    destination_dir: destination_dir@,
                    error: error@,
                },
            BuasError::CurrentDirectory { source } => ErrorModel::CurrentDirectory {
                source: source@,
            },
            BuasError::GenerationId { source } => ErrorModel::GenerationId { source: source@ },
        }
    }
}

/// The text that a path's bytes display as: the bytes decoded as UTF-8, with
/// each invalid sequence shown as U+FFFD.
pub uninterp spec fn utf8_lossy(bytes: Seq<u8>) -> Seq<char>;

/// The text of `bytes` for a message.
///
/// Calls `String::from_utf8_lossy` (and takes the owned string out of the
/// returned `Cow`). Its result is named [`utf8_lossy`], a function of the
/// bytes alone; what std documents of it is stated too: bytes that are valid
/// UTF-8 come back decoded unchanged. How an invalid sequence is replaced is
/// left to the name.
#[verifier::external_body]
pub(crate) fn display_bytes(bytes: &[u8]) -> (s: String)
    ensures
        s@ == utf8_lossy(bytes@),
        valid_utf8(bytes@) ==> s@ == decode_utf8(bytes@),
{
    String::from_utf8_lossy(bytes).into_owned()
}

/// The message of an error, as `buas` reports it.
pub open spec fn message_of(e: ErrorModel) -> Seq<char> {
    match e {
        ErrorModel::MissingCommand => "コマンドが指定されていません"@,
        ErrorModel::CreateWorkspace { path, source } =>
            "DRAM workspace "@ + utf8_lossy(path) + " を作成できません: "@ + source,
        ErrorModel::SpawnCommand { program, source } =>
            "コマンド "@ + utf8_lossy(program) + " を起動できません: "@ + source,
        ErrorModel::ReadWorkspace { path, source } =>
            "workspace "@ + utf8_lossy(path) + " を読み取れません: "@ + source,
        ErrorModel::RemoveWorkspace { path, source } =>
            "DRAM workspace "@ + utf8_lossy(path) + " を削除できません: "@ + source,
        ErrorModel::RemoveSymlink { path, source } =>
            "symlink "@ + utf8_lossy(path) + " を削除できません: "@ + source,
        ErrorModel::PublishEntry { source_dir, destination_dir, error } =>
            utf8_lossy(source_dir) + " を "@ + utf8_lossy(destination_dir)
                + " として公開できません: "@ + error,
        ErrorModel::CurrentDirectory { source } =>
            "現在の作業ディレクトリを取得できません: "@ + source,
        ErrorModel::GenerationId { source } =>
            "generation の ID を生成できません: "@ + source,
    }
}

/// A diagnostic line of `buas` itself: its message behind the `buas: ` prefix,
/// which tells it apart from the command's own output.
pub open spec fn diagnostic_of(e: ErrorModel) -> Seq<char> {
    "buas: "@ + message_of(e)
}

/// `a`, `b` and `c` in turn.
fn concat3(a: &str, b: String, c: &str) -> (r: String)
    ensures
        r@ == a@ + b@ + c@,
{
    let mut r = String::new();
    r.append(a);
    r.append(b.as_str());
    r.append(c);
    assert(r@ =~= a@ + b@ + c@);
    r
}

impl BuasError {
    /// The message of this error.
    pub fn message(&self) -> (r: String)
        ensures
            r@ == message_of(self@),
    {
        match self {
            BuasError::MissingCommand => String::from_str("コマンドが指定されていません"),
            BuasError::CreateWorkspace { path, source } => {
                let mut r = concat3("DRAM workspace ", display_bytes(path.as_slice()), " を作成できません: ");
                r.append(source.as_str());
                r
            },
            BuasError::SpawnCommand { program, source } => {
                let mut r = concat3("コマンド ", display_bytes(program.as_slice()), " を起動できません: ");
                r.append(source.as_str());
                r
            },
            BuasError::ReadWorkspace { path, source } => {
                let mut r = concat3("workspace ", display_bytes(path.as_slice()), " を読み取れません: ");
                r.append(source.as_str());
                r
            },
            BuasError::RemoveWorkspace { path, source } => {
                let mut r = concat3("DRAM workspace ", display_bytes(path.as_slice()), " を削除できません: ");
                r.append(source.as_str());
                r
            },
            BuasError::RemoveSymlink { path, source } => {
                let mut r = concat3("symlink ", display_bytes(path.as_slice()), " を削除できません: ");
                r.append(source.as_str());
                r
            },
            BuasError::PublishEntry { source_dir, destination_dir, error } => {
                let mut r = concat3("", display_bytes(source_dir.as_slice()), " を ");
                let d = display_bytes(destination_dir.as_slice());
                r.append(d.as_str());
                r.append(" として公開できません: ");
                r.append(error.as_str());
                proof {
                    reveal_strlit("");
                }
                assert(r@ =~= message_of(self@));
                r
            },
            BuasError::CurrentDirectory { source } => {
                let mut r = String::from_str("現在の作業ディレクトリを取得できません: ");
                r.append(source.as_str());
                r
            },
            BuasError::GenerationId { source } => {
                let mut r = String::from_str("generation の ID を生成できません: ");
                r.append(source.as_str());
                r
            },
        }
    }

    /// The diagnostic line that reports this error.
    pub fn diagnostic(&self) -> (r: String)
        ensures
            r@ == diagnostic_of(self@),
    {
        let mut r = String::from_str("buas: ");
        let m = self.message();
        r.append(m.as_str());
        r
    }
}

} // verus!
