//! Files of a vault: which paths may be touched, which entries are shown
//! and in what order.
//!
//! The file system is the caller's part. It tells what it found; what
//! follows from that is decided here.
use crate::sort::{bytes_less, lemma_lex_strict_weak_order, lex_less, stable_sort, stable_sorted, Ranked};
use crate::text::{chars_of, lowercase, starts_with, str_eq, to_lowercase};
use vstd::prelude::*;
use vstd::utf8::encode_utf8;

verus! {

/// A file or directory of a vault.
#[derive(Debug, PartialEq, Eq)]
pub struct FileEntry {
    pub name: String,
    pub path: String,
    pub is_dir: bool,
    pub children: Option<Vec<FileEntry>>,
}

/// What stands at a path.
#[derive(Debug, Clone, Copy, PartialEq, Eq, Structural)]
pub enum PathKind {
    /// Nothing.
    Missing,
    /// A regular file.
    File,
    /// A directory.
    Directory,
    /// Something else.
    Other,
}

/// What the file system said when asked to do something.
#[derive(Debug, Clone, Copy, PartialEq, Eq, Structural)]
pub enum FileOperation {
    ReadDirectory,
    ReadEntry,
    ReadFile,
    WriteFile,
    CreateParent,
    CreateFile,
    DeleteDirectory,
    DeleteFile,
    RenameFile,
    CreateFolder,
}

/// Why a request on a file was turned away or failed.
#[derive(Debug, Clone, PartialEq, Eq)]
pub enum FileError {
    DirectoryMissing(String),
    NotDirectory(String),
    FileMissing(String),
    NotFile(String),
    FileExists(String),
    TargetExists(String),
    FolderExists(String),
    InvalidVault,
    /// The path could not be resolved.
    ResolvePath(String),
    /// The path has no parent directory.
    NoParent,
    /// The path lies outside the vault.
    OutsideVault,
    /// The parent of the path could not be resolved.
    ResolveParent(String),
    /// The path of the vault could not be resolved.
    ResolveVault(String),
    /// The file system failed.
    Io(FileOperation, String),
}

/// A path that the file system resolved: as text and in its components.
#[derive(Debug, Clone, PartialEq, Eq)]
pub struct ResolvedPath {
    pub text: String,
    pub components: Vec<String>,
}

/// What the file system says of the path that is to be validated.
#[derive(Debug, PartialEq, Eq)]
pub enum TargetProbe {
    /// The path exists; it was resolved, or resolving failed with the cause
    /// given.
    Exists(Result<ResolvedPath, String>),
    /// The path does not exist and has no parent.
    NoParent,
    /// Neither the path nor its parent exists.
    ParentMissing,
    /// The path does not exist, its parent does: the resolved parent with
    /// the file name of the path joined to it, or the cause for which
    /// resolving the parent failed.
    ParentExists(Result<ResolvedPath, String>),
}

/// How an entry is removed.
#[derive(Debug, Clone, Copy, PartialEq, Eq, Structural)]
pub enum Deletion {
    /// With all that it holds.
    Directory,
    /// As one file.
    File,
}

/// What is about to be made.
#[derive(Debug, Clone, Copy, PartialEq, Eq, Structural)]
pub enum Creation {
    File,
    Folder,
    RenameTarget,
}

/// The words that say which operation failed.
pub open spec fn operation_words(operation: FileOperation) -> Seq<char> {
    match operation {
        FileOperation::ReadDirectory => "Failed to read directory: "@,
        FileOperation::ReadEntry => "Failed to read entry: "@,
        FileOperation::ReadFile => "Failed to read file: "@,
        FileOperation::WriteFile => "Failed to write file: "@,
        FileOperation::CreateParent => "Failed to create parent directory: "@,
        FileOperation::CreateFile => "Failed to create file: "@,
        FileOperation::DeleteDirectory => "Failed to delete directory: "@,
        FileOperation::DeleteFile => "Failed to delete file: "@,
        FileOperation::RenameFile => "Failed to rename file: "@,
        FileOperation::CreateFolder => "Failed to create folder: "@,
    }
}

/// Whether the components of `base` are the first components of `path`.
pub open spec fn components_under(path: Seq<String>, base: Seq<String>) -> bool {
    &&& base.len() <= path.len()
    &&& forall|i: int| 0 <= i < base.len() ==> (#[trigger] path[i])@ == base[i]@
}

/// What validating a path yields: the path to work on, or why it is turned
/// away.
pub open spec fn vault_verdict(
    path: Seq<char>,
    vault_path: Seq<char>,
    target: TargetProbe,
    vault: Result<ResolvedPath, String>,
) -> Result<Seq<char>, FileError> {
    match target {
        TargetProbe::Exists(Err(cause)) => Err(FileError::ResolvePath(cause)),
        TargetProbe::NoParent => Err(FileError::NoParent),
        TargetProbe::ParentMissing => if vault_path.is_prefix_of(path) {
            Ok(path)
        } else {
            Err(FileError::OutsideVault)
        },
        TargetProbe::ParentExists(Err(cause)) => Err(FileError::ResolveParent(cause)),
        TargetProbe::Exists(Ok(resolved)) | TargetProbe::ParentExists(Ok(resolved)) => match vault {
            Err(cause) => Err(FileError::ResolveVault(cause)),
            Ok(base) => if components_under(resolved.components@, base.components@) {
                Ok(resolved.text@)
            } else {
                Err(FileError::OutsideVault)
            },
        },
    }
}

impl FileError {
    /// The message shown to the user.
    pub fn message(&self) -> (text: String)
        ensures
            text@ == match *self {
                FileError::DirectoryMissing(path) => "Directory does not exist: "@ + path@,
                FileError::NotDirectory(path) => "Path is not a directory: "@ + path@,
                FileError::FileMissing(path) => "File does not exist: "@ + path@,
                FileError::NotFile(path) => "Path is not a file: "@ + path@,
                FileError::FileExists(path) => "File already exists: "@ + path@,
                FileError::TargetExists(path) => "Target path already exists: "@ + path@,
                FileError::FolderExists(path) => "Folder already exists: "@ + path@,
                FileError::InvalidVault => "Invalid vault path"@,
                FileError::ResolvePath(cause) => "Failed to resolve path: "@ + cause@,
                FileError::NoParent => "Invalid path: no parent directory"@,
                FileError::OutsideVault => "Access denied: path is outside vault directory"@,
                FileError::ResolveParent(cause) => "Failed to resolve parent path: "@ + cause@,
                FileError::ResolveVault(cause) => "Failed to resolve vault path: "@ + cause@,
                FileError::Io(operation, cause) => operation_words(operation) + cause@,
            },
    {
        match self {
            FileError::DirectoryMissing(path) => pair("Directory does not exist: ", path),
            FileError::NotDirectory(path) => pair("Path is not a directory: ", path),
            FileError::FileMissing(path) => pair("File does not exist: ", path),
            FileError::NotFile(path) => pair("Path is not a file: ", path),
            FileError::FileExists(path) => pair("File already exists: ", path),
            FileError::TargetExists(path) => pair("Target path already exists: ", path),
            FileError::FolderExists(path) => pair("Folder already exists: ", path),
            FileError::InvalidVault => "Invalid vault path".to_string(),
            FileError::ResolvePath(cause) => pair("Failed to resolve path: ", cause),
            FileError::NoParent => "Invalid path: no parent directory".to_string(),
            FileError::OutsideVault => {
                "Access denied: path is outside vault directory".to_string()
            },
            FileError::ResolveParent(cause) => pair("Failed to resolve parent path: ", cause),
            FileError::ResolveVault(cause) => pair("Failed to resolve vault path: ", cause),
            FileError::Io(operation, cause) => {
                let words = match operation {
                    FileOperation::ReadDirectory => "Failed to read directory: ",
                    FileOperation::ReadEntry => "Failed to read entry: ",
                    FileOperation::ReadFile => "Failed to read file: ",
                    FileOperation::WriteFile => "Failed to write file: ",
                    FileOperation::CreateParent => "Failed to create parent directory: ",
                    FileOperation::CreateFile => "Failed to create file: ",
                    FileOperation::DeleteDirectory => "Failed to delete directory: ",
                    FileOperation::DeleteFile => "Failed to delete file: ",
                    FileOperation::RenameFile => "Failed to rename file: ",
                    FileOperation::CreateFolder => "Failed to create folder: ",
                };
                pair(words, cause)
            },
        }
    }
}

/// `head` followed by `tail`.
fn pair(head: &str, tail: &String) -> (text: String)
    ensures
        text@ == head@ + tail@,
{
    let mut text = head.to_string();
    text.append(tail.as_str());
    text
}

/// Whether the components of `base` are the first components of `path`.
pub fn path_starts_with(path: &Vec<String>, base: &Vec<String>) -> (under: bool)
    ensures
        under == components_under(path@, base@),
{
    if base.len() > path.len() {
        return false;
    }
    let mut i: usize = 0;
    while i < base.len()
        invariant
            0 <= i <= base@.len() <= path@.len(),
            forall|k: int| 0 <= k < i ==> (#[trigger] path@[k])@ == base@[k]@,
        decreases base.len() - i,
    {
        if !str_eq(path[i].as_str(), base[i].as_str()) {
            return false;
        }
        i = i + 1;
    }
    true
}

/// Validates that `path` lies within the vault at `vault_path`.
///
/// A path that exists must resolve to a place under the resolved vault. Of
/// a path that does not exist yet the parent must. Where not even the
/// parent exists, the path is judged by its text alone: it must begin with
/// `vault_path`. Yields the path to work on: the resolved one, or `path`
/// itself where it was judged by its text.
pub fn validate_path_within_vault(
    path: &str,
    vault_path: &str,
    target: TargetProbe,
    vault: Result<ResolvedPath, String>,
) -> (result: Result<String, FileError>)
    ensures
        match vault_verdict(path@, vault_path@, target, vault) {
            Ok(text) => result is Ok && result->Ok_0@ == text,
            Err(error) => result == Err::<String, FileError>(error),
        },
{
    let resolved = match target {
        TargetProbe::Exists(Err(cause)) => {
            return Err(FileError::ResolvePath(cause));
        },
        TargetProbe::NoParent => {
            return Err(FileError::NoParent);
        },
        TargetProbe::ParentMissing => {
            if !starts_with(path, vault_path) {
                return Err(FileError::OutsideVault);
            }
            return Ok(path.to_string());
        },
        TargetProbe::ParentExists(Err(cause)) => {
            return Err(FileError::ResolveParent(cause));
        },
        TargetProbe::Exists(Ok(resolved)) => resolved,
        TargetProbe::ParentExists(Ok(resolved)) => resolved,
    };
    let base = match vault {
        Err(cause) => {
            return Err(FileError::ResolveVault(cause));
        },
        Ok(base) => base,
    };
    if !path_starts_with(&resolved.components, &base.components) {
        return Err(FileError::OutsideVault);
    }
    Ok(resolved.text)
}

/// Whether a name is hidden: it begins with a dot.
pub fn is_hidden(name: &str) -> (hidden: bool)
    ensures
        hidden == (name@.len() > 0 && name@[0] == '.'),
{
    let chars = chars_of(name);
    chars.len() > 0 && chars[0] == '.'
}

/// Whether an entry is shown in the tree of a vault: hidden ones are not,
/// and of the files only notes, which end in `.md`.
pub fn shows_entry(name: &str, is_dir: bool, extension: Option<&str>) -> (shown: bool)
    ensures
        shown == (!(name@.len() > 0 && name@[0] == '.') && (is_dir || (extension is Some
            && extension->Some_0@ == "md"@))),
{
    if is_hidden(name) {
        return false;
    }
    if is_dir {
        return true;
    }
    match extension {
        Some(extension) => str_eq(extension, "md"),
        None => false,
    }
}

impl Ranked for FileEntry {
    /// Directories stand before files; within each, names rise in the
    /// order of their lower-case forms.
    open spec fn precedes(&self, other: &Self) -> bool {
        if self.is_dir == other.is_dir {
            lex_less(encode_utf8(lowercase(self.name@)), encode_utf8(lowercase(other.name@)))
        } else {
            self.is_dir
        }
    }

    fn comes_before(&self, other: &Self) -> (before: bool) {
        if self.is_dir == other.is_dir {
            let mine = to_lowercase(self.name.as_str());
            let theirs = to_lowercase(other.name.as_str());
            bytes_less(mine.as_str().as_bytes(), theirs.as_str().as_bytes())
        } else {
            self.is_dir
        }
    }

    proof fn lemma_strict_weak_order(a: &Self, b: &Self, c: &Self) {
        let x = encode_utf8(lowercase(a.name@));
        let y = encode_utf8(lowercase(b.name@));
        let z = encode_utf8(lowercase(c.name@));
        lemma_lex_strict_weak_order(x, y, z);
        lemma_lex_strict_weak_order(y, x, z);
    }
}

impl Ranked for String {
    /// Texts rise in the order of their lower-case forms.
    open spec fn precedes(&self, other: &Self) -> bool {
        lex_less(encode_utf8(lowercase(self@)), encode_utf8(lowercase(other@)))
    }

    fn comes_before(&self, other: &Self) -> (before: bool) {
        let mine = to_lowercase(self.as_str());
        let theirs = to_lowercase(other.as_str());
        bytes_less(mine.as_str().as_bytes(), theirs.as_str().as_bytes())
    }

    proof fn lemma_strict_weak_order(a: &Self, b: &Self, c: &Self) {
        let x = encode_utf8(lowercase(a@));
        let y = encode_utf8(lowercase(b@));
        let z = encode_utf8(lowercase(c@));
        lemma_lex_strict_weak_order(x, y, z);
        lemma_lex_strict_weak_order(y, x, z);
    }
}

/// The entries of one directory in the order in which they are shown:
/// directories first, then files, each by name without regard to case.
pub fn build_file_tree(entries: Vec<FileEntry>) -> (tree: Vec<FileEntry>)
    ensures
        tree@ == stable_sorted(entries@),
{
    stable_sort(entries)
}

/// Accepts a path at which a directory stands.
pub fn read_directory(path: &str, kind: PathKind) -> (result: Result<(), FileError>)
    ensures
        kind is Missing ==> (result matches Err(FileError::DirectoryMissing(shown)) && shown@
            == path@),
        kind is File || kind is Other ==> (result matches Err(FileError::NotDirectory(shown))
            && shown@ == path@),
        kind is Directory ==> result is Ok,
{
    match kind {
        PathKind::Missing => Err(FileError::DirectoryMissing(path.to_string())),
        PathKind::Directory => Ok(()),
        _ => Err(FileError::NotDirectory(path.to_string())),
    }
}

/// Accepts a path at which a regular file stands.
pub fn read_file(path: &str, kind: PathKind) -> (result: Result<(), FileError>)
    ensures
        kind is Missing ==> (result matches Err(FileError::FileMissing(shown)) && shown@ == path@),
        kind is Directory || kind is Other ==> (result matches Err(FileError::NotFile(shown))
            && shown@ == path@),
        kind is File ==> result is Ok,
{
    match kind {
        PathKind::Missing => Err(FileError::FileMissing(path.to_string())),
        PathKind::File => Ok(()),
        _ => Err(FileError::NotFile(path.to_string())),
    }
}

/// Accepts a path at which nothing stands, so that something can be made
/// there.
pub fn check_absent(path: &str, kind: PathKind, creation: Creation) -> (result: Result<
    (),
    FileError,
>)
    ensures
        kind is Missing ==> result is Ok,
        !(kind is Missing) ==> match creation {
            Creation::File => result matches Err(FileError::FileExists(shown)) && shown@ == path@,
            Creation::Folder => result matches Err(FileError::FolderExists(shown)) && shown@
                == path@,
            Creation::RenameTarget => result matches Err(FileError::TargetExists(shown))
                && shown@ == path@,
        },
{
    match kind {
        PathKind::Missing => Ok(()),
        _ => match creation {
            Creation::File => Err(FileError::FileExists(path.to_string())),
            Creation::Folder => Err(FileError::FolderExists(path.to_string())),
            Creation::RenameTarget => Err(FileError::TargetExists(path.to_string())),
        },
    }
}

/// Accepts a path for a new file: nothing may stand there.
pub fn create_file(path: &str, kind: PathKind) -> (result: Result<(), FileError>)
    ensures
        kind is Missing ==> result is Ok,
        !(kind is Missing) ==> (result matches Err(FileError::FileExists(shown)) && shown@
            == path@),
{
    check_absent(path, kind, Creation::File)
}

/// Accepts a path for a new folder: nothing may stand there.
pub fn create_folder(path: &str, kind: PathKind) -> (result: Result<(), FileError>)
    ensures
        kind is Missing ==> result is Ok,
        !(kind is Missing) ==> (result matches Err(FileError::FolderExists(shown)) && shown@
            == path@),
{
    check_absent(path, kind, Creation::Folder)
}

/// How the entry at a path is to be deleted.
pub fn delete_file(path: &str, kind: PathKind) -> (result: Result<Deletion, FileError>)
    ensures
        kind is Missing ==> (result matches Err(FileError::FileMissing(shown)) && shown@ == path@),
        kind is Directory ==> result == Ok::<Deletion, FileError>(Deletion::Directory),
        kind is File || kind is Other ==> result == Ok::<Deletion, FileError>(Deletion::File),
{
    match kind {
        PathKind::Missing => Err(FileError::FileMissing(path.to_string())),
        PathKind::Directory => Ok(Deletion::Directory),
        _ => Ok(Deletion::File),
    }
}

/// Accepts a rename: the old path must exist, the new one must not.
pub fn rename_file(old_path: &str, old_kind: PathKind, new_path: &str, new_kind: PathKind) -> (result:
    Result<(), FileError>)
    ensures
        old_kind is Missing ==> (result matches Err(FileError::FileMissing(shown)) && shown@
            == old_path@),
        !(old_kind is Missing) && !(new_kind is Missing) ==> (result matches Err(
            FileError::TargetExists(shown),
        ) && shown@ == new_path@),
        !(old_kind is Missing) && new_kind is Missing ==> result is Ok,
{
    match old_kind {
        PathKind::Missing => {
            return Err(FileError::FileMissing(old_path.to_string()));
        },
        _ => {},
    }
    check_absent(new_path, new_kind, Creation::RenameTarget)
}

/// Accepts the path of a vault whose notes are to be listed.
pub fn check_vault(kind: PathKind) -> (result: Result<(), FileError>)
    ensures
        kind is Directory ==> result is Ok,
        !(kind is Directory) ==> result == Err::<(), FileError>(FileError::InvalidVault),
{
    match kind {
        PathKind::Directory => Ok(()),
        _ => Err(FileError::InvalidVault),
    }
}

/// The name under which a note is listed: the stem of its file name,
/// unless the stem is missing, empty or hidden.
pub fn note_name(stem: Option<&str>) -> (name: Option<String>)
    ensures
        match stem {
            Some(s) => if s@.len() == 0 || s@[0] == '.' {
                name is None
            } else {
                name is Some && name->Some_0@ == s@
            },
            None => name is None,
        },
{
    match stem {
        Some(s) => if s.is_empty() || is_hidden(s) {
            None
        } else {
            Some(s.to_string())
        },
        None => None,
    }
}

/// The notes of a vault in the order in which they are listed: by name,
/// without regard to case.
pub fn get_all_notes(notes: Vec<String>) -> (listed: Vec<String>)
    ensures
        listed@ == stable_sorted(notes@),
{
    stable_sort(notes)
}

} // verus!
