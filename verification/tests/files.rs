use ttokk_backend::file::{
    build_file_tree, check_absent, check_vault, create_file, create_folder, delete_file,
    get_all_notes, is_hidden, note_name,
    path_starts_with, read_directory, read_file, rename_file, shows_entry,
    validate_path_within_vault, Creation, Deletion, FileEntry, FileError, FileOperation, PathKind,
    ResolvedPath, TargetProbe,
};
use ttokk_backend::recordings::{
    created_at, is_recording, list_recordings, recording_file_name, save_recorded_audio,
    RecordingFile, SavedRecordingInfo,
};
use ttokk_backend::secure::{
    get_jira_token, remove_jira_token, set_jira_token, StoreAnswer, TokenError,
    JIRA_TOKEN_SERVICE, JIRA_TOKEN_USERNAME, MAX_TOKEN_BYTES,
};
use ttokk_backend::sort::{bytes_less, stable_sort};
use ttokk_backend::text::{
    chars_of, find_from, is_blank_text, join_segments, starts_with, str_eq, to_decimal, trim,
};
use ttokk_backend::vault::{check_new_vault, create_vault, open_vault, VaultConfig, VaultError};

fn resolved(text: &str) -> ResolvedPath {
    ResolvedPath {
        text: text.to_string(),
        components: text.split('/').filter(|c| !c.is_empty()).map(str::to_string).collect(),
    }
}

#[test]
fn existing_path_must_resolve_under_vault() {
    assert_eq!(
        validate_path_within_vault(
            "/vault/link/../a.md",
            "/vault",
            TargetProbe::Exists(Ok(resolved("/vault/a.md"))),
            Ok(resolved("/vault")),
        ),
        Ok("/vault/a.md".to_string())
    );
    assert_eq!(
        validate_path_within_vault(
            "/vault/../etc/passwd",
            "/vault",
            TargetProbe::Exists(Ok(resolved("/etc/passwd"))),
            Ok(resolved("/vault")),
        ),
        Err(FileError::OutsideVault)
    );
    // Components count, not text: `/vault2` is not under `/vault`.
    assert_eq!(
        validate_path_within_vault(
            "/vault2/a.md",
            "/vault",
            TargetProbe::Exists(Ok(resolved("/vault2/a.md"))),
            Ok(resolved("/vault")),
        ),
        Err(FileError::OutsideVault)
    );
    assert_eq!(
        validate_path_within_vault(
            "/vault",
            "/vault",
            TargetProbe::Exists(Ok(resolved("/vault"))),
            Ok(resolved("/vault")),
        ),
        Ok("/vault".to_string())
    );
}

#[test]
fn new_path_is_judged_by_its_parent() {
    assert_eq!(
        validate_path_within_vault(
            "/vault/new.md",
            "/vault",
            TargetProbe::ParentExists(Ok(resolved("/vault/new.md"))),
            Ok(resolved("/vault")),
        ),
        Ok("/vault/new.md".to_string())
    );
    assert_eq!(
        validate_path_within_vault(
            "/tmp/new.md",
            "/vault",
            TargetProbe::ParentExists(Ok(resolved("/tmp/new.md"))),
            Ok(resolved("/vault")),
        ),
        Err(FileError::OutsideVault)
    );
}

#[test]
fn deep_new_path_is_judged_by_its_text() {
    assert_eq!(
        validate_path_within_vault("/vault/a/b/c.md", "/vault", TargetProbe::ParentMissing, Err("unused".to_string())),
        Ok("/vault/a/b/c.md".to_string())
    );
    assert_eq!(
        validate_path_within_vault("/vault2/a/b.md", "/vault", TargetProbe::ParentMissing, Ok(resolved("/vault"))),
        Ok("/vault2/a/b.md".to_string())
    );
    assert_eq!(
        validate_path_within_vault("/else/a/b.md", "/vault", TargetProbe::ParentMissing, Ok(resolved("/vault"))),
        Err(FileError::OutsideVault)
    );
}

#[test]
fn resolution_failures_are_reported() {
    let vault = || Ok(resolved("/vault"));
    assert_eq!(
        validate_path_within_vault("p", "/vault", TargetProbe::Exists(Err("e1".to_string())), vault()),
        Err(FileError::ResolvePath("e1".to_string()))
    );
    assert_eq!(
        validate_path_within_vault("p", "/vault", TargetProbe::NoParent, vault()),
        Err(FileError::NoParent)
    );
    assert_eq!(
        validate_path_within_vault("p", "/vault", TargetProbe::ParentExists(Err("e2".to_string())), vault()),
        Err(FileError::ResolveParent("e2".to_string()))
    );
    assert_eq!(
        validate_path_within_vault(
            "p",
            "/vault",
            TargetProbe::Exists(Ok(resolved("/vault/p"))),
            Err("e3".to_string()),
        ),
        Err(FileError::ResolveVault("e3".to_string()))
    );
}

#[test]
fn component_prefixes() {
    let v = |s: &[&str]| s.iter().map(|c| c.to_string()).collect::<Vec<String>>();
    assert!(path_starts_with(&v(&["a", "b", "c"]), &v(&["a", "b"])));
    assert!(path_starts_with(&v(&["a"]), &v(&[])));
    assert!(path_starts_with(&v(&["a"]), &v(&["a"])));
    assert!(!path_starts_with(&v(&["a"]), &v(&["a", "b"])));
    assert!(!path_starts_with(&v(&["ab", "c"]), &v(&["a"])));
    assert!(!path_starts_with(&v(&["a", "x"]), &v(&["a", "b"])));
}

#[test]
fn hidden_names_begin_with_a_dot() {
    assert!(is_hidden(".git"));
    assert!(is_hidden("."));
    assert!(!is_hidden("a.md"));
    assert!(!is_hidden(""));
}

#[test]
fn tree_shows_directories_and_notes() {
    assert!(shows_entry("notes", true, None));
    assert!(shows_entry("a.md", false, Some("md")));
    assert!(!shows_entry("a.txt", false, Some("txt")));
    assert!(!shows_entry("a.MD", false, Some("MD")));
    assert!(!shows_entry("README", false, None));
    assert!(!shows_entry(".obsidian", true, None));
    assert!(!shows_entry(".hidden.md", false, Some("md")));
}

fn entry(name: &str, is_dir: bool) -> FileEntry {
    FileEntry {
        name: name.to_string(),
        path: format!("/vault/{}", name),
        is_dir,
        children: if is_dir { Some(Vec::new()) } else { None },
    }
}

#[test]
fn tree_lists_directories_first_then_by_name() {
    let tree = build_file_tree(vec![
        entry("b.md", false),
        entry("Zeta", true),
        entry("a.md", false),
        entry("alpha", true),
        entry("B.md", false),
        entry("C.md", false),
    ]);
    let names: Vec<&str> = tree.iter().map(|e| e.name.as_str()).collect();
    assert_eq!(names, vec!["alpha", "Zeta", "a.md", "b.md", "B.md", "C.md"]);
    assert_eq!(build_file_tree(vec![]), vec![]);
}

#[test]
fn directories_are_accepted_for_reading() {
    assert_eq!(read_directory("/v", PathKind::Directory), Ok(()));
    assert_eq!(read_directory("/v", PathKind::Missing), Err(FileError::DirectoryMissing("/v".to_string())));
    assert_eq!(read_directory("/v", PathKind::File), Err(FileError::NotDirectory("/v".to_string())));
    assert_eq!(read_directory("/v", PathKind::Other), Err(FileError::NotDirectory("/v".to_string())));
}

#[test]
fn files_are_accepted_for_reading() {
    assert_eq!(read_file("/f", PathKind::File), Ok(()));
    assert_eq!(read_file("/f", PathKind::Missing), Err(FileError::FileMissing("/f".to_string())));
    assert_eq!(read_file("/f", PathKind::Directory), Err(FileError::NotFile("/f".to_string())));
    assert_eq!(read_file("/f", PathKind::Other), Err(FileError::NotFile("/f".to_string())));
}

#[test]
fn creation_needs_a_free_path() {
    assert_eq!(check_absent("/p", PathKind::Missing, Creation::File), Ok(()));
    assert_eq!(check_absent("/p", PathKind::File, Creation::File), Err(FileError::FileExists("/p".to_string())));
    assert_eq!(check_absent("/p", PathKind::Directory, Creation::Folder), Err(FileError::FolderExists("/p".to_string())));
    assert_eq!(check_absent("/p", PathKind::Other, Creation::RenameTarget), Err(FileError::TargetExists("/p".to_string())));
    assert_eq!(create_file("/p", PathKind::Missing), Ok(()));
    assert_eq!(create_file("/p", PathKind::Directory), Err(FileError::FileExists("/p".to_string())));
    assert_eq!(create_folder("/p", PathKind::Missing), Ok(()));
    assert_eq!(create_folder("/p", PathKind::File), Err(FileError::FolderExists("/p".to_string())));
}

#[test]
fn deletion_depends_on_what_is_there() {
    assert_eq!(delete_file("/p", PathKind::Missing), Err(FileError::FileMissing("/p".to_string())));
    assert_eq!(delete_file("/p", PathKind::Directory), Ok(Deletion::Directory));
    assert_eq!(delete_file("/p", PathKind::File), Ok(Deletion::File));
    assert_eq!(delete_file("/p", PathKind::Other), Ok(Deletion::File));
}

#[test]
fn rename_needs_source_and_free_target() {
    assert_eq!(rename_file("/a", PathKind::File, "/b", PathKind::Missing), Ok(()));
    assert_eq!(rename_file("/a", PathKind::Directory, "/b", PathKind::Missing), Ok(()));
    assert_eq!(rename_file("/a", PathKind::Missing, "/b", PathKind::File), Err(FileError::FileMissing("/a".to_string())));
    assert_eq!(rename_file("/a", PathKind::File, "/b", PathKind::File), Err(FileError::TargetExists("/b".to_string())));
}

#[test]
fn notes_need_a_vault_directory() {
    assert_eq!(check_vault(PathKind::Directory), Ok(()));
    assert_eq!(check_vault(PathKind::Missing), Err(FileError::InvalidVault));
    assert_eq!(check_vault(PathKind::File), Err(FileError::InvalidVault));
    assert_eq!(check_vault(PathKind::Other), Err(FileError::InvalidVault));
}

#[test]
fn notes_are_named_by_stem_and_listed_without_regard_to_case() {
    assert_eq!(note_name(Some("Idea")), Some("Idea".to_string()));
    assert_eq!(note_name(Some("")), None);
    assert_eq!(note_name(Some(".hidden")), None);
    assert_eq!(note_name(None), None);
    let notes = vec!["beta", "Alpha", "alpha", "Gamma", "ALPHA", "1st"];
    let listed = get_all_notes(notes.iter().map(|n| n.to_string()).collect());
    assert_eq!(listed, vec!["1st", "Alpha", "alpha", "ALPHA", "beta", "Gamma"]);
}

#[test]
fn file_error_messages() {
    let p = || "/p".to_string();
    let cases = vec![
        (FileError::DirectoryMissing(p()), "Directory does not exist: /p"),
        (FileError::NotDirectory(p()), "Path is not a directory: /p"),
        (FileError::FileMissing(p()), "File does not exist: /p"),
        (FileError::NotFile(p()), "Path is not a file: /p"),
        (FileError::FileExists(p()), "File already exists: /p"),
        (FileError::TargetExists(p()), "Target path already exists: /p"),
        (FileError::FolderExists(p()), "Folder already exists: /p"),
        (FileError::InvalidVault, "Invalid vault path"),
        (FileError::ResolvePath(p()), "Failed to resolve path: /p"),
        (FileError::NoParent, "Invalid path: no parent directory"),
        (FileError::OutsideVault, "Access denied: path is outside vault directory"),
        (FileError::ResolveParent(p()), "Failed to resolve parent path: /p"),
        (FileError::ResolveVault(p()), "Failed to resolve vault path: /p"),
        (FileError::Io(FileOperation::ReadDirectory, p()), "Failed to read directory: /p"),
        (FileError::Io(FileOperation::ReadEntry, p()), "Failed to read entry: /p"),
        (FileError::Io(FileOperation::ReadFile, p()), "Failed to read file: /p"),
        (FileError::Io(FileOperation::WriteFile, p()), "Failed to write file: /p"),
        (FileError::Io(FileOperation::CreateParent, p()), "Failed to create parent directory: /p"),
        (FileError::Io(FileOperation::CreateFile, p()), "Failed to create file: /p"),
        (FileError::Io(FileOperation::DeleteDirectory, p()), "Failed to delete directory: /p"),
        (FileError::Io(FileOperation::DeleteFile, p()), "Failed to delete file: /p"),
        (FileError::Io(FileOperation::RenameFile, p()), "Failed to rename file: /p"),
        (FileError::Io(FileOperation::CreateFolder, p()), "Failed to create folder: /p"),
    ];
    for (error, message) in cases {
        assert_eq!(error.message(), message);
    }
}

#[test]
fn vault_is_opened_from_a_directory() {
    assert_eq!(
        open_vault("/home/me/Notes".to_string(), PathKind::Directory, Some("Notes".to_string())),
        Ok(VaultConfig { path: "/home/me/Notes".to_string(), name: "Notes".to_string() })
    );
    assert_eq!(
        open_vault("/".to_string(), PathKind::Directory, None),
        Ok(VaultConfig { path: "/".to_string(), name: "Vault".to_string() })
    );
    assert_eq!(
        open_vault("/x".to_string(), PathKind::Missing, None),
        Err(VaultError::Missing("/x".to_string()))
    );
    assert_eq!(
        open_vault("/x".to_string(), PathKind::File, Some("x".to_string())),
        Err(VaultError::NotDirectory("/x".to_string()))
    );
    assert_eq!(
        open_vault("/x".to_string(), PathKind::Other, None),
        Err(VaultError::NotDirectory("/x".to_string()))
    );
}

#[test]
fn vault_is_created_at_a_free_path() {
    assert_eq!(check_new_vault("/x", false), Ok(()));
    assert_eq!(check_new_vault("/x", true), Err(VaultError::Exists("/x".to_string())));
    assert_eq!(
        create_vault("/x".to_string(), "X".to_string(), Ok(())),
        Ok(VaultConfig { path: "/x".to_string(), name: "X".to_string() })
    );
    assert_eq!(
        create_vault("/x".to_string(), "X".to_string(), Err("denied".to_string())),
        Err(VaultError::Create("denied".to_string()))
    );
}

#[test]
fn vault_error_messages() {
    assert_eq!(VaultError::Missing("/x".to_string()).message(), "Vault path does not exist: /x");
    assert_eq!(VaultError::NotDirectory("/x".to_string()).message(), "Vault path is not a directory: /x");
    assert_eq!(VaultError::Exists("/x".to_string()).message(), "Path already exists: /x");
    assert_eq!(VaultError::Create("e".to_string()).message(), "Failed to create vault: e");
}

#[test]
fn token_is_trimmed_and_bounded() {
    assert_eq!(JIRA_TOKEN_SERVICE, "com.raonc.en-ttokk");
    assert_eq!(JIRA_TOKEN_USERNAME, "jira-api-token");
    assert_eq!(MAX_TOKEN_BYTES, 4096);
    assert_eq!(set_jira_token("  secret\n"), Ok("secret".to_string()));
    assert_eq!(set_jira_token(""), Err(TokenError::Required));
    assert_eq!(set_jira_token(" \t "), Err(TokenError::Required));
    assert_eq!(set_jira_token(&"x".repeat(4096)), Ok("x".repeat(4096)));
    assert_eq!(set_jira_token(&"x".repeat(4097)), Err(TokenError::TooLong));
    assert_eq!(set_jira_token(&format!(" {} ", "x".repeat(4096))), Ok("x".repeat(4096)));
    // The bound counts bytes.
    assert_eq!(set_jira_token(&"é".repeat(2048)), Ok("é".repeat(2048)));
    assert_eq!(set_jira_token(&"é".repeat(2049)), Err(TokenError::TooLong));
}

#[test]
fn store_answers_are_judged() {
    assert_eq!(get_jira_token(StoreAnswer::Done("t".to_string())), Ok(Some("t".to_string())));
    assert_eq!(get_jira_token(StoreAnswer::NoEntry), Ok(None));
    assert_eq!(get_jira_token(StoreAnswer::Failed("e".to_string())), Err(TokenError::Store("e".to_string())));
    assert_eq!(remove_jira_token(StoreAnswer::Done(String::new())), Ok(()));
    assert_eq!(remove_jira_token(StoreAnswer::NoEntry), Ok(()));
    assert_eq!(remove_jira_token(StoreAnswer::Failed("e".to_string())), Err(TokenError::Store("e".to_string())));
    assert_eq!(TokenError::Required.message(), "API token is required");
    assert_eq!(TokenError::TooLong.message(), "API token is too long");
    assert_eq!(TokenError::Store("e".to_string()).message(), "e");
}

#[test]
fn recordings_are_named_and_reported() {
    assert_eq!(recording_file_name(1700000000123), "recording_1700000000123.webm");
    assert_eq!(recording_file_name(0), "recording_0.webm");
    assert_eq!(
        save_recorded_audio("/r/a.webm".to_string(), 12),
        SavedRecordingInfo { file_path: "/r/a.webm".to_string(), file_size: 12 }
    );
}

#[test]
fn recordings_have_supported_extensions() {
    assert!(is_recording("webm"));
    assert!(is_recording("WAV"));
    assert!(is_recording("Mp3"));
    assert!(is_recording("m4a"));
    assert!(!is_recording("txt"));
    assert!(!is_recording(""));
}

#[test]
fn recordings_are_dated() {
    assert_eq!(created_at(Some(Some(5)), Some(Some(9))), 5);
    assert_eq!(created_at(Some(None), Some(Some(9))), 0);
    assert_eq!(created_at(None, Some(Some(9))), 9);
    assert_eq!(created_at(None, Some(None)), 0);
    assert_eq!(created_at(None, None), 0);
}

fn recording(name: &str, created_at: u64) -> RecordingFile {
    RecordingFile {
        file_path: format!("/r/{}", name),
        file_name: name.to_string(),
        file_size: 1,
        created_at,
    }
}

#[test]
fn recordings_are_listed_newest_first() {
    let listed = list_recordings(vec![
        recording("a", 10),
        recording("b", 30),
        recording("c", 10),
        recording("d", 20),
        recording("e", 30),
        recording("f", 0),
    ]);
    let names: Vec<&str> = listed.iter().map(|r| r.file_name.as_str()).collect();
    assert_eq!(names, vec!["b", "e", "d", "a", "c", "f"]);
}

#[test]
fn sorting_by_rank_is_stable() {
    let sorted = stable_sort(vec!["b".to_string(), "A".to_string(), "a".to_string(), "B".to_string()]);
    assert_eq!(sorted, vec!["A", "a", "b", "B"]);
    assert_eq!(stable_sort(Vec::<String>::new()), Vec::<String>::new());
    assert_eq!(stable_sort(vec!["x".to_string()]), vec!["x"]);
}

#[test]
fn bytes_compare_like_a_dictionary() {
    assert!(bytes_less(b"", b"a"));
    assert!(!bytes_less(b"a", b""));
    assert!(!bytes_less(b"", b""));
    assert!(bytes_less(b"a", b"b"));
    assert!(!bytes_less(b"b", b"a"));
    assert!(bytes_less(b"ab", b"abc"));
    assert!(!bytes_less(b"abc", b"ab"));
    assert!(!bytes_less(b"abc", b"abc"));
    assert!(bytes_less(b"abc", b"abd"));
    assert!(bytes_less(b"Z", b"a"));
    assert!(bytes_less(&[0x7f], &[0x80]));
}

#[test]
fn trimming_removes_white_space_at_both_ends() {
    assert_eq!(trim("  a b \t\n"), "a b");
    assert_eq!(trim("a"), "a");
    assert_eq!(trim(""), "");
    assert_eq!(trim(" \n "), "");
    assert_eq!(trim("\u{3000}한글\u{2003}"), "한글");
    assert_eq!(trim("x\u{200b}"), "x\u{200b}");
    assert!(is_blank_text(""));
    assert!(is_blank_text(" \t\r\n"));
    assert!(!is_blank_text(" x "));
}

#[test]
fn text_helpers() {
    assert_eq!(chars_of("aé한"), vec!['a', 'é', '한']);
    assert!(str_eq("a", "a"));
    assert!(!str_eq("a", "A"));
    assert!(starts_with("abc", "ab"));
    assert!(starts_with("abc", ""));
    assert!(starts_with("abc", "abc"));
    assert!(!starts_with("abc", "abcd"));
    assert!(!starts_with("abc", "b"));
    let text = chars_of("abcabc");
    assert_eq!(find_from(&text, &chars_of("bc"), 0), Some(1));
    assert_eq!(find_from(&text, &chars_of("bc"), 2), Some(4));
    assert_eq!(find_from(&text, &chars_of("bc"), 5), None);
    assert_eq!(find_from(&text, &chars_of("x"), 0), None);
    assert_eq!(find_from(&text, &chars_of(""), 6), Some(6));
    assert_eq!(find_from(&text, &chars_of(""), 7), None);
    assert_eq!(find_from(&text, &chars_of("abcabcd"), 0), None);
}

#[test]
fn numbers_are_written_in_decimal() {
    assert_eq!(to_decimal(0), "0");
    assert_eq!(to_decimal(7), "7");
    assert_eq!(to_decimal(10), "10");
    assert_eq!(to_decimal(1234567890), "1234567890");
    assert_eq!(to_decimal(u128::MAX), "340282366920938463463374607431768211455");
}

#[test]
fn segments_are_joined() {
    let segments = vec![Some("a".to_string()), None, Some("b".to_string())];
    assert_eq!(join_segments(&segments, ""), "ab");
    assert_eq!(join_segments(&segments, ", "), "a, b, ");
    assert_eq!(join_segments(&vec![], "x"), "");
}
