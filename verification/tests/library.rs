use yashandb::library::{
    dep_lib_names, explicit_load_error, main_lib_name, not_found, source_display,
    user_lib_dir_from, AutoLoad, AutoLoadStep, LibrarySource, LoadStep,
};
use yashandb::{load_library, load_library_with_path, Error};

fn main_name() -> &'static str {
    main_lib_name(false)
}

#[test]
fn user_dir_segments() {
    let dir = user_lib_dir_from("usr/alice", '/');
    let parts: Vec<&str> = dir.split('/').collect();
    assert_eq!(parts, ["usr", "alice", ".yashandb", "client", "lib"]);
}

#[test]
fn user_dir_from_env_is_absolute_prefixed() {
    // The constructed dir must stay under the home directory.
    assert!(user_lib_dir_from("h", '/').starts_with("h"));
}

#[test]
fn user_dir_does_not_double_a_trailing_separator() {
    assert_eq!(user_lib_dir_from("/home/a/", '/'), "/home/a/.yashandb/client/lib");
    assert_eq!(user_lib_dir_from("C:\\Users\\b", '\\'), "C:\\Users\\b\\.yashandb\\client\\lib");
}

#[test]
fn windows_lib_names() {
    assert_eq!(main_lib_name(true), "yascli.dll");
    assert_eq!(
        dep_lib_names(true),
        ["libssl-1_1-x64.dll", "libcrypto-1_1-x64.dll", "yas_infra.dll"]
    );
}

#[test]
fn unix_lib_names() {
    assert_eq!(main_lib_name(false), "libyascli.so");
    assert_eq!(dep_lib_names(false), ["libcrypto.so", "libssl.so", "libyas_infra.so"]);
}

#[test]
fn not_found_message_lists_tried_sources() {
    let tried = vec!["first: reason".to_string(), "second: boom".to_string()];
    let err = not_found(main_name(), &tried);
    let Error::ClientLibrary(msg) = err else {
        panic!("expected ClientLibrary, got {err:?}");
    };
    assert!(msg.contains(main_name()), "unexpected message: {msg}");
    assert!(msg.contains("first: reason"), "unexpected message: {msg}");
    assert!(msg.contains("second: boom"), "unexpected message: {msg}");
    assert_eq!(
        msg,
        format!("failed to load {}; tried first: reason, second: boom", main_name())
    );
}

#[test]
fn load_explicit_missing_path_errors() {
    let err = explicit_load_error("no/such/dir/yascli.lib", "No such file or directory");
    match &err {
        Error::ClientLibrary(msg) => {
            assert!(msg.contains("failed to load"), "unexpected message: {msg}");
            assert!(msg.contains("yascli.lib"), "unexpected message: {msg}");
        }
        other => panic!("expected ClientLibrary, got {other:?}"),
    }
}

#[test]
fn load_library_is_idempotent_once_loaded() {
    assert!(matches!(load_library(true), LoadStep::Ready));
    assert!(matches!(load_library(false), LoadStep::LoadAuto));
}

#[test]
fn load_with_path_then_idempotent_then_first_load_wins() {
    let step = load_library_with_path("/opt/lib/libyascli.so", None);
    assert!(matches!(step, LoadStep::LoadExplicit(p) if p == "/opt/lib/libyascli.so"));
    let step = load_library_with_path(
        "/opt/lib/libyascli.so",
        Some(("/opt/lib/libyascli.so".to_string(), true)),
    );
    assert!(matches!(step, LoadStep::Ready));
    let step = load_library_with_path(
        "/tmp/other-libyascli.so",
        Some(("/opt/lib/libyascli.so".to_string(), false)),
    );
    let LoadStep::Failed(Error::ClientLibrary(msg)) = step else {
        panic!("expected a conflict");
    };
    assert!(msg.contains("refusing to load from"), "unexpected message: {msg}");
    assert_eq!(
        msg,
        "library already loaded from /opt/lib/libyascli.so, refusing to load from /tmp/other-libyascli.so"
    );
}

#[test]
fn source_display_names_default_search_path() {
    assert_eq!(
        source_display(&LibrarySource::DefaultSearchPath, "libyascli.so"),
        "libyascli.so via the default search path"
    );
    assert_eq!(
        source_display(&LibrarySource::File("/x/libyascli.so".to_string()), "libyascli.so"),
        "/x/libyascli.so"
    );
}

#[test]
fn auto_load_succeeds_by_name() {
    let (mut auto, first) = AutoLoad::new(false, '/');
    assert!(matches!(first, AutoLoadStep::OpenByName(n) if n == "libyascli.so"));
    let step = auto.opened_by_name(Ok(()));
    assert!(matches!(step, AutoLoadStep::Done(Ok(LibrarySource::DefaultSearchPath))));
}

#[test]
fn auto_load_falls_back_to_user_dir() {
    let (mut auto, _) = AutoLoad::new(false, '/');
    let step = auto.opened_by_name(Err("not found".to_string()));
    assert!(matches!(step, AutoLoadStep::ReadHome));
    let step = auto.home(Some("/home/u".to_string()));
    let AutoLoadStep::OpenInDir { dir, deps, main } = step else {
        panic!("expected the per-user directory");
    };
    assert_eq!(dir, "/home/u/.yashandb/client/lib");
    assert_eq!(
        deps,
        [
            "/home/u/.yashandb/client/lib/libcrypto.so",
            "/home/u/.yashandb/client/lib/libssl.so",
            "/home/u/.yashandb/client/lib/libyas_infra.so"
        ]
    );
    assert_eq!(main, "/home/u/.yashandb/client/lib/libyascli.so");
    let step = auto.opened_in_dir(Err("bad ELF".to_string()));
    let AutoLoadStep::Done(Err(Error::ClientLibrary(msg))) = step else {
        panic!("expected failure");
    };
    assert_eq!(
        msg,
        "failed to load libyascli.so; tried libyascli.so: not found, /home/u/.yashandb/client/lib/libyascli.so: bad ELF"
    );
}

#[test]
fn auto_load_without_home_lists_the_search_path_attempt() {
    let (mut auto, _) = AutoLoad::new(true, '\\');
    let _ = auto.opened_by_name(Err("missing".to_string()));
    let step = auto.home(None);
    let AutoLoadStep::Done(Err(Error::ClientLibrary(msg))) = step else {
        panic!("expected failure");
    };
    assert_eq!(msg, "failed to load yascli.dll; tried yascli.dll: missing");
}

#[test]
fn auto_load_from_user_dir_records_source() {
    let (mut auto, _) = AutoLoad::new(false, '/');
    let _ = auto.opened_by_name(Err("x".to_string()));
    let _ = auto.home(Some("/h".to_string()));
    let step = auto.opened_in_dir(Ok("/real/libyascli.so".to_string()));
    assert!(matches!(step, AutoLoadStep::Done(Ok(LibrarySource::File(p))) if p == "/real/libyascli.so"));
}

#[test]
fn load_explicit_non_library_file_errors() {
    // A file that is not a dynamic library: the loader's reason is kept.
    let err = explicit_load_error("Cargo.toml", "invalid ELF header");
    assert!(matches!(err, Error::ClientLibrary(ref m) if m == "failed to load Cargo.toml: invalid ELF header"));
}

#[test]
fn load_explicit_directory_errors() {
    let err = explicit_load_error("/tmp", "Is a directory");
    assert!(matches!(err, Error::ClientLibrary(_)));
}
