use ccm_core::error::CcmError;
use ccm_core::paths::CcmPaths;
use ccm_core::profile::manager::{FileProbe, ProfileManager};
use ccm_core::profile::model::{CredentialSource, Profile, ProviderConfig};
use ccm_core::profile::names::{DirEntry, UNSAFE_NAME};
use std::collections::BTreeMap;

const DIR: &str = "/home/alice/.config/ccm/profiles";

fn manager() -> ProfileManager {
    let paths = CcmPaths::from_config_base(Some("/home/alice/.config".to_string())).unwrap();
    ProfileManager::with_paths(paths, false)
}

fn manager_where_backslash_separates() -> ProfileManager {
    let paths = CcmPaths::from_config_base(Some("/home/alice/.config".to_string())).unwrap();
    ProfileManager::with_paths(paths, true)
}

fn is_there(disk: &Disk, manager: &ProfileManager, name: &str) -> bool {
    match manager.path_of(name) {
        Ok(path) => disk.files.contains_key(&path),
        Err(_) => false,
    }
}

fn profile(name: &str) -> Profile {
    Profile {
        name: name.to_string(),
        provider: ProviderConfig {
            base_url: "https://api.example.com".to_string(),
            model: "large".to_string(),
            small_fast_model: Some("small".to_string()),
            auth_token_source: CredentialSource::Keychain { service: "ccm-example".to_string() },
            extra_env: vec![("REGION".to_string(), "eu".to_string())],
        },
    }
}

/// The files of a disk that lives in memory, by path.
struct Disk {
    files: BTreeMap<String, String>,
}

fn empty_disk() -> Disk {
    Disk { files: BTreeMap::new() }
}

fn create(disk: &mut Disk, manager: &ProfileManager, profile: &Profile) -> Result<(), CcmError> {
    let write = manager.create(profile, is_there(disk, manager, &profile.name))?;
    assert_eq!(write.path, manager.get_profile_path(&profile.name));
    disk.files.insert(write.path, write.content);
    Ok(())
}

fn get(disk: &Disk, manager: &ProfileManager, name: &str) -> Result<Profile, CcmError> {
    let found = match manager.path_of(name).ok().and_then(|path| disk.files.get(&path)) {
        Some(text) => FileProbe::Content(text.clone()),
        None => FileProbe::Absent,
    };
    manager.get(name, found)
}

fn delete(disk: &mut Disk, manager: &ProfileManager, name: &str) -> Result<(), CcmError> {
    let path = manager.delete(name, is_there(disk, manager, name))?;
    assert!(disk.files.remove(&path).is_some());
    Ok(())
}

fn scan(disk: &Disk, manager: &ProfileManager) -> Vec<DirEntry> {
    let prefix = format!("{}/", manager.profiles_dir());
    let mut entries = Vec::new();
    for path in disk.files.keys() {
        if let Some(rest) = path.strip_prefix(&prefix) {
            if !rest.contains('/') {
                entries.push(DirEntry { file_name: Some(rest.to_string()), is_file: true });
            }
        }
    }
    entries
}

fn list(disk: &Disk, manager: &ProfileManager) -> Result<Vec<String>, CcmError> {
    manager.list(Ok(scan(disk, manager)))
}

fn env_of(profile: &Profile) -> BTreeMap<String, String> {
    profile.provider.extra_env.iter().cloned().collect()
}

fn assert_same(read: &Profile, written: &Profile) {
    assert_eq!(read.name, written.name);
    assert_eq!(read.provider.base_url, written.provider.base_url);
    assert_eq!(read.provider.model, written.provider.model);
    assert_eq!(read.provider.small_fast_model, written.provider.small_fast_model);
    match (&read.provider.auth_token_source, &written.provider.auth_token_source) {
        (CredentialSource::Keychain { service: a }, CredentialSource::Keychain { service: b }) => {
            assert_eq!(a, b)
        }
        (
            CredentialSource::Environment { var_name: a },
            CredentialSource::Environment { var_name: b },
        ) => assert_eq!(a, b),
        (CredentialSource::Encrypted { path: a }, CredentialSource::Encrypted { path: b }) => {
            assert_eq!(a, b)
        }
        (a, b) => panic!("credential sources differ: {:?} and {:?}", a, b),
    }
    assert_eq!(env_of(read), env_of(written));
}

#[test]
fn profile_path_is_under_the_profile_directory() {
    let manager = manager();
    assert_eq!(manager.profiles_dir(), DIR);
    assert_eq!(
        manager.get_profile_path("work"),
        "/home/alice/.config/ccm/profiles/work.toml"
    );
    assert_eq!(
        manager.get_profile_path("my.profile"),
        "/home/alice/.config/ccm/profiles/my.profile.toml"
    );
}

#[test]
fn create_asks_for_one_write_through_a_staging_file() {
    let manager = manager();
    let write = manager.create(&profile("work"), false).unwrap();
    assert_eq!(write.path, "/home/alice/.config/ccm/profiles/work.toml");
    assert_eq!(write.staging_path, "/home/alice/.config/ccm/profiles/work.toml.tmp");
    assert!(write.content.contains("name = \"work\""));
}

#[test]
fn created_profile_is_read_back_equal_in_every_field() {
    let manager = manager();
    let mut disk = empty_disk();
    let written = profile("work");
    create(&mut disk, &manager, &written).unwrap();
    let read = get(&disk, &manager, "work").unwrap();
    assert_same(&read, &written);
}

#[test]
fn every_credential_source_is_read_back() {
    let manager = manager();
    let mut disk = empty_disk();
    let sources = vec![
        ("k", CredentialSource::Keychain { service: "svc".to_string() }),
        ("e", CredentialSource::Environment { var_name: "API_TOKEN".to_string() }),
        ("f", CredentialSource::Encrypted { path: "/secrets/token.enc".to_string() }),
    ];
    for (name, source) in sources {
        let mut written = profile(name);
        written.provider.auth_token_source = source;
        create(&mut disk, &manager, &written).unwrap();
        let read = get(&disk, &manager, name).unwrap();
        assert_same(&read, &written);
    }
}

#[test]
fn absent_model_and_empty_settings_are_read_back() {
    let manager = manager();
    let mut disk = empty_disk();
    let mut written = profile("bare");
    written.provider.small_fast_model = None;
    written.provider.extra_env = Vec::new();
    create(&mut disk, &manager, &written).unwrap();
    let read = get(&disk, &manager, "bare").unwrap();
    assert_eq!(read.provider.small_fast_model, None);
    assert!(read.provider.extra_env.is_empty());
    assert_same(&read, &written);
}

#[test]
fn empty_model_is_not_an_absent_model() {
    let manager = manager();
    let mut disk = empty_disk();
    let mut written = profile("empty");
    written.provider.small_fast_model = Some(String::new());
    create(&mut disk, &manager, &written).unwrap();
    let read = get(&disk, &manager, "empty").unwrap();
    assert_eq!(read.provider.small_fast_model, Some(String::new()));
}

#[test]
fn texts_with_quotes_and_newlines_are_read_back() {
    let manager = manager();
    let mut disk = empty_disk();
    let mut written = profile("odd");
    written.provider.base_url = "https://h/?q=\"a b\"\\".to_string();
    written.provider.model = "line one\nline two\ttab".to_string();
    written.provider.extra_env = vec![
        ("key with space".to_string(), "é ü 日本".to_string()),
        ("a.b".to_string(), "".to_string()),
    ];
    create(&mut disk, &manager, &written).unwrap();
    let read = get(&disk, &manager, "odd").unwrap();
    assert_same(&read, &written);
}

#[test]
fn later_pair_of_a_key_is_the_one_that_counts() {
    let manager = manager();
    let mut disk = empty_disk();
    let mut written = profile("twice");
    written.provider.extra_env = vec![
        ("K".to_string(), "first".to_string()),
        ("K".to_string(), "second".to_string()),
    ];
    create(&mut disk, &manager, &written).unwrap();
    let read = get(&disk, &manager, "twice").unwrap();
    assert_eq!(read.provider.extra_env, vec![("K".to_string(), "second".to_string())]);
}

#[test]
fn second_create_fails_and_keeps_the_first_write() {
    let manager = manager();
    let mut disk = empty_disk();
    let first = profile("work");
    let mut second = profile("work");
    second.provider.model = "other".to_string();
    create(&mut disk, &manager, &first).unwrap();
    let kept = disk.files.clone();
    let refused = create(&mut disk, &manager, &second);
    assert!(matches!(refused, Err(CcmError::AlreadyExists { ref name }) if name == "work"));
    assert_eq!(disk.files, kept);
    assert_eq!(get(&disk, &manager, "work").unwrap().provider.model, "large");
}

#[test]
fn create_on_an_existing_file_does_not_look_at_the_record() {
    let manager = manager();
    let refused = manager.create(&profile("work"), true);
    assert!(matches!(refused, Err(CcmError::AlreadyExists { ref name }) if name == "work"));
}

#[test]
fn write_of_wraps_a_failed_rendering() {
    let manager = manager();
    let refused = manager.write_of("work", Err("cannot write".to_string()));
    match refused {
        Err(CcmError::SerializationFailed { name, diagnostic }) => {
            assert_eq!(name, "work");
            assert_eq!(diagnostic, "cannot write");
        }
        other => panic!("unexpected outcome: {:?}", other),
    }
    let write = manager.write_of("work", Ok("text".to_string())).unwrap();
    assert_eq!(write.path, "/home/alice/.config/ccm/profiles/work.toml");
    assert_eq!(write.staging_path, "/home/alice/.config/ccm/profiles/work.toml.tmp");
    assert_eq!(write.content, "text");
}

#[test]
fn listing_is_sorted() {
    let manager = manager();
    let mut disk = empty_disk();
    for name in ["b", "a", "c"] {
        create(&mut disk, &manager, &profile(name)).unwrap();
    }
    assert_eq!(list(&disk, &manager).unwrap(), vec!["a", "b", "c"]);
}

#[test]
fn listing_of_an_empty_store_is_empty() {
    let manager = manager();
    let disk = empty_disk();
    assert_eq!(list(&disk, &manager).unwrap(), Vec::<String>::new());
    assert_eq!(manager.list(Ok(Vec::new())).unwrap(), Vec::<String>::new());
}

#[test]
fn listing_orders_by_code_point() {
    let manager = manager();
    let entries = ["b.toml", "B.toml", "ab.toml", "a.toml", "é.toml", "z.toml", "10.toml", "9.toml"]
        .iter()
        .map(|name| DirEntry { file_name: Some(name.to_string()), is_file: true })
        .collect();
    assert_eq!(
        manager.list(Ok(entries)).unwrap(),
        vec!["10", "9", "B", "a", "ab", "b", "z", "é"]
    );
}

#[test]
fn listing_counts_regular_profile_files_only() {
    let manager = manager();
    let entries = vec![
        DirEntry { file_name: Some("work.toml".to_string()), is_file: true },
        DirEntry { file_name: Some("notes.txt".to_string()), is_file: true },
        DirEntry { file_name: Some("dir.toml".to_string()), is_file: false },
        DirEntry { file_name: None, is_file: true },
        DirEntry { file_name: Some("work.toml.tmp".to_string()), is_file: true },
        DirEntry { file_name: Some("toml".to_string()), is_file: true },
        DirEntry { file_name: Some("my.profile.toml".to_string()), is_file: true },
        DirEntry { file_name: Some("work.toml".to_string()), is_file: true },
        DirEntry { file_name: Some("x.TOML".to_string()), is_file: true },
    ];
    assert_eq!(manager.list(Ok(entries)).unwrap(), vec!["my.profile", "work"]);
}

#[test]
fn listing_knows_the_profile_with_the_empty_name() {
    let manager = manager();
    let entries = vec![
        DirEntry { file_name: Some("a.toml".to_string()), is_file: true },
        DirEntry { file_name: Some(".toml".to_string()), is_file: true },
    ];
    assert_eq!(manager.list(Ok(entries)).unwrap(), vec!["", "a"]);
    assert_eq!(manager.get_profile_path(""), "/home/alice/.config/ccm/profiles/.toml");
}

#[test]
fn failed_scan_is_an_io_error_of_the_directory() {
    let manager = manager();
    match manager.list(Err("permission denied".to_string())) {
        Err(CcmError::Io { path, message }) => {
            assert_eq!(path, DIR);
            assert_eq!(message, "permission denied");
        }
        other => panic!("unexpected outcome: {:?}", other),
    }
}

#[test]
fn missing_profile_is_not_found() {
    let manager = manager();
    let mut disk = empty_disk();
    assert!(matches!(
        get(&disk, &manager, "nope"),
        Err(CcmError::NotFound { ref name }) if name == "nope"
    ));
    assert!(matches!(
        delete(&mut disk, &manager, "nope"),
        Err(CcmError::NotFound { ref name }) if name == "nope"
    ));
    assert!(disk.files.is_empty());
}

#[test]
fn deleted_profile_is_gone() {
    let manager = manager();
    let mut disk = empty_disk();
    create(&mut disk, &manager, &profile("a")).unwrap();
    create(&mut disk, &manager, &profile("b")).unwrap();
    assert_eq!(
        manager.delete("a", true).unwrap(),
        "/home/alice/.config/ccm/profiles/a.toml"
    );
    delete(&mut disk, &manager, "a").unwrap();
    assert!(matches!(get(&disk, &manager, "a"), Err(CcmError::NotFound { .. })));
    assert_eq!(list(&disk, &manager).unwrap(), vec!["b"]);
    assert_eq!(get(&disk, &manager, "b").unwrap().name, "b");
    create(&mut disk, &manager, &profile("a")).unwrap();
    assert_eq!(list(&disk, &manager).unwrap(), vec!["a", "b"]);
}

#[test]
fn corrupt_file_spoils_one_name_only() {
    let manager = manager();
    let mut disk = empty_disk();
    create(&mut disk, &manager, &profile("good")).unwrap();
    disk.files.insert(format!("{}/x.toml", DIR), "this is [ not a record".to_string());
    match get(&disk, &manager, "x") {
        Err(CcmError::DeserializationFailed { path, diagnostic }) => {
            assert_eq!(path, "/home/alice/.config/ccm/profiles/x.toml");
            assert!(!diagnostic.is_empty());
        }
        other => panic!("unexpected outcome: {:?}", other),
    }
    assert_eq!(list(&disk, &manager).unwrap(), vec!["good", "x"]);
    assert_same(&get(&disk, &manager, "good").unwrap(), &profile("good"));
}

#[test]
fn unreadable_file_is_an_io_error_of_its_path() {
    let manager = manager();
    match manager.get("work", FileProbe::Unreadable("is a directory".to_string())) {
        Err(CcmError::Io { path, message }) => {
            assert_eq!(path, "/home/alice/.config/ccm/profiles/work.toml");
            assert_eq!(message, "is a directory");
        }
        other => panic!("unexpected outcome: {:?}", other),
    }
}

#[test]
fn stored_text_holds_no_secret() {
    let manager = manager();
    let secret = "s3cr3t-token-value";
    let sources = vec![
        CredentialSource::Keychain { service: "ccm-example".to_string() },
        CredentialSource::Environment { var_name: "API_TOKEN".to_string() },
        CredentialSource::Encrypted { path: "/secrets/token.enc".to_string() },
    ];
    for source in sources {
        let resolved = source
            .resolve("work", ccm_core::credential::BackendReply::Secret(secret.to_string()))
            .unwrap();
        assert_eq!(resolved, secret);
        let mut written = profile("work");
        written.provider.auth_token_source = source;
        let write = manager.create(&written, false).unwrap();
        assert!(!write.content.contains(secret));
        assert!(!write.path.contains(secret));
    }
}

const UNSAFE: [&str; 5] = ["../x", "a/b", "/etc/passwd", "nul\0", "/"];

fn assert_refused<T: std::fmt::Debug>(outcome: Result<T, CcmError>, unsafe_name: &str) {
    match outcome {
        Err(CcmError::InvalidProfileName { name, reason }) => {
            assert_eq!(name, unsafe_name);
            assert_eq!(reason, UNSAFE_NAME);
            assert_eq!(
                reason,
                "a profile name must be one component of a path, without a separator or NUL"
            );
        }
        other => panic!("unexpected outcome: {:?}", other),
    }
}

#[test]
fn no_path_is_handed_out_under_an_unsafe_name() {
    let manager = manager();
    for name in UNSAFE {
        assert_refused(manager.path_of(name), name);
        assert_refused(manager.create(&profile(name), false), name);
        assert_refused(manager.write_of(name, Ok("text".to_string())), name);
        assert_refused(manager.write_of(name, Err("cannot write".to_string())), name);
        assert_refused(manager.delete(name, true), name);
        assert!(!manager.is_safe(name));
    }
}

#[test]
fn what_is_on_disk_decides_before_the_name_does() {
    let manager = manager();
    for name in UNSAFE {
        assert!(matches!(
            manager.create(&profile(name), true),
            Err(CcmError::AlreadyExists { name: ref refused }) if refused == name
        ));
        assert!(matches!(
            manager.delete(name, false),
            Err(CcmError::NotFound { name: ref missing }) if missing == name
        ));
        assert!(matches!(
            manager.get(name, FileProbe::Absent),
            Err(CcmError::NotFound { name: ref missing }) if missing == name
        ));
        match manager.get(name, FileProbe::Content("name = 1".to_string())) {
            Err(CcmError::DeserializationFailed { path, diagnostic }) => {
                assert_eq!(path, manager.get_profile_path(name));
                assert_eq!(diagnostic, ccm_core::profile::codec::FAULT_NAME);
            }
            other => panic!("unexpected outcome: {:?}", other),
        }
    }
}

#[test]
fn nobody_goes_to_the_disk_for_an_unsafe_name() {
    let manager = manager();
    let mut disk = empty_disk();
    disk.files.insert("/home/alice/.config/ccm/x.toml".to_string(), "outside".to_string());
    let kept = disk.files.clone();
    assert!(matches!(get(&disk, &manager, "../x"), Err(CcmError::NotFound { .. })));
    assert!(matches!(delete(&mut disk, &manager, "../x"), Err(CcmError::NotFound { .. })));
    assert_refused(create(&mut disk, &manager, &profile("../x")), "../x");
    assert_eq!(disk.files, kept);
}

#[test]
fn backslash_is_a_letter_where_the_host_takes_it_for_one() {
    let manager = manager();
    let mut disk = empty_disk();
    assert!(manager.is_safe("a\\b"));
    assert_eq!(
        manager.path_of("a\\b").unwrap(),
        "/home/alice/.config/ccm/profiles/a\\b.toml"
    );
    create(&mut disk, &manager, &profile("a\\b")).unwrap();
    assert_eq!(get(&disk, &manager, "a\\b").unwrap().name, "a\\b");
    assert_eq!(list(&disk, &manager).unwrap(), vec!["a\\b"]);
    disk.files.insert(manager.get_profile_path("c\\d"), "not a record [".to_string());
    assert!(matches!(
        get(&disk, &manager, "c\\d"),
        Err(CcmError::DeserializationFailed { .. })
    ));
    delete(&mut disk, &manager, "a\\b").unwrap();
    assert_eq!(list(&disk, &manager).unwrap(), vec!["c\\d"]);
}

#[test]
fn backslash_is_refused_where_the_host_takes_it_for_a_separator() {
    let manager = manager_where_backslash_separates();
    for name in ["a\\b", "..\\x", "\\"] {
        assert!(!manager.is_safe(name));
        assert_refused(manager.path_of(name), name);
        assert_refused(manager.create(&profile(name), false), name);
        assert_refused(manager.delete(name, true), name);
        assert!(matches!(manager.delete(name, false), Err(CcmError::NotFound { .. })));
        assert!(matches!(manager.create(&profile(name), true), Err(CcmError::AlreadyExists { .. })));
    }
    assert!(manager.is_safe("work"));
    assert_eq!(manager.path_of("work").unwrap(), "/home/alice/.config/ccm/profiles/work.toml");
}

#[test]
fn path_of_a_safe_name_is_in_the_profile_directory() {
    let manager = manager();
    assert_eq!(manager.path_of("work").unwrap(), "/home/alice/.config/ccm/profiles/work.toml");
    assert_eq!(manager.path_of("..").unwrap(), "/home/alice/.config/ccm/profiles/...toml");
    assert_eq!(manager.path_of("").unwrap(), "/home/alice/.config/ccm/profiles/.toml");
}

#[test]
fn every_write_lies_in_the_profile_directory() {
    let manager = manager();
    for name in ["work", "..", "", "a.b", "x.toml"] {
        let write = manager.create(&profile(name), false).unwrap();
        let file_name = write.path.strip_prefix(&format!("{}/", DIR)).unwrap();
        assert!(!file_name.contains('/'));
        assert_eq!(file_name, format!("{}.toml", name));
        assert_eq!(write.staging_path, format!("{}.tmp", write.path));
        assert_eq!(manager.delete(name, true).unwrap(), write.path);
    }
}

#[test]
fn listing_takes_the_names_as_the_directory_gives_them() {
    let manager = manager();
    let entries = vec![
        DirEntry { file_name: Some("a\\b.toml".to_string()), is_file: true },
        DirEntry { file_name: Some("ok.toml".to_string()), is_file: true },
    ];
    assert_eq!(manager.list(Ok(entries)).unwrap(), vec!["a\\b", "ok"]);
}
