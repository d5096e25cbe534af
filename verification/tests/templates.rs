use cargo_template::cache::Plan;
use cargo_template::errors::Error;
use cargo_template::materialize::{copy_dir, entry_action, is_vcs_dir, EntryAction, EntryKind};
use cargo_template::templates::{fetched_template, get_template};

#[test]
fn cached_template_is_returned_without_refresh() {
    for frozen in [false, true] {
        for local in [false, true] {
            match get_template("web", "https://h/web", "/t", frozen, true, local) {
                Ok(Plan::Use(path)) => assert_eq!(path, "/t/web"),
                other => panic!("{:?}", other),
            }
        }
    }
}

#[test]
fn offline_uncached_template_is_not_found() {
    for local in [false, true] {
        for _ in 0..2 {
            let plan = get_template("web", "https://h/web", "/t", true, false, local);
            assert!(matches!(plan, Err(Error::TemplateNotFound(ref n)) if n == "web"));
        }
    }
}

#[test]
fn local_directory_template_is_used_in_place() {
    match get_template("web", "/srv/web", "/t", false, false, true) {
        Ok(Plan::Use(path)) => assert_eq!(path, "/srv/web"),
        other => panic!("{:?}", other),
    }
}

#[test]
fn remote_template_is_fetched_into_the_cache() {
    match get_template("web", "https://h/web", "/t", false, false, false) {
        Ok(Plan::Fetch { source, into }) => {
            assert_eq!(source, "https://h/web");
            assert_eq!(into, "/t/web");
        }
        other => panic!("{:?}", other),
    }
}

#[test]
fn failed_template_fetch_is_fatal() {
    assert!(matches!(
        fetched_template("web", "/t", false),
        Err(Error::TemplateFetchFailed(ref n)) if n == "web"
    ));
    assert_eq!(fetched_template("web", "/t", true).unwrap(), "/t/web");
}

#[test]
fn copy_passes_over_the_metadata_directory() {
    assert_eq!(entry_action(".git", EntryKind::Directory), EntryAction::Skip);
    assert_eq!(entry_action(".git", EntryKind::File), EntryAction::Skip);
    assert_eq!(entry_action(".git", EntryKind::Other), EntryAction::Skip);
    assert!(is_vcs_dir(".git"));
    assert!(!is_vcs_dir(".gitignore"));
    assert!(!is_vcs_dir("git"));
    assert!(!is_vcs_dir(""));
}

#[test]
fn copy_takes_files_and_directories() {
    assert_eq!(entry_action("src", EntryKind::Directory), EntryAction::Descend);
    assert_eq!(entry_action("Cargo.toml", EntryKind::File), EntryAction::CopyFile);
    assert_eq!(entry_action(".gitignore", EntryKind::File), EntryAction::CopyFile);
    assert_eq!(entry_action("socket", EntryKind::Other), EntryAction::Ignore);
}

#[test]
fn copy_refuses_a_source_that_is_no_directory() {
    assert!(matches!(copy_dir("/nowhere", false, false), Err(Error::SourceMissing(ref p)) if p == "/nowhere"));
    assert!(matches!(copy_dir("/a/file", true, false), Err(Error::SourceMissing(ref p)) if p == "/a/file"));
    assert!(matches!(copy_dir("/odd", false, true), Err(Error::SourceMissing(_))));
    assert!(copy_dir("/a/dir", true, true).is_ok());
}
