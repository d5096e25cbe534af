use cargo_template::cache::Plan;
use cargo_template::config::Config;
use cargo_template::errors::Error;
use cargo_template::index::{get_index, index_file, Index, IndexLoader, IndexMember};
use cargo_template::paths::join_path;

fn member(name: &str, loc: &str) -> IndexMember {
    IndexMember { name: name.to_string(), loc: loc.to_string() }
}

#[test]
fn index_holds_one_entry_for_each_record() {
    let index = Index::from_members(vec![
        member("web", "https://example.com/web"),
        member("cli", "/srv/templates/cli"),
        member("lib", "https://example.com/lib"),
    ]);
    assert_eq!(index.len(), 3);
    assert_eq!(index.get("web").unwrap(), "https://example.com/web");
    assert_eq!(index.get("cli").unwrap(), "/srv/templates/cli");
    assert_eq!(index.get("lib").unwrap(), "https://example.com/lib");
    assert!(index.get("gui").is_none());
}

#[test]
fn duplicate_names_collapse_to_the_last_listed() {
    let index = Index::from_members(vec![
        member("web", "first"),
        member("cli", "only"),
        member("web", "second"),
    ]);
    assert_eq!(index.len(), 2);
    assert_eq!(index.get("web").unwrap(), "second");
    assert_eq!(index.get("cli").unwrap(), "only");
}

#[test]
fn empty_membership_gives_empty_index() {
    let index = get_index(Some(Vec::new())).unwrap();
    assert_eq!(index.len(), 0);
    assert!(index.get("web").is_none());
}

#[test]
fn missing_membership_file_is_index_corrupt() {
    assert!(matches!(get_index(None), Err(Error::IndexCorrupt)));
}

#[test]
fn locate_reports_a_name_that_is_not_listed() {
    let index = Index::from_members(vec![member("web", "w")]);
    assert_eq!(index.locate("web").unwrap(), "w");
    assert!(matches!(index.locate("gui"), Err(Error::TemplateDoesNotExist(ref n)) if n == "gui"));
}

#[test]
fn url_becomes_one_directory_name() {
    let loader = IndexLoader::new("/cache/index");
    assert_eq!(
        loader.url_to_repo_dir("https://github.com/rusttemplates/templates"),
        "https___github.com_rusttemplates_templates"
    );
    assert_eq!(loader.url_to_repo_dir("a b:c/d"), "a-b_c_d");
    assert_eq!(loader.url_to_repo_dir(""), "");
    assert_eq!(loader.url_to_repo_dir("caf\u{e9} \u{1F600}/x"), "caf\u{e9}-\u{1F600}_x");
}

#[test]
fn cached_index_is_reused_online_and_offline() {
    let loader = IndexLoader::new("/cache/index");
    for frozen in [false, true] {
        match loader.update_or_clone("git://host/idx", frozen, true) {
            Ok(Plan::Use(path)) => assert_eq!(path, "/cache/index/git___host_idx"),
            other => panic!("{:?}", other),
        }
    }
}

#[test]
fn uncached_index_is_fetched_into_the_cache() {
    let loader = IndexLoader::new("/cache/index/");
    match loader.update_or_clone("git://host/idx", false, false) {
        Ok(Plan::Fetch { source, into }) => {
            assert_eq!(source, "git://host/idx");
            assert_eq!(into, "/cache/index/git___host_idx");
        }
        other => panic!("{:?}", other),
    }
}

#[test]
fn offline_uncached_index_is_unavailable_and_not_fetched() {
    let loader = IndexLoader::new("/cache/index");
    for _ in 0..2 {
        assert!(matches!(
            loader.update_or_clone("git://host/idx", true, false),
            Err(Error::IndexUnavailable)
        ));
    }
}

#[test]
fn refresh_takes_the_checkout_as_it_stands() {
    let loader = IndexLoader::new("/cache/index");
    assert_eq!(loader.update_index("/cache/index/x").unwrap(), "/cache/index/x");
}

#[test]
fn failed_index_fetch_is_index_unavailable() {
    let loader = IndexLoader::new("/cache/index");
    assert!(matches!(loader.clone_index("u", false), Err(Error::IndexUnavailable)));
    assert_eq!(loader.clone_index("u:v", true).unwrap(), "/cache/index/u_v");
    assert_eq!(loader.repo_path("u:v"), "/cache/index/u_v");
}

#[test]
fn membership_file_stands_in_the_checkout() {
    assert_eq!(index_file("/cache/index/x"), "/cache/index/x/index.json");
}

#[test]
fn paths_are_joined_with_one_separator() {
    assert_eq!(join_path("/a", "b"), "/a/b");
    assert_eq!(join_path("/a/", "b"), "/a/b");
    assert_eq!(join_path("", "b"), "b");
    assert_eq!(join_path("/a", "/b"), "/b");
    assert_eq!(join_path("/a", ""), "/a/");
    assert_eq!(join_path("", ""), "");
    assert_eq!(join_path("/", "b"), "/b");
}

#[test]
fn config_takes_the_default_index() {
    let config = Config::new(None, "/home/u/.cargo");
    assert_eq!(config.index, "https://github.com/rusttemplates/templates");
    assert_eq!(config.index_path, "/home/u/.cargo/cargo-template/index");
    assert_eq!(config.templates_path, "/home/u/.cargo/cargo-template/templates");
    assert!(config.resolved_index_path.is_none());
}

#[test]
fn config_takes_the_index_of_the_settings() {
    let mut config = Config::new(Some("file:///idx".to_string()), "/c");
    assert_eq!(config.index, "file:///idx");
    config.resolve_index("/c/cargo-template/index/file____idx".to_string());
    assert_eq!(
        config.resolved_index_path.as_deref(),
        Some("/c/cargo-template/index/file____idx")
    );
    assert_eq!(config.index, "file:///idx");
}
