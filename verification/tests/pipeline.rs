use cargo_template::errors::Error;
use cargo_template::identity::Source;
use cargo_template::index::IndexMember;
use cargo_template::pipeline::{ManifestFile, Pipeline, Reply, Request, Stage};

fn fresh(template: &str, frozen: bool) -> Pipeline {
    Pipeline::new("/work", template, "foo", frozen, false)
}

fn settings() -> Reply {
    Reply::Settings { registry_index: None, cargo_home: "/home/u/.cargo".to_string() }
}

fn members() -> Reply {
    Reply::Members(Some(vec![
        IndexMember { name: "web".to_string(), loc: "https://h/web".to_string() },
        IndexMember { name: "cli".to_string(), loc: "/srv/cli".to_string() },
    ]))
}

/// Takes a run to the probe of the template cache for `template`.
fn at_template_cache(template: &str, frozen: bool) -> Pipeline {
    let run = fresh(template, frozen)
        .advance(Reply::Answer(false))
        .advance(settings())
        .advance(Reply::Finished)
        .advance(Reply::Answer(false))
        .advance(Reply::Answer(true))
        .advance(members());
    assert!(matches!(run.stage, Stage::TemplateCache { .. }));
    run
}

#[test]
fn existing_destination_fails_before_anything_else() {
    let run = fresh("web", false);
    match run.request() {
        Some(Request::Exists(path)) => assert_eq!(path, "/work/foo"),
        other => panic!("{:?}", other),
    }
    let run = run.advance(Reply::Answer(true));
    assert!(run.request().is_none());
    assert!(matches!(run.outcome(), Some(Err(Error::ProjectExists(ref p))) if p == "/work/foo"));
    assert!(run.config.is_none());
    let run = run.advance(Reply::Finished).advance(settings());
    assert!(matches!(run.outcome(), Some(Err(Error::ProjectExists(_)))));
    assert!(run.request().is_none());
}

#[test]
fn local_directory_argument_bypasses_both_stores() {
    let run = fresh("/srv/tpl", true).advance(Reply::Answer(false));
    assert!(matches!(run.request(), Some(Request::ReadSettings)));
    let run = run.advance(settings());
    match run.request() {
        Some(Request::EnsureDirectories(dirs)) => assert_eq!(
            dirs,
            vec![
                "/home/u/.cargo/cargo-template/index".to_string(),
                "/home/u/.cargo/cargo-template/templates".to_string()
            ]
        ),
        other => panic!("{:?}", other),
    }
    let run = run.advance(Reply::Finished);
    match run.request() {
        Some(Request::IsDirectory(path)) => assert_eq!(path, "/srv/tpl"),
        other => panic!("{:?}", other),
    }
    let run = run.advance(Reply::Answer(true));
    match run.request() {
        Some(Request::CopyTree { from, to }) => {
            assert_eq!(from, "/srv/tpl");
            assert_eq!(to, "/work/foo");
        }
        other => panic!("{:?}", other),
    }
    assert!(run.config.as_ref().unwrap().resolved_index_path.is_none());
}

#[test]
fn offline_uncached_template_fails_both_times() {
    for _ in 0..2 {
        let run = at_template_cache("web", true);
        match run.request() {
            Some(Request::ProbeTemplate { cache, location }) => {
                assert_eq!(cache, "/home/u/.cargo/cargo-template/templates/web");
                assert_eq!(location, "https://h/web");
            }
            other => panic!("{:?}", other),
        }
        let run = run.advance(Reply::Probed { cached: false, local: false });
        assert!(matches!(run.outcome(), Some(Err(Error::TemplateNotFound(ref n))) if n == "web"));
        assert!(run.request().is_none());
    }
}

#[test]
fn run_through_the_index_to_the_end() {
    let run = fresh("web", false)
        .advance(Reply::Answer(false))
        .advance(settings())
        .advance(Reply::Finished)
        .advance(Reply::Answer(false));
    match run.request() {
        Some(Request::IsDirectory(path)) => assert_eq!(
            path,
            "/home/u/.cargo/cargo-template/index/https___github.com_rusttemplates_templates"
        ),
        other => panic!("{:?}", other),
    }
    let run = run.advance(Reply::Answer(false));
    match run.request() {
        Some(Request::Fetch { source, into }) => {
            assert_eq!(source, "https://github.com/rusttemplates/templates");
            assert_eq!(
                into,
                "/home/u/.cargo/cargo-template/index/https___github.com_rusttemplates_templates"
            );
        }
        other => panic!("{:?}", other),
    }
    let run = run.advance(Reply::Fetched(true));
    assert_eq!(
        run.config.as_ref().unwrap().resolved_index_path.as_deref(),
        Some("/home/u/.cargo/cargo-template/index/https___github.com_rusttemplates_templates")
    );
    match run.request() {
        Some(Request::ReadIndex(path)) => assert_eq!(
            path,
            "/home/u/.cargo/cargo-template/index/https___github.com_rusttemplates_templates/index.json"
        ),
        other => panic!("{:?}", other),
    }
    let run = run.advance(members()).advance(Reply::Probed { cached: false, local: false });
    match run.request() {
        Some(Request::Fetch { source, into }) => {
            assert_eq!(source, "https://h/web");
            assert_eq!(into, "/home/u/.cargo/cargo-template/templates/web");
        }
        other => panic!("{:?}", other),
    }
    let run = run.advance(Reply::Fetched(true));
    match run.request() {
        Some(Request::CopyTree { from, to }) => {
            assert_eq!(from, "/home/u/.cargo/cargo-template/templates/web");
            assert_eq!(to, "/work/foo");
        }
        other => panic!("{:?}", other),
    }
    let run = run.advance(Reply::Copied(None));
    match run.request() {
        Some(Request::ReadIdentity { names, emails }) => {
            assert_eq!(names.len(), 6);
            assert_eq!(emails.len(), 5);
            assert!(matches!(names[4], Source::Variable("USER")));
        }
        other => panic!("{:?}", other),
    }
    let run = run.advance(Reply::Identity {
        names: vec![None, None, None, Some(" Ada ".to_string()), None, None],
        emails: vec![None, None, None, None, Some("ada@example.com".to_string())],
    });
    match run.request() {
        Some(Request::FindManifest(dir)) => assert_eq!(dir, "/work/foo"),
        other => panic!("{:?}", other),
    }
    let run = run.advance(Reply::Manifest(Some(ManifestFile {
        path: "/work/foo/Cargo.toml".to_string(),
        text: "[package]\nname = \"old\"\nauthors = [\"x\"]\n".to_string(),
    })));
    match run.request() {
        Some(Request::WriteManifest { path, text }) => {
            assert_eq!(path, "/work/foo/Cargo.toml");
            assert_eq!(
                text,
                "[package]\nauthors = [\"Ada <ada@example.com>\"]\nname = \"foo\"\n"
            );
        }
        other => panic!("{:?}", other),
    }
    assert!(run.outcome().is_none());
    let run = run.advance(Reply::Finished);
    assert!(matches!(run.outcome(), Some(Ok(()))));
    assert!(run.request().is_none());
}

#[test]
fn cached_index_and_cached_template_need_no_fetch() {
    let run = at_template_cache("cli", false);
    assert_eq!(
        run.config.as_ref().unwrap().resolved_index_path.as_deref(),
        Some("/home/u/.cargo/cargo-template/index/https___github.com_rusttemplates_templates")
    );
    let run = run.advance(Reply::Probed { cached: true, local: true });
    match run.request() {
        Some(Request::CopyTree { from, .. }) => {
            assert_eq!(from, "/home/u/.cargo/cargo-template/templates/cli")
        }
        other => panic!("{:?}", other),
    }
}

#[test]
fn local_location_is_copied_from_where_it_stands() {
    let run = at_template_cache("cli", false).advance(Reply::Probed { cached: false, local: true });
    match run.request() {
        Some(Request::CopyTree { from, .. }) => assert_eq!(from, "/srv/cli"),
        other => panic!("{:?}", other),
    }
}

#[test]
fn template_that_the_index_lacks_does_not_exist() {
    let run = fresh("gui", false)
        .advance(Reply::Answer(false))
        .advance(settings())
        .advance(Reply::Finished)
        .advance(Reply::Answer(false))
        .advance(Reply::Answer(true))
        .advance(members());
    assert!(matches!(run.outcome(), Some(Err(Error::TemplateDoesNotExist(ref n))) if n == "gui"));
}

#[test]
fn index_failures_stop_the_run() {
    let to_index = |frozen: bool| {
        fresh("web", frozen)
            .advance(Reply::Answer(false))
            .advance(settings())
            .advance(Reply::Finished)
            .advance(Reply::Answer(false))
    };
    let run = to_index(false).advance(Reply::Answer(false)).advance(Reply::Fetched(false));
    assert!(matches!(run.outcome(), Some(Err(Error::IndexUnavailable))));
    let run = to_index(false).advance(Reply::Answer(true)).advance(Reply::Members(None));
    assert!(matches!(run.outcome(), Some(Err(Error::IndexCorrupt))));
}

#[test]
fn failed_template_fetch_stops_the_run() {
    let run = at_template_cache("web", false)
        .advance(Reply::Probed { cached: false, local: false })
        .advance(Reply::Fetched(false));
    assert!(matches!(run.outcome(), Some(Err(Error::TemplateFetchFailed(ref n))) if n == "web"));
}

#[test]
fn copy_and_identity_failures_stop_the_run() {
    let copying = || {
        fresh("/srv/tpl", false)
            .advance(Reply::Answer(false))
            .advance(settings())
            .advance(Reply::Finished)
            .advance(Reply::Answer(true))
    };
    let run = copying().advance(Reply::Copied(Some(Error::SourceMissing("/srv/tpl".to_string()))));
    assert!(matches!(run.outcome(), Some(Err(Error::SourceMissing(ref p))) if p == "/srv/tpl"));
    let run = copying()
        .advance(Reply::Copied(None))
        .advance(Reply::Identity { names: vec![None; 6], emails: vec![None; 5] });
    assert!(matches!(run.outcome(), Some(Err(Error::NameUnresolved(ref v))) if v == "USER"));
}

#[test]
fn missing_manifest_is_skipped_and_bad_manifest_fails() {
    let personalizing = || {
        fresh("/srv/tpl", false)
            .advance(Reply::Answer(false))
            .advance(settings())
            .advance(Reply::Finished)
            .advance(Reply::Answer(true))
            .advance(Reply::Copied(None))
            .advance(Reply::Identity { names: vec![Some("Ada".to_string())], emails: Vec::new() })
    };
    let run = personalizing().advance(Reply::Manifest(None));
    assert!(matches!(run.outcome(), Some(Ok(()))));
    let run = personalizing().advance(Reply::Manifest(Some(ManifestFile {
        path: "/work/foo/Cargo.toml".to_string(),
        text: "name = \"x\"\n".to_string(),
    })));
    assert!(matches!(
        run.outcome(),
        Some(Err(Error::ManifestParseError(ref p))) if p == "/work/foo/Cargo.toml"
    ));
}

#[test]
fn unnamed_failure_and_unexpected_reply_stop_the_run() {
    let run = fresh("web", false).advance(Reply::Answer(false)).advance(Reply::Failure(
        "environment variable not found".to_string(),
    ));
    assert!(matches!(
        run.outcome(),
        Some(Err(Error::Other(ref m))) if m == "environment variable not found"
    ));
    let run = fresh("web", false).advance(Reply::Finished);
    assert!(matches!(run.outcome(), Some(Err(Error::Other(ref m))) if m == "unexpected reply"));
}

#[test]
fn copy_error_of_another_kind_is_passed_on_by_its_line() {
    let run = fresh("/srv/tpl", false)
        .advance(Reply::Answer(false))
        .advance(settings())
        .advance(Reply::Finished)
        .advance(Reply::Answer(true))
        .advance(Reply::Copied(Some(Error::IndexCorrupt)));
    assert!(matches!(
        run.outcome(),
        Some(Err(Error::Other(ref m))) if m == "Could not read the template index"
    ));
    let run = fresh("/srv/tpl", false)
        .advance(Reply::Answer(false))
        .advance(settings())
        .advance(Reply::Finished)
        .advance(Reply::Answer(true))
        .advance(Reply::Copied(Some(Error::Other("disk full".to_string()))));
    assert!(matches!(run.outcome(), Some(Err(Error::Other(ref m))) if m == "disk full"));
}

#[test]
fn offline_run_without_cached_index_fails_and_fetches_nothing() {
    let run = fresh("web", true)
        .advance(Reply::Answer(false))
        .advance(settings())
        .advance(Reply::Finished)
        .advance(Reply::Answer(false));
    assert!(matches!(run.request(), Some(Request::IsDirectory(_))));
    let run = run.advance(Reply::Answer(false));
    assert!(run.request().is_none());
    assert!(matches!(run.outcome(), Some(Err(Error::IndexUnavailable))));
    assert!(run.config.as_ref().unwrap().resolved_index_path.is_none());
}

#[test]
fn offline_run_asks_for_no_fetch_on_any_path() {
    let replies: Vec<fn() -> Reply> = vec![
        || Reply::Answer(false),
        || Reply::Answer(true),
        settings,
        || Reply::Finished,
        members,
        || Reply::Fetched(true),
        || Reply::Probed { cached: false, local: false },
        || Reply::Probed { cached: false, local: true },
        || Reply::Probed { cached: true, local: false },
    ];
    // every sequence of four replies after the cache directories are made
    for a in 0..replies.len() {
        for b in 0..replies.len() {
            for c in 0..replies.len() {
                for d in 0..replies.len() {
                    let mut run = fresh("web", true)
                        .advance(Reply::Answer(false))
                        .advance(settings())
                        .advance(Reply::Finished);
                    for pick in [a, b, c, d] {
                        assert!(!matches!(run.request(), Some(Request::Fetch { .. })));
                        run = run.advance(replies[pick]());
                    }
                    assert!(!matches!(run.request(), Some(Request::Fetch { .. })));
                }
            }
        }
    }
}
