use cargo_template::errors::Error;

#[test]
fn each_error_has_its_line() {
    let t = || "x".to_string();
    assert_eq!(Error::ProjectExists(t()).message(), "The project x already exists");
    assert_eq!(Error::IndexUnavailable.message(), "Could not fetch the template index");
    assert_eq!(Error::IndexCorrupt.message(), "Could not read the template index");
    assert_eq!(
        Error::TemplateDoesNotExist(t()).message(),
        "Could not find template x in the index"
    );
    assert_eq!(Error::TemplateNotFound(t()).message(), "Could not find template x locally");
    assert_eq!(Error::TemplateFetchFailed(t()).message(), "Could not fetch template x");
    assert_eq!(
        Error::SourceMissing(t()).message(),
        "Source directory 'x' does not exist or is not a directory"
    );
    assert_eq!(Error::NameUnresolved(t()).message(), "Could not find username, please set x");
    assert_eq!(Error::ManifestParseError(t()).message(), "Error parsing toml file x");
    assert_eq!(Error::Other(t()).message(), "x");
}

#[test]
fn error_clone_keeps_the_error() {
    let copy = Error::TemplateNotFound("web".to_string()).clone();
    assert!(matches!(copy, Error::TemplateNotFound(ref n) if n == "web"));
    assert!(matches!(Error::IndexCorrupt.clone(), Error::IndexCorrupt));
}
