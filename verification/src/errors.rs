use vstd::prelude::*;
use vstd::string::StringExecFns;

verus! {

/// Why a run of the pipeline stopped.
#[derive(Debug)]
pub enum Error {
    /// The destination directory is already there.
    ProjectExists(String),
    /// The index could not be fetched.
    IndexUnavailable,
    /// The membership file of the index is missing or cannot be read as one.
    IndexCorrupt,
    /// The index has no template of this name.
    TemplateDoesNotExist(String),
    /// Offline, and the template is not in the cache.
    TemplateNotFound(String),
    /// The template could not be fetched.
    TemplateFetchFailed(String),
    /// The source of a tree copy is missing or is no directory.
    SourceMissing(String),
    /// No source gave an author name; holds the variable to set.
    NameUnresolved(String),
    /// The manifest is no document with a `package` table.
    ManifestParseError(String),
    /// Anything else: an I/O, settings or version-control failure, in words.
    Other(String),
}

/// An [`Error`] with its texts as sequences of characters.
pub enum ErrorView {
    ProjectExists(Seq<char>),
    IndexUnavailable,
    IndexCorrupt,
    TemplateDoesNotExist(Seq<char>),
    TemplateNotFound(Seq<char>),
    TemplateFetchFailed(Seq<char>),
    SourceMissing(Seq<char>),
    NameUnresolved(Seq<char>),
    ManifestParseError(Seq<char>),
    Other(Seq<char>),
}

impl View for Error {
    type V = ErrorView;

    open spec fn view(&self) -> ErrorView {
        match *self {
            Error::ProjectExists(t) => ErrorView::ProjectExists(t@),
            Error::IndexUnavailable => ErrorView::IndexUnavailable,
            Error::IndexCorrupt => ErrorView::IndexCorrupt,
            Error::TemplateDoesNotExist(t) => ErrorView::TemplateDoesNotExist(t@),
            Error::TemplateNotFound(t) => ErrorView::TemplateNotFound(t@),
            Error::TemplateFetchFailed(t) => ErrorView::TemplateFetchFailed(t@),
            Error::SourceMissing(t) => ErrorView::SourceMissing(t@),
            Error::NameUnresolved(t) => ErrorView::NameUnresolved(t@),
            Error::ManifestParseError(t) => ErrorView::ManifestParseError(t@),
            Error::Other(t) => ErrorView::Other(t@),
        }
    }
}

impl ErrorView {
    /// The one line shown to the user for this error.
    pub open spec fn message(self) -> Seq<char> {
        match self {
            ErrorView::ProjectExists(t) => "The project "@ + t + " already exists"@,
            ErrorView::IndexUnavailable => "Could not fetch the template index"@,
            ErrorView::IndexCorrupt => "Could not read the template index"@,
            ErrorView::TemplateDoesNotExist(t) => "Could not find template "@ + t
                + " in the index"@,
            ErrorView::TemplateNotFound(t) => "Could not find template "@ + t + " locally"@,
            ErrorView::TemplateFetchFailed(t) => "Could not fetch template "@ + t,
            ErrorView::SourceMissing(t) => "Source directory '"@ + t
                + "' does not exist or is not a directory"@,
            ErrorView::NameUnresolved(t) => "Could not find username, please set "@ + t,
            ErrorView::ManifestParseError(t) => "Error parsing toml file "@ + t,
            ErrorView::Other(t) => t,
        }
    }
}

/// `head`, then `middle`, then `tail`.
fn framed(head: &str, middle: &str, tail: &str) -> (text: String)
    ensures
        text@ == head@ + middle@ + tail@,
{
    let mut text = String::from_str(head);
    text.append(middle);
    text.append(tail);
    text
}

impl Clone for Error {
    fn clone(&self) -> (copy: Error)
        ensures
            copy@ == self@,
    {
        match self {
            Error::ProjectExists(t) => Error::ProjectExists(t.clone()),
            Error::IndexUnavailable => Error::IndexUnavailable,
            Error::IndexCorrupt => Error::IndexCorrupt,
            Error::TemplateDoesNotExist(t) => Error::TemplateDoesNotExist(t.clone()),
            Error::TemplateNotFound(t) => Error::TemplateNotFound(t.clone()),
            Error::TemplateFetchFailed(t) => Error::TemplateFetchFailed(t.clone()),
            Error::SourceMissing(t) => Error::SourceMissing(t.clone()),
            Error::NameUnresolved(t) => Error::NameUnresolved(t.clone()),
            Error::ManifestParseError(t) => Error::ManifestParseError(t.clone()),
            Error::Other(t) => Error::Other(t.clone()),
        }
    }
}

impl Error {
    /// The one line shown to the user for this error.
    pub fn message(&self) -> (text: String)
        ensures
            text@ == self@.message(),
    {
        match self {
            Error::ProjectExists(t) => framed("The project ", t.as_str(), " already exists"),
            Error::IndexUnavailable => String::from_str("Could not fetch the template index"),
            Error::IndexCorrupt => String::from_str("Could not read the template index"),
            Error::TemplateDoesNotExist(t) => framed(
                "Could not find template ",
                t.as_str(),
                " in the index",
            ),
            Error::TemplateNotFound(t) => framed("Could not find template ", t.as_str(), " locally"),
            Error::TemplateFetchFailed(t) => String::from_str("Could not fetch template ").concat(
                t.as_str(),
            ),
            Error::SourceMissing(t) => framed(
                "Source directory '",
                t.as_str(),
                "' does not exist or is not a directory",
            ),
            Error::NameUnresolved(t) => String::from_str(
                "Could not find username, please set ",
            ).concat(t.as_str()),
            Error::ManifestParseError(t) => String::from_str("Error parsing toml file ").concat(
                t.as_str(),
            ),
            Error::Other(t) => t.clone(),
        }
    }
}

} // verus!
