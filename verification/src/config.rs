use vstd::prelude::*;
use vstd::string::StringExecFns;
use crate::identity::text_of;
use crate::paths::join_path;
use crate::paths::joined;

verus! {

/// The index that is asked where the settings name no other.
pub const DEFAULT_INDEX: &'static str = "https://github.com/rusttemplates/templates";

/// The tool's own directory below the cache-root base.
pub const TOOL_DIR: &'static str = "cargo-template";

/// Where a run finds the index and keeps its caches.
#[derive(Debug)]
pub struct Config {
    /// The index source: a URL or a path of a repository.
    pub index: String,
    /// The directory that holds the cached checkouts of indexes.
    pub index_path: String,
    /// The directory that holds the cached templates.
    pub templates_path: String,
    /// The checkout of the index, once it is resolved.
    pub resolved_index_path: Option<String>,
}

/// A [`Config`] with its texts as sequences of characters.
pub struct ConfigView {
    pub index: Seq<char>,
    pub index_path: Seq<char>,
    pub templates_path: Seq<char>,
    pub resolved_index_path: Option<Seq<char>>,
}

impl View for Config {
    type V = ConfigView;

    open spec fn view(&self) -> ConfigView {
        ConfigView {
            index: self.index@,
            index_path: self.index_path@,
            templates_path: self.templates_path@,
            resolved_index_path: text_of(self.resolved_index_path),
        }
    }
}

impl ConfigView {
    /// The configuration of a fresh run: the index that the settings name,
    /// else the default one, and the two caches below the tool's directory
    /// in `cargo_home`. No checkout is resolved yet.
    pub open spec fn initial(registry_index: Option<Seq<char>>, cargo_home: Seq<char>) -> ConfigView {
        let tool_dir = joined(cargo_home, TOOL_DIR@);
        ConfigView {
            index: match registry_index {
                Some(index) => index,
                None => DEFAULT_INDEX@,
            },
            index_path: joined(tool_dir, "index"@),
            templates_path: joined(tool_dir, "templates"@),
            resolved_index_path: None,
        }
    }

    /// The same configuration with the index checkout resolved to `path`.
    pub open spec fn resolved(self, path: Seq<char>) -> ConfigView {
        ConfigView { resolved_index_path: Some(path), ..self }
    }
}

impl Config {
    /// The configuration of a fresh run. `registry_index` is what the
    /// settings hold under `template.registry.index`, `cargo_home` the
    /// cache-root base.
    pub fn new(registry_index: Option<String>, cargo_home: &str) -> (config: Config)
        ensures
            config@ == ConfigView::initial(text_of(registry_index), cargo_home@),
    {
        let index = match registry_index {
            Some(index) => index,
            None => String::from_str(DEFAULT_INDEX),
        };
        let tool_dir = join_path(cargo_home, TOOL_DIR);
        let index_path = join_path(tool_dir.as_str(), "index");
        let templates_path = join_path(tool_dir.as_str(), "templates");
        Config { index, index_path, templates_path, resolved_index_path: None }
    }

    /// Records the checkout of the index.
    pub fn resolve_index(&mut self, path: String)
        ensures
            final(self)@ == old(self)@.resolved(path@),
    {
        self.resolved_index_path = Some(path);
    }
}

} // verus!
