use vstd::prelude::*;
use vstd::string::StringExecFns;
use crate::cache::Plan;
use crate::cache::PlanView;
use crate::config::Config;
use crate::config::ConfigView;
use crate::errors::Error;
use crate::errors::ErrorView;
use crate::identity::email_chain;
use crate::identity::email_sources;
use crate::identity::get_name_and_email;
use crate::identity::name_chain;
use crate::identity::name_sources;
use crate::identity::resolved_identity;
use crate::identity::text_of;
use crate::identity::texts_of;
use crate::identity::Identity;
use crate::identity::IdentityView;
use crate::identity::Source;
use crate::identity::SourceView;
use crate::index::folded;
use crate::index::get_index;
use crate::index::index_file;
use crate::index::index_plan;
use crate::index::records_of;
use crate::index::repo_dir_name;
use crate::index::IndexLoader;
use crate::index::IndexMember;
use crate::index::INDEX_FILE;
use crate::manifest::edit_cargo_toml;
use crate::manifest::edited;
use crate::paths::join_path;
use crate::paths::joined;
use crate::templates::fetched_template;
use crate::templates::get_template;
use crate::templates::template_plan;

verus! {

/// What a reply that the stage did not ask for is reported as.
pub const UNEXPECTED: &'static str = "unexpected reply";

/// What a run was asked to do.
#[derive(Debug)]
pub struct Job {
    /// The template: a local directory or a name of the index.
    pub template: String,
    pub project_name: String,
    /// The destination: the project's name below the working directory.
    pub project_dir: String,
    /// Offline: nothing is fetched, neither the index nor the template.
    pub frozen: bool,
    /// Which family of systems the run is on.
    pub windows: bool,
}

/// A [`Job`] with its texts as sequences of characters.
pub struct JobView {
    pub template: Seq<char>,
    pub project_name: Seq<char>,
    pub project_dir: Seq<char>,
    pub frozen: bool,
    pub windows: bool,
}

impl View for Job {
    type V = JobView;

    open spec fn view(&self) -> JobView {
        JobView {
            template: self.template@,
            project_name: self.project_name@,
            project_dir: self.project_dir@,
            frozen: self.frozen,
            windows: self.windows,
        }
    }
}

/// A manifest that was found: where, and what it holds.
#[derive(Debug)]
pub struct ManifestFile {
    pub path: String,
    pub text: String,
}

/// Where a run stands: what it has asked for and waits to hear.
#[derive(Debug)]
pub enum Stage {
    /// Is anything at the destination?
    ResolveDestination,
    /// What do the settings and the environment hold?
    Settings,
    /// The cache directories are being made.
    CacheDirectories,
    /// Is the template argument a local directory?
    Argument,
    /// Is the index in the cache?
    IndexCache,
    /// The index is being fetched.
    IndexFetch,
    /// The membership file is being read.
    IndexFile,
    /// Is the template in the cache, and is its location a local directory?
    TemplateCache { location: String },
    /// The template is being fetched.
    TemplateFetch { location: String },
    /// The template is being copied to the destination.
    Materialize { from: String },
    /// The sources of the author's identity are being read.
    ResolveIdentity,
    /// The manifest is being looked for.
    FindManifest { identity: Identity },
    /// The manifest is being written.
    WriteManifest { path: String, text: String },
    Done,
    Failed(Error),
}

/// A [`Stage`] with its texts as sequences of characters.
pub enum StageView {
    ResolveDestination,
    Settings,
    CacheDirectories,
    Argument,
    IndexCache,
    IndexFetch,
    IndexFile,
    TemplateCache { location: Seq<char> },
    TemplateFetch { location: Seq<char> },
    Materialize { from: Seq<char> },
    ResolveIdentity,
    FindManifest { identity: IdentityView },
    WriteManifest { path: Seq<char>, text: Seq<char> },
    Done,
    Failed(ErrorView),
}

impl View for Stage {
    type V = StageView;

    open spec fn view(&self) -> StageView {
        match *self {
            Stage::ResolveDestination => StageView::ResolveDestination,
            Stage::Settings => StageView::Settings,
            Stage::CacheDirectories => StageView::CacheDirectories,
            Stage::Argument => StageView::Argument,
            Stage::IndexCache => StageView::IndexCache,
            Stage::IndexFetch => StageView::IndexFetch,
            Stage::IndexFile => StageView::IndexFile,
            Stage::TemplateCache { location } => StageView::TemplateCache { location: location@ },
            Stage::TemplateFetch { location } => StageView::TemplateFetch { location: location@ },
            Stage::Materialize { from } => StageView::Materialize { from: from@ },
            Stage::ResolveIdentity => StageView::ResolveIdentity,
            Stage::FindManifest { identity } => StageView::FindManifest { identity: identity@ },
            Stage::WriteManifest { path, text } => StageView::WriteManifest {
                path: path@,
                text: text@,
            },
            Stage::Done => StageView::Done,
            Stage::Failed(error) => StageView::Failed(error@),
        }
    }
}

/// The states that a run passes through, in their order.
#[derive(Debug, Clone, Copy, PartialEq, Eq, Structural)]
pub enum Phase {
    ResolveDestination,
    ResolveTemplate,
    Materialize,
    ResolveIdentity,
    Personalize,
    Done,
    Failed,
}

impl Phase {
    /// The place of the phase in the order of a run; the two ends share
    /// the last place.
    pub open spec fn order(self) -> nat {
        match self {
            Phase::ResolveDestination => 0,
            Phase::ResolveTemplate => 1,
            Phase::Materialize => 2,
            Phase::ResolveIdentity => 3,
            Phase::Personalize => 4,
            Phase::Done => 5,
            Phase::Failed => 5,
        }
    }
}

impl StageView {
    pub open spec fn phase(self) -> Phase {
        match self {
            StageView::ResolveDestination => Phase::ResolveDestination,
            StageView::Settings => Phase::ResolveTemplate,
            StageView::CacheDirectories => Phase::ResolveTemplate,
            StageView::Argument => Phase::ResolveTemplate,
            StageView::IndexCache => Phase::ResolveTemplate,
            StageView::IndexFetch => Phase::ResolveTemplate,
            StageView::IndexFile => Phase::ResolveTemplate,
            StageView::TemplateCache { .. } => Phase::ResolveTemplate,
            StageView::TemplateFetch { .. } => Phase::ResolveTemplate,
            StageView::Materialize { .. } => Phase::Materialize,
            StageView::ResolveIdentity => Phase::ResolveIdentity,
            StageView::FindManifest { .. } => Phase::Personalize,
            StageView::WriteManifest { .. } => Phase::Personalize,
            StageView::Done => Phase::Done,
            StageView::Failed(_) => Phase::Failed,
        }
    }

    /// The place of the stage in the order of a run.
    pub open spec fn rank(self) -> nat {
        match self {
            StageView::ResolveDestination => 0,
            StageView::Settings => 1,
            StageView::CacheDirectories => 2,
            StageView::Argument => 3,
            StageView::IndexCache => 4,
            StageView::IndexFetch => 5,
            StageView::IndexFile => 6,
            StageView::TemplateCache { .. } => 7,
            StageView::TemplateFetch { .. } => 8,
            StageView::Materialize { .. } => 9,
            StageView::ResolveIdentity => 10,
            StageView::FindManifest { .. } => 11,
            StageView::WriteManifest { .. } => 12,
            StageView::Done => 13,
            StageView::Failed(_) => 13,
        }
    }

    /// The run is over.
    pub open spec fn is_final(self) -> bool {
        self is Done || self is Failed
    }
}

/// What a run asks of the outside.
#[derive(Debug)]
pub enum Request {
    /// Is anything at this path? Answered by `Reply::Answer`.
    Exists(String),
    /// Is a directory at this path? Answered by `Reply::Answer`.
    IsDirectory(String),
    /// Read the index setting and the cache-root base. Answered by
    /// `Reply::Settings`.
    ReadSettings,
    /// Make these directories, with those above them. Answered by
    /// `Reply::Finished`.
    EnsureDirectories(Vec<String>),
    /// Fetch the repository `source` into the directory `into`. Answered
    /// by `Reply::Fetched`.
    Fetch { source: String, into: String },
    /// Read the membership file at this path. Answered by
    /// `Reply::Members`.
    ReadIndex(String),
    /// Is `cache` a directory, and is `location` one? Answered by
    /// `Reply::Probed`.
    ProbeTemplate { cache: String, location: String },
    /// Copy the tree `from` to `to`. Answered by `Reply::Copied`.
    CopyTree { from: String, to: String },
    /// Read these sources of the author's name and address. Answered by
    /// `Reply::Identity`.
    ReadIdentity { names: Vec<Source>, emails: Vec<Source> },
    /// Look for the manifest at the top of this directory, and read it.
    /// Answered by `Reply::Manifest`.
    FindManifest(String),
    /// Write `text` over the file at `path`. Answered by
    /// `Reply::Finished`.
    WriteManifest { path: String, text: String },
}

/// A [`Request`] with its texts as sequences of characters.
pub enum RequestView {
    Exists(Seq<char>),
    IsDirectory(Seq<char>),
    ReadSettings,
    EnsureDirectories(Seq<Seq<char>>),
    Fetch { source: Seq<char>, into: Seq<char> },
    ReadIndex(Seq<char>),
    ProbeTemplate { cache: Seq<char>, location: Seq<char> },
    CopyTree { from: Seq<char>, to: Seq<char> },
    ReadIdentity { names: Seq<SourceView>, emails: Seq<SourceView> },
    FindManifest(Seq<char>),
    WriteManifest { path: Seq<char>, text: Seq<char> },
}

impl View for Request {
    type V = RequestView;

    open spec fn view(&self) -> RequestView {
        match *self {
            Request::Exists(path) => RequestView::Exists(path@),
            Request::IsDirectory(path) => RequestView::IsDirectory(path@),
            Request::ReadSettings => RequestView::ReadSettings,
            Request::EnsureDirectories(dirs) => RequestView::EnsureDirectories(
                dirs@.map_values(|dir: String| dir@),
            ),
            Request::Fetch { source, into } => RequestView::Fetch { source: source@, into: into@ },
            Request::ReadIndex(path) => RequestView::ReadIndex(path@),
            Request::ProbeTemplate { cache, location } => RequestView::ProbeTemplate {
                cache: cache@,
                location: location@,
            },
            Request::CopyTree { from, to } => RequestView::CopyTree { from: from@, to: to@ },
            Request::ReadIdentity { names, emails } => RequestView::ReadIdentity {
                names: names@.map_values(|source: Source| source@),
                emails: emails@.map_values(|source: Source| source@),
            },
            Request::FindManifest(dir) => RequestView::FindManifest(dir@),
            Request::WriteManifest { path, text } => RequestView::WriteManifest {
                path: path@,
                text: text@,
            },
        }
    }
}

impl RequestView {
    /// The request changes something on disk or reaches for the network.
    pub open spec fn mutates(self) -> bool {
        self is EnsureDirectories || self is Fetch || self is CopyTree || self is WriteManifest
    }
}

/// What the outside answers.
#[derive(Debug)]
pub enum Reply {
    Answer(bool),
    /// What the settings hold under `template.registry.index`, and the
    /// cache-root base.
    Settings { registry_index: Option<String>, cargo_home: String },
    /// The work is done.
    Finished,
    /// Whether the fetch succeeded.
    Fetched(bool),
    /// The records of the membership file, or nothing where the file is
    /// missing or is no list of records.
    Members(Option<Vec<IndexMember>>),
    Probed { cached: bool, local: bool },
    /// The error that stopped the copy, if one did.
    Copied(Option<Error>),
    /// What each source gave, in the order of the request.
    Identity { names: Vec<Option<String>>, emails: Vec<Option<String>> },
    /// The manifest, if the directory has one.
    Manifest(Option<ManifestFile>),
    /// The work failed for a reason that has no name of its own.
    Failure(String),
}

/// A [`Reply`] with its texts as sequences of characters.
pub enum ReplyView {
    Answer(bool),
    Settings { registry_index: Option<Seq<char>>, cargo_home: Seq<char> },
    Finished,
    Fetched(bool),
    Members(Option<Seq<(Seq<char>, Seq<char>)>>),
    Probed { cached: bool, local: bool },
    Copied(Option<ErrorView>),
    Identity { names: Seq<Option<Seq<char>>>, emails: Seq<Option<Seq<char>>> },
    Manifest(Option<(Seq<char>, Seq<char>)>),
    Failure(Seq<char>),
}

impl View for Reply {
    type V = ReplyView;

    open spec fn view(&self) -> ReplyView {
        match *self {
            Reply::Answer(yes) => ReplyView::Answer(yes),
            Reply::Settings { registry_index, cargo_home } => ReplyView::Settings {
                registry_index: text_of(registry_index),
                cargo_home: cargo_home@,
            },
            Reply::Finished => ReplyView::Finished,
            Reply::Fetched(fetched) => ReplyView::Fetched(fetched),
            Reply::Members(members) => ReplyView::Members(
                match members {
                    Some(list) => Some(records_of(list@)),
                    None => None,
                },
            ),
            Reply::Probed { cached, local } => ReplyView::Probed { cached, local },
            Reply::Copied(stopped) => ReplyView::Copied(
                match stopped {
                    Some(error) => Some(error@),
                    None => None,
                },
            ),
            Reply::Identity { names, emails } => ReplyView::Identity {
                names: texts_of(names@),
                emails: texts_of(emails@),
            },
            Reply::Manifest(found) => ReplyView::Manifest(
                match found {
                    Some(file) => Some((file.path@, file.text@)),
                    None => None,
                },
            ),
            Reply::Failure(reason) => ReplyView::Failure(reason@),
        }
    }
}

/// A run: what was asked, what was configured, and where it stands.
#[derive(Debug)]
pub struct Pipeline {
    pub job: Job,
    pub config: Option<Config>,
    pub stage: Stage,
}

/// A [`Pipeline`] with its texts as sequences of characters.
pub struct PipelineView {
    pub job: JobView,
    pub config: Option<ConfigView>,
    pub stage: StageView,
}

impl View for Pipeline {
    type V = PipelineView;

    open spec fn view(&self) -> PipelineView {
        PipelineView {
            job: self.job@,
            config: match self.config {
                Some(config) => Some(config@),
                None => None,
            },
            stage: self.stage@,
        }
    }
}

/// The error that a failed copy ends the run with: that the source is
/// missing, or a failure without a name of its own. Any other error is
/// none that a copy can have, and is passed on by its line.
pub open spec fn copy_failure(error: ErrorView) -> ErrorView {
    match error {
        ErrorView::SourceMissing(_) => error,
        ErrorView::Other(_) => error,
        _ => ErrorView::Other(error.message()),
    }
}

impl PipelineView {
    /// The run before anything was asked.
    pub open spec fn initial(
        cwd: Seq<char>,
        template: Seq<char>,
        project_name: Seq<char>,
        frozen: bool,
        windows: bool,
    ) -> PipelineView {
        PipelineView {
            job: JobView {
                template,
                project_name,
                project_dir: joined(cwd, project_name),
                frozen,
                windows,
            },
            config: None,
            stage: StageView::ResolveDestination,
        }
    }

    /// The same run at another stage.
    pub open spec fn at(self, stage: StageView) -> PipelineView {
        PipelineView { stage, ..self }
    }

    /// The same run, stopped by `error`.
    pub open spec fn failed(self, error: ErrorView) -> PipelineView {
        self.at(StageView::Failed(error))
    }

    /// Where the index checkout stands, or will stand, in the cache.
    pub open spec fn index_checkout(config: ConfigView) -> Seq<char> {
        joined(config.index_path, repo_dir_name(config.index))
    }

    /// The run has its configuration from the stage on that makes the
    /// cache directories, and the index checkout is resolved exactly
    /// from the reading of the membership file on.
    pub open spec fn well_formed(self) -> bool {
        &&& self.stage.is_final() || (self.config is Some <==> self.stage.rank() >= 2)
        &&& self.config matches Some(config) ==> (config.resolved_index_path is Some ==> self.stage.rank()
            >= 6) && (self.stage is IndexFile || self.stage is TemplateCache
            || self.stage is TemplateFetch ==> config.resolved_index_path is Some)
    }

    /// What the run asks of the outside at its stage; nothing once it is
    /// over.
    pub open spec fn request(self) -> Option<RequestView> {
        match self.stage {
            StageView::ResolveDestination => Some(RequestView::Exists(self.job.project_dir)),
            StageView::Settings => Some(RequestView::ReadSettings),
            StageView::Materialize { from } => Some(
                RequestView::CopyTree { from, to: self.job.project_dir },
            ),
            StageView::ResolveIdentity => Some(
                RequestView::ReadIdentity {
                    names: name_chain(self.job.windows),
                    emails: email_chain(),
                },
            ),
            StageView::FindManifest { .. } => Some(RequestView::FindManifest(self.job.project_dir)),
            StageView::WriteManifest { path, text } => Some(
                RequestView::WriteManifest { path, text },
            ),
            StageView::Argument => Some(RequestView::IsDirectory(self.job.template)),
            StageView::Done => None,
            StageView::Failed(_) => None,
            _ => match self.config {
                None => None,
                Some(config) => match self.stage {
                    StageView::CacheDirectories => Some(
                        RequestView::EnsureDirectories(
                            seq![config.index_path, config.templates_path],
                        ),
                    ),
                    StageView::IndexCache => Some(
                        RequestView::IsDirectory(Self::index_checkout(config)),
                    ),
                    StageView::IndexFetch => Some(
                        RequestView::Fetch {
                            source: config.index,
                            into: Self::index_checkout(config),
                        },
                    ),
                    StageView::IndexFile => match config.resolved_index_path {
                        Some(checkout) => Some(
                            RequestView::ReadIndex(joined(checkout, INDEX_FILE@)),
                        ),
                        None => None,
                    },
                    StageView::TemplateCache { location } => Some(
                        RequestView::ProbeTemplate {
                            cache: joined(config.templates_path, self.job.template),
                            location,
                        },
                    ),
                    StageView::TemplateFetch { location } => Some(
                        RequestView::Fetch {
                            source: location,
                            into: joined(config.templates_path, self.job.template),
                        },
                    ),
                    _ => None,
                },
            },
        }
    }

    /// The run after the outside's reply to its request. A run that is
    /// over stays as it is. A failure without a name of its own stops the
    /// run, and so does a reply that the stage did not ask for.
    pub open spec fn advanced(self, reply: ReplyView) -> PipelineView {
        if self.stage.is_final() {
            self
        } else if reply is Failure {
            self.failed(ErrorView::Other(reply->Failure_0))
        } else {
            match (self.stage, reply, self.config) {
                (StageView::ResolveDestination, ReplyView::Answer(present), _) => if present {
                    self.failed(ErrorView::ProjectExists(self.job.project_dir))
                } else {
                    self.at(StageView::Settings)
                },
                (StageView::Settings, ReplyView::Settings { registry_index, cargo_home }, _) => {
                    PipelineView {
                        config: Some(ConfigView::initial(registry_index, cargo_home)),
                        stage: StageView::CacheDirectories,
                        ..self
                    }
                },
                (StageView::CacheDirectories, ReplyView::Finished, _) => self.at(StageView::Argument),
                (StageView::Argument, ReplyView::Answer(local), _) => if local {
                    self.at(StageView::Materialize { from: self.job.template })
                } else {
                    self.at(StageView::IndexCache)
                },
                (StageView::IndexCache, ReplyView::Answer(cached), Some(config)) => {
                    match index_plan(config.index_path, config.index, self.job.frozen, cached) {
                        Ok(PlanView::Use(checkout)) => PipelineView {
                            config: Some(config.resolved(checkout)),
                            stage: StageView::IndexFile,
                            ..self
                        },
                        Ok(PlanView::Fetch { .. }) => self.at(StageView::IndexFetch),
                        Err(error) => self.failed(error),
                    }
                },
                (StageView::IndexFetch, ReplyView::Fetched(fetched), Some(config)) => if fetched {
                    PipelineView {
                        config: Some(config.resolved(Self::index_checkout(config))),
                        stage: StageView::IndexFile,
                        ..self
                    }
                } else {
                    self.failed(ErrorView::IndexUnavailable)
                },
                (StageView::IndexFile, ReplyView::Members(members), _) => match members {
                    None => self.failed(ErrorView::IndexCorrupt),
                    Some(records) => if folded(records).contains_key(self.job.template) {
                        self.at(
                            StageView::TemplateCache {
                                location: folded(records)[self.job.template],
                            },
                        )
                    } else {
                        self.failed(ErrorView::TemplateDoesNotExist(self.job.template))
                    },
                },
                (
                    StageView::TemplateCache { location },
                    ReplyView::Probed { cached, local },
                    Some(config),
                ) => match template_plan(
                    self.job.template,
                    location,
                    config.templates_path,
                    self.job.frozen,
                    cached,
                    local,
                ) {
                    Ok(PlanView::Use(from)) => self.at(StageView::Materialize { from }),
                    Ok(PlanView::Fetch { .. }) => self.at(StageView::TemplateFetch { location }),
                    Err(error) => self.failed(error),
                },
                (
                    StageView::TemplateFetch { .. },
                    ReplyView::Fetched(fetched),
                    Some(config),
                ) => if fetched {
                    self.at(
                        StageView::Materialize {
                            from: joined(config.templates_path, self.job.template),
                        },
                    )
                } else {
                    self.failed(ErrorView::TemplateFetchFailed(self.job.template))
                },
                (StageView::Materialize { .. }, ReplyView::Copied(stopped), _) => match stopped {
                    None => self.at(StageView::ResolveIdentity),
                    Some(error) => self.failed(copy_failure(error)),
                },
                (
                    StageView::ResolveIdentity,
                    ReplyView::Identity { names, emails },
                    _,
                ) => match resolved_identity(names, emails, self.job.windows) {
                    Ok(identity) => self.at(StageView::FindManifest { identity }),
                    Err(error) => self.failed(error),
                },
                (StageView::FindManifest { identity }, ReplyView::Manifest(found), _) => match found {
                    None => self.at(StageView::Done),
                    Some((path, text)) => match edited(
                        text,
                        path,
                        self.job.project_name,
                        identity.line(),
                    ) {
                        Ok(changed) => self.at(StageView::WriteManifest { path, text: changed }),
                        Err(error) => self.failed(error),
                    },
                },
                (StageView::WriteManifest { .. }, ReplyView::Finished, _) => self.at(
                    StageView::Done,
                ),
                _ => self.failed(ErrorView::Other(UNEXPECTED@)),
            }
        }
    }

    /// How the run ended, once it is over.
    pub open spec fn outcome(self) -> Option<Result<(), ErrorView>> {
        match self.stage {
            StageView::Done => Some(Ok(())),
            StageView::Failed(error) => Some(Err(error)),
            _ => None,
        }
    }
}

/// The run at `stage`.
fn staged(job: Job, config: Option<Config>, stage: Stage) -> (run: Pipeline)
    ensures
        run.job == job,
        run.config == config,
        run.stage == stage,
{
    Pipeline { job, config, stage }
}

/// The run, stopped by a reply that its stage did not ask for.
fn unexpected(job: Job, config: Option<Config>) -> (run: Pipeline)
    ensures
        run.job == job,
        run.config == config,
        run.stage@ == StageView::Failed(ErrorView::Other(UNEXPECTED@)),
{
    Pipeline { job, config, stage: Stage::Failed(Error::Other(String::from_str(UNEXPECTED))) }
}

/// The step of a run that is not over, on a reply that is no failure.
fn step(job: Job, config: Option<Config>, stage: Stage, reply: Reply) -> (next: Pipeline)
    requires
        !stage@.is_final(),
        !(reply@ is Failure),
    ensures
        next@ == (Pipeline { job, config, stage })@.advanced(reply@),
{
    match (stage, reply) {
        (Stage::ResolveDestination, Reply::Answer(present)) => {
            if present {
                let error = Error::ProjectExists(job.project_dir.clone());
                staged(job, config, Stage::Failed(error))
            } else {
                staged(job, config, Stage::Settings)
            }
        },
        (Stage::Settings, Reply::Settings { registry_index, cargo_home }) => {
            let made = Config::new(registry_index, cargo_home.as_str());
            staged(job, Some(made), Stage::CacheDirectories)
        },
        (Stage::CacheDirectories, Reply::Finished) => staged(job, config, Stage::Argument),
        (Stage::Argument, Reply::Answer(local)) => {
            if local {
                let from = job.template.clone();
                staged(job, config, Stage::Materialize { from })
            } else {
                staged(job, config, Stage::IndexCache)
            }
        },
        (Stage::IndexCache, Reply::Answer(cached)) => match config {
            Some(held) => {
                let mut held = held;
                let loader = IndexLoader::new(held.index_path.as_str());
                let plan = loader.update_or_clone(held.index.as_str(), job.frozen, cached);
                match plan {
                    Ok(Plan::Use(checkout)) => {
                        held.resolve_index(checkout);
                        staged(job, Some(held), Stage::IndexFile)
                    },
                    Ok(Plan::Fetch { source: _, into: _ }) => staged(
                        job,
                        Some(held),
                        Stage::IndexFetch,
                    ),
                    Err(error) => staged(job, Some(held), Stage::Failed(error)),
                }
            },
            None => unexpected(job, None),
        },
        (Stage::IndexFetch, Reply::Fetched(fetched)) => match config {
            Some(held) => {
                let mut held = held;
                let loader = IndexLoader::new(held.index_path.as_str());
                let checkout = loader.clone_index(held.index.as_str(), fetched);
                match checkout {
                    Ok(path) => {
                        held.resolve_index(path);
                        staged(job, Some(held), Stage::IndexFile)
                    },
                    Err(error) => staged(job, Some(held), Stage::Failed(error)),
                }
            },
            None => unexpected(job, None),
        },
        (Stage::IndexFile, Reply::Members(members)) => match get_index(members) {
            Ok(index) => match index.locate(job.template.as_str()) {
                Ok(location) => staged(job, config, Stage::TemplateCache { location }),
                Err(error) => staged(job, config, Stage::Failed(error)),
            },
            Err(error) => staged(job, config, Stage::Failed(error)),
        },
        (Stage::TemplateCache { location }, Reply::Probed { cached, local }) => match config {
            Some(held) => {
                let plan = get_template(
                    job.template.as_str(),
                    location.as_str(),
                    held.templates_path.as_str(),
                    job.frozen,
                    cached,
                    local,
                );
                match plan {
                    Ok(Plan::Use(from)) => staged(job, Some(held), Stage::Materialize { from }),
                    Ok(Plan::Fetch { source: _, into: _ }) => staged(
                        job,
                        Some(held),
                        Stage::TemplateFetch { location },
                    ),
                    Err(error) => staged(job, Some(held), Stage::Failed(error)),
                }
            },
            None => unexpected(job, None),
        },
        (Stage::TemplateFetch { location: _ }, Reply::Fetched(fetched)) => match config {
            Some(held) => {
                let path = fetched_template(
                    job.template.as_str(),
                    held.templates_path.as_str(),
                    fetched,
                );
                match path {
                    Ok(from) => staged(job, Some(held), Stage::Materialize { from }),
                    Err(error) => staged(job, Some(held), Stage::Failed(error)),
                }
            },
            None => unexpected(job, None),
        },
        (Stage::Materialize { from: _ }, Reply::Copied(stopped)) => match stopped {
            None => staged(job, config, Stage::ResolveIdentity),
            Some(Error::SourceMissing(from)) => staged(
                job,
                config,
                Stage::Failed(Error::SourceMissing(from)),
            ),
            Some(Error::Other(reason)) => staged(job, config, Stage::Failed(Error::Other(reason))),
            Some(error) => staged(job, config, Stage::Failed(Error::Other(error.message()))),
        },
        (Stage::ResolveIdentity, Reply::Identity { names, emails }) => {
            match get_name_and_email(&names, &emails, job.windows) {
                Ok(identity) => staged(job, config, Stage::FindManifest { identity }),
                Err(error) => staged(job, config, Stage::Failed(error)),
            }
        },
        (Stage::FindManifest { identity }, Reply::Manifest(found)) => match found {
            None => staged(job, config, Stage::Done),
            Some(file) => {
                let changed = edit_cargo_toml(
                    file.text.as_str(),
                    file.path.as_str(),
                    job.project_name.as_str(),
                    identity.name.as_str(),
                    &identity.email,
                );
                match changed {
                    Ok(text) => staged(job, config, Stage::WriteManifest { path: file.path, text }),
                    Err(error) => staged(job, config, Stage::Failed(error)),
                }
            },
        },
        (Stage::WriteManifest { path: _, text: _ }, Reply::Finished) => staged(
            job,
            config,
            Stage::Done,
        ),
        _ => unexpected(job, config),
    }
}

impl Pipeline {
    /// A run for the project `project_name` below the working directory
    /// `cwd`, from `template`.
    pub fn new(cwd: &str, template: &str, project_name: &str, frozen: bool, windows: bool) -> (run:
        Pipeline)
        ensures
            run@ == PipelineView::initial(cwd@, template@, project_name@, frozen, windows),
            run@.well_formed(),
    {
        Pipeline {
            job: Job {
                template: String::from_str(template),
                project_name: String::from_str(project_name),
                project_dir: join_path(cwd, project_name),
                frozen,
                windows,
            },
            config: None,
            stage: Stage::ResolveDestination,
        }
    }

    /// What the run asks of the outside now; nothing once it is over.
    pub fn request(&self) -> (asked: Option<Request>)
        ensures
            match self@.request() {
                Some(expected) => asked is Some && asked->0@ == expected,
                None => asked is None,
            },
    {
        match &self.stage {
            Stage::ResolveDestination => Some(Request::Exists(self.job.project_dir.clone())),
            Stage::Settings => Some(Request::ReadSettings),
            Stage::Materialize { from } => Some(
                Request::CopyTree { from: from.clone(), to: self.job.project_dir.clone() },
            ),
            Stage::ResolveIdentity => Some(
                Request::ReadIdentity {
                    names: name_sources(self.job.windows),
                    emails: email_sources(),
                },
            ),
            Stage::FindManifest { identity: _ } => Some(
                Request::FindManifest(self.job.project_dir.clone()),
            ),
            Stage::WriteManifest { path, text } => Some(
                Request::WriteManifest { path: path.clone(), text: text.clone() },
            ),
            Stage::Argument => Some(Request::IsDirectory(self.job.template.clone())),
            Stage::Done => None,
            Stage::Failed(_) => None,
            Stage::CacheDirectories => match &self.config {
                Some(config) => {
                    let mut dirs: Vec<String> = Vec::new();
                    dirs.push(config.index_path.clone());
                    dirs.push(config.templates_path.clone());
                    assert(dirs@.map_values(|dir: String| dir@) =~= seq![
                        config.index_path@,
                        config.templates_path@,
                    ]);
                    Some(Request::EnsureDirectories(dirs))
                },
                None => None,
            },
            Stage::IndexCache => match &self.config {
                Some(config) => {
                    let loader = IndexLoader::new(config.index_path.as_str());
                    Some(Request::IsDirectory(loader.repo_path(config.index.as_str())))
                },
                None => None,
            },
            Stage::IndexFetch => match &self.config {
                Some(config) => {
                    let loader = IndexLoader::new(config.index_path.as_str());
                    Some(
                        Request::Fetch {
                            source: config.index.clone(),
                            into: loader.repo_path(config.index.as_str()),
                        },
                    )
                },
                None => None,
            },
            Stage::IndexFile => match &self.config {
                Some(config) => match &config.resolved_index_path {
                    Some(checkout) => Some(Request::ReadIndex(index_file(checkout.as_str()))),
                    None => None,
                },
                None => None,
            },
            Stage::TemplateCache { location } => match &self.config {
                Some(config) => Some(
                    Request::ProbeTemplate {
                        cache: join_path(config.templates_path.as_str(), self.job.template.as_str()),
                        location: location.clone(),
                    },
                ),
                None => None,
            },
            Stage::TemplateFetch { location } => match &self.config {
                Some(config) => Some(
                    Request::Fetch {
                        source: location.clone(),
                        into: join_path(config.templates_path.as_str(), self.job.template.as_str()),
                    },
                ),
                None => None,
            },
        }
    }

    /// Takes the outside's reply to the request and moves the run on.
    pub fn advance(self, reply: Reply) -> (next: Pipeline)
        ensures
            next@ == self@.advanced(reply@),
    {
        let Pipeline { job, config, stage } = self;
        match stage {
            Stage::Done => staged(job, config, Stage::Done),
            Stage::Failed(error) => staged(job, config, Stage::Failed(error)),
            stage => match reply {
                Reply::Failure(reason) => staged(job, config, Stage::Failed(Error::Other(reason))),
                reply => step(job, config, stage, reply),
            },
        }
    }

    /// How the run ended, once it is over.
    pub fn outcome(&self) -> (ended: Option<Result<(), Error>>)
        ensures
            match self@.outcome() {
                Some(Ok(_)) => ended matches Some(Ok(_)),
                Some(Err(error)) => ended matches Some(Err(found)) && found@ == error,
                None => ended is None,
            },
    {
        match &self.stage {
            Stage::Done => Some(Ok(())),
            Stage::Failed(error) => Some(Err(error.clone())),
            _ => None,
        }
    }
}

impl PipelineView {
    /// The run after it was given `replies` in their order.
    pub open spec fn after(self, replies: Seq<ReplyView>) -> PipelineView
        decreases replies.len(),
    {
        if replies.len() == 0 {
            self
        } else {
            self.advanced(replies[0]).after(replies.drop_first())
        }
    }

    /// What the run asks, one request after the other, while it is given
    /// `replies` in their order: its request now, then those of the run
    /// that each reply leads to.
    pub open spec fn asked(self, replies: Seq<ReplyView>) -> Seq<RequestView>
        decreases replies.len(),
    {
        match self.request() {
            None => Seq::empty(),
            Some(request) => if replies.len() == 0 {
                seq![request]
            } else {
                seq![request] + self.advanced(replies[0]).asked(replies.drop_first())
            },
        }
    }
}

/// A run that is over stays as it is, asks nothing more and has an
/// outcome; a run that is not over has none.
pub proof fn lemma_run_over_stays(run: PipelineView, reply: ReplyView)
    ensures
        run.stage.is_final() ==> run.advanced(reply) == run && run.request() is None,
        run.stage.is_final() <==> run.outcome() is Some,
{
}

/// Each reply moves a run that is not over to a later stage: no stage is
/// entered twice and no phase is gone back to. What was asked of the run
/// never changes.
pub proof fn lemma_run_moves_on(run: PipelineView, reply: ReplyView)
    requires
        !run.stage.is_final(),
    ensures
        run.advanced(reply).stage.rank() > run.stage.rank(),
        run.advanced(reply).stage.phase().order() >= run.stage.phase().order(),
        run.advanced(reply).job == run.job,
{
}

/// A well-formed run stays well formed, and asks for something as long
/// as it is not over.
pub proof fn lemma_well_formed_is_kept(run: PipelineView, reply: ReplyView)
    requires
        run.well_formed(),
    ensures
        run.advanced(reply).well_formed(),
        !run.stage.is_final() ==> run.request() is Some,
{
}

/// The configuration is made once: what it names never changes after,
/// and the index checkout, once resolved, stays.
pub proof fn lemma_config_is_kept(run: PipelineView, reply: ReplyView)
    requires
        run.well_formed(),
        run.config is Some,
    ensures
        run.advanced(reply).config is Some,
        run.advanced(reply).config->0.index == run.config->0.index,
        run.advanced(reply).config->0.index_path == run.config->0.index_path,
        run.advanced(reply).config->0.templates_path == run.config->0.templates_path,
        run.config->0.resolved_index_path is Some ==> run.advanced(reply).config == run.config,
{
}

/// Only the stage that copies asks for a copy, and only into the
/// destination; only the two fetching stages ask for a fetch. Nothing is
/// changed or fetched before the destination was found free.
pub proof fn lemma_who_asks_what(run: PipelineView)
    ensures
        run.request() matches Some(RequestView::CopyTree { to, .. }) ==> run.stage is Materialize
            && to == run.job.project_dir,
        run.request() matches Some(RequestView::Fetch { .. }) ==> run.stage is IndexFetch
            || run.stage is TemplateFetch,
        run.request() matches Some(request) && request.mutates() ==> run.stage.rank() >= 2,
{
}

/// A destination that exists stops the run at once: all that a fresh run
/// asks is whether the destination exists, and on the answer that it
/// does the run has failed for that reason, whatever it is told after.
pub proof fn lemma_existing_destination_stops_the_run(
    cwd: Seq<char>,
    template: Seq<char>,
    project_name: Seq<char>,
    frozen: bool,
    windows: bool,
    replies: Seq<ReplyView>,
)
    requires
        replies.len() > 0,
        replies[0] == ReplyView::Answer(true),
    ensures
        ({
            let run = PipelineView::initial(cwd, template, project_name, frozen, windows);
            &&& run.asked(replies) == seq![RequestView::Exists(run.job.project_dir)]
            &&& run.advanced(replies[0]).outcome() == Some(
                Err::<(), ErrorView>(ErrorView::ProjectExists(run.job.project_dir)),
            )
        }),
{
    let run = PipelineView::initial(cwd, template, project_name, frozen, windows);
    let stopped = run.advanced(replies[0]);
    assert(stopped.request() is None);
    assert(stopped.asked(replies.drop_first()) == Seq::<RequestView>::empty());
    assert(seq![RequestView::Exists(run.job.project_dir)] + Seq::<RequestView>::empty() =~= seq![
        RequestView::Exists(run.job.project_dir),
    ]);
}

/// A template argument that is a local directory is copied from where it
/// stands: the run goes on to the copy, with neither store asked.
pub proof fn lemma_local_argument_is_used_in_place(run: PipelineView)
    requires
        run.stage is Argument,
    ensures
        run.advanced(ReplyView::Answer(true)).stage == (StageView::Materialize {
            from: run.job.template,
        }),
        run.advanced(ReplyView::Answer(true)).request() == Some(
            RequestView::CopyTree { from: run.job.template, to: run.job.project_dir },
        ),
{
}

/// Offline, a template that is not cached ends the run as not found,
/// before anything is fetched or copied.
pub proof fn lemma_offline_uncached_template_fails(run: PipelineView, local: bool)
    requires
        run.stage is TemplateCache,
        run.config is Some,
        run.job.frozen,
    ensures
        run.advanced(ReplyView::Probed { cached: false, local }).outcome() == Some(
            Err::<(), ErrorView>(ErrorView::TemplateNotFound(run.job.template)),
        ),
        run.advanced(ReplyView::Probed { cached: false, local }).request() is None,
{
}

/// Each request of a run is the one of the stage that the replies before
/// it led to, and each stage is later than the one before: a run asks
/// for nothing twice.
pub proof fn lemma_asked_comes_from_stages(run: PipelineView, replies: Seq<ReplyView>, i: int)
    requires
        0 <= i < run.asked(replies).len(),
    ensures
        i <= replies.len(),
        run.after(replies.take(i)).request() == Some(run.asked(replies)[i]),
        run.after(replies.take(i)).stage.rank() >= run.stage.rank() + i,
    decreases replies.len(),
{
    if i == 0 {
        assert(replies.take(0) =~= Seq::<ReplyView>::empty());
    } else {
        let next = run.advanced(replies[0]);
        let rest = replies.drop_first();
        assert(run.asked(replies) == seq![run.request()->0] + next.asked(rest));
        lemma_asked_comes_from_stages(next, rest, i - 1);
        assert(replies.take(i).drop_first() =~= rest.take(i - 1));
        assert(replies.take(i)[0] == replies[0]);
    }
}

/// Each named error stops a run at one stage only: the error tells
/// where the run stood.
pub proof fn lemma_failure_tells_the_stage(run: PipelineView, reply: ReplyView)
    requires
        !run.stage.is_final(),
        run.advanced(reply).stage is Failed,
    ensures
        match run.advanced(reply).stage->Failed_0 {
            ErrorView::ProjectExists(path) => run.stage is ResolveDestination && path
                == run.job.project_dir,
            ErrorView::IndexUnavailable => run.stage is IndexFetch || (run.stage is IndexCache
                && run.job.frozen),
            ErrorView::IndexCorrupt => run.stage is IndexFile,
            ErrorView::TemplateDoesNotExist(name) => run.stage is IndexFile && name
                == run.job.template,
            ErrorView::TemplateNotFound(name) => run.stage is TemplateCache && run.job.frozen
                && name == run.job.template,
            ErrorView::TemplateFetchFailed(name) => run.stage is TemplateFetch && name
                == run.job.template,
            ErrorView::SourceMissing(_) => run.stage is Materialize,
            ErrorView::NameUnresolved(_) => run.stage is ResolveIdentity,
            ErrorView::ManifestParseError(_) => run.stage is FindManifest,
            ErrorView::Other(_) => true,
        },
{
}

/// A run that has reached the copy does not end for want of a template.
proof fn lemma_template_is_had_from_the_copy_on(run: PipelineView, replies: Seq<ReplyView>)
    requires
        run.stage.rank() >= 9,
        !(run.stage matches StageView::Failed(ErrorView::TemplateNotFound(_))),
    ensures
        !(run.after(replies).stage matches StageView::Failed(ErrorView::TemplateNotFound(_))),
    decreases replies.len(),
{
    if replies.len() > 0 {
        let next = run.advanced(replies[0]);
        if !run.stage.is_final() {
            lemma_run_moves_on(run, replies[0]);
            if next.stage is Failed {
                lemma_failure_tells_the_stage(run, replies[0]);
            }
        }
        lemma_template_is_had_from_the_copy_on(next, replies.drop_first());
    }
}

/// A run that ends because the template is not found has asked for no
/// copy: nothing was made at the destination.
pub proof fn lemma_template_not_found_leaves_no_copy(
    run: PipelineView,
    replies: Seq<ReplyView>,
    i: int,
)
    requires
        run.after(replies).stage matches StageView::Failed(ErrorView::TemplateNotFound(_)),
        !(run.stage matches StageView::Failed(ErrorView::TemplateNotFound(_))),
        0 <= i < run.asked(replies).len(),
    ensures
        !(run.asked(replies)[i] is CopyTree),
    decreases replies.len(),
{
    if i == 0 {
        if run.request() matches Some(RequestView::CopyTree { .. }) {
            lemma_template_is_had_from_the_copy_on(run, replies);
        }
    } else {
        let next = run.advanced(replies[0]);
        let rest = replies.drop_first();
        assert(run.asked(replies) == seq![run.request()->0] + next.asked(rest));
        if next.stage matches StageView::Failed(ErrorView::TemplateNotFound(_)) {
            assert(next.request() is None);
            assert(next.asked(rest).len() == 0);
        } else {
            lemma_template_not_found_leaves_no_copy(next, rest, i - 1);
        }
    }
}

/// Giving a run some replies and then more is giving it all of them.
pub proof fn lemma_after_in_two(run: PipelineView, first: Seq<ReplyView>, then: Seq<ReplyView>)
    ensures
        run.after(first + then) == run.after(first).after(then),
    decreases first.len(),
{
    if first.len() == 0 {
        assert(first + then =~= then);
    } else {
        assert((first + then).drop_first() =~= first.drop_first() + then);
        assert((first + then)[0] == first[0]);
        lemma_after_in_two(run.advanced(first[0]), first.drop_first(), then);
    }
}

/// What a run asks from its `i`-th request on is what the run that the
/// replies before it led to asks.
pub proof fn lemma_asked_in_two(run: PipelineView, replies: Seq<ReplyView>, i: int)
    requires
        0 <= i < run.asked(replies).len(),
    ensures
        i <= replies.len(),
        run.asked(replies).skip(i) == run.after(replies.take(i)).asked(replies.skip(i)),
    decreases replies.len(),
{
    if i == 0 {
        assert(replies.take(0) =~= Seq::<ReplyView>::empty());
        assert(replies.skip(0) =~= replies);
        assert(run.asked(replies).skip(0) =~= run.asked(replies));
    } else {
        let next = run.advanced(replies[0]);
        let rest = replies.drop_first();
        assert(run.asked(replies) == seq![run.request()->0] + next.asked(rest));
        lemma_asked_in_two(next, rest, i - 1);
        assert(run.asked(replies).skip(i) =~= next.asked(rest).skip(i - 1));
        assert(replies.take(i).drop_first() =~= rest.take(i - 1));
        assert(replies.take(i)[0] == replies[0]);
        assert(replies.skip(i) =~= rest.skip(i - 1));
    }
}

/// A run fetches at most twice: of two fetches that it asks for, the
/// first is that of the index and the second that of the template.
pub proof fn lemma_one_fetch_for_each(
    run: PipelineView,
    replies: Seq<ReplyView>,
    i: int,
    j: int,
)
    requires
        0 <= i < j < run.asked(replies).len(),
        run.asked(replies)[i] is Fetch,
        run.asked(replies)[j] is Fetch,
    ensures
        run.after(replies.take(i)).stage is IndexFetch,
        run.after(replies.take(j)).stage is TemplateFetch,
{
    let asked = run.asked(replies);
    lemma_asked_comes_from_stages(run, replies, i);
    lemma_asked_comes_from_stages(run, replies, j);
    let first = run.after(replies.take(i));
    let second = run.after(replies.take(j));
    lemma_who_asks_what(first);
    lemma_who_asks_what(second);
    lemma_asked_in_two(run, replies, i);
    let later = replies.skip(i);
    assert(first.asked(later)[j - i] == asked[j]);
    lemma_asked_comes_from_stages(first, later, j - i);
    lemma_after_in_two(run, replies.take(i), later.take(j - i));
    assert(replies.take(i) + later.take(j - i) =~= replies.take(j));
}

impl PipelineView {
    /// The run is offline and is not at a stage that fetches.
    pub open spec fn offline(self) -> bool {
        self.job.frozen && !(self.stage is IndexFetch) && !(self.stage is TemplateFetch)
    }
}

/// An offline run stays offline and comes to no stage that fetches: an
/// index or a template that is not cached stops it instead.
pub proof fn lemma_offline_is_kept(run: PipelineView, reply: ReplyView)
    requires
        run.offline(),
    ensures
        run.advanced(reply).offline(),
        !(run.request() matches Some(RequestView::Fetch { .. })),
        run.stage is IndexCache && run.config is Some && reply == ReplyView::Answer(false)
            ==> run.advanced(reply).outcome() == Some(
            Err::<(), ErrorView>(ErrorView::IndexUnavailable),
        ),
{
}

/// An offline run that is at no fetching stage never asks for a fetch,
/// whatever it is told.
pub proof fn lemma_offline_run_never_fetches(run: PipelineView, replies: Seq<ReplyView>, i: int)
    requires
        run.offline(),
        0 <= i < run.asked(replies).len(),
    ensures
        !(run.asked(replies)[i] is Fetch),
    decreases replies.len(),
{
    lemma_offline_is_kept(run, if replies.len() > 0 { replies[0] } else { ReplyView::Finished });
    if i > 0 {
        let next = run.advanced(replies[0]);
        let rest = replies.drop_first();
        assert(run.asked(replies) == seq![run.request()->0] + next.asked(rest));
        lemma_offline_run_never_fetches(next, rest, i - 1);
    }
}

/// A run that is started offline fetches nothing, from its first request
/// to its last.
pub proof fn lemma_offline_run_fetches_nothing(
    cwd: Seq<char>,
    template: Seq<char>,
    project_name: Seq<char>,
    windows: bool,
    replies: Seq<ReplyView>,
    i: int,
)
    requires
        0 <= i < PipelineView::initial(cwd, template, project_name, true, windows).asked(
            replies,
        ).len(),
    ensures
        !(PipelineView::initial(cwd, template, project_name, true, windows).asked(replies)[i]
            is Fetch),
{
    lemma_offline_run_never_fetches(
        PipelineView::initial(cwd, template, project_name, true, windows),
        replies,
        i,
    );
}

} // verus!
