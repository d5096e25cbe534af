use vstd::prelude::*;

verus! {

/// How something that may stand in a cache is had.
#[derive(Debug)]
pub enum Plan {
    /// The directory at this path is used as it stands.
    Use(String),
    /// The source is to be fetched as a repository into this directory.
    Fetch { source: String, into: String },
}

/// A [`Plan`] with its texts as sequences of characters.
pub enum PlanView {
    Use(Seq<char>),
    Fetch { source: Seq<char>, into: Seq<char> },
}

impl View for Plan {
    type V = PlanView;

    open spec fn view(&self) -> PlanView {
        match *self {
            Plan::Use(path) => PlanView::Use(path@),
            Plan::Fetch { source, into } => PlanView::Fetch { source: source@, into: into@ },
        }
    }
}

} // verus!
