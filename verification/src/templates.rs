use vstd::prelude::*;
use vstd::string::StringExecFns;
use crate::cache::Plan;
use crate::cache::PlanView;
use crate::errors::Error;
use crate::errors::ErrorView;
use crate::paths::join_path;
use crate::paths::joined;

verus! {

/// How the template `name`, which the index places at `url`, is had below
/// the cache root `templates_dir`. A cached template is used as it stands.
/// One that is not cached cannot be had offline; otherwise a `url` that is
/// a local directory is used in place, and anything else is fetched into
/// the cache.
pub open spec fn template_plan(
    name: Seq<char>,
    url: Seq<char>,
    templates_dir: Seq<char>,
    frozen: bool,
    cached: bool,
    local: bool,
) -> Result<PlanView, ErrorView> {
    let location = joined(templates_dir, name);
    if cached {
        Ok(PlanView::Use(location))
    } else if frozen {
        Err(ErrorView::TemplateNotFound(name))
    } else if local {
        Ok(PlanView::Use(url))
    } else {
        Ok(PlanView::Fetch { source: url, into: location })
    }
}

/// Decides how the template `name` is had. `cached` says whether its
/// directory stands in the cache, `local` whether `url` is a directory of
/// this machine, `frozen` whether the run is offline.
pub fn get_template(
    name: &str,
    url: &str,
    templates_dir: &str,
    frozen: bool,
    cached: bool,
    local: bool,
) -> (plan: Result<Plan, Error>)
    ensures
        match template_plan(name@, url@, templates_dir@, frozen, cached, local) {
            Ok(expected) => plan is Ok && plan->Ok_0@ == expected,
            Err(error) => plan is Err && plan->Err_0@ == error,
        },
{
    let location = join_path(templates_dir, name);
    if cached {
        Ok(Plan::Use(location))
    } else if frozen {
        Err(Error::TemplateNotFound(String::from_str(name)))
    } else if local {
        Ok(Plan::Use(String::from_str(url)))
    } else {
        Ok(Plan::Fetch { source: String::from_str(url), into: location })
    }
}

/// The template after the fetch that the plan asked for: its place in the
/// cache where the fetch succeeded.
pub fn fetched_template(name: &str, templates_dir: &str, fetched: bool) -> (path: Result<
    String,
    Error,
>)
    ensures
        match path {
            Ok(location) => fetched && location@ == joined(templates_dir@, name@),
            Err(error) => !fetched && error@ == ErrorView::TemplateFetchFailed(name@),
        },
{
    if fetched {
        Ok(join_path(templates_dir, name))
    } else {
        Err(Error::TemplateFetchFailed(String::from_str(name)))
    }
}

/// A template whose location is a local directory is never fetched, and
/// where it is not cached and the run is online it is used in place.
pub proof fn lemma_local_template_is_not_fetched(
    name: Seq<char>,
    url: Seq<char>,
    templates_dir: Seq<char>,
    frozen: bool,
    cached: bool,
)
    ensures
        !(template_plan(name, url, templates_dir, frozen, cached, true) matches Ok(
            PlanView::Fetch { .. },
        )),
        !cached && !frozen ==> template_plan(name, url, templates_dir, frozen, cached, true) == Ok::<
            PlanView,
            ErrorView,
        >(PlanView::Use(url)),
{
}

/// Offline nothing is fetched: a template that is not cached is reported
/// as not found, whatever its location, each time it is asked for.
pub proof fn lemma_offline_template(
    name: Seq<char>,
    url: Seq<char>,
    templates_dir: Seq<char>,
    cached: bool,
    local: bool,
)
    ensures
        !(template_plan(name, url, templates_dir, true, cached, local) matches Ok(
            PlanView::Fetch { .. },
        )),
        !cached ==> template_plan(name, url, templates_dir, true, cached, local) == Err::<
            PlanView,
            ErrorView,
        >(ErrorView::TemplateNotFound(name)),
{
}

} // verus!
