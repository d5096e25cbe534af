use vstd::prelude::*;
use vstd::hash_map::StringHashMap;
use vstd::string::StringExecFns;
use crate::errors::Error;
use crate::cache::Plan;
use crate::cache::PlanView;
use crate::errors::ErrorView;
use crate::paths::join_path;
use crate::paths::joined;

verus! {

/// The membership file inside a checkout of the index.
pub const INDEX_FILE: &'static str = "index.json";

/// One record of the membership file: a template and where it lives.
#[derive(Debug)]
pub struct IndexMember {
    pub name: String,
    /// A path of a directory or the URL of a repository.
    pub loc: String,
}

/// The records as pairs of name and location.
pub open spec fn records_of(members: Seq<IndexMember>) -> Seq<(Seq<char>, Seq<char>)> {
    members.map_values(|member: IndexMember| (member.name@, member.loc@))
}

/// The mapping that a list of records folds into: each name with the
/// location of the last record that bears it.
pub open spec fn folded(records: Seq<(Seq<char>, Seq<char>)>) -> Map<Seq<char>, Seq<char>>
    decreases records.len(),
{
    if records.len() == 0 {
        Map::empty()
    } else {
        folded(records.drop_last()).insert(records.last().0, records.last().1)
    }
}

/// The index: template names with their locations.
pub struct Index {
    entries: StringHashMap<String>,
}

impl View for Index {
    type V = Map<Seq<char>, Seq<char>>;

    closed spec fn view(&self) -> Map<Seq<char>, Seq<char>> {
        self.entries@.map_values(|loc: String| loc@)
    }
}

impl Index {
    /// Folds the records of a membership file into the index, in the
    /// file's order: a later record replaces an earlier one of its name.
    pub fn from_members(members: Vec<IndexMember>) -> (index: Index)
        ensures
            index@ == folded(records_of(members@)),
    {
        let mut entries: StringHashMap<String> = StringHashMap::new();
        let ghost all = records_of(members@);
        let mut i: usize = 0;
        assert(all.take(0) =~= Seq::empty());
        assert(entries@.map_values(|loc: String| loc@) =~= Map::empty());
        while i < members.len()
            invariant
                i <= members.len(),
                all == records_of(members@),
                entries@.map_values(|loc: String| loc@) == folded(all.take(i as int)),
            decreases members.len() - i,
        {
            let ghost before = entries@;
            let name = members[i].name.clone();
            let loc = members[i].loc.clone();
            entries.insert(name, loc);
            proof {
                let seen = all.take(i + 1);
                assert(seen.drop_last() =~= all.take(i as int));
                assert(seen.last() == all[i as int]);
                assert(entries@.map_values(|loc: String| loc@) =~= before.map_values(
                    |loc: String| loc@,
                ).insert(name@, loc@));
            }
            i += 1;
        }
        assert(all.take(i as int) =~= all);
        Index { entries }
    }

    /// The location of the template `name`, if the index lists it.
    pub fn get(&self, name: &str) -> (loc: Option<&String>)
        ensures
            match loc {
                Some(found) => self@.contains_key(name@) && found@ == self@[name@],
                None => !self@.contains_key(name@),
            },
    {
        self.entries.get(name)
    }

    /// The number of templates in the index.
    pub fn len(&self) -> (count: usize)
        ensures
            count == self@.len(),
    {
        proof {
            assert(self@.dom() =~= self.entries@.dom());
        }
        self.entries.len()
    }

    /// The location of the template `name`, or that the index has none
    /// of this name.
    pub fn locate(&self, name: &str) -> (loc: Result<String, Error>)
        ensures
            match loc {
                Ok(found) => self@.contains_key(name@) && found@ == self@[name@],
                Err(error) => !self@.contains_key(name@) && error@
                    == ErrorView::TemplateDoesNotExist(name@),
            },
    {
        match self.get(name) {
            Some(found) => Ok(found.clone()),
            None => Err(Error::TemplateDoesNotExist(String::from_str(name))),
        }
    }
}

/// The index of a run, from what was read of the membership file:
/// its records, or nothing where the file is missing or is no list of
/// records.
pub fn get_index(members: Option<Vec<IndexMember>>) -> (index: Result<Index, Error>)
    ensures
        match members {
            Some(list) => index is Ok && index->Ok_0@ == folded(records_of(list@)),
            None => index is Err && index->Err_0@ == ErrorView::IndexCorrupt,
        },
{
    match members {
        Some(list) => Ok(Index::from_members(list)),
        None => Err(Error::IndexCorrupt),
    }
}

/// A name is listed with the location of the last record that bears it.
pub proof fn lemma_last_record_wins(records: Seq<(Seq<char>, Seq<char>)>, i: int)
    requires
        0 <= i < records.len(),
        forall|j: int| i < j < records.len() ==> records[j].0 != records[i].0,
    ensures
        folded(records).contains_key(records[i].0),
        folded(records)[records[i].0] == records[i].1,
    decreases records.len(),
{
    if i < records.len() - 1 {
        lemma_last_record_wins(records.drop_last(), i);
    }
}

/// The index lists the names of the records and no others.
pub proof fn lemma_folded_names(records: Seq<(Seq<char>, Seq<char>)>, name: Seq<char>)
    ensures
        folded(records).contains_key(name) <==> exists|i: int|
            0 <= i < records.len() && (#[trigger] records[i]).0 == name,
    decreases records.len(),
{
    if records.len() > 0 {
        let rest = records.drop_last();
        lemma_folded_names(rest, name);
        if folded(records).contains_key(name) {
            if records.last().0 == name {
                assert(records[records.len() - 1].0 == name);
            } else {
                let i = choose|i: int| 0 <= i < rest.len() && (#[trigger] rest[i]).0 == name;
                assert(records[i].0 == name);
            }
        }
        if exists|i: int| 0 <= i < records.len() && (#[trigger] records[i]).0 == name {
            let i = choose|i: int| 0 <= i < records.len() && (#[trigger] records[i]).0 == name;
            if i < records.len() - 1 {
                assert(rest[i].0 == name);
            }
        }
    }
}

/// The index is finite and never larger than the list of records; where
/// no two records share a name it has one entry for each record.
pub proof fn lemma_folded_size(records: Seq<(Seq<char>, Seq<char>)>)
    ensures
        folded(records).dom().finite(),
        folded(records).len() <= records.len(),
        (forall|i: int, j: int|
            0 <= i < j < records.len() ==> (#[trigger] records[i]).0 != (#[trigger] records[j]).0)
            ==> folded(records).len() == records.len(),
    decreases records.len(),
{
    if records.len() > 0 {
        let rest = records.drop_last();
        lemma_folded_size(rest);
        lemma_folded_names(rest, records.last().0);
        if forall|i: int, j: int|
            0 <= i < j < records.len() ==> (#[trigger] records[i]).0 != (#[trigger] records[j]).0 {
            assert forall|i: int, j: int| 0 <= i < j < rest.len() implies (#[trigger] rest[i]).0 != (
            #[trigger] rest[j]).0 by {
                assert(rest[i] == records[i] && rest[j] == records[j]);
            }
            if folded(rest).contains_key(records.last().0) {
                let i = choose|i: int|
                    0 <= i < rest.len() && (#[trigger] rest[i]).0 == records.last().0;
                assert(records[i].0 != records[records.len() - 1].0);
            }
        }
    }
}

/// The character that stands for `c` in the name of a cache directory.
pub open spec fn sanitized(c: char) -> char {
    if c == ':' || c == '/' {
        '_'
    } else if c == ' ' {
        '-'
    } else {
        c
    }
}

/// The name of the cache directory of an index source: the source with
/// each `:`, `/` and space replaced, one character for one.
pub open spec fn repo_dir_name(url: Seq<char>) -> Seq<char> {
    url.map_values(|c: char| sanitized(c))
}

/// The plan for the index `source` below the cache root `index`: the
/// checkout in the cache where there is one. An index that is not cached
/// cannot be had offline; online it is fetched into its place.
pub open spec fn index_plan(
    index: Seq<char>,
    source: Seq<char>,
    frozen: bool,
    cached: bool,
) -> Result<PlanView, ErrorView> {
    let repo = joined(index, repo_dir_name(source));
    if cached {
        Ok(PlanView::Use(repo))
    } else if frozen {
        Err(ErrorView::IndexUnavailable)
    } else {
        Ok(PlanView::Fetch { source, into: repo })
    }
}

/// Offline no index is fetched: one that is not cached is reported as
/// unavailable.
pub proof fn lemma_offline_index(index: Seq<char>, source: Seq<char>, cached: bool)
    ensures
        !(index_plan(index, source, true, cached) matches Ok(PlanView::Fetch { .. })),
        !cached ==> index_plan(index, source, true, cached) == Err::<PlanView, ErrorView>(
            ErrorView::IndexUnavailable,
        ),
{
}

/// Finds the checkout of an index below the cache root.
pub struct IndexLoader<'a> {
    index: &'a str,
}

impl<'a> IndexLoader<'a> {
    /// The cache root that the loader works below.
    pub closed spec fn root(&self) -> Seq<char> {
        self.index@
    }

    /// A loader for the cache root `index`.
    pub fn new(index: &'a str) -> (loader: IndexLoader<'a>)
        ensures
            loader.root() == index@,
    {
        IndexLoader { index }
    }

    /// Where the checkout of `source` stands, or will stand, in the cache.
    pub fn repo_path(&self, source: &str) -> (path: String)
        ensures
            path@ == joined(self.root(), repo_dir_name(source@)),
    {
        let name = self.url_to_repo_dir(source);
        join_path(self.index, name.as_str())
    }

    /// Decides how the checkout of `source` is had. `cached` says whether
    /// its directory stands in the cache. A cached checkout is refreshed
    /// unless the run is `frozen`, and used whether or not that succeeds.
    /// One that is not cached is fetched, unless the run is `frozen`: then
    /// the index is unavailable.
    pub fn update_or_clone(&self, source: &str, frozen: bool, cached: bool) -> (plan: Result<
        Plan,
        Error,
    >)
        ensures
            match index_plan(self.root(), source@, frozen, cached) {
                Ok(expected) => plan is Ok && plan->Ok_0@ == expected,
                Err(error) => plan is Err && plan->Err_0@ == error,
            },
    {
        let repo = self.repo_path(source);
        if cached {
            if !frozen {
                match self.update_index(repo.as_str()) {
                    Ok(path) => Ok(Plan::Use(path)),
                    Err(_) => Ok(Plan::Use(repo)),
                }
            } else {
                Ok(Plan::Use(repo))
            }
        } else if frozen {
            Err(Error::IndexUnavailable)
        } else {
            Ok(Plan::Fetch { source: String::from_str(source), into: repo })
        }
    }

    /// Refreshes the cached checkout at `source`: it is taken as it stands.
    pub fn update_index(&self, source: &str) -> (path: Result<String, Error>)
        ensures
            path is Ok,
            path->Ok_0@ == source@,
    {
        Ok(String::from_str(source))
    }

    /// The checkout of `source` after the fetch that the plan asked for:
    /// its place in the cache where the fetch succeeded.
    pub fn clone_index(&self, source: &str, fetched: bool) -> (path: Result<String, Error>)
        ensures
            match path {
                Ok(checkout) => fetched && checkout@ == joined(self.root(), repo_dir_name(source@)),
                Err(error) => !fetched && error@ == ErrorView::IndexUnavailable,
            },
    {
        if fetched {
            Ok(self.repo_path(source))
        } else {
            Err(Error::IndexUnavailable)
        }
    }

    /// Turns the index source into the name of one directory.
    pub fn url_to_repo_dir(&self, url: &str) -> (name: String)
        ensures
            name@ == repo_dir_name(url@),
    {
        let mut name = String::new();
        let ghost mut seen: int = 0;
        for c in it: url.chars()
            invariant
                it.seq() == url@,
                seen == it.index(),
                name@ == repo_dir_name(url@.take(seen)),
        {
            if c == ':' || c == '/' {
                name.push('_');
            } else if c == ' ' {
                name.push('-');
            } else {
                name.push(c);
            }
            proof {
                assert(url@.take(it.index() + 1) =~= url@.take(it.index()).push(c));
                assert(name@ =~= repo_dir_name(url@.take(it.index() + 1)));
                seen = seen + 1;
            }
        }
        proof {
            assert(url@.take(seen) =~= url@);
        }
        name
    }
}

/// The name of a cache directory is as long as the source and holds no
/// `:`, `/` or space: it names one directory.
pub proof fn lemma_repo_dir_name_is_one_component(url: Seq<char>)
    ensures
        repo_dir_name(url).len() == url.len(),
        forall|i: int|
            0 <= i < url.len() ==> {
                let c = #[trigger] repo_dir_name(url)[i];
                c != ':' && c != '/' && c != ' '
            },
{
}

/// The membership file of the index checkout at `checkout`.
pub fn index_file(checkout: &str) -> (path: String)
    ensures
        path@ == joined(checkout@, INDEX_FILE@),
{
    join_path(checkout, INDEX_FILE)
}

} // verus!
