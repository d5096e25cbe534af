use vstd::prelude::*;
use vstd::string::StringExecFns;
use crate::errors::Error;
use crate::errors::ErrorView;
use crate::strings::same_text;

verus! {

/// The name of the version-control metadata directory, which no copy takes.
pub const VCS_DIR: &'static str = ".git";

/// What an entry of a directory is.
#[derive(Debug, Clone, Copy, PartialEq, Eq, Structural)]
pub enum EntryKind {
    Directory,
    File,
    /// Neither a directory nor a regular file.
    Other,
}

/// What a tree copy does with one entry of a directory.
#[derive(Debug, Clone, Copy, PartialEq, Eq, Structural)]
pub enum EntryAction {
    /// The entry is passed over: not copied, not descended into.
    Skip,
    /// The directory is made at the destination and copied in turn.
    Descend,
    /// The file is copied byte for byte, over what is there.
    CopyFile,
    /// The entry is left out, with a warning.
    Ignore,
}

/// What a tree copy does with the entry `name` of kind `kind`.
pub open spec fn action_for(name: Seq<char>, kind: EntryKind) -> EntryAction {
    if name == VCS_DIR@ {
        EntryAction::Skip
    } else {
        match kind {
            EntryKind::Directory => EntryAction::Descend,
            EntryKind::File => EntryAction::CopyFile,
            EntryKind::Other => EntryAction::Ignore,
        }
    }
}

/// Whether an entry of this name is the version-control metadata
/// directory, which is passed over before anything is asked of it.
pub fn is_vcs_dir(name: &str) -> (yes: bool)
    ensures
        yes == (name@ == VCS_DIR@),
        yes == (action_for(name@, EntryKind::Directory) == EntryAction::Skip),
{
    same_text(name, VCS_DIR)
}

/// Decides what a tree copy does with one entry of the source directory.
pub fn entry_action(name: &str, kind: EntryKind) -> (action: EntryAction)
    ensures
        action == action_for(name@, kind),
{
    if is_vcs_dir(name) {
        EntryAction::Skip
    } else {
        match kind {
            EntryKind::Directory => EntryAction::Descend,
            EntryKind::File => EntryAction::CopyFile,
            EntryKind::Other => EntryAction::Ignore,
        }
    }
}

/// Admits the source of a tree copy: it must exist and be a directory.
/// Nothing is made at the destination before this has passed.
pub fn copy_dir(from: &str, present: bool, is_dir: bool) -> (admitted: Result<(), Error>)
    ensures
        match admitted {
            Ok(_) => present && is_dir,
            Err(error) => !(present && is_dir) && error@ == ErrorView::SourceMissing(from@),
        },
{
    if !present || !is_dir {
        Err(Error::SourceMissing(String::from_str(from)))
    } else {
        Ok(())
    }
}

/// A file tree: what stands at a path.
pub enum Node {
    File(Seq<u8>),
    Directory(Map<Seq<char>, Node>),
    /// Neither a directory nor a regular file.
    Other,
}

impl Node {
    pub open spec fn kind(self) -> EntryKind {
        match self {
            Node::File(_) => EntryKind::File,
            Node::Directory(_) => EntryKind::Directory,
            Node::Other => EntryKind::Other,
        }
    }

    /// What stands at `path` below this node, a name for each step down.
    pub open spec fn at(self, path: Seq<Seq<char>>) -> Option<Node>
        decreases path.len(),
    {
        if path.len() == 0 {
            Some(self)
        } else {
            match self {
                Node::Directory(entries) => if entries.contains_key(path[0]) {
                    entries[path[0]].at(path.drop_first())
                } else {
                    None
                },
                _ => None,
            }
        }
    }

    /// Whether a tree copy takes the entry `name` that holds this node.
    pub open spec fn taken(self, name: Seq<char>) -> bool {
        action_for(name, self.kind()) == EntryAction::Descend || action_for(name, self.kind())
            == EntryAction::CopyFile
    }

    /// What `path` leads to below what may stand at a place.
    pub open spec fn at_in(there: Option<Node>, path: Seq<Seq<char>>) -> Option<Node> {
        match there {
            Some(node) => node.at(path),
            None => None,
        }
    }

    /// What a tree copy of this node takes from `path` below it: the file
    /// or the directory there, unless a step of the path bears the name
    /// of the version-control metadata directory.
    pub open spec fn taken_at(self, path: Seq<Seq<char>>) -> Option<Node> {
        if path.contains(VCS_DIR@) {
            None
        } else {
            match self.at(path) {
                Some(Node::File(bytes)) => Some(Node::File(bytes)),
                Some(Node::Directory(entries)) => Some(Node::Directory(entries)),
                _ => None,
            }
        }
    }

    /// The copy can be made onto what stands at the destination: each
    /// entry that the copy takes meets nothing there or an entry of its
    /// own kind, a directory a directory and a file a file. Anything else
    /// fails in the doing.
    pub open spec fn fits(self, there: Option<Node>) -> bool
        decreases self,
    {
        match there {
            None => true,
            Some(Node::Directory(old)) => match self {
                Node::Directory(entries) => forall|name: Seq<char>|
                    entries.contains_key(name) && (#[trigger] entries[name]).taken(name)
                        && old.contains_key(name) ==> entries[name].fits(Some(old[name])),
                _ => false,
            },
            Some(Node::File(_)) => self is File,
            Some(Node::Other) => false,
        }
    }

    /// What a tree copy of this node leaves at a destination that holds
    /// `there`, or nothing: each entry of each directory is dealt with as
    /// `action_for` says, a file in place of what was there, a directory
    /// merged into the one there, and what the copy does not take stays
    /// as it was.
    pub open spec fn copied_onto(self, there: Option<Node>) -> Node
        decreases self,
    {
        match self {
            Node::Directory(entries) => {
                let old = match there {
                    Some(Node::Directory(old)) => old,
                    _ => Map::empty(),
                };
                Node::Directory(
                    Map::new(
                        |name: Seq<char>|
                            old.contains_key(name) || (entries.contains_key(name)
                                && entries[name].taken(name)),
                        |name: Seq<char>|
                            if entries.contains_key(name) && entries[name].taken(name) {
                                entries[name].copied_onto(
                                    if old.contains_key(name) {
                                        Some(old[name])
                                    } else {
                                        None
                                    },
                                )
                            } else {
                                old[name]
                            },
                    ),
                )
            },
            other => other,
        }
    }

    /// What a tree copy of this node leaves at a fresh destination.
    pub open spec fn copied(self) -> Node {
        self.copied_onto(None)
    }
}

/// What the copy of a directory onto a destination holds at a path: a
/// file of the source with its bytes, in place of the file that was
/// there; a directory of the source merged into the one that was there;
/// and where the copy takes nothing, because the source has nothing, or
/// something that is neither, or the path goes through the
/// version-control metadata directory, what was there before, or
/// nothing.
pub proof fn lemma_copy_onto_matches(tree: Node, there: Option<Node>, path: Seq<Seq<char>>)
    requires
        tree is Directory,
        tree.fits(there),
        path.len() > 0,
    ensures
        tree.copied_onto(there).at(path) == match tree.taken_at(path) {
            Some(Node::File(bytes)) => Some(Node::File(bytes)),
            Some(Node::Directory(entries)) => Some(
                Node::Directory(entries).copied_onto(Node::at_in(there, path)),
            ),
            _ => Node::at_in(there, path),
        },
    decreases path.len(),
{
    reveal_with_fuel(Node::at, 2);
    reveal_with_fuel(Node::copied_onto, 2);
    reveal_with_fuel(Node::fits, 2);
    let entries = tree->Directory_0;
    let old = match there {
        Some(Node::Directory(old)) => old,
        _ => Map::empty(),
    };
    let name = path[0];
    let rest = path.drop_first();
    lemma_contains_in_two(path, VCS_DIR@);
    let merged = tree.copied_onto(there)->Directory_0;
    let below = if old.contains_key(name) {
        Some(old[name])
    } else {
        None
    };
    assert(Node::at_in(there, path) == Node::at_in(below, rest));
    if entries.contains_key(name) && entries[name].taken(name) {
        let child = entries[name];
        assert(merged.contains_key(name));
        assert(merged[name] == child.copied_onto(below));
        assert(child.fits(below));
        if rest.len() == 0 {
            assert(!rest.contains(VCS_DIR@));
        } else if child is Directory {
            lemma_copy_onto_matches(child, below, rest);
        }
    } else {
        assert(merged.contains_key(name) == old.contains_key(name));
        if old.contains_key(name) {
            assert(merged[name] == old[name]);
        }
        if entries.contains_key(name) && entries[name] is Directory {
            assert(name == VCS_DIR@);
        }
    }
}

/// A path holds a name where its first step is the name or the rest
/// holds it.
proof fn lemma_contains_in_two(path: Seq<Seq<char>>, name: Seq<char>)
    requires
        path.len() > 0,
    ensures
        path.contains(name) <==> path[0] == name || path.drop_first().contains(name),
{
    let rest = path.drop_first();
    if path.contains(name) {
        let i = choose|i: int| 0 <= i < path.len() && path[i] == name;
        if i > 0 {
            assert(rest[i - 1] == name);
        }
    }
    if rest.contains(name) {
        let i = choose|i: int| 0 <= i < rest.len() && rest[i] == name;
        assert(path[i + 1] == name);
    }
    if path[0] == name {
        assert(path.contains(name));
    }
}

/// What the copy of a directory to a fresh destination holds at a path:
/// nothing below a name of the version-control metadata directory;
/// elsewhere a file with the bytes of the source's file, a directory for
/// a directory of the source, and nothing where the source has nothing or
/// something that is neither.
pub proof fn lemma_copy_matches_source(tree: Node, path: Seq<Seq<char>>)
    requires
        tree is Directory,
        path.len() > 0,
    ensures
        tree.copied().at(path) == if path.contains(VCS_DIR@) {
            None
        } else {
            match tree.at(path) {
                Some(Node::File(bytes)) => Some(Node::File(bytes)),
                Some(Node::Directory(entries)) => Some(Node::Directory(entries).copied()),
                _ => None,
            }
        },
{
    lemma_copy_onto_matches(tree, None, path);
}

/// A copy onto a destination overwrites and keeps: at the top of the
/// destination, a file of the source stands with the source's bytes
/// whatever file stood there, and an entry that the copy does not take
/// from the source, or whose name the source does not bear, stays as it
/// was.
pub proof fn lemma_copy_overwrites_and_keeps(tree: Node, there: Node, name: Seq<char>)
    requires
        tree is Directory,
        there is Directory,
        tree.fits(Some(there)),
    ensures
        ({
            let source = tree->Directory_0;
            let before = there->Directory_0;
            let after = tree.copied_onto(Some(there))->Directory_0;
            &&& tree.copied_onto(Some(there)) is Directory
            &&& source.contains_key(name) && source[name] is File && name != VCS_DIR@
                ==> after.contains_key(name) && after[name] == source[name]
            &&& !(source.contains_key(name) && source[name].taken(name)) ==> after.contains_key(
                name,
            ) == before.contains_key(name) && (before.contains_key(name) ==> after[name]
                == before[name])
        }),
{
    reveal_with_fuel(Node::copied_onto, 2);
}

} // verus!
