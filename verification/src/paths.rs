use vstd::prelude::*;
use vstd::string::StringExecFns;
use vstd::string::StrSliceExecFns;

verus! {

/// `name` adjoined to the directory `base`, in `/`-separated paths: a `name`
/// that starts at the root stands alone; otherwise one `/` separates the two
/// unless `base` is empty or already ends in one.
pub open spec fn joined(base: Seq<char>, name: Seq<char>) -> Seq<char> {
    if name.len() > 0 && name[0] == '/' {
        name
    } else if base.len() > 0 && base[base.len() - 1] != '/' {
        base + seq!['/'] + name
    } else {
        base + name
    }
}

/// Adjoins `name` to the directory `base`.
pub fn join_path(base: &str, name: &str) -> (path: String)
    ensures
        path@ == joined(base@, name@),
{
    let name_len = name.unicode_len();
    let base_len = base.unicode_len();
    if name_len > 0 && name.get_char(0) == '/' {
        String::from_str(name)
    } else if base_len > 0 && base.get_char(base_len - 1) != '/' {
        proof {
            reveal_strlit("/");
            assert("/"@ =~= seq!['/']);
        }
        let mut path = String::from_str(base);
        path.append("/");
        path.append(name);
        path
    } else {
        let mut path = String::from_str(base);
        path.append(name);
        path
    }
}

} // verus!
