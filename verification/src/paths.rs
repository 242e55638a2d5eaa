//! Paths as text. A path is joined the way Unix paths are: an absolute
//! second part replaces the first, otherwise one separator stands
//! between the two.

use vstd::prelude::*;
use vstd::string::*;

verus! {

/// The path that `rest` names when it is read relative to `base`.
pub open spec fn joined(base: Seq<char>, rest: Seq<char>) -> Seq<char> {
    if rest.len() > 0 && rest[0] == '/' {
        rest
    } else if base.len() > 0 && base.last() != '/' {
        base + seq!['/'] + rest
    } else {
        base + rest
    }
}

/// Joins two paths.
pub fn join_path(base: &str, rest: &str) -> (path: String)
    ensures
        path@ == joined(base@, rest@),
{
    if rest.unicode_len() > 0 && rest.get_char(0) == '/' {
        return String::from_str(rest);
    }
    let mut path = String::from_str(base);
    let n = base.unicode_len();
    if n > 0 && base.get_char(n - 1) != '/' {
        proof {
            reveal_strlit("/");
        }
        path.append("/");
        assert("/"@ =~= seq!['/']);
    }
    path.append(rest);
    path
}

/// A name without a separator, joined to a directory, stays inside that
/// directory: the path begins with the directory and ends with the name.
pub proof fn lemma_joined_name(directory: Seq<char>, name: Seq<char>)
    requires
        forall|i: int| 0 <= i < name.len() ==> #[trigger] name[i] != '/',
    ensures
        directory.is_prefix_of(joined(directory, name)),
        name.is_suffix_of(joined(directory, name)),
{
    let path = joined(directory, name);
    assert(path.subrange(0, directory.len() as int) =~= directory);
    assert(path.subrange(path.len() - name.len(), path.len() as int) =~= name);
}

} // verus!
