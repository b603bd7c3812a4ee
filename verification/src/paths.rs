//! Path construction on plain strings, with `/` as the only separator.

use vstd::prelude::*;
use vstd::string::*;

verus! {

/// A path is absolute when it starts at the root.
pub open spec fn is_absolute(path: Seq<char>) -> bool {
    path.len() > 0 && path[0] == '/'
}

/// `name` appended to `base` as one more path component: an absolute `name`
/// replaces `base`, and a separator is inserted unless `base` is empty or
/// already ends in one.
pub open spec fn joined(base: Seq<char>, name: Seq<char>) -> Seq<char> {
    if is_absolute(name) {
        name
    } else if base.len() == 0 || base.last() == '/' {
        base + name
    } else {
        base + seq!['/'] + name
    }
}

/// Tells whether `path` starts at the root.
pub fn starts_at_root(path: &str) -> (res: bool)
    ensures
        res == is_absolute(path@),
{
    path.unicode_len() > 0 && path.get_char(0) == '/'
}

/// Appends `name` to `base` as one more path component.
pub fn join(base: &str, name: &str) -> (res: String)
    ensures
        res@ == joined(base@, name@),
{
    if starts_at_root(name) {
        return String::from_str(name);
    }
    let mut res = String::from_str(base);
    let len: usize = base.unicode_len();
    if len > 0 && base.get_char(len - 1) != '/' {
        proof {
            reveal_strlit("/");
        }
        res.append("/");
        assert("/"@ =~= seq!['/']);
    }
    res.append(name);
    res
}

} // verus!
