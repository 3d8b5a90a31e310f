//! Textual path manipulation: joining a directory with a child name, and
//! taking the final component of a path.

use vstd::prelude::*;

verus! {

/// A directory joined with a child name by one separator.
pub open spec fn joined(dir: Seq<char>, name: Seq<char>) -> Seq<char> {
    dir + seq!['/'] + name
}

/// Appends `name` to `dir` with a separator between them.
pub fn join_path(dir: &String, name: &String) -> (r: String)
    ensures
        r@ == joined(dir@, name@),
{
    proof {
        reveal_strlit("/");
    }
    let s = dir.clone();
    let s = s.concat("/");
    let s = s.concat(name.as_str());
    proof {
        assert(s@ =~= joined(dir@, name@));
    }
    s
}

/// Index of the last separator strictly before position `i`, or -1 when
/// there is none.
pub open spec fn last_slash_at(s: Seq<char>, i: int) -> int
    decreases i,
{
    if i <= 0 {
        -1
    } else if s[i - 1] == '/' {
        i - 1
    } else {
        last_slash_at(s, i - 1)
    }
}

pub proof fn lemma_last_slash_bounds(s: Seq<char>, i: int)
    requires
        i >= 0,
    ensures
        -1 <= last_slash_at(s, i) < i,
    decreases i,
{
    if i > 0 && s[i - 1] != '/' {
        lemma_last_slash_bounds(s, i - 1);
    }
}

/// The final component of a path: what follows the last separator. Empty
/// paths and paths ending in a separator have none.
pub open spec fn file_name_spec(s: Seq<char>) -> Option<Seq<char>> {
    let k = last_slash_at(s, s.len() as int);
    if s.len() == 0 || k == s.len() - 1 {
        None
    } else {
        Some(s.subrange(k + 1, s.len() as int))
    }
}

/// Returns the final component of a path, or nothing when the path is empty
/// or ends in a separator.
pub fn file_name_of(path: &str) -> (r: Option<String>)
    ensures
        r is Some <==> file_name_spec(path@) is Some,
        r matches Some(n) ==> (file_name_spec(path@) matches Some(v) && n@ == v),
{
    let len = path.unicode_len();
    proof {
        lemma_last_slash_bounds(path@, len as int);
    }
    if len == 0 {
        return None;
    }
    if path.get_char(len - 1) == '/' {
        return None;
    }
    let mut j = len;
    loop
        invariant
            0 <= j <= len,
            len == path@.len(),
            last_slash_at(path@, len as int) == last_slash_at(path@, j as int),
        ensures
            0 <= j <= len,
            len == path@.len(),
            last_slash_at(path@, len as int) == j - 1,
        decreases j,
    {
        if j == 0 {
            break ;
        }
        if path.get_char(j - 1) == '/' {
            break ;
        }
        j = j - 1;
    }
    proof {
        lemma_last_slash_bounds(path@, len as int - 1);
        assert(path@[len as int - 1] != '/');
        assert(last_slash_at(path@, len as int) == last_slash_at(path@, len as int - 1));
        assert(j < len);
    }
    let name = path.substring_char(j, len);
    Some(String::from_str(name))
}

} // verus!
