use vstd::prelude::*;
use vstd::string::StrSliceExecFns;

verus! {

/// Position of the last `/` in `s`, or -1 when there is none.
pub open spec fn last_slash(s: Seq<char>) -> int
    decreases s.len(),
{
    if s.len() == 0 {
        -1
    } else if s.last() == '/' {
        s.len() - 1
    } else {
        last_slash(s.drop_last())
    }
}

/// The directory part of a relative `/`-separated path: everything before
/// its last `/`, or `None` for a path with no directory part.
pub open spec fn parent_of(s: Seq<char>) -> Option<Seq<char>> {
    if last_slash(s) >= 0 {
        Some(s.subrange(0, last_slash(s)))
    } else {
        None
    }
}

proof fn lemma_last_slash_bounds(s: Seq<char>)
    ensures
        -1 <= last_slash(s) < s.len(),
    decreases s.len(),
{
    if s.len() > 0 {
        lemma_last_slash_bounds(s.drop_last());
    }
}

/// The directory that must exist before the file at `path` is written.
pub fn parent_dir(path: &str) -> (r: Option<String>)
    ensures
        r is None <==> parent_of(path@) is None,
        r matches Some(d) ==> parent_of(path@) == Some(d@),
{
    let n = path.unicode_len();
    let mut i: usize = 0;
    let mut last: Option<usize> = None;
    while i < n
        invariant
            n == path@.len(),
            i <= n,
            last matches Some(l) ==> last_slash(path@.subrange(0, i as int)) == l as int,
            last is None ==> last_slash(path@.subrange(0, i as int)) == -1,
        decreases n - i,
    {
        proof {
            let pre = path@.subrange(0, i as int);
            let next = path@.subrange(0, i + 1);
            assert(next.drop_last() =~= pre);
            assert(next.last() == path@[i as int]);
        }
        if path.get_char(i) == '/' {
            last = Some(i);
        }
        i = i + 1;
    }
    assert(path@.subrange(0, n as int) =~= path@);
    match last {
        Some(l) => {
            proof {
                lemma_last_slash_bounds(path@);
            }
            Some(path.substring_char(0, l).to_owned())
        },
        None => None,
    }
}

} // verus!
