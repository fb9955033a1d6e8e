//! String helpers the matcher needs: character-exact equality and the
//! extraction of the final path segment of a slash-delimited map key.

use vstd::prelude::*;
use vstd::string::*;

verus! {

/// Character-for-character equality of two string slices.
pub fn str_eq(a: &str, b: &str) -> (r: bool)
    ensures
        r == (a@ == b@),
{
    let la: usize = a.unicode_len();
    let lb: usize = b.unicode_len();
    if la != lb {
        return false;
    }
    let mut i: usize = 0;
    while i < la
        invariant
            la == a@.len(),
            la == b@.len(),
            i <= la,
            forall|k: int| 0 <= k < i ==> a@[k] == b@[k],
        decreases la - i,
    {
        if a.get_char(i) != b.get_char(i) {
            return false;
        }
        i = i + 1;
    }
    proof {
        assert(a@ =~= b@);
    }
    true
}

/// Everything after the last `/`, or the whole string when no `/` occurs;
/// empty when the string ends in `/`.
pub open spec fn last_segment(s: Seq<char>) -> Seq<char>
    decreases s.len(),
{
    if s.len() == 0 {
        s
    } else if s[s.len() - 1] == '/' {
        Seq::<char>::empty()
    } else {
        last_segment(s.drop_last()).push(s[s.len() - 1])
    }
}

/// The canonical map key: the raw field may be a bare key or a
/// slash-delimited path whose final segment is the bare key.
pub fn extract_map_key(s: &str) -> (r: String)
    ensures
        r@ == last_segment(s@),
{
    let n: usize = s.unicode_len();
    let mut i: usize = n;
    proof {
        assert(s@.subrange(0, n as int) =~= s@);
        assert(last_segment(s@.subrange(0, n as int)) + s@.subrange(n as int, n as int)
            =~= last_segment(s@));
    }
    while i > 0 && s.get_char(i - 1) != '/'
        invariant
            n == s@.len(),
            i <= n,
            last_segment(s@) == last_segment(s@.subrange(0, i as int)) + s@.subrange(
                i as int,
                n as int,
            ),
        decreases i,
    {
        proof {
            let sub = s@.subrange(0, i as int);
            assert(sub.drop_last() =~= s@.subrange(0, i - 1));
            assert(last_segment(sub) == last_segment(s@.subrange(0, i - 1)).push(s@[i - 1]));
            assert(last_segment(s@.subrange(0, i - 1)) + s@.subrange(i - 1, n as int)
                =~= last_segment(sub) + s@.subrange(i as int, n as int));
        }
        i = i - 1;
    }
    proof {
        if i == 0 {
            assert(s@.subrange(0, 0int) =~= Seq::<char>::empty());
            assert(last_segment(s@.subrange(0, 0int)) + s@.subrange(0int, n as int) =~= s@);
        } else {
            let sub = s@.subrange(0, i as int);
            assert(sub[sub.len() - 1] == s@[i - 1]);
            assert(last_segment(sub) =~= Seq::<char>::empty());
            assert(last_segment(sub) + s@.subrange(i as int, n as int) =~= s@.subrange(
                i as int,
                n as int,
            ));
        }
    }
    let seg: &str = s.substring_char(i, n);
    seg.to_owned()
}

} // verus!
