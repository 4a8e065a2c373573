use vstd::prelude::*;
use vstd::string::*;

verus! {

/// Names what char::is_whitespace returns: whether `c` is Unicode
/// whitespace. The result is a function of the character alone.
pub uninterp spec fn is_ws_char(c: char) -> bool;

/// Relies on char::is_whitespace; `is_ws_char` names its result.
#[verifier::external_body]
fn char_is_whitespace(c: char) -> (r: bool)
    ensures
        r == is_ws_char(c),
{
    c.is_whitespace()
}

/// `r` is `s` with every leading and every trailing whitespace character
/// removed: what str::trim computes.
pub open spec fn is_trimmed(s: Seq<char>, r: Seq<char>) -> bool {
    exists|i: int, j: int|
        #![auto]
        {
            &&& 0 <= i <= j <= s.len()
            &&& r == s.subrange(i, j)
            &&& forall|k: int| 0 <= k < i ==> is_ws_char(s[k])
            &&& forall|k: int| j <= k < s.len() ==> is_ws_char(s[k])
            &&& i < j ==> !is_ws_char(s[i]) && !is_ws_char(s[j - 1])
        }
}

/// A string has exactly one trimmed form: what a version probe reports is
/// determined by what the probe printed.
pub proof fn lemma_trim_unique(s: Seq<char>, a: Seq<char>, b: Seq<char>)
    requires
        is_trimmed(s, a),
        is_trimmed(s, b),
    ensures
        a == b,
{
    let (i1, j1): (int, int) = choose|i: int, j: int|
        #![auto]
        {
            &&& 0 <= i <= j <= s.len()
            &&& a == s.subrange(i, j)
            &&& forall|k: int| 0 <= k < i ==> is_ws_char(s[k])
            &&& forall|k: int| j <= k < s.len() ==> is_ws_char(s[k])
            &&& i < j ==> !is_ws_char(s[i]) && !is_ws_char(s[j - 1])
        };
    let (i2, j2): (int, int) = choose|i: int, j: int|
        #![auto]
        {
            &&& 0 <= i <= j <= s.len()
            &&& b == s.subrange(i, j)
            &&& forall|k: int| 0 <= k < i ==> is_ws_char(s[k])
            &&& forall|k: int| j <= k < s.len() ==> is_ws_char(s[k])
            &&& i < j ==> !is_ws_char(s[i]) && !is_ws_char(s[j - 1])
        };
    if i1 == j1 {
        assert(forall|k: int| 0 <= k < s.len() ==> is_ws_char(s[k]));
        assert(i2 == j2);
        assert(a =~= b);
    } else {
        assert(i2 < j2);
        assert(i1 == i2);
        assert(j1 == j2);
        assert(a =~= b);
    }
}

/// Removes leading and trailing whitespace.
pub fn trim_str(s: &str) -> (r: String)
    ensures
        is_trimmed(s@, r@),
{
    let n = s.unicode_len();
    let mut i: usize = 0;
    loop
        invariant
            n == s@.len(),
            i <= n,
            forall|k: int| 0 <= k < i ==> is_ws_char(s@[k]),
        ensures
            i <= n,
            forall|k: int| 0 <= k < i ==> is_ws_char(s@[k]),
            i < n ==> !is_ws_char(s@[i as int]),
        decreases n - i,
    {
        if i >= n {
            break ;
        }
        if !char_is_whitespace(s.get_char(i)) {
            break ;
        }
        i = i + 1;
    }
    let mut j: usize = n;
    loop
        invariant
            n == s@.len(),
            i <= j <= n,
            forall|k: int| j <= k < n ==> is_ws_char(s@[k]),
        ensures
            i <= j <= n,
            forall|k: int| j <= k < n ==> is_ws_char(s@[k]),
            i < j ==> !is_ws_char(s@[j - 1]),
        decreases j,
    {
        if j <= i {
            break ;
        }
        if !char_is_whitespace(s.get_char(j - 1)) {
            break ;
        }
        j = j - 1;
    }
    let r = s.substring_char(i, j).to_owned();
    proof {
        assert(r@ == s@.subrange(i as int, j as int));
        assert(is_trimmed(s@, r@));
    }
    r
}

} // verus!
