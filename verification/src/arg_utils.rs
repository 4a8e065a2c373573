use vstd::prelude::*;
use vstd::string::*;

verus! {

/// `i` is the position of the first ':' in `s`.
pub open spec fn first_colon_at(s: Seq<char>, i: int) -> bool {
    &&& 0 <= i < s.len()
    &&& s[i] == ':'
    &&& forall|j: int| 0 <= j < i ==> s[j] != ':'
}

/// Splits `KEY:VALUE` at the first ':'; the value may itself contain ':'.
/// Text without a ':' is rejected with the message the command line shows.
pub fn parse_option_key_value(text: &str) -> (r: Result<(String, String), String>)
    ensures
        r is Ok <==> exists|i: int| first_colon_at(text@, i),
        r is Ok ==> exists|i: int|
            #![auto]
            first_colon_at(text@, i) && r->Ok_0.0@ == text@.subrange(0, i) && r->Ok_0.1@
                == text@.subrange(i + 1, text@.len() as int),
        r is Err ==> r->Err_0@ == "key value pair must be two strings separated by a ':' character"@,
{
    let n = text.unicode_len();
    let mut i: usize = 0;
    loop
        invariant
            n == text@.len(),
            i <= n,
            forall|j: int| 0 <= j < i ==> text@[j] != ':',
        ensures
            i <= n,
            forall|j: int| 0 <= j < i ==> text@[j] != ':',
            i < n ==> text@[i as int] == ':',
        decreases n - i,
    {
        if i >= n {
            break ;
        }
        if text.get_char(i) == ':' {
            break ;
        }
        i = i + 1;
    }
    if i < n {
        let key = text.substring_char(0, i).to_owned();
        let value = text.substring_char(i + 1, n).to_owned();
        proof {
            assert(first_colon_at(text@, i as int));
        }
        Ok((key, value))
    } else {
        Err("key value pair must be two strings separated by a ':' character".to_owned())
    }
}

/// Accepts exactly the texts `parse_option_key_value` accepts; the command
/// line uses it to validate an option before it is parsed.
pub fn validate_option_key_value(text: String) -> (r: Result<(), String>)
    ensures
        r is Ok <==> exists|i: int| first_colon_at(text@, i),
        r is Err ==> r->Err_0@ == "key value pair must be two strings separated by a ':' character"@,
{
    match parse_option_key_value(text.as_str()) {
        Ok(_) => Ok(()),
        Err(e) => Err(e),
    }
}

} // verus!
