//! Small string helpers used by the host-facing surface.

use vstd::prelude::*;
use vstd::string::*;

verus! {

/// What `char::to_uppercase` yields on this character.
pub uninterp spec fn upper_chars(c: char) -> Seq<char>;

/// Relies on `char::to_uppercase`: the Unicode uppercase mapping of the
/// character — a function of the character alone.
#[verifier::external_body]
fn char_to_uppercase(c: char) -> (r: String)
    ensures
        r@ == upper_chars(c),
{
    c.to_uppercase().collect()
}

/// Uppercases the first character of a string and keeps the rest.
pub fn capitalize_first_letter(s: &str) -> (r: String)
    ensures
        s@.len() == 0 ==> r@ == Seq::<char>::empty(),
        s@.len() > 0 ==> r@ == upper_chars(s@[0]) + s@.skip(1),
{
    let n = s.unicode_len();
    if n == 0 {
        String::new()
    } else {
        let mut out = char_to_uppercase(s.get_char(0));
        let rest = s.substring_char(1, n);
        out.append(rest);
        proof {
            assert(rest@ =~= s@.skip(1));
        }
        out
    }
}

} // verus!
