//! Category-directory name matching.
//!
//! A directory holds one of the eight click categories when its name —
//! after dropping every non-alphabetic character and lowercasing the rest
//! — equals one of the canonical category names, in singular or plural
//! form. This accepts spellings like `soft_clicks`, `Soft Clicks` or
//! `SOFTCLICKS`.

use vstd::prelude::*;
use vstd::string::*;

use crate::click_type::ClickType;

verus! {

/// What `char::is_alphabetic` returns on this character.
pub uninterp spec fn is_alpha(c: char) -> bool;

/// Relies on `char::is_alphabetic`: whether the character has the Unicode
/// `Alphabetic` property — a function of the character alone.
#[verifier::external_body]
fn char_is_alphabetic(c: char) -> (r: bool)
    ensures
        r == is_alpha(c),
{
    c.is_alphabetic()
}

/// What `char::to_lowercase` yields on this character.
pub uninterp spec fn lower_chars(c: char) -> Seq<char>;

/// Relies on `char::to_lowercase`: the Unicode lowercase mapping of the
/// character — a function of the character alone.
#[verifier::external_body]
fn char_to_lowercase(c: char) -> (r: String)
    ensures
        r@ == lower_chars(c),
{
    c.to_lowercase().collect()
}

/// The canonical tag of a directory name: its alphabetic characters, each
/// replaced by its lowercase mapping, in order.
pub open spec fn tag_of(s: Seq<char>) -> Seq<char>
    decreases s.len(),
{
    if s.len() == 0 {
        Seq::empty()
    } else {
        tag_of(s.drop_last()) + (if is_alpha(s.last()) {
            lower_chars(s.last())
        } else {
            Seq::<char>::empty()
        })
    }
}

/// Computes the canonical tag of a directory name.
pub fn canonical_tag(name: &str) -> (r: String)
    ensures
        r@ == tag_of(name@),
{
    let mut out = String::new();
    let n = name.unicode_len();
    for i in 0..n
        invariant
            n == name@.len(),
            out@ == tag_of(name@.take(i as int)),
    {
        proof {
            assert(name@.take(i + 1).drop_last() =~= name@.take(i as int));
            assert(name@.take(i + 1).last() == name@[i as int]);
        }
        let c = name.get_char(i);
        if char_is_alphabetic(c) {
            let l = char_to_lowercase(c);
            out.append(l.as_str());
        }
        proof {
            assert(out@ =~= tag_of(name@.take(i + 1)));
        }
    }
    proof {
        assert(name@.take(n as int) =~= name@);
    }
    out
}

/// Character-sequence equality of two string slices.
pub fn str_eq(a: &str, b: &str) -> (r: bool)
    ensures
        r == (a@ == b@),
{
    let n = a.unicode_len();
    if n != b.unicode_len() {
        return false;
    }
    for i in 0..n
        invariant
            n == a@.len(),
            n == b@.len(),
            forall|j: int| 0 <= j < i ==> a@[j] == b@[j],
    {
        if a.get_char(i) != b.get_char(i) {
            return false;
        }
    }
    proof {
        assert(a@ =~= b@);
    }
    true
}

/// Whether `p` is a prefix of `s`, character for character.
pub open spec fn spec_has_prefix(s: Seq<char>, p: Seq<char>) -> bool {
    p.len() <= s.len() && forall|i: int| 0 <= i < p.len() ==> s[i] == p[i]
}

pub fn has_prefix(s: &str, p: &str) -> (r: bool)
    ensures
        r == spec_has_prefix(s@, p@),
{
    let np = p.unicode_len();
    if np > s.unicode_len() {
        return false;
    }
    for i in 0..np
        invariant
            np == p@.len(),
            np <= s@.len(),
            forall|j: int| 0 <= j < i ==> s@[j] == p@[j],
    {
        if s.get_char(i) != p.get_char(i) {
            return false;
        }
    }
    true
}

/// The category a canonical tag names, if any: each of the eight
/// categories is matched in its singular and plural spelling.
pub open spec fn bucket_for(tag: Seq<char>) -> Option<ClickType> {
    if tag == "hardclick"@ || tag == "hardclicks"@ {
        Some(ClickType::HardClick)
    } else if tag == "hardrelease"@ || tag == "hardreleases"@ {
        Some(ClickType::HardRelease)
    } else if tag == "click"@ || tag == "clicks"@ {
        Some(ClickType::Click)
    } else if tag == "release"@ || tag == "releases"@ {
        Some(ClickType::Release)
    } else if tag == "softclick"@ || tag == "softclicks"@ {
        Some(ClickType::SoftClick)
    } else if tag == "softrelease"@ || tag == "softreleases"@ {
        Some(ClickType::SoftRelease)
    } else if tag == "microclick"@ || tag == "microclicks"@ {
        Some(ClickType::MicroClick)
    } else if tag == "microrelease"@ || tag == "microreleases"@ {
        Some(ClickType::MicroRelease)
    } else {
        None
    }
}

/// The category a directory name selects, through its canonical tag.
pub fn category_of(name: &str) -> (r: Option<ClickType>)
    ensures
        r == bucket_for(tag_of(name@)),
{
    let tag = canonical_tag(name);
    let t = tag.as_str();
    if str_eq(t, "hardclick") || str_eq(t, "hardclicks") {
        Some(ClickType::HardClick)
    } else if str_eq(t, "hardrelease") || str_eq(t, "hardreleases") {
        Some(ClickType::HardRelease)
    } else if str_eq(t, "click") || str_eq(t, "clicks") {
        Some(ClickType::Click)
    } else if str_eq(t, "release") || str_eq(t, "releases") {
        Some(ClickType::Release)
    } else if str_eq(t, "softclick") || str_eq(t, "softclicks") {
        Some(ClickType::SoftClick)
    } else if str_eq(t, "softrelease") || str_eq(t, "softreleases") {
        Some(ClickType::SoftRelease)
    } else if str_eq(t, "microclick") || str_eq(t, "microclicks") {
        Some(ClickType::MicroClick)
    } else if str_eq(t, "microrelease") || str_eq(t, "microreleases") {
        Some(ClickType::MicroRelease)
    } else {
        None
    }
}

} // verus!
