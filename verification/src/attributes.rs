//! Attribute dictionaries pulled from level data: name/value pairs looked
//! up by ASCII-case-insensitive name, as the level format's readers do.

use vstd::prelude::*;

verus! {

/// One attribute of a level-data element: a name and a raw text value.
#[derive(Debug, PartialEq, Eq)]
pub struct Attribute {
    pub name: String,
    pub value: String,
}

/// Two characters match up to ASCII case: equal, or the same letter with
/// only the case (the 0x20 bit of an ASCII letter) differing.
pub open spec fn chars_match_nocase(a: char, b: char) -> bool {
    ||| a == b
    ||| ('A' <= a <= 'Z' && b as u32 == a as u32 + 32)
    ||| ('A' <= b <= 'Z' && a as u32 == b as u32 + 32)
}

/// Two strings are equal up to ASCII case.
pub open spec fn str_match_nocase(a: Seq<char>, b: Seq<char>) -> bool {
    a.len() == b.len() && forall|i: int|
        0 <= i < a.len() ==> chars_match_nocase(#[trigger] a[i], #[trigger] b[i])
}

/// ASCII-case-insensitive string equality: true iff lowering the ASCII
/// letters of both strings makes them equal.
pub fn eq_ignore_ascii_case(a: &str, b: &str) -> (r: bool)
    ensures
        r == str_match_nocase(a@, b@),
{
    let a_len = a.unicode_len();
    let b_len = b.unicode_len();
    if a_len != b_len {
        return false;
    }
    let mut i: usize = 0;
    while i < a_len
        invariant
            i <= a_len == a@.len(),
            b@.len() == a@.len(),
            forall|k: int| 0 <= k < i ==> chars_match_nocase(#[trigger] a@[k], #[trigger] b@[k]),
        decreases a_len - i,
    {
        let ca = a.get_char(i);
        let cb = b.get_char(i);
        let matches_here = ca == cb || (ca >= 'A' && ca <= 'Z' && cb as u32 == ca as u32 + 32) || (
        cb >= 'A' && cb <= 'Z' && ca as u32 == cb as u32 + 32);
        if !matches_here {
            return false;
        }
        i = i + 1;
    }
    true
}

/// The value of the first attribute whose name matches `name` up to ASCII
/// case, scanning from the start; `None` when no attribute matches.
pub open spec fn spec_find_attribute(attrs: Seq<Attribute>, name: Seq<char>) -> Option<Seq<char>>
    decreases attrs.len(),
{
    if attrs.len() == 0 {
        None
    } else if str_match_nocase(attrs.first().name@, name) {
        Some(attrs.first().value@)
    } else {
        spec_find_attribute(attrs.drop_first(), name)
    }
}

/// Looks up an attribute by ASCII-case-insensitive name and hands back its
/// raw text value; the first matching attribute wins.
pub fn find_attribute(attributes: &Vec<Attribute>, name: &str) -> (r: Option<String>)
    ensures
        match r {
            Some(v) => spec_find_attribute(attributes@, name@) == Some(v@),
            None => spec_find_attribute(attributes@, name@) is None,
        },
{
    let n = attributes.len();
    let mut i: usize = 0;
    proof {
        assert(attributes@.skip(0) =~= attributes@);
    }
    while i < n
        invariant
            i <= n == attributes@.len(),
            spec_find_attribute(attributes@, name@) == spec_find_attribute(
                attributes@.skip(i as int),
                name@,
            ),
        decreases n - i,
    {
        proof {
            assert(attributes@.skip(i as int).first() == attributes@[i as int]);
            assert(attributes@.skip(i as int).drop_first() =~= attributes@.skip(i + 1));
        }
        if eq_ignore_ascii_case(attributes[i].name.as_str(), name) {
            return Some(attributes[i].value.clone());
        }
        i = i + 1;
    }
    proof {
        assert(attributes@.skip(n as int) =~= Seq::<Attribute>::empty());
    }
    None
}

/// Exact (case-sensitive) string equality.
pub fn str_eq(a: &str, b: &str) -> (r: bool)
    ensures
        r == (a@ == b@),
{
    let a_len = a.unicode_len();
    let b_len = b.unicode_len();
    if a_len != b_len {
        return false;
    }
    let mut i: usize = 0;
    while i < a_len
        invariant
            i <= a_len == a@.len(),
            b@.len() == a@.len(),
            forall|k: int| 0 <= k < i ==> a@[k] == b@[k],
        decreases a_len - i,
    {
        if a.get_char(i) != b.get_char(i) {
            return false;
        }
        i = i + 1;
    }
    proof {
        assert(a@ =~= b@);
    }
    true
}

/// Whether an element's local name is the expected one, up to ASCII case.
pub fn element_is(name: &str, expected_name: &str) -> (r: bool)
    ensures
        r == str_match_nocase(name@, expected_name@),
{
    eq_ignore_ascii_case(name, expected_name)
}

} // verus!
