//! The factory: builds new entities from the attribute dictionaries of
//! level data.  Numeric attributes are parsed with explicit failure on
//! malformed input; a construction error is fatal to level loading and
//! never produces a partially-initialized entity.

use vstd::prelude::*;

use crate::attributes::spec_find_attribute;
use crate::attributes::str_eq;
use crate::attributes::Attribute;
use crate::attributes::find_attribute;
use crate::game_object::spec_new_object;
use crate::game_object::GameObject;
use crate::types::IdAllocator;
use crate::types::ObjectType;
use crate::types::Position;

verus! {

/// An ASCII decimal digit.
pub open spec fn is_digit_char(c: char) -> bool {
    '0' <= c <= '9'
}

/// Every character of the string is an ASCII decimal digit.
pub open spec fn all_digits(s: Seq<char>) -> bool {
    forall|i: int| 0 <= i < s.len() ==> is_digit_char(#[trigger] s[i])
}

/// The value of a digit string read in base 10.
pub open spec fn digits_value(s: Seq<char>) -> int
    decreases s.len(),
{
    if s.len() == 0 {
        0
    } else {
        digits_value(s.drop_last()) * 10 + (s.last() as u32 - 48)
    }
}

/// The digit part of an unsigned decimal text: the string with one leading
/// `+` sign removed, as `u32` parsing accepts.
pub open spec fn spec_digits_part(s: Seq<char>) -> Seq<char> {
    if s.len() > 0 && s[0] == '+' {
        s.drop_first()
    } else {
        s
    }
}

/// The text is a well-formed `u32`: an optional `+` sign, then at least one
/// digit, with a value that fits in 32 bits.
pub open spec fn valid_u32_text(s: Seq<char>) -> bool {
    let d = spec_digits_part(s);
    d.len() > 0 && all_digits(d) && digits_value(d) <= u32::MAX
}

/// The numeric value of a well-formed `u32` text.
pub open spec fn parsed_u32(s: Seq<char>) -> int {
    digits_value(spec_digits_part(s))
}

/// A digit string's value is non-negative.
proof fn lemma_digits_value_nonneg(s: Seq<char>)
    requires
        all_digits(s),
    ensures
        digits_value(s) >= 0,
    decreases s.len(),
{
    if s.len() > 0 {
        assert forall|i: int| 0 <= i < s.drop_last().len() implies is_digit_char(
            #[trigger] s.drop_last()[i],
        ) by {
            assert(s.drop_last()[i] == s[i]);
        }
        lemma_digits_value_nonneg(s.drop_last());
    }
}

/// A digit string is worth at least any of its prefixes.
proof fn lemma_digits_prefix_le(s: Seq<char>, i: int)
    requires
        all_digits(s),
        0 <= i <= s.len(),
    ensures
        digits_value(s.take(i)) <= digits_value(s),
    decreases s.len() - i,
{
    if i == s.len() {
        assert(s.take(i) =~= s);
    } else {
        assert(s.take(i + 1).drop_last() =~= s.take(i));
        assert(s.take(i + 1).last() == s[i]);
        assert forall|k: int| 0 <= k < s.take(i).len() implies is_digit_char(
            #[trigger] s.take(i)[k],
        ) by {
            assert(s.take(i)[k] == s[k]);
        }
        lemma_digits_value_nonneg(s.take(i));
        lemma_digits_prefix_le(s, i + 1);
    }
}

/// Parses an unsigned 32-bit decimal number: an optional `+` sign, then at
/// least one digit.  Returns `None` exactly on malformed text and on values
/// that do not fit.
pub fn parse_u32(s: &str) -> (r: Option<u32>)
    ensures
        r is Some <==> valid_u32_text(s@),
        r is Some ==> r.unwrap() == parsed_u32(s@),
{
    let len = s.unicode_len();
    let mut start: usize = 0;
    if len > 0 && s.get_char(0) == '+' {
        start = 1;
    }
    let ghost d = spec_digits_part(s@);
    proof {
        if start == 1 {
            assert(d =~= s@.skip(1));
        } else {
            assert(d =~= s@.skip(0));
            assert(d =~= s@);
        }
    }
    if start >= len {
        return None;
    }
    let mut acc: u32 = 0;
    let mut i: usize = start;
    while i < len
        invariant
            start <= i <= len == s@.len(),
            start <= 1,
            d == s@.skip(start as int),
            d.len() == len - start,
            d == spec_digits_part(s@),
            all_digits(d.take(i - start)),
            acc == digits_value(d.take(i - start)),
        decreases len - i,
    {
        let c = s.get_char(i);
        let cv = c as u32;
        proof {
            assert(d[i - start] == s@[i as int]);
            assert(d.take(i + 1 - start).drop_last() =~= d.take(i - start));
            assert(d.take(i + 1 - start).last() == d[i - start]);
        }
        if cv < 48 || cv > 57 {
            proof {
                assert(!is_digit_char(d[i - start]));
            }
            return None;
        }
        let digit = cv - 48;
        if acc > 429496729 || (acc == 429496729 && digit > 5) {
            proof {
                if all_digits(d) {
                    assert(digits_value(d.take(i + 1 - start)) > u32::MAX);
                    lemma_digits_prefix_le(d, i + 1 - start);
                }
            }
            return None;
        }
        acc = acc * 10 + digit;
        i = i + 1;
    }
    proof {
        assert(d.take(len - start) =~= d);
    }
    Some(acc)
}

/// Looks up a numeric attribute and parses it, failing explicitly — never
/// silently defaulting — when the attribute is missing or malformed.
pub fn parse_int(properties: &Vec<Attribute>, attribute_name: &str) -> (r: Result<u32, String>)
    ensures
        ({
            let found = spec_find_attribute(properties@, attribute_name@);
            match r {
                Ok(v) => {
                    &&& found matches Some(t) && valid_u32_text(t)
                    &&& v == parsed_u32(found.unwrap())
                },
                Err(e) => {
                    &&& found is None || !valid_u32_text(found.unwrap())
                    &&& found is None ==> e@ == "missing attribute"@
                    &&& found is Some ==> e@ == "malformed integer attribute"@
                },
            }
        }),
{
    match find_attribute(properties, attribute_name) {
        Some(value) => match parse_u32(value.as_str()) {
            Some(v) => Ok(v),
            None => Err("malformed integer attribute".to_owned()),
        },
        None => Err("missing attribute".to_owned()),
    }
}

/// The entity kind named by a `type` attribute value: only `Player` and
/// `Enemy` may be constructed; anything else is a construction error.
pub open spec fn spec_type_of(v: Seq<char>) -> Option<ObjectType> {
    if v == "Player"@ {
        Some(ObjectType::Player)
    } else if v == "Enemy"@ {
        Some(ObjectType::Enemy)
    } else {
        None
    }
}

/// A numeric attribute of the dictionary, parsed: `None` when missing or
/// malformed.
pub open spec fn spec_numeric_attr(props: Seq<Attribute>, name: Seq<char>) -> Option<int> {
    match spec_find_attribute(props, name) {
        Some(v) => if valid_u32_text(v) {
            Some(parsed_u32(v))
        } else {
            None
        },
        None => None,
    }
}

/// Builds a new entity from an attribute dictionary: the `type` attribute
/// must name `Player` or `Enemy`, and `x`, `y`, `width` and `height` must
/// parse as unsigned numbers.  On success the entity carries a fresh
/// identity; on any error nothing is allocated and no partial entity is
/// produced.  As the level format's reader always did, the `height`
/// attribute lands in the state's `width` field and `width` in `height`.
pub fn create_game_object(properties: &Vec<Attribute>, alloc: &mut IdAllocator) -> (r: Result<
    GameObject,
    String,
>)
    requires
        old(alloc).counter < usize::MAX,
    ensures
        ({
            let t = spec_find_attribute(properties@, "type"@);
            let h = spec_numeric_attr(properties@, "height"@);
            let w = spec_numeric_attr(properties@, "width"@);
            let x = spec_numeric_attr(properties@, "x"@);
            let y = spec_numeric_attr(properties@, "y"@);
            let ok = t matches Some(tv) && spec_type_of(tv) is Some && h is Some && w is Some
                && x is Some && y is Some;
            match r {
                Ok(obj) => {
                    &&& ok
                    &&& obj == spec_new_object(
                        old(alloc).counter,
                        Position {
                            x: x.unwrap() as u32 as i32,
                            y: y.unwrap() as u32 as i32,
                        },
                        spec_type_of(t.unwrap()).unwrap(),
                        h.unwrap() as u32,
                        w.unwrap() as u32,
                    )
                    &&& final(alloc).counter == old(alloc).counter + 1
                },
                Err(_) => {
                    &&& !ok
                    &&& *final(alloc) == *old(alloc)
                },
            }
        }),
{
    let type_value = match find_attribute(properties, "type") {
        Some(v) => v,
        None => {
            return Err("missing type attribute".to_owned());
        },
    };
    let object_type = if str_eq(type_value.as_str(), "Player") {
        ObjectType::Player
    } else if str_eq(type_value.as_str(), "Enemy") {
        ObjectType::Enemy
    } else {
        return Err("unknown entity type".to_owned());
    };

    let height = match parse_int(properties, "height") {
        Ok(v) => v,
        Err(e) => {
            return Err(e);
        },
    };
    let width = match parse_int(properties, "width") {
        Ok(v) => v,
        Err(e) => {
            return Err(e);
        },
    };
    let x = match parse_int(properties, "x") {
        Ok(v) => v,
        Err(e) => {
            return Err(e);
        },
    };
    let y = match parse_int(properties, "y") {
        Ok(v) => v,
        Err(e) => {
            return Err(e);
        },
    };

    let id = alloc.next_id();
    Ok(
        GameObject::new(
            id,
            Position::new(#[verifier::truncate] (x as i32), #[verifier::truncate] (y as i32)),
            object_type,
            height,
            width,
        ),
    )
}

} // verus!
