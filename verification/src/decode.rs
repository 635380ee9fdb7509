use vstd::prelude::*;
use vstd::string::*;
use crate::model::{
    AvailabilityResponse, CenterResponse, DecodeError, DetailResponse, SlotResponse,
    SpecAvailability, SpecCenter, SpecDetail, SpecSlot, avails_view, slots_view,
};
use crate::text::{chars_of, push_char, str_eq};

verus! {

// The detail payload is JSON. The grammar below is the reference for what the
// decoder accepts: a JSON object whose `availabilities` member is an array of
// availability objects and whose `search_result` member is a center object,
// with every unknown member, however nested, tolerated and skipped. Nested
// values are handled by step-indexed recursion: every spec function that
// descends takes a step budget (`fuel`), and the entry point supplies a budget
// larger than any well-formed or ill-formed input can consume, so exhaustion
// only ever coincides with rejection.

/// JSON whitespace.
pub open spec fn is_ws(c: char) -> bool {
    c == ' ' || c == '\t' || c == '\n' || c == '\r'
}

/// A decimal digit.
pub open spec fn is_digit(c: char) -> bool {
    48 <= c as u32 && c as u32 <= 57
}

/// A hexadecimal digit.
pub open spec fn is_hex(c: char) -> bool {
    is_digit(c) || (97 <= c as u32 && c as u32 <= 102) || (65 <= c as u32 && c as u32 <= 70)
}

/// The value of a hexadecimal digit.
pub open spec fn hex_val(c: char) -> int {
    if is_digit(c) {
        c as u32 - 48
    } else if 97 <= c as u32 && c as u32 <= 102 {
        c as u32 - 87
    } else {
        c as u32 - 55
    }
}

/// Four hexadecimal digits at `i`.
pub open spec fn is_hex4(s: Seq<char>, i: int) -> bool {
    &&& i + 4 <= s.len()
    &&& is_hex(s[i])
    &&& is_hex(s[i + 1])
    &&& is_hex(s[i + 2])
    &&& is_hex(s[i + 3])
}

/// The value of the four hexadecimal digits at `i`.
pub open spec fn hex4(s: Seq<char>, i: int) -> int {
    hex_val(s[i]) * 4096 + hex_val(s[i + 1]) * 256 + hex_val(s[i + 2]) * 16 + hex_val(s[i + 3])
}

/// The scalar value of a character.
pub open spec fn char_value(c: char) -> int {
    c as u32 as int
}

/// The character with scalar value `v`.
pub open spec fn char_of(v: int) -> char {
    choose|c: char| char_value(c) == v
}

/// A one-character escape and the character it stands for.
pub open spec fn is_simple_escape(e: char) -> bool {
    e == '"' || e == '\\' || e == '/' || e == 'b' || e == 'f' || e == 'n' || e == 'r' || e == 't'
}

pub open spec fn spec_escape_char(e: char) -> char {
    if e == 'b' {
        '\u{8}'
    } else if e == 'f' {
        '\u{c}'
    } else if e == 'n' {
        '\n'
    } else if e == 'r' {
        '\r'
    } else if e == 't' {
        '\t'
    } else {
        e
    }
}

/// The first position at or after `i` that does not hold whitespace.
pub open spec fn spec_skip_ws(s: Seq<char>, i: int) -> int
    decreases s.len() - i,
{
    if 0 <= i < s.len() && is_ws(s[i]) {
        spec_skip_ws(s, i + 1)
    } else {
        i
    }
}

/// The decoded content and end position of a string body starting at `i`,
/// just after the opening quote: characters up to the closing quote, with the
/// JSON escapes (including surrogate pairs) decoded.
pub open spec fn spec_string_rest(s: Seq<char>, i: int) -> Option<(Seq<char>, int)>
    decreases s.len() - i,
{
    if i < 0 || i >= s.len() {
        None
    } else {
        let c = s[i];
        if c == '"' {
            Some((Seq::empty(), i + 1))
        } else if c == '\\' {
            if i + 2 > s.len() {
                None
            } else {
                let e = s[i + 1];
                if e == 'u' {
                    if is_hex4(s, i + 2) {
                        let v = hex4(s, i + 2);
                        if 0xD800 <= v < 0xDC00 {
                            if i + 12 <= s.len() && s[i + 6] == '\\' && s[i + 7] == 'u' && is_hex4(
                                s,
                                i + 8,
                            ) {
                                let w = hex4(s, i + 8);
                                if 0xDC00 <= w < 0xE000 {
                                    match spec_string_rest(s, i + 12) {
                                        None => None,
                                        Some((t, j)) => Some(
                                            (
                                                seq![
                                                    char_of(
                                                        0x10000 + (v - 0xD800) * 0x400 + (w
                                                            - 0xDC00),
                                                    ),
                                                ] + t,
                                                j,
                                            ),
                                        ),
                                    }
                                } else {
                                    None
                                }
                            } else {
                                None
                            }
                        } else if 0xDC00 <= v < 0xE000 {
                            None
                        } else {
                            match spec_string_rest(s, i + 6) {
                                None => None,
                                Some((t, j)) => Some((seq![char_of(v)] + t, j)),
                            }
                        }
                    } else {
                        None
                    }
                } else if is_simple_escape(e) {
                    match spec_string_rest(s, i + 2) {
                        None => None,
                        Some((t, j)) => Some((seq![spec_escape_char(e)] + t, j)),
                    }
                } else {
                    None
                }
            }
        } else if (c as u32) < 0x20 {
            None
        } else {
            match spec_string_rest(s, i + 1) {
                None => None,
                Some((t, j)) => Some((seq![c] + t, j)),
            }
        }
    }
}

/// A complete string value at `i`: an opening quote, then a string body.
pub open spec fn spec_parse_string(s: Seq<char>, i: int) -> Option<(Seq<char>, int)> {
    if 0 <= i < s.len() && s[i] == '"' {
        spec_string_rest(s, i + 1)
    } else {
        None
    }
}

/// The first position at or after `i` that does not hold a digit.
pub open spec fn spec_digits_end(s: Seq<char>, i: int) -> int
    decreases s.len() - i,
{
    if 0 <= i < s.len() && is_digit(s[i]) {
        spec_digits_end(s, i + 1)
    } else {
        i
    }
}

/// The end position of a JSON number starting at `i`: an optional minus, an
/// integer part without leading zero, an optional fraction and exponent.
pub open spec fn spec_number_end(s: Seq<char>, i: int) -> Option<int> {
    let i1 = if 0 <= i < s.len() && s[i] == '-' {
        i + 1
    } else {
        i
    };
    if 0 <= i1 < s.len() && is_digit(s[i1]) {
        let i2 = if s[i1] == '0' {
            i1 + 1
        } else {
            spec_digits_end(s, i1)
        };
        let i3 = if i2 < s.len() && s[i2] == '.' {
            if i2 + 1 < s.len() && is_digit(s[i2 + 1]) {
                spec_digits_end(s, i2 + 1)
            } else {
                -1
            }
        } else {
            i2
        };
        if i3 < 0 {
            None
        } else {
            let i4 = if i3 < s.len() && (s[i3] == 'e' || s[i3] == 'E') {
                let i5 = if i3 + 1 < s.len() && (s[i3 + 1] == '+' || s[i3 + 1] == '-') {
                    i3 + 2
                } else {
                    i3 + 1
                };
                if i5 < s.len() && is_digit(s[i5]) {
                    spec_digits_end(s, i5)
                } else {
                    -1
                }
            } else {
                i3
            };
            if i4 < 0 {
                None
            } else {
                Some(i4)
            }
        }
    } else {
        None
    }
}

/// `null` at `i`.
pub open spec fn spec_lit_null(s: Seq<char>, i: int) -> bool {
    i + 4 <= s.len() && s[i] == 'n' && s[i + 1] == 'u' && s[i + 2] == 'l' && s[i + 3] == 'l'
}

/// `true` at `i`.
pub open spec fn spec_lit_true(s: Seq<char>, i: int) -> bool {
    i + 4 <= s.len() && s[i] == 't' && s[i + 1] == 'r' && s[i + 2] == 'u' && s[i + 3] == 'e'
}

/// `false` at `i`.
pub open spec fn spec_lit_false(s: Seq<char>, i: int) -> bool {
    i + 5 <= s.len() && s[i] == 'f' && s[i + 1] == 'a' && s[i + 2] == 'l' && s[i + 3] == 's' && s[i
        + 4] == 'e'
}

/// The end position of any JSON value starting at `i` (whitespace already
/// skipped), or `None` where no value stands there.
pub open spec fn spec_skip_value(s: Seq<char>, i: int, fuel: nat) -> Option<int>
    decreases fuel, 0int,
{
    if !(0 <= i < s.len()) {
        None
    } else {
        let c = s[i];
        if c == '"' {
            match spec_string_rest(s, i + 1) {
                None => None,
                Some((t, j)) => Some(j),
            }
        } else if c == '{' {
            let j = spec_skip_ws(s, i + 1);
            if j < s.len() && s[j] == '}' {
                Some(j + 1)
            } else if fuel == 0 {
                None
            } else {
                spec_skip_members(s, j, (fuel - 1) as nat)
            }
        } else if c == '[' {
            let j = spec_skip_ws(s, i + 1);
            if j < s.len() && s[j] == ']' {
                Some(j + 1)
            } else if fuel == 0 {
                None
            } else {
                spec_skip_elements(s, j, (fuel - 1) as nat)
            }
        } else if c == '-' || is_digit(c) {
            spec_number_end(s, i)
        } else if c == 'n' {
            if spec_lit_null(s, i) {
                Some(i + 4)
            } else {
                None
            }
        } else if c == 't' {
            if spec_lit_true(s, i) {
                Some(i + 4)
            } else {
                None
            }
        } else if c == 'f' {
            if spec_lit_false(s, i) {
                Some(i + 5)
            } else {
                None
            }
        } else {
            None
        }
    }
}

/// The end position of the members of an object being skipped, starting at a
/// member key.
pub open spec fn spec_skip_members(s: Seq<char>, i: int, fuel: nat) -> Option<int>
    decreases fuel, 2int,
{
    if i < s.len() && s[i] == '"' {
        match spec_string_rest(s, i + 1) {
            None => None,
            Some((k, j)) => {
                let j1 = spec_skip_ws(s, j);
                if j1 < s.len() && s[j1] == ':' {
                    match spec_skip_value(s, spec_skip_ws(s, j1 + 1), fuel) {
                        None => None,
                        Some(m) => spec_skip_after(s, m, fuel),
                    }
                } else {
                    None
                }
            },
        }
    } else {
        None
    }
}

/// After a skipped member's value: either a comma and further members, or the
/// closing brace.
pub open spec fn spec_skip_after(s: Seq<char>, i: int, fuel: nat) -> Option<int>
    decreases fuel, 1int,
{
    let j = spec_skip_ws(s, i);
    if j < s.len() && s[j] == ',' {
        if fuel == 0 {
            None
        } else {
            spec_skip_members(s, spec_skip_ws(s, j + 1), (fuel - 1) as nat)
        }
    } else if j < s.len() && s[j] == '}' {
        Some(j + 1)
    } else {
        None
    }
}

/// The end position of the elements of an array being skipped, starting at an
/// element.
pub open spec fn spec_skip_elements(s: Seq<char>, i: int, fuel: nat) -> Option<int>
    decreases fuel, 2int,
{
    match spec_skip_value(s, i, fuel) {
        None => None,
        Some(j) => {
            let j1 = spec_skip_ws(s, j);
            if j1 < s.len() && s[j1] == ',' {
                if fuel == 0 {
                    None
                } else {
                    spec_skip_elements(s, spec_skip_ws(s, j1 + 1), (fuel - 1) as nat)
                }
            } else if j1 < s.len() && s[j1] == ']' {
                Some(j1 + 1)
            } else {
                None
            }
        },
    }
}

/// A `u32` JSON value: plain digits without leading zero, and within range;
/// a minus sign, fraction or exponent is a wrong type.
pub open spec fn spec_u32_acc(s: Seq<char>, i: int, acc: u32) -> Option<(u32, int)>
    decreases s.len() - i,
{
    if 0 <= i < s.len() && is_digit(s[i]) {
        let d = s[i] as u32 - 48;
        if acc * 10 + d > 0xffff_ffff {
            None
        } else {
            spec_u32_acc(s, i + 1, (acc * 10 + d) as u32)
        }
    } else if 0 <= i < s.len() && (s[i] == '.' || s[i] == 'e' || s[i] == 'E') {
        None
    } else {
        Some((acc, i))
    }
}

pub open spec fn spec_parse_u32(s: Seq<char>, i: int) -> Option<(u32, int)> {
    if 0 <= i < s.len() && is_digit(s[i]) {
        if s[i] == '0' && i + 1 < s.len() && is_digit(s[i + 1]) {
            None
        } else {
            spec_u32_acc(s, i, 0)
        }
    } else {
        None
    }
}

/// The members of a slot object: `agenda_id`, `start_date` and `end_date`
/// are required, may come in any order, may not repeat, and every other
/// member is skipped.
pub open spec fn spec_slot_members(
    s: Seq<char>,
    i: int,
    fuel: nat,
    agenda: Option<u32>,
    start: Option<Seq<char>>,
    end: Option<Seq<char>>,
) -> Option<(SpecSlot, int)>
    decreases fuel, 2int,
{
    if i < s.len() && s[i] == '"' {
        match spec_string_rest(s, i + 1) {
            None => None,
            Some((key, j)) => {
                let j1 = spec_skip_ws(s, j);
                if j1 < s.len() && s[j1] == ':' {
                    let k = spec_skip_ws(s, j1 + 1);
                    if key == "agenda_id"@ {
                        if agenda is Some {
                            None
                        } else {
                            match spec_parse_u32(s, k) {
                                None => None,
                                Some((v, m)) => spec_slot_after(s, m, fuel, Some(v), start, end),
                            }
                        }
                    } else if key == "start_date"@ {
                        if start is Some {
                            None
                        } else {
                            match spec_parse_string(s, k) {
                                None => None,
                                Some((v, m)) => spec_slot_after(s, m, fuel, agenda, Some(v), end),
                            }
                        }
                    } else if key == "end_date"@ {
                        if end is Some {
                            None
                        } else {
                            match spec_parse_string(s, k) {
                                None => None,
                                Some((v, m)) => spec_slot_after(s, m, fuel, agenda, start, Some(v)),
                            }
                        }
                    } else {
                        match spec_skip_value(s, k, fuel) {
                            None => None,
                            Some(m) => spec_slot_after(s, m, fuel, agenda, start, end),
                        }
                    }
                } else {
                    None
                }
            },
        }
    } else {
        None
    }
}

pub open spec fn spec_slot_after(
    s: Seq<char>,
    i: int,
    fuel: nat,
    agenda: Option<u32>,
    start: Option<Seq<char>>,
    end: Option<Seq<char>>,
) -> Option<(SpecSlot, int)>
    decreases fuel, 1int,
{
    let j = spec_skip_ws(s, i);
    if j < s.len() && s[j] == ',' {
        if fuel == 0 {
            None
        } else {
            spec_slot_members(s, spec_skip_ws(s, j + 1), (fuel - 1) as nat, agenda, start, end)
        }
    } else if j < s.len() && s[j] == '}' {
        if agenda is Some && start is Some && end is Some {
            Some(
                (
                    SpecSlot { agenda_id: agenda->0, start_date: start->0, end_date: end->0 },
                    j + 1,
                ),
            )
        } else {
            None
        }
    } else {
        None
    }
}

/// A slot object.
pub open spec fn spec_parse_slot(s: Seq<char>, i: int, fuel: nat) -> Option<(SpecSlot, int)>
    decreases fuel, 3int,
{
    if 0 <= i < s.len() && s[i] == '{' {
        spec_slot_members(s, spec_skip_ws(s, i + 1), fuel, None, None, None)
    } else {
        None
    }
}

/// The elements of a non-empty slot array.
pub open spec fn spec_slots_elements(s: Seq<char>, i: int, fuel: nat, acc: Seq<SpecSlot>) -> Option<
    (Seq<SpecSlot>, int),
>
    decreases fuel, 4int,
{
    match spec_parse_slot(s, i, fuel) {
        None => None,
        Some((sl, j)) => {
            let j1 = spec_skip_ws(s, j);
            if j1 < s.len() && s[j1] == ',' {
                if fuel == 0 {
                    None
                } else {
                    spec_slots_elements(s, spec_skip_ws(s, j1 + 1), (fuel - 1) as nat, acc.push(sl))
                }
            } else if j1 < s.len() && s[j1] == ']' {
                Some((acc.push(sl), j1 + 1))
            } else {
                None
            }
        },
    }
}

/// A slot array.
pub open spec fn spec_parse_slots(s: Seq<char>, i: int, fuel: nat) -> Option<(Seq<SpecSlot>, int)>
    decreases fuel, 5int,
{
    if 0 <= i < s.len() && s[i] == '[' {
        let j = spec_skip_ws(s, i + 1);
        if j < s.len() && s[j] == ']' {
            Some((Seq::empty(), j + 1))
        } else {
            spec_slots_elements(s, j, fuel, Seq::empty())
        }
    } else {
        None
    }
}

/// The members of an availability object: `date` and `slots` are required.
pub open spec fn spec_avail_members(
    s: Seq<char>,
    i: int,
    fuel: nat,
    date: Option<Seq<char>>,
    slots: Option<Seq<SpecSlot>>,
) -> Option<(SpecAvailability, int)>
    decreases fuel, 7int,
{
    if i < s.len() && s[i] == '"' {
        match spec_string_rest(s, i + 1) {
            None => None,
            Some((key, j)) => {
                let j1 = spec_skip_ws(s, j);
                if j1 < s.len() && s[j1] == ':' {
                    let k = spec_skip_ws(s, j1 + 1);
                    if key == "date"@ {
                        if date is Some {
                            None
                        } else {
                            match spec_parse_string(s, k) {
                                None => None,
                                Some((v, m)) => spec_avail_after(s, m, fuel, Some(v), slots),
                            }
                        }
                    } else if key == "slots"@ {
                        if slots is Some {
                            None
                        } else {
                            match spec_parse_slots(s, k, fuel) {
                                None => None,
                                Some((v, m)) => spec_avail_after(s, m, fuel, date, Some(v)),
                            }
                        }
                    } else {
                        match spec_skip_value(s, k, fuel) {
                            None => None,
                            Some(m) => spec_avail_after(s, m, fuel, date, slots),
                        }
                    }
                } else {
                    None
                }
            },
        }
    } else {
        None
    }
}

pub open spec fn spec_avail_after(
    s: Seq<char>,
    i: int,
    fuel: nat,
    date: Option<Seq<char>>,
    slots: Option<Seq<SpecSlot>>,
) -> Option<(SpecAvailability, int)>
    decreases fuel, 6int,
{
    let j = spec_skip_ws(s, i);
    if j < s.len() && s[j] == ',' {
        if fuel == 0 {
            None
        } else {
            spec_avail_members(s, spec_skip_ws(s, j + 1), (fuel - 1) as nat, date, slots)
        }
    } else if j < s.len() && s[j] == '}' {
        if date is Some && slots is Some {
            Some((SpecAvailability { date: date->0, slots: slots->0 }, j + 1))
        } else {
            None
        }
    } else {
        None
    }
}

/// An availability object.
pub open spec fn spec_parse_avail(s: Seq<char>, i: int, fuel: nat) -> Option<
    (SpecAvailability, int),
>
    decreases fuel, 8int,
{
    if 0 <= i < s.len() && s[i] == '{' {
        spec_avail_members(s, spec_skip_ws(s, i + 1), fuel, None, None)
    } else {
        None
    }
}

/// The elements of a non-empty availability array.
pub open spec fn spec_avails_elements(
    s: Seq<char>,
    i: int,
    fuel: nat,
    acc: Seq<SpecAvailability>,
) -> Option<(Seq<SpecAvailability>, int)>
    decreases fuel, 9int,
{
    match spec_parse_avail(s, i, fuel) {
        None => None,
        Some((a, j)) => {
            let j1 = spec_skip_ws(s, j);
            if j1 < s.len() && s[j1] == ',' {
                if fuel == 0 {
                    None
                } else {
                    spec_avails_elements(s, spec_skip_ws(s, j1 + 1), (fuel - 1) as nat, acc.push(a))
                }
            } else if j1 < s.len() && s[j1] == ']' {
                Some((acc.push(a), j1 + 1))
            } else {
                None
            }
        },
    }
}

/// An availability array.
pub open spec fn spec_parse_avails(s: Seq<char>, i: int, fuel: nat) -> Option<
    (Seq<SpecAvailability>, int),
>
    decreases fuel, 10int,
{
    if 0 <= i < s.len() && s[i] == '[' {
        let j = spec_skip_ws(s, i + 1);
        if j < s.len() && s[j] == ']' {
            Some((Seq::empty(), j + 1))
        } else {
            spec_avails_elements(s, j, fuel, Seq::empty())
        }
    } else {
        None
    }
}

/// The members of a center object: `address`, `city`, `name_with_title`,
/// `zipcode` and `url` are required.
pub open spec fn spec_center_members(
    s: Seq<char>,
    i: int,
    fuel: nat,
    address: Option<Seq<char>>,
    city: Option<Seq<char>>,
    name: Option<Seq<char>>,
    zipcode: Option<Seq<char>>,
    url: Option<Seq<char>>,
) -> Option<(SpecCenter, int)>
    decreases fuel, 2int,
{
    if i < s.len() && s[i] == '"' {
        match spec_string_rest(s, i + 1) {
            None => None,
            Some((key, j)) => {
                let j1 = spec_skip_ws(s, j);
                if j1 < s.len() && s[j1] == ':' {
                    let k = spec_skip_ws(s, j1 + 1);
                    if key == "address"@ {
                        if address is Some {
                            None
                        } else {
                            match spec_parse_string(s, k) {
                                None => None,
                                Some((v, m)) => spec_center_after(
                                    s,
                                    m,
                                    fuel,
                                    Some(v),
                                    city,
                                    name,
                                    zipcode,
                                    url,
                                ),
                            }
                        }
                    } else if key == "city"@ {
                        if city is Some {
                            None
                        } else {
                            match spec_parse_string(s, k) {
                                None => None,
                                Some((v, m)) => spec_center_after(
                                    s,
                                    m,
                                    fuel,
                                    address,
                                    Some(v),
                                    name,
                                    zipcode,
                                    url,
                                ),
                            }
                        }
                    } else if key == "name_with_title"@ {
                        if name is Some {
                            None
                        } else {
                            match spec_parse_string(s, k) {
                                None => None,
                                Some((v, m)) => spec_center_after(
                                    s,
                                    m,
                                    fuel,
                                    address,
                                    city,
                                    Some(v),
                                    zipcode,
                                    url,
                                ),
                            }
                        }
                    } else if key == "zipcode"@ {
                        if zipcode is Some {
                            None
                        } else {
                            match spec_parse_string(s, k) {
                                None => None,
                                Some((v, m)) => spec_center_after(
                                    s,
                                    m,
                                    fuel,
                                    address,
                                    city,
                                    name,
                                    Some(v),
                                    url,
                                ),
                            }
                        }
                    } else if key == "url"@ {
                        if url is Some {
                            None
                        } else {
                            match spec_parse_string(s, k) {
                                None => None,
                                Some((v, m)) => spec_center_after(
                                    s,
                                    m,
                                    fuel,
                                    address,
                                    city,
                                    name,
                                    zipcode,
                                    Some(v),
                                ),
                            }
                        }
                    } else {
                        match spec_skip_value(s, k, fuel) {
                            None => None,
                            Some(m) => spec_center_after(
                                s,
                                m,
                                fuel,
                                address,
                                city,
                                name,
                                zipcode,
                                url,
                            ),
                        }
                    }
                } else {
                    None
                }
            },
        }
    } else {
        None
    }
}

pub open spec fn spec_center_after(
    s: Seq<char>,
    i: int,
    fuel: nat,
    address: Option<Seq<char>>,
    city: Option<Seq<char>>,
    name: Option<Seq<char>>,
    zipcode: Option<Seq<char>>,
    url: Option<Seq<char>>,
) -> Option<(SpecCenter, int)>
    decreases fuel, 1int,
{
    let j = spec_skip_ws(s, i);
    if j < s.len() && s[j] == ',' {
        if fuel == 0 {
            None
        } else {
            spec_center_members(
                s,
                spec_skip_ws(s, j + 1),
                (fuel - 1) as nat,
                address,
                city,
                name,
                zipcode,
                url,
            )
        }
    } else if j < s.len() && s[j] == '}' {
        if address is Some && city is Some && name is Some && zipcode is Some && url is Some {
            Some(
                (
                    SpecCenter {
                        address: address->0,
                        city: city->0,
                        name_with_title: name->0,
                        zipcode: zipcode->0,
                        url: url->0,
                    },
                    j + 1,
                ),
            )
        } else {
            None
        }
    } else {
        None
    }
}

/// A center object.
pub open spec fn spec_parse_center(s: Seq<char>, i: int, fuel: nat) -> Option<(SpecCenter, int)>
    decreases fuel, 3int,
{
    if 0 <= i < s.len() && s[i] == '{' {
        spec_center_members(s, spec_skip_ws(s, i + 1), fuel, None, None, None, None, None)
    } else {
        None
    }
}

/// The members of the top-level detail object: `availabilities` and
/// `search_result` are required.
pub open spec fn spec_detail_members(
    s: Seq<char>,
    i: int,
    fuel: nat,
    avails: Option<Seq<SpecAvailability>>,
    center: Option<SpecCenter>,
) -> Option<(SpecDetail, int)>
    decreases fuel, 12int,
{
    if i < s.len() && s[i] == '"' {
        match spec_string_rest(s, i + 1) {
            None => None,
            Some((key, j)) => {
                let j1 = spec_skip_ws(s, j);
                if j1 < s.len() && s[j1] == ':' {
                    let k = spec_skip_ws(s, j1 + 1);
                    if key == "availabilities"@ {
                        if avails is Some {
                            None
                        } else {
                            match spec_parse_avails(s, k, fuel) {
                                None => None,
                                Some((v, m)) => spec_detail_after(s, m, fuel, Some(v), center),
                            }
                        }
                    } else if key == "search_result"@ {
                        if center is Some {
                            None
                        } else {
                            match spec_parse_center(s, k, fuel) {
                                None => None,
                                Some((v, m)) => spec_detail_after(s, m, fuel, avails, Some(v)),
                            }
                        }
                    } else {
                        match spec_skip_value(s, k, fuel) {
                            None => None,
                            Some(m) => spec_detail_after(s, m, fuel, avails, center),
                        }
                    }
                } else {
                    None
                }
            },
        }
    } else {
        None
    }
}

pub open spec fn spec_detail_after(
    s: Seq<char>,
    i: int,
    fuel: nat,
    avails: Option<Seq<SpecAvailability>>,
    center: Option<SpecCenter>,
) -> Option<(SpecDetail, int)>
    decreases fuel, 11int,
{
    let j = spec_skip_ws(s, i);
    if j < s.len() && s[j] == ',' {
        if fuel == 0 {
            None
        } else {
            spec_detail_members(s, spec_skip_ws(s, j + 1), (fuel - 1) as nat, avails, center)
        }
    } else if j < s.len() && s[j] == '}' {
        if avails is Some && center is Some {
            Some((SpecDetail { availabilities: avails->0, search_result: center->0 }, j + 1))
        } else {
            None
        }
    } else {
        None
    }
}

/// The top-level detail object.
pub open spec fn spec_parse_detail(s: Seq<char>, i: int, fuel: nat) -> Option<(SpecDetail, int)>
    decreases fuel, 13int,
{
    if 0 <= i < s.len() && s[i] == '{' {
        spec_detail_members(s, spec_skip_ws(s, i + 1), fuel, None, None)
    } else {
        None
    }
}

/// The step budget granted to a payload of `n` characters; ample for any
/// input of that length.
pub open spec fn spec_decode_fuel(n: nat) -> nat {
    2 * n + 16
}

/// The decoded detail payload: the top-level object, with nothing but
/// whitespace around it.
pub open spec fn spec_decode_detail(s: Seq<char>) -> Option<SpecDetail> {
    match spec_parse_detail(s, spec_skip_ws(s, 0), spec_decode_fuel(s.len())) {
        None => None,
        Some((d, j)) => if spec_skip_ws(s, j) == s.len() {
            Some(d)
        } else {
            None
        },
    }
}

/// Every character is the one with its own scalar value.
proof fn lemma_char_of_value(c: char)
    ensures
        char_of(char_value(c)) == c,
{
    let v = char_value(c);
    assert(char_value(c) == v);
    let c2 = choose|x: char| char_value(x) == v;
    assert(char_value(c2) == v);
    vstd::utf8::char_u32_cast(c, c as u32);
    vstd::utf8::char_u32_cast(c2, c2 as u32);
    assert(c2 as u32 == c as u32);
    assert(c2 == c);
}

/// Relies on `char::from_u32`: `Some` exactly for Unicode scalar values,
/// holding the character with that value.
#[verifier::external_body]
fn char_from_u32(v: u32) -> (r: Option<char>)
    ensures
        r is Some <==> (v < 0xD800 || (0xE000 <= v && v < 0x110000)),
        r matches Some(c) ==> c as u32 == v,
{
    char::from_u32(v)
}

fn skip_ws(s: &Vec<char>, i: usize) -> (r: usize)
    requires
        i <= s@.len(),
    ensures
        i <= r <= s@.len(),
        r as int == spec_skip_ws(s@, i as int),
    decreases s@.len() - i,
{
    if i < s.len() {
        let c = s[i];
        if c == ' ' || c == '\t' || c == '\n' || c == '\r' {
            return skip_ws(s, i + 1);
        }
    }
    i
}

fn is_digit_exec(c: char) -> (r: bool)
    ensures
        r == is_digit(c),
{
    let u = c as u32;
    48 <= u && u <= 57
}

fn is_hex_exec(c: char) -> (r: bool)
    ensures
        r == is_hex(c),
{
    let u = c as u32;
    (48 <= u && u <= 57) || (97 <= u && u <= 102) || (65 <= u && u <= 70)
}

fn hex_val_exec(c: char) -> (r: u32)
    requires
        is_hex(c),
    ensures
        r as int == hex_val(c),
        r < 16,
{
    let u = c as u32;
    if 48 <= u && u <= 57 {
        u - 48
    } else if 97 <= u && u <= 102 {
        u - 87
    } else {
        u - 55
    }
}

fn check_hex4(s: &Vec<char>, i: usize) -> (r: bool)
    requires
        i <= s@.len(),
    ensures
        r == is_hex4(s@, i as int),
{
    if s.len() - i >= 4 {
        is_hex_exec(s[i]) && is_hex_exec(s[i + 1]) && is_hex_exec(s[i + 2]) && is_hex_exec(
            s[i + 3],
        )
    } else {
        false
    }
}

fn hex4_exec(s: &Vec<char>, i: usize) -> (r: u32)
    requires
        i <= s@.len(),
        is_hex4(s@, i as int),
    ensures
        r as int == hex4(s@, i as int),
        r < 0x10000,
{
    let n = s.len();
    proof {
        assert(i + 4 <= n);
    }
    hex_val_exec(s[i]) * 4096 + hex_val_exec(s[i + 1]) * 256 + hex_val_exec(s[i + 2]) * 16
        + hex_val_exec(s[i + 3])
}

fn escape_char_exec(e: char) -> (c: char)
    ensures
        c == spec_escape_char(e),
{
    if e == 'b' {
        '\u{8}'
    } else if e == 'f' {
        '\u{c}'
    } else if e == 'n' {
        '\n'
    } else if e == 'r' {
        '\r'
    } else if e == 't' {
        '\t'
    } else {
        e
    }
}

fn prepend_char(c: char, t: String) -> (r: String)
    ensures
        r@ == seq![c] + t@,
{
    let mut out = String::new();
    push_char(&mut out, c);
    out.append(t.as_str());
    proof {
        assert(out@ =~= seq![c] + t@);
    }
    out
}

fn parse_string_rest(s: &Vec<char>, i: usize) -> (r: Option<(String, usize)>)
    requires
        i <= s@.len(),
    ensures
        r is Some <==> spec_string_rest(s@, i as int) is Some,
        r matches Some((t, j)) ==> spec_string_rest(s@, i as int) == Some((t@, j as int)) && j
            <= s@.len(),
    decreases s@.len() - i,
{
    if i >= s.len() {
        return None;
    }
    let c = s[i];
    if c == '"' {
        let empty = String::new();
        proof {
            assert(empty@ =~= Seq::<char>::empty());
        }
        Some((empty, i + 1))
    } else if c == '\\' {
        if s.len() - i < 2 {
            return None;
        }
        let e = s[i + 1];
        if e == 'u' {
            if !check_hex4(s, i + 2) {
                return None;
            }
            let v = hex4_exec(s, i + 2);
            if 0xD800 <= v && v < 0xDC00 {
                if s.len() - i >= 12 && s[i + 6] == '\\' && s[i + 7] == 'u' && check_hex4(
                    s,
                    i + 8,
                ) {
                    let w = hex4_exec(s, i + 8);
                    if 0xDC00 <= w && w < 0xE000 {
                        let cp: u32 = 0x10000 + (v - 0xD800) * 0x400 + (w - 0xDC00);
                        match parse_string_rest(s, i + 12) {
                            None => None,
                            Some((t, j)) => {
                                match char_from_u32(cp) {
                                    None => {
                                        proof {
                                            assert(false);
                                        }
                                        None
                                    },
                                    Some(ch) => {
                                        proof {
                                            lemma_char_of_value(ch);
                                            assert(char_of(cp as int) == ch);
                                        }
                                        Some((prepend_char(ch, t), j))
                                    },
                                }
                            },
                        }
                    } else {
                        None
                    }
                } else {
                    None
                }
            } else if 0xDC00 <= v && v < 0xE000 {
                None
            } else {
                match parse_string_rest(s, i + 6) {
                    None => None,
                    Some((t, j)) => {
                        match char_from_u32(v) {
                            None => {
                                proof {
                                    assert(false);
                                }
                                None
                            },
                            Some(ch) => {
                                proof {
                                    lemma_char_of_value(ch);
                                    assert(char_of(v as int) == ch);
                                }
                                Some((prepend_char(ch, t), j))
                            },
                        }
                    },
                }
            }
        } else if e == '"' || e == '\\' || e == '/' || e == 'b' || e == 'f' || e == 'n' || e == 'r'
            || e == 't' {
            match parse_string_rest(s, i + 2) {
                None => None,
                Some((t, j)) => Some((prepend_char(escape_char_exec(e), t), j)),
            }
        } else {
            None
        }
    } else if (c as u32) < 0x20 {
        None
    } else {
        match parse_string_rest(s, i + 1) {
            None => None,
            Some((t, j)) => Some((prepend_char(c, t), j)),
        }
    }
}

fn parse_string(s: &Vec<char>, i: usize) -> (r: Option<(String, usize)>)
    requires
        i <= s@.len(),
    ensures
        r is Some <==> spec_parse_string(s@, i as int) is Some,
        r matches Some((t, j)) ==> spec_parse_string(s@, i as int) == Some((t@, j as int)) && j
            <= s@.len(),
{
    if i < s.len() && s[i] == '"' {
        parse_string_rest(s, i + 1)
    } else {
        None
    }
}

fn digits_end(s: &Vec<char>, i: usize) -> (r: usize)
    requires
        i <= s@.len(),
    ensures
        i <= r <= s@.len(),
        r as int == spec_digits_end(s@, i as int),
    decreases s@.len() - i,
{
    if i < s.len() && is_digit_exec(s[i]) {
        digits_end(s, i + 1)
    } else {
        i
    }
}

fn number_end(s: &Vec<char>, i: usize) -> (r: Option<usize>)
    requires
        i <= s@.len(),
    ensures
        r is Some <==> spec_number_end(s@, i as int) is Some,
        r matches Some(j) ==> spec_number_end(s@, i as int) == Some(j as int) && j <= s@.len(),
{
    let i1 = if i < s.len() && s[i] == '-' {
        i + 1
    } else {
        i
    };
    if i1 < s.len() && is_digit_exec(s[i1]) {
        let i2 = if s[i1] == '0' {
            i1 + 1
        } else {
            digits_end(s, i1)
        };
        let mut p: usize = i2;
        if p < s.len() && s[p] == '.' {
            if s.len() - p >= 2 && is_digit_exec(s[p + 1]) {
                p = digits_end(s, p + 1);
            } else {
                return None;
            }
        }
        if p < s.len() && (s[p] == 'e' || s[p] == 'E') {
            let q = if s.len() - p >= 2 && (s[p + 1] == '+' || s[p + 1] == '-') {
                p + 2
            } else {
                p + 1
            };
            if q < s.len() && is_digit_exec(s[q]) {
                p = digits_end(s, q);
            } else {
                return None;
            }
        }
        Some(p)
    } else {
        None
    }
}

fn skip_value(s: &Vec<char>, i: usize, fuel: u128) -> (r: Option<usize>)
    requires
        i <= s@.len(),
    ensures
        r is Some <==> spec_skip_value(s@, i as int, fuel as nat) is Some,
        r matches Some(j) ==> spec_skip_value(s@, i as int, fuel as nat) == Some(j as int) && j
            <= s@.len(),
    decreases fuel, 0int,
{
    if i >= s.len() {
        return None;
    }
    let c = s[i];
    if c == '"' {
        match parse_string_rest(s, i + 1) {
            None => None,
            Some((t, j)) => Some(j),
        }
    } else if c == '{' {
        let j = skip_ws(s, i + 1);
        if j < s.len() && s[j] == '}' {
            Some(j + 1)
        } else if fuel == 0 {
            None
        } else {
            skip_members(s, j, fuel - 1)
        }
    } else if c == '[' {
        let j = skip_ws(s, i + 1);
        if j < s.len() && s[j] == ']' {
            Some(j + 1)
        } else if fuel == 0 {
            None
        } else {
            skip_elements(s, j, fuel - 1)
        }
    } else if c == '-' || is_digit_exec(c) {
        number_end(s, i)
    } else if c == 'n' {
        if s.len() - i >= 4 && s[i + 1] == 'u' && s[i + 2] == 'l' && s[i + 3] == 'l' {
            Some(i + 4)
        } else {
            None
        }
    } else if c == 't' {
        if s.len() - i >= 4 && s[i + 1] == 'r' && s[i + 2] == 'u' && s[i + 3] == 'e' {
            Some(i + 4)
        } else {
            None
        }
    } else if c == 'f' {
        if s.len() - i >= 5 && s[i + 1] == 'a' && s[i + 2] == 'l' && s[i + 3] == 's' && s[i + 4]
            == 'e' {
            Some(i + 5)
        } else {
            None
        }
    } else {
        None
    }
}

fn skip_members(s: &Vec<char>, i: usize, fuel: u128) -> (r: Option<usize>)
    requires
        i <= s@.len(),
    ensures
        r is Some <==> spec_skip_members(s@, i as int, fuel as nat) is Some,
        r matches Some(j) ==> spec_skip_members(s@, i as int, fuel as nat) == Some(j as int) && j
            <= s@.len(),
    decreases fuel, 2int,
{
    if i < s.len() && s[i] == '"' {
        match parse_string_rest(s, i + 1) {
            None => None,
            Some((k, j)) => {
                let j1 = skip_ws(s, j);
                if j1 < s.len() && s[j1] == ':' {
                    match skip_value(s, skip_ws(s, j1 + 1), fuel) {
                        None => None,
                        Some(m) => skip_after(s, m, fuel),
                    }
                } else {
                    None
                }
            },
        }
    } else {
        None
    }
}

fn skip_after(s: &Vec<char>, i: usize, fuel: u128) -> (r: Option<usize>)
    requires
        i <= s@.len(),
    ensures
        r is Some <==> spec_skip_after(s@, i as int, fuel as nat) is Some,
        r matches Some(j) ==> spec_skip_after(s@, i as int, fuel as nat) == Some(j as int) && j
            <= s@.len(),
    decreases fuel, 1int,
{
    let j = skip_ws(s, i);
    if j < s.len() && s[j] == ',' {
        if fuel == 0 {
            None
        } else {
            skip_members(s, skip_ws(s, j + 1), fuel - 1)
        }
    } else if j < s.len() && s[j] == '}' {
        Some(j + 1)
    } else {
        None
    }
}

fn skip_elements(s: &Vec<char>, i: usize, fuel: u128) -> (r: Option<usize>)
    requires
        i <= s@.len(),
    ensures
        r is Some <==> spec_skip_elements(s@, i as int, fuel as nat) is Some,
        r matches Some(j) ==> spec_skip_elements(s@, i as int, fuel as nat) == Some(j as int) && j
            <= s@.len(),
    decreases fuel, 2int,
{
    match skip_value(s, i, fuel) {
        None => None,
        Some(j) => {
            let j1 = skip_ws(s, j);
            if j1 < s.len() && s[j1] == ',' {
                if fuel == 0 {
                    None
                } else {
                    skip_elements(s, skip_ws(s, j1 + 1), fuel - 1)
                }
            } else if j1 < s.len() && s[j1] == ']' {
                Some(j1 + 1)
            } else {
                None
            }
        },
    }
}

fn parse_u32_acc(s: &Vec<char>, i: usize, acc: u32) -> (r: Option<(u32, usize)>)
    requires
        i <= s@.len(),
    ensures
        r is Some <==> spec_u32_acc(s@, i as int, acc) is Some,
        r matches Some((v, j)) ==> spec_u32_acc(s@, i as int, acc) == Some((v, j as int)) && j
            <= s@.len(),
    decreases s@.len() - i,
{
    if i < s.len() {
        let c = s[i];
        if is_digit_exec(c) {
            let d: u32 = c as u32 - 48;
            let big: u64 = acc as u64 * 10 + d as u64;
            if big > 0xffff_ffff {
                return None;
            }
            return parse_u32_acc(s, i + 1, big as u32);
        }
        if c == '.' || c == 'e' || c == 'E' {
            return None;
        }
    }
    Some((acc, i))
}

/// The view of an optional decoded string.
pub open spec fn opt_view(o: Option<String>) -> Option<Seq<char>> {
    match o {
        Some(s) => Some(s@),
        None => None,
    }
}

/// The view of an optional decoded slot list.
pub open spec fn opt_slots_view(o: Option<Vec<SlotResponse>>) -> Option<Seq<SpecSlot>> {
    match o {
        Some(v) => Some(slots_view(v@)),
        None => None,
    }
}

/// The view of an optional decoded availability list.
pub open spec fn opt_avails_view(o: Option<Vec<AvailabilityResponse>>) -> Option<
    Seq<SpecAvailability>,
> {
    match o {
        Some(v) => Some(avails_view(v@)),
        None => None,
    }
}

/// The view of an optional decoded center.
pub open spec fn opt_center_view(o: Option<CenterResponse>) -> Option<SpecCenter> {
    match o {
        Some(c) => Some(c@),
        None => None,
    }
}

fn parse_u32(s: &Vec<char>, i: usize) -> (r: Option<(u32, usize)>)
    requires
        i <= s@.len(),
    ensures
        r is Some <==> spec_parse_u32(s@, i as int) is Some,
        r matches Some((v, j)) ==> spec_parse_u32(s@, i as int) == Some((v, j as int)) && j
            <= s@.len(),
{
    if i < s.len() && is_digit_exec(s[i]) {
        if s[i] == '0' && s.len() - i >= 2 && is_digit_exec(s[i + 1]) {
            None
        } else {
            parse_u32_acc(s, i, 0)
        }
    } else {
        None
    }
}

fn slot_members(
    s: &Vec<char>,
    i: usize,
    fuel: u128,
    agenda: Option<u32>,
    start: Option<String>,
    end: Option<String>,
) -> (r: Option<(SlotResponse, usize)>)
    requires
        i <= s@.len(),
    ensures
        r is Some <==> spec_slot_members(
            s@,
            i as int,
            fuel as nat,
            agenda,
            opt_view(start),
            opt_view(end),
        ) is Some,
        r matches Some((sl, j)) ==> spec_slot_members(
            s@,
            i as int,
            fuel as nat,
            agenda,
            opt_view(start),
            opt_view(end),
        ) == Some((sl@, j as int)) && j <= s@.len(),
    decreases fuel, 2int,
{
    if i < s.len() && s[i] == '"' {
        match parse_string_rest(s, i + 1) {
            None => None,
            Some((key, j)) => {
                let j1 = skip_ws(s, j);
                if j1 < s.len() && s[j1] == ':' {
                    let k = skip_ws(s, j1 + 1);
                    if str_eq(key.as_str(), "agenda_id") {
                        if agenda.is_some() {
                            None
                        } else {
                            match parse_u32(s, k) {
                                None => None,
                                Some((v, m)) => slot_after(s, m, fuel, Some(v), start, end),
                            }
                        }
                    } else if str_eq(key.as_str(), "start_date") {
                        if start.is_some() {
                            None
                        } else {
                            match parse_string(s, k) {
                                None => None,
                                Some((v, m)) => slot_after(s, m, fuel, agenda, Some(v), end),
                            }
                        }
                    } else if str_eq(key.as_str(), "end_date") {
                        if end.is_some() {
                            None
                        } else {
                            match parse_string(s, k) {
                                None => None,
                                Some((v, m)) => slot_after(s, m, fuel, agenda, start, Some(v)),
                            }
                        }
                    } else {
                        match skip_value(s, k, fuel) {
                            None => None,
                            Some(m) => slot_after(s, m, fuel, agenda, start, end),
                        }
                    }
                } else {
                    None
                }
            },
        }
    } else {
        None
    }
}

fn slot_after(
    s: &Vec<char>,
    i: usize,
    fuel: u128,
    agenda: Option<u32>,
    start: Option<String>,
    end: Option<String>,
) -> (r: Option<(SlotResponse, usize)>)
    requires
        i <= s@.len(),
    ensures
        r is Some <==> spec_slot_after(
            s@,
            i as int,
            fuel as nat,
            agenda,
            opt_view(start),
            opt_view(end),
        ) is Some,
        r matches Some((sl, j)) ==> spec_slot_after(
            s@,
            i as int,
            fuel as nat,
            agenda,
            opt_view(start),
            opt_view(end),
        ) == Some((sl@, j as int)) && j <= s@.len(),
    decreases fuel, 1int,
{
    let j = skip_ws(s, i);
    if j < s.len() && s[j] == ',' {
        if fuel == 0 {
            None
        } else {
            slot_members(s, skip_ws(s, j + 1), fuel - 1, agenda, start, end)
        }
    } else if j < s.len() && s[j] == '}' {
        match (agenda, start, end) {
            (Some(a), Some(st), Some(en)) => Some(
                (SlotResponse { agenda_id: a, start_date: st, end_date: en }, j + 1),
            ),
            _ => None,
        }
    } else {
        None
    }
}

fn parse_slot(s: &Vec<char>, i: usize, fuel: u128) -> (r: Option<(SlotResponse, usize)>)
    requires
        i <= s@.len(),
    ensures
        r is Some <==> spec_parse_slot(s@, i as int, fuel as nat) is Some,
        r matches Some((sl, j)) ==> spec_parse_slot(s@, i as int, fuel as nat) == Some(
            (sl@, j as int),
        ) && j <= s@.len(),
    decreases fuel, 3int,
{
    if i < s.len() && s[i] == '{' {
        slot_members(s, skip_ws(s, i + 1), fuel, None, None, None)
    } else {
        None
    }
}

fn slots_elements(s: &Vec<char>, i: usize, fuel: u128, acc: Vec<SlotResponse>) -> (r: Option<
    (Vec<SlotResponse>, usize),
>)
    requires
        i <= s@.len(),
    ensures
        r is Some <==> spec_slots_elements(s@, i as int, fuel as nat, slots_view(acc@)) is Some,
        r matches Some((v, j)) ==> spec_slots_elements(s@, i as int, fuel as nat, slots_view(acc@))
            == Some((slots_view(v@), j as int)) && j <= s@.len(),
    decreases fuel, 4int,
{
    let ghost acc0 = acc@;
    match parse_slot(s, i, fuel) {
        None => None,
        Some((sl, j)) => {
            let ghost slv = sl@;
            let j1 = skip_ws(s, j);
            if j1 < s.len() && s[j1] == ',' {
                if fuel == 0 {
                    None
                } else {
                    let k = skip_ws(s, j1 + 1);
                    let mut acc2 = acc;
                    acc2.push(sl);
                    proof {
                        assert(slots_view(acc2@) =~= slots_view(acc0).push(slv));
                    }
                    slots_elements(s, k, fuel - 1, acc2)
                }
            } else if j1 < s.len() && s[j1] == ']' {
                let mut acc2 = acc;
                acc2.push(sl);
                proof {
                    assert(slots_view(acc2@) =~= slots_view(acc0).push(slv));
                }
                Some((acc2, j1 + 1))
            } else {
                None
            }
        },
    }
}

fn parse_slots(s: &Vec<char>, i: usize, fuel: u128) -> (r: Option<(Vec<SlotResponse>, usize)>)
    requires
        i <= s@.len(),
    ensures
        r is Some <==> spec_parse_slots(s@, i as int, fuel as nat) is Some,
        r matches Some((v, j)) ==> spec_parse_slots(s@, i as int, fuel as nat) == Some(
            (slots_view(v@), j as int),
        ) && j <= s@.len(),
    decreases fuel, 5int,
{
    if i < s.len() && s[i] == '[' {
        let j = skip_ws(s, i + 1);
        if j < s.len() && s[j] == ']' {
            let empty: Vec<SlotResponse> = Vec::new();
            proof {
                assert(slots_view(empty@) =~= Seq::<SpecSlot>::empty());
            }
            Some((empty, j + 1))
        } else {
            let empty: Vec<SlotResponse> = Vec::new();
            proof {
                assert(slots_view(empty@) =~= Seq::<SpecSlot>::empty());
            }
            slots_elements(s, j, fuel, empty)
        }
    } else {
        None
    }
}

fn avail_members(
    s: &Vec<char>,
    i: usize,
    fuel: u128,
    date: Option<String>,
    slots: Option<Vec<SlotResponse>>,
) -> (r: Option<(AvailabilityResponse, usize)>)
    requires
        i <= s@.len(),
    ensures
        r is Some <==> spec_avail_members(
            s@,
            i as int,
            fuel as nat,
            opt_view(date),
            opt_slots_view(slots),
        ) is Some,
        r matches Some((a, j)) ==> spec_avail_members(
            s@,
            i as int,
            fuel as nat,
            opt_view(date),
            opt_slots_view(slots),
        ) == Some((a@, j as int)) && j <= s@.len(),
    decreases fuel, 7int,
{
    if i < s.len() && s[i] == '"' {
        match parse_string_rest(s, i + 1) {
            None => None,
            Some((key, j)) => {
                let j1 = skip_ws(s, j);
                if j1 < s.len() && s[j1] == ':' {
                    let k = skip_ws(s, j1 + 1);
                    if str_eq(key.as_str(), "date") {
                        if date.is_some() {
                            None
                        } else {
                            match parse_string(s, k) {
                                None => None,
                                Some((v, m)) => avail_after(s, m, fuel, Some(v), slots),
                            }
                        }
                    } else if str_eq(key.as_str(), "slots") {
                        if slots.is_some() {
                            None
                        } else {
                            match parse_slots(s, k, fuel) {
                                None => None,
                                Some((v, m)) => avail_after(s, m, fuel, date, Some(v)),
                            }
                        }
                    } else {
                        match skip_value(s, k, fuel) {
                            None => None,
                            Some(m) => avail_after(s, m, fuel, date, slots),
                        }
                    }
                } else {
                    None
                }
            },
        }
    } else {
        None
    }
}

fn avail_after(
    s: &Vec<char>,
    i: usize,
    fuel: u128,
    date: Option<String>,
    slots: Option<Vec<SlotResponse>>,
) -> (r: Option<(AvailabilityResponse, usize)>)
    requires
        i <= s@.len(),
    ensures
        r is Some <==> spec_avail_after(
            s@,
            i as int,
            fuel as nat,
            opt_view(date),
            opt_slots_view(slots),
        ) is Some,
        r matches Some((a, j)) ==> spec_avail_after(
            s@,
            i as int,
            fuel as nat,
            opt_view(date),
            opt_slots_view(slots),
        ) == Some((a@, j as int)) && j <= s@.len(),
    decreases fuel, 6int,
{
    let j = skip_ws(s, i);
    if j < s.len() && s[j] == ',' {
        if fuel == 0 {
            None
        } else {
            avail_members(s, skip_ws(s, j + 1), fuel - 1, date, slots)
        }
    } else if j < s.len() && s[j] == '}' {
        match (date, slots) {
            (Some(d), Some(sl)) => Some((AvailabilityResponse { date: d, slots: sl }, j + 1)),
            _ => None,
        }
    } else {
        None
    }
}

fn parse_avail(s: &Vec<char>, i: usize, fuel: u128) -> (r: Option<(AvailabilityResponse, usize)>)
    requires
        i <= s@.len(),
    ensures
        r is Some <==> spec_parse_avail(s@, i as int, fuel as nat) is Some,
        r matches Some((a, j)) ==> spec_parse_avail(s@, i as int, fuel as nat) == Some(
            (a@, j as int),
        ) && j <= s@.len(),
    decreases fuel, 8int,
{
    if i < s.len() && s[i] == '{' {
        avail_members(s, skip_ws(s, i + 1), fuel, None, None)
    } else {
        None
    }
}

fn avails_elements(s: &Vec<char>, i: usize, fuel: u128, acc: Vec<AvailabilityResponse>) -> (r:
    Option<(Vec<AvailabilityResponse>, usize)>)
    requires
        i <= s@.len(),
    ensures
        r is Some <==> spec_avails_elements(s@, i as int, fuel as nat, avails_view(acc@)) is Some,
        r matches Some((v, j)) ==> spec_avails_elements(
            s@,
            i as int,
            fuel as nat,
            avails_view(acc@),
        ) == Some((avails_view(v@), j as int)) && j <= s@.len(),
    decreases fuel, 9int,
{
    let ghost acc0 = acc@;
    match parse_avail(s, i, fuel) {
        None => None,
        Some((a, j)) => {
            let ghost av = a@;
            let j1 = skip_ws(s, j);
            if j1 < s.len() && s[j1] == ',' {
                if fuel == 0 {
                    None
                } else {
                    let k = skip_ws(s, j1 + 1);
                    let mut acc2 = acc;
                    acc2.push(a);
                    proof {
                        assert(avails_view(acc2@) =~= avails_view(acc0).push(av));
                    }
                    avails_elements(s, k, fuel - 1, acc2)
                }
            } else if j1 < s.len() && s[j1] == ']' {
                let mut acc2 = acc;
                acc2.push(a);
                proof {
                    assert(avails_view(acc2@) =~= avails_view(acc0).push(av));
                }
                Some((acc2, j1 + 1))
            } else {
                None
            }
        },
    }
}

fn parse_avails(s: &Vec<char>, i: usize, fuel: u128) -> (r: Option<
    (Vec<AvailabilityResponse>, usize),
>)
    requires
        i <= s@.len(),
    ensures
        r is Some <==> spec_parse_avails(s@, i as int, fuel as nat) is Some,
        r matches Some((v, j)) ==> spec_parse_avails(s@, i as int, fuel as nat) == Some(
            (avails_view(v@), j as int),
        ) && j <= s@.len(),
    decreases fuel, 10int,
{
    if i < s.len() && s[i] == '[' {
        let j = skip_ws(s, i + 1);
        if j < s.len() && s[j] == ']' {
            let empty: Vec<AvailabilityResponse> = Vec::new();
            proof {
                assert(avails_view(empty@) =~= Seq::<SpecAvailability>::empty());
            }
            Some((empty, j + 1))
        } else {
            let empty: Vec<AvailabilityResponse> = Vec::new();
            proof {
                assert(avails_view(empty@) =~= Seq::<SpecAvailability>::empty());
            }
            avails_elements(s, j, fuel, empty)
        }
    } else {
        None
    }
}

fn center_members(
    s: &Vec<char>,
    i: usize,
    fuel: u128,
    address: Option<String>,
    city: Option<String>,
    name: Option<String>,
    zipcode: Option<String>,
    url: Option<String>,
) -> (r: Option<(CenterResponse, usize)>)
    requires
        i <= s@.len(),
    ensures
        r is Some <==> spec_center_members(
            s@,
            i as int,
            fuel as nat,
            opt_view(address),
            opt_view(city),
            opt_view(name),
            opt_view(zipcode),
            opt_view(url),
        ) is Some,
        r matches Some((c, j)) ==> spec_center_members(
            s@,
            i as int,
            fuel as nat,
            opt_view(address),
            opt_view(city),
            opt_view(name),
            opt_view(zipcode),
            opt_view(url),
        ) == Some((c@, j as int)) && j <= s@.len(),
    decreases fuel, 2int,
{
    if i < s.len() && s[i] == '"' {
        match parse_string_rest(s, i + 1) {
            None => None,
            Some((key, j)) => {
                let j1 = skip_ws(s, j);
                if j1 < s.len() && s[j1] == ':' {
                    let k = skip_ws(s, j1 + 1);
                    if str_eq(key.as_str(), "address") {
                        if address.is_some() {
                            None
                        } else {
                            match parse_string(s, k) {
                                None => None,
                                Some((v, m)) => center_after(
                                    s,
                                    m,
                                    fuel,
                                    Some(v),
                                    city,
                                    name,
                                    zipcode,
                                    url,
                                ),
                            }
                        }
                    } else if str_eq(key.as_str(), "city") {
                        if city.is_some() {
                            None
                        } else {
                            match parse_string(s, k) {
                                None => None,
                                Some((v, m)) => center_after(
                                    s,
                                    m,
                                    fuel,
                                    address,
                                    Some(v),
                                    name,
                                    zipcode,
                                    url,
                                ),
                            }
                        }
                    } else if str_eq(key.as_str(), "name_with_title") {
                        if name.is_some() {
                            None
                        } else {
                            match parse_string(s, k) {
                                None => None,
                                Some((v, m)) => center_after(
                                    s,
                                    m,
                                    fuel,
                                    address,
                                    city,
                                    Some(v),
                                    zipcode,
                                    url,
                                ),
                            }
                        }
                    } else if str_eq(key.as_str(), "zipcode") {
                        if zipcode.is_some() {
                            None
                        } else {
                            match parse_string(s, k) {
                                None => None,
                                Some((v, m)) => center_after(
                                    s,
                                    m,
                                    fuel,
                                    address,
                                    city,
                                    name,
                                    Some(v),
                                    url,
                                ),
                            }
                        }
                    } else if str_eq(key.as_str(), "url") {
                        if url.is_some() {
                            None
                        } else {
                            match parse_string(s, k) {
                                None => None,
                                Some((v, m)) => center_after(
                                    s,
                                    m,
                                    fuel,
                                    address,
                                    city,
                                    name,
                                    zipcode,
                                    Some(v),
                                ),
                            }
                        }
                    } else {
                        match skip_value(s, k, fuel) {
                            None => None,
                            Some(m) => center_after(s, m, fuel, address, city, name, zipcode, url),
                        }
                    }
                } else {
                    None
                }
            },
        }
    } else {
        None
    }
}

fn center_after(
    s: &Vec<char>,
    i: usize,
    fuel: u128,
    address: Option<String>,
    city: Option<String>,
    name: Option<String>,
    zipcode: Option<String>,
    url: Option<String>,
) -> (r: Option<(CenterResponse, usize)>)
    requires
        i <= s@.len(),
    ensures
        r is Some <==> spec_center_after(
            s@,
            i as int,
            fuel as nat,
            opt_view(address),
            opt_view(city),
            opt_view(name),
            opt_view(zipcode),
            opt_view(url),
        ) is Some,
        r matches Some((c, j)) ==> spec_center_after(
            s@,
            i as int,
            fuel as nat,
            opt_view(address),
            opt_view(city),
            opt_view(name),
            opt_view(zipcode),
            opt_view(url),
        ) == Some((c@, j as int)) && j <= s@.len(),
    decreases fuel, 1int,
{
    let j = skip_ws(s, i);
    if j < s.len() && s[j] == ',' {
        if fuel == 0 {
            None
        } else {
            center_members(s, skip_ws(s, j + 1), fuel - 1, address, city, name, zipcode, url)
        }
    } else if j < s.len() && s[j] == '}' {
        match (address, city, name, zipcode, url) {
            (Some(ad), Some(ci), Some(na), Some(zi), Some(ur)) => Some(
                (
                    CenterResponse {
                        address: ad,
                        city: ci,
                        name_with_title: na,
                        zipcode: zi,
                        url: ur,
                    },
                    j + 1,
                ),
            ),
            _ => None,
        }
    } else {
        None
    }
}

fn parse_center(s: &Vec<char>, i: usize, fuel: u128) -> (r: Option<(CenterResponse, usize)>)
    requires
        i <= s@.len(),
    ensures
        r is Some <==> spec_parse_center(s@, i as int, fuel as nat) is Some,
        r matches Some((c, j)) ==> spec_parse_center(s@, i as int, fuel as nat) == Some(
            (c@, j as int),
        ) && j <= s@.len(),
    decreases fuel, 3int,
{
    if i < s.len() && s[i] == '{' {
        center_members(s, skip_ws(s, i + 1), fuel, None, None, None, None, None)
    } else {
        None
    }
}

fn detail_members(
    s: &Vec<char>,
    i: usize,
    fuel: u128,
    avails: Option<Vec<AvailabilityResponse>>,
    center: Option<CenterResponse>,
) -> (r: Option<(DetailResponse, usize)>)
    requires
        i <= s@.len(),
    ensures
        r is Some <==> spec_detail_members(
            s@,
            i as int,
            fuel as nat,
            opt_avails_view(avails),
            opt_center_view(center),
        ) is Some,
        r matches Some((d, j)) ==> spec_detail_members(
            s@,
            i as int,
            fuel as nat,
            opt_avails_view(avails),
            opt_center_view(center),
        ) == Some((d@, j as int)) && j <= s@.len(),
    decreases fuel, 12int,
{
    if i < s.len() && s[i] == '"' {
        match parse_string_rest(s, i + 1) {
            None => None,
            Some((key, j)) => {
                let j1 = skip_ws(s, j);
                if j1 < s.len() && s[j1] == ':' {
                    let k = skip_ws(s, j1 + 1);
                    if str_eq(key.as_str(), "availabilities") {
                        if avails.is_some() {
                            None
                        } else {
                            match parse_avails(s, k, fuel) {
                                None => None,
                                Some((v, m)) => detail_after(s, m, fuel, Some(v), center),
                            }
                        }
                    } else if str_eq(key.as_str(), "search_result") {
                        if center.is_some() {
                            None
                        } else {
                            match parse_center(s, k, fuel) {
                                None => None,
                                Some((v, m)) => detail_after(s, m, fuel, avails, Some(v)),
                            }
                        }
                    } else {
                        match skip_value(s, k, fuel) {
                            None => None,
                            Some(m) => detail_after(s, m, fuel, avails, center),
                        }
                    }
                } else {
                    None
                }
            },
        }
    } else {
        None
    }
}

fn detail_after(
    s: &Vec<char>,
    i: usize,
    fuel: u128,
    avails: Option<Vec<AvailabilityResponse>>,
    center: Option<CenterResponse>,
) -> (r: Option<(DetailResponse, usize)>)
    requires
        i <= s@.len(),
    ensures
        r is Some <==> spec_detail_after(
            s@,
            i as int,
            fuel as nat,
            opt_avails_view(avails),
            opt_center_view(center),
        ) is Some,
        r matches Some((d, j)) ==> spec_detail_after(
            s@,
            i as int,
            fuel as nat,
            opt_avails_view(avails),
            opt_center_view(center),
        ) == Some((d@, j as int)) && j <= s@.len(),
    decreases fuel, 11int,
{
    let j = skip_ws(s, i);
    if j < s.len() && s[j] == ',' {
        if fuel == 0 {
            None
        } else {
            detail_members(s, skip_ws(s, j + 1), fuel - 1, avails, center)
        }
    } else if j < s.len() && s[j] == '}' {
        match (avails, center) {
            (Some(av), Some(ce)) => Some(
                (DetailResponse { availabilities: av, search_result: ce }, j + 1),
            ),
            _ => None,
        }
    } else {
        None
    }
}

fn parse_detail(s: &Vec<char>, i: usize, fuel: u128) -> (r: Option<(DetailResponse, usize)>)
    requires
        i <= s@.len(),
    ensures
        r is Some <==> spec_parse_detail(s@, i as int, fuel as nat) is Some,
        r matches Some((d, j)) ==> spec_parse_detail(s@, i as int, fuel as nat) == Some(
            (d@, j as int),
        ) && j <= s@.len(),
    decreases fuel, 13int,
{
    if i < s.len() && s[i] == '{' {
        detail_members(s, skip_ws(s, i + 1), fuel, None, None)
    } else {
        None
    }
}

/// Decodes a detail payload. Exactly the payloads accepted by the grammar
/// above decode successfully, and the decoded record is the one the grammar
/// assigns to the payload; everything else is a decode error.
pub fn decode_detail(body: &str) -> (r: Result<DetailResponse, DecodeError>)
    ensures
        r matches Ok(d) ==> spec_decode_detail(body@) == Some(d@),
        r is Err <==> spec_decode_detail(body@) is None,
{
    let s = chars_of(body);
    let fuel: u128 = 2 * (s.len() as u128) + 16;
    let i = skip_ws(&s, 0);
    match parse_detail(&s, i, fuel) {
        None => Err(DecodeError::Malformed),
        Some((d, j)) => {
            let j1 = skip_ws(&s, j);
            if j1 == s.len() {
                Ok(d)
            } else {
                Err(DecodeError::Malformed)
            }
        },
    }
}

} // verus!
