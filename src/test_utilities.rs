//! Helpers for building events by hand: timestamps in milliseconds, key
//! codes from key names, and key-state codes from state names.
use crate::timestamp::{Timestamp, NANOS_PER_MILLI};
use vstd::prelude::*;
use vstd::string::*;

verus! {

#[verifier::external_type_specification]
#[verifier::external_body]
pub struct ExEnumParseError(evdev::EnumParseError);

/// The code that evdev's key table gives to the key called `name`, if any.
pub uninterp spec fn evdev_key_code(name: Seq<char>) -> Option<u16>;

/// The characters of `s` in upper case.
pub uninterp spec fn upper_of(s: Seq<char>) -> Seq<char>;

/// Relies on `str::to_uppercase`: the result depends on the characters of
/// `s` alone.
#[verifier::external_body]
fn to_upper(s: &str) -> (r: String)
    ensures
        r@ == upper_of(s@),
{
    s.to_uppercase()
}

/// Relies on evdev's `FromStr` for `evdev::Key`, which looks the exact name up
/// in evdev's key table, and on `evdev::Key::code`, which reads the code.
#[verifier::external_body]
fn lookup_key_code(name: &str) -> (r: Result<u16, evdev::EnumParseError>)
    ensures
        match r {
            Ok(code) => evdev_key_code(name@) == Some(code),
            Err(_) => evdev_key_code(name@) is None,
        },
{
    <evdev::Key as std::str::FromStr>::from_str(name).map(|k| k.code())
}

/// The name matches no key of evdev's table.
#[derive(Debug, Clone, Copy, PartialEq, Eq, Structural)]
pub enum KeyNameError {
    UnknownKey,
}

/// A timestamp `milis` milliseconds after the Unix epoch.
pub fn mipoch(milis: u64) -> (r: Timestamp)
    ensures
        r@ == milis as nat * NANOS_PER_MILLI as nat,
{
    Timestamp::from_millis(milis)
}

/// `needle` occurs in `hay` at position `i`.
pub open spec fn occurs_at(hay: Seq<char>, needle: Seq<char>, i: int) -> bool {
    0 <= i && i + needle.len() <= hay.len() && hay.subrange(i, i + needle.len()) == needle
}

/// `needle` occurs somewhere in `hay`.
pub open spec fn occurs_in(hay: Seq<char>, needle: Seq<char>) -> bool {
    exists|i: int| occurs_at(hay, needle, i)
}

/// Whether `needle` occurs somewhere in `hay`.
fn contains_text(hay: &str, needle: &str) -> (r: bool)
    ensures
        r == occurs_in(hay@, needle@),
{
    let n: usize = hay.unicode_len();
    let m: usize = needle.unicode_len();
    if m > n {
        assert forall|i: int| !occurs_at(hay@, needle@, i) by {}
        return false;
    }
    if m == 0 {
        assert(hay@.subrange(0, 0) =~= needle@);
        assert(occurs_at(hay@, needle@, 0));
        return true;
    }
    let mut i: usize = 0;
    while i <= n - m
        invariant
            n == hay@.len(),
            m == needle@.len(),
            0 < m <= n,
            i <= n - m + 1,
            forall|k: int| 0 <= k < i ==> !occurs_at(hay@, needle@, k),
        decreases n - m + 1 - i,
    {
        let mut j: usize = 0;
        let mut same: bool = true;
        while j < m && same
            invariant
                n == hay@.len(),
                m == needle@.len(),
                i + m <= n,
                j <= m,
                same ==> forall|k: int| 0 <= k < j ==> hay@[i + k] == needle@[k],
                !same ==> !occurs_at(hay@, needle@, i as int),
            decreases m - j,
        {
            if hay.get_char(i + j) != needle.get_char(j) {
                same = false;
                assert(hay@.subrange(i as int, i + m)[j as int] != needle@[j as int]);
            }
            j = j + 1;
        }
        if same {
            assert(hay@.subrange(i as int, i + m) =~= needle@);
            assert(occurs_at(hay@, needle@, i as int));
            return true;
        }
        i = i + 1;
    }
    assert forall|k: int| !occurs_at(hay@, needle@, k) by {
        if 0 <= k && k + m <= n {
            assert(k < i);
        }
    }
    false
}

/// The name that evdev's key table uses for an upper-cased key name: button
/// names (those holding `BTN_`) stand as they are, others get `KEY_` in front.
pub open spec fn key_table_name_of(upper: Seq<char>) -> Seq<char> {
    if occurs_in(upper, "BTN_"@) {
        upper
    } else {
        "KEY_"@ + upper
    }
}

/// Turns an upper-cased key name into the name evdev's key table uses.
pub fn key_table_name(upper: &str) -> (r: String)
    ensures
        r@ == key_table_name_of(upper@),
{
    if contains_text(upper, "BTN_") {
        String::from_str(upper)
    } else {
        let mut name = String::from_str("KEY_");
        name.append(upper);
        name
    }
}

/// The code of the key called `key`, in any letter case, looked up in evdev's
/// key table (`d` is `KEY_D`, `btn_start` is `BTN_START`).
pub fn key_code_from_str(key: &str) -> (r: Result<u16, KeyNameError>)
    ensures
        match r {
            Ok(code) => evdev_key_code(key_table_name_of(upper_of(key@))) == Some(code),
            Err(_) => evdev_key_code(key_table_name_of(upper_of(key@))) is None,
        },
{
    let upper = to_upper(key);
    let name = key_table_name(upper.as_str());
    match lookup_key_code(name.as_str()) {
        Ok(code) => Ok(code),
        Err(_) => Err(KeyNameError::UnknownKey),
    }
}

/// The state names that [`i32_key_state_value_from_str`] knows.
pub open spec fn is_state_name(value: Seq<char>) -> bool {
    value == "Up"@ || value == "Down"@ || value == "Hold"@
}

/// Whether `a` and `b` hold the same characters.
fn same_text(a: &str, b: &str) -> (r: bool)
    ensures
        r == (a@ == b@),
{
    let n: usize = a.unicode_len();
    if n != b.unicode_len() {
        return false;
    }
    let mut i: usize = 0;
    while i < n
        invariant
            n == a@.len(),
            n == b@.len(),
            i <= n,
            forall|k: int| 0 <= k < i ==> a@[k] == b@[k],
        decreases n - i,
    {
        if a.get_char(i) != b.get_char(i) {
            return false;
        }
        i = i + 1;
    }
    assert(a@ =~= b@);
    true
}

/// The key-state code of a state name: `Up` is 0, `Down` 1, `Hold` 2.
pub fn i32_key_state_value_from_str(value: &str) -> (r: i32)
    requires
        is_state_name(value@),
    ensures
        value@ == "Up"@ ==> r == 0,
        value@ == "Down"@ ==> r == 1,
        value@ == "Hold"@ ==> r == 2,
{
    proof {
        reveal_strlit("Up");
        reveal_strlit("Down");
        reveal_strlit("Hold");
        assert("Up"@.len() == 2 && "Down"@.len() == 4 && "Hold"@.len() == 4);
        assert("Down"@[0] != "Hold"@[0]);
    }
    if same_text(value, "Up") {
        0
    } else if same_text(value, "Down") {
        1
    } else {
        2
    }
}

} // verus!
