//! Name validation: which strings may be registered.
//!
//! A name is 3 to 63 characters drawn from `a-z`, `0-9` and `-`, with no
//! leading or trailing hyphen and no two hyphens in a row. The same rule
//! applies on every registration path.

use vstd::prelude::*;
use vstd::string::is_ascii_spec_bytes;

verus! {

/// The shortest name that may be registered.
pub const MIN_NAME_LEN: usize = 3;

/// The longest name that may be registered.
pub const MAX_NAME_LEN: usize = 63;

/// A character allowed somewhere in a name.
pub open spec fn is_name_char(c: char) -> bool {
    ('a' <= c && c <= 'z') || ('0' <= c && c <= '9') || c == '-'
}

/// The name rule, over the characters of the name.
pub open spec fn valid_name(s: Seq<char>) -> bool {
    &&& MIN_NAME_LEN <= s.len() <= MAX_NAME_LEN
    &&& forall|i: int| 0 <= i < s.len() ==> is_name_char(#[trigger] s[i])
    &&& s[0] != '-'
    &&& s[s.len() - 1] != '-'
    &&& forall|i: int| 0 <= i < s.len() - 1 ==> !(#[trigger] s[i] == '-' && s[i + 1] == '-')
}

/// `b` is the ASCII code of `a`-`z`, `0`-`9` or `-`.
fn is_name_byte(b: u8) -> (r: bool)
    ensures
        r == ((97 <= b && b <= 122) || (48 <= b && b <= 57) || b == 45),
{
    (97u8 <= b && b <= 122u8) || (48u8 <= b && b <= 57u8) || b == 45u8
}

/// Whether `name` may be registered.
pub fn is_valid_name(name: &str) -> (r: bool)
    ensures
        r == valid_name(name@),
{
    broadcast use is_ascii_spec_bytes;

    if !name.is_ascii() {
        proof {
            if valid_name(name@) {
                assert forall|i: int| 0 <= i < name@.len() implies '\0' <= #[trigger] name@[i]
                    <= '\u{7f}' by {
                    assert(is_name_char(name@[i]));
                }
            }
        }
        return false;
    }
    let bytes = name.as_bytes();
    let n: usize = bytes.len();
    assert(bytes@ =~= Seq::new(name@.len(), |i| name@[i] as u8));
    assert forall|i: int| 0 <= i < n implies (#[trigger] bytes@[i] as int) == (name@[i] as int) by {
        assert('\0' <= name@[i] <= '\u{7f}');
    }
    if n < MIN_NAME_LEN || n > MAX_NAME_LEN {
        return false;
    }
    if bytes[0] == 45u8 || bytes[n - 1] == 45u8 {
        return false;
    }
    let mut i: usize = 0;
    while i < n
        invariant
            n == bytes@.len() == name@.len(),
            i <= n,
            forall|j: int| 0 <= j < n ==> (#[trigger] bytes@[j] as int) == (name@[j] as int),
            forall|j: int| 0 <= j < i ==> is_name_char(#[trigger] name@[j]),
            forall|j: int| 0 <= j < i && j + 1 < n ==> !(#[trigger] name@[j] == '-' && name@[j + 1] == '-'),
        decreases n - i,
    {
        let b = bytes[i];
        if !is_name_byte(b) {
            assert(!is_name_char(name@[i as int]));
            return false;
        }
        if b == 45u8 && i + 1 < n && bytes[i + 1] == 45u8 {
            assert(name@[i as int] == '-' && name@[i + 1] == '-');
            return false;
        }
        i = i + 1;
    }
    true
}

} // verus!
