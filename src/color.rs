use vstd::prelude::*;
use crate::error::Error;

verus! {

/// The value of a hexadecimal digit, either case.
pub open spec fn hex_digit(c: char) -> Option<int> {
    if '0' <= c && c <= '9' {
        Some(c as int - '0' as int)
    } else if 'a' <= c && c <= 'f' {
        Some(c as int - 'a' as int + 10)
    } else if 'A' <= c && c <= 'F' {
        Some(c as int - 'A' as int + 10)
    } else {
        None
    }
}

fn hex_digit_value(c: char) -> (r: Option<u8>)
    ensures
        r is Some <==> hex_digit(c) is Some,
        r matches Some(v) ==> Some(v as int) == hex_digit(c),
{
    if '0' <= c && c <= '9' {
        Some((c as u32 - '0' as u32) as u8)
    } else if 'a' <= c && c <= 'f' {
        Some((c as u32 - 'a' as u32 + 10) as u8)
    } else if 'A' <= c && c <= 'F' {
        Some((c as u32 - 'A' as u32 + 10) as u8)
    } else {
        None
    }
}

/// Whether `s` is written `#rrggbb`.
pub open spec fn is_hex_color(s: Seq<char>) -> bool {
    &&& s.len() == 7
    &&& s[0] == '#'
    &&& forall|i: int| 1 <= i < 7 ==> (#[trigger] hex_digit(s[i])) is Some
}

/// The channel whose two digits start at `i`.
pub open spec fn channel_value(s: Seq<char>, i: int) -> int {
    16 * hex_digit(s[i])->0 + hex_digit(s[i + 1])->0
}

fn read_channel(s: &str, i: usize) -> (r: Option<u8>)
    requires
        i < 6,
        s@.len() == 7,
    ensures
        r is Some <==> hex_digit(s@[i as int]) is Some && hex_digit(s@[i + 1]) is Some,
        r matches Some(v) ==> v == channel_value(s@, i as int),
{
    let hi = hex_digit_value(s.get_char(i))?;
    let lo = hex_digit_value(s.get_char(i + 1))?;
    Some(hi * 16 + lo)
}

/// The red, green and blue channels of a color written `#rrggbb`.
pub fn hex_to_rgb(s: &str) -> (r: Result<(u8, u8, u8), Error>)
    ensures
        r is Ok <==> is_hex_color(s@),
        r matches Ok((red, green, blue)) ==> red == channel_value(s@, 1) && green == channel_value(s@, 3) && blue
            == channel_value(s@, 5),
        r is Err ==> (r matches Err(Error::InvalidColor { text }) && text@ == s@),
{
    if s.unicode_len() != 7 || s.get_char(0) != '#' {
        return Err(Error::InvalidColor { text: String::from_str(s) });
    }
    let red = read_channel(s, 1);
    let green = read_channel(s, 3);
    let blue = read_channel(s, 5);
    match (red, green, blue) {
        (Some(red), Some(green), Some(blue)) => Ok((red, green, blue)),
        _ => {
            proof {
                if red is None {
                    assert(hex_digit(s@[1]) is None || hex_digit(s@[2]) is None);
                } else if green is None {
                    assert(hex_digit(s@[3]) is None || hex_digit(s@[4]) is None);
                } else {
                    assert(hex_digit(s@[5]) is None || hex_digit(s@[6]) is None);
                }
            }
            Err(Error::InvalidColor { text: String::from_str(s) })
        },
    }
}

} // verus!
