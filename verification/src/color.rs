//! Route colors and their rendering as `#RRGGBB`.

use vstd::prelude::*;
use vstd::string::*;

verus! {

/// A color with eight bits per channel.
#[derive(Copy, Clone, Debug, PartialEq, Eq, Structural)]
pub struct Rgb8 {
    pub r: u8,
    pub g: u8,
    pub b: u8,
}

/// The sixteen hexadecimal digits, upper case, by value.
pub open spec fn hex_digits() -> Seq<char> {
    seq!['0', '1', '2', '3', '4', '5', '6', '7', '8', '9', 'A', 'B', 'C', 'D', 'E', 'F']
}

/// The two upper-case hexadecimal digits of one channel, high digit first.
pub open spec fn hex_pair(channel: u8) -> Seq<char> {
    seq![hex_digits()[channel as int / 16], hex_digits()[channel as int % 16]]
}

/// A color as text: `#`, then red, green and blue as two digits each.
pub open spec fn hex_color(rgb: Rgb8) -> Seq<char> {
    seq!['#'] + hex_pair(rgb.r) + hex_pair(rgb.g) + hex_pair(rgb.b)
}

fn push_hex_pair(text: &mut String, channel: u8)
    ensures
        final(text)@ == old(text)@ + hex_pair(channel),
{
    let digits = "0123456789ABCDEF";
    proof {
        reveal_strlit("0123456789ABCDEF");
        assert(digits@ =~= hex_digits());
    }
    let high: usize = (channel / 16) as usize;
    let low: usize = (channel % 16) as usize;
    let high_digit = digits.substring_char(high, high + 1);
    let low_digit = digits.substring_char(low, low + 1);
    text.append(high_digit);
    text.append(low_digit);
    proof {
        assert(text@ =~= old(text)@ + hex_pair(channel));
    }
}

/// Renders a color as six upper-case hexadecimal digits behind a `#`.
pub fn rgb_as_hex(rgb: &Rgb8) -> (result: String)
    ensures
        result@ == hex_color(*rgb),
        result@.len() == 7,
{
    let mut text = String::from_str("#");
    proof {
        reveal_strlit("#");
        assert(text@ =~= seq!['#']);
    }
    push_hex_pair(&mut text, rgb.r);
    push_hex_pair(&mut text, rgb.g);
    push_hex_pair(&mut text, rgb.b);
    text
}

} // verus!
