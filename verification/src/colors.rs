//! The colour under the picker's handle, its renderings as text, and the
//! closed gradient of the colour ring.

use crate::text::{append_decimal, append_hex_byte, decimal, hex_byte};
use vstd::prelude::*;
use vstd::string::*;

verus! {

/// The number of stops of the ring's gradient; the last repeats the first.
pub const STOP_COUNT: usize = 7;

/// The stops of the ring's gradient, one every sixty degrees, clockwise from
/// twelve o'clock.
pub open spec fn gradient() -> Seq<(u8, u8, u8)> {
    seq![
        (0xe4u8, 0x3fu8, 0x00u8),
        (0xfau8, 0xe4u8, 0x10u8),
        (0x55u8, 0xccu8, 0x3bu8),
        (0x09u8, 0xadu8, 0xffu8),
        (0x6bu8, 0x0eu8, 0xfdu8),
        (0xe7u8, 0x0du8, 0x86u8),
        (0xe4u8, 0x3fu8, 0x00u8),
    ]
}

/// The index of the stop at which the segment holding gradient position
/// `whole` begins, where `whole` is the integral part of the position.
pub open spec fn segment_start(whole: nat) -> int {
    (whole % STOP_COUNT as nat) as int
}

/// The index of the stop at which that segment ends.
pub open spec fn segment_end(whole: nat) -> int {
    (segment_start(whole) + 1) % (STOP_COUNT as int)
}

/// The channel value nearest to `v`: `v` itself where it is a byte, else the
/// end of the byte range on its side.
pub open spec fn clamped(v: int) -> u8 {
    if v < 0 {
        0u8
    } else if v > 255 {
        255u8
    } else {
        v as u8
    }
}

/// `"#RRGGBB"`: the three channels as upper-case hexadecimal.
pub open spec fn hex_code_text(r: u8, g: u8, b: u8) -> Seq<char> {
    seq!['#'] + hex_byte(r) + hex_byte(g) + hex_byte(b)
}

/// The style declaration that paints an element in the colour.
pub open spec fn style_text(r: u8, g: u8, b: u8) -> Seq<char> {
    "background-color: "@ + hex_code_text(r, g, b) + ";"@
}

/// The style declaration that places the handle at a pixel offset.
pub open spec fn position_text(x: int, y: int) -> Seq<char> {
    "top: "@ + decimal(y) + "px; left: "@ + decimal(x) + "px;"@
}

/// A colour and the place of the handle that chose it.
#[derive(Clone, Copy, Debug, PartialEq, Eq, Hash, Structural)]
pub struct Color {
    /// Red channel.
    pub r: u8,
    /// Green channel.
    pub g: u8,
    /// Blue channel.
    pub b: u8,
    /// Horizontal pixel offset of the handle.
    pub x: i32,
    /// Vertical pixel offset of the handle.
    pub y: i32,
    /// The handle's angle in degrees, as the bit pattern of a double. It is
    /// carried along and never interpreted.
    pub degree: u64,
}

impl Default for Color {
    /// Black, at the origin, with angle zero.
    fn default() -> (c: Self)
        ensures
            c == (Color { r: 0, g: 0, b: 0, x: 0, y: 0, degree: 0 }),
    {
        Color { r: 0, g: 0, b: 0, x: 0, y: 0, degree: 0 }
    }
}

impl Color {
    /// A colour from its channels, the handle's offset and its angle.
    pub fn new(r: u8, g: u8, b: u8, x: i32, y: i32, d: u64) -> (c: Self)
        ensures
            c == (Color { r, g, b, x, y, degree: d }),
    {
        Color { r, g, b, x, y, degree: d }
    }

    /// One channel as two upper-case hexadecimal digits.
    pub fn get_hex_value(value: u8) -> (text: String)
        ensures
            text@ == hex_byte(value),
    {
        let mut text = String::new();
        append_hex_byte(&mut text, value);
        assert(text@ =~= hex_byte(value));
        text
    }

    /// The colour as `#RRGGBB`.
    pub fn get_hex(&self) -> (text: String)
        ensures
            text@ == hex_code_text(self.r, self.g, self.b),
    {
        let mut text = String::new();
        text.append("#");
        proof {
            reveal_strlit("#");
            assert(text@ =~= seq!['#']);
        }
        append_hex_byte(&mut text, self.r);
        append_hex_byte(&mut text, self.g);
        append_hex_byte(&mut text, self.b);
        text
    }

    /// The style declaration `background-color: #RRGGBB;`.
    pub fn get_style(&self) -> (text: String)
        ensures
            text@ == style_text(self.r, self.g, self.b),
    {
        let mut text = String::new();
        text.append("background-color: ");
        assert(text@ =~= "background-color: "@);
        let code = self.get_hex();
        text.append(code.as_str());
        text.append(";");
        text
    }

    /// The style declaration `top: {y}px; left: {x}px;`.
    pub fn get_position(&self) -> (text: String)
        ensures
            text@ == position_text(self.x as int, self.y as int),
    {
        let mut text = String::new();
        text.append("top: ");
        assert(text@ =~= "top: "@);
        append_decimal(&mut text, self.y);
        text.append("px; left: ");
        append_decimal(&mut text, self.x);
        text.append("px;");
        text
    }

    /// The handle's angle, as it was given.
    pub fn get_degree(&self) -> (d: u64)
        ensures
            d == self.degree,
    {
        self.degree
    }

    /// The stops of the ring's gradient.
    pub fn get_gradient(&self) -> (stops: Vec<(u8, u8, u8)>)
        ensures
            stops@ == gradient(),
    {
        let stops = vec![
            (0xe4u8, 0x3fu8, 0x00u8),
            (0xfau8, 0xe4u8, 0x10u8),
            (0x55u8, 0xccu8, 0x3bu8),
            (0x09u8, 0xadu8, 0xffu8),
            (0x6bu8, 0x0eu8, 0xfdu8),
            (0xe7u8, 0x0du8, 0x86u8),
            (0xe4u8, 0x3fu8, 0x00u8),
        ];
        assert(stops@ =~= gradient());
        stops
    }

    /// A channel from a blended value that was rounded to an integer, held to
    /// the byte range.
    pub fn clamp_channel(rounded: i64) -> (channel: u8)
        ensures
            channel == clamped(rounded as int),
    {
        if rounded < 0 {
            0
        } else if rounded > 255 {
            255
        } else {
            rounded as u8
        }
    }

    /// The two stops between which gradient position `whole` plus a fraction
    /// lies: the colour at the start of that segment, then the colour at its
    /// end. Positions wrap around after the last stop.
    pub fn gradient_segment(&self, whole: usize) -> (ends: ((u8, u8, u8), (u8, u8, u8)))
        ensures
            ends.0 == gradient()[segment_start(whole as nat)],
            ends.1 == gradient()[segment_end(whole as nat)],
    {
        let stops = self.get_gradient();
        let first: usize = whole % stops.len();
        let second: usize = (first + 1) % stops.len();
        (stops[first], stops[second])
    }
}

/// The gradient is a closed loop: it has seven stops and ends on the colour
/// that it starts with.
pub proof fn lemma_gradient_is_closed()
    ensures
        gradient().len() == STOP_COUNT,
        gradient()[STOP_COUNT - 1] == gradient()[0],
{
}

/// Holding a value to the byte range changes no value that is a byte, so a
/// blend that lands exactly on a stop gives that stop's channel.
pub proof fn lemma_clamped_keeps_bytes(v: u8)
    ensures
        clamped(v as int) == v,
{
}

/// A segment starts and ends on stops of the gradient, and it ends on the stop
/// after the one it starts on, or on the first stop where it starts on the
/// last.
pub proof fn lemma_segment_in_gradient(whole: nat)
    ensures
        0 <= segment_start(whole) < gradient().len(),
        0 <= segment_end(whole) < gradient().len(),
        segment_start(whole) < STOP_COUNT - 1 ==> segment_end(whole) == segment_start(whole) + 1,
        segment_start(whole) == STOP_COUNT - 1 ==> segment_end(whole) == 0,
        whole < STOP_COUNT ==> segment_start(whole) == whole,
{
}

} // verus!
