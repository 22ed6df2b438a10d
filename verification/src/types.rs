//! Shared machine vocabulary: nametable mirroring, video region and the
//! standard controller buttons.

use vstd::prelude::*;
use vstd::string::StringSliceAdditionalSpecFns;

verus! {

/// How the four logical nametables map onto CIRAM (or cartridge VRAM).
#[derive(Debug, Clone, Copy, PartialEq, Eq, Structural)]
pub enum Mirroring {
    Horizontal,
    Vertical,
    FourScreen,
    SingleScreenLow,
    SingleScreenHigh,
}

/// Console timing region.
#[derive(Debug, Clone, Copy, PartialEq, Eq, Structural)]
pub enum Region {
    Ntsc,
    Pal,
    Dendy,
}

/// A standard controller button; `bit` gives its position in the shift
/// register (A is read first).
#[derive(Debug, Clone, Copy, PartialEq, Eq, Structural)]
pub enum Button {
    A,
    B,
    Select,
    Start,
    Up,
    Down,
    Left,
    Right,
}

pub open spec fn button_bit(b: Button) -> u8 {
    match b {
        Button::A => 0,
        Button::B => 1,
        Button::Select => 2,
        Button::Start => 3,
        Button::Up => 4,
        Button::Down => 5,
        Button::Left => 6,
        Button::Right => 7,
    }
}

/// ASCII lower-casing of one byte (other bytes unchanged).
pub open spec fn ascii_lower(b: u8) -> u8 {
    if 0x41 <= b <= 0x5A { (b + 0x20) as u8 } else { b }
}

/// Case-insensitive (ASCII) equality of two byte strings.
pub open spec fn ascii_eq_ci(s: Seq<u8>, lit: Seq<u8>) -> bool {
    s.len() == lit.len() && forall|i: int| 0 <= i < s.len() ==> #[trigger] ascii_lower(s[i]) == ascii_lower(lit[i])
}

pub fn lower_byte(b: u8) -> (r: u8)
    ensures r == ascii_lower(b),
{
    if 0x41 <= b && b <= 0x5A { b + 0x20 } else { b }
}

/// Byte-wise ASCII case-insensitive comparison.
pub fn bytes_eq_ci(s: &[u8], lit: &[u8]) -> (r: bool)
    ensures r == ascii_eq_ci(s@, lit@),
{
    if s.len() != lit.len() {
        return false;
    }
    let mut i: usize = 0;
    while i < s.len()
        invariant
            s@.len() == lit@.len(),
            i <= s.len(),
            forall|j: int| 0 <= j < i ==> #[trigger] ascii_lower(s@[j]) == ascii_lower(lit@[j]),
        decreases s.len() - i,
    {
        if lower_byte(s[i]) != lower_byte(lit[i]) {
            return false;
        }
        i += 1;
    }
    true
}

pub open spec fn button_named(name: Seq<u8>) -> Option<Button> {
    if ascii_eq_ci(name, seq![0x61u8]) { Some(Button::A) }
    else if ascii_eq_ci(name, seq![0x62u8]) { Some(Button::B) }
    else if ascii_eq_ci(name, seq![0x73u8, 0x65, 0x6c, 0x65, 0x63, 0x74]) { Some(Button::Select) }
    else if ascii_eq_ci(name, seq![0x73u8, 0x74, 0x61, 0x72, 0x74]) { Some(Button::Start) }
    else if ascii_eq_ci(name, seq![0x75u8, 0x70]) { Some(Button::Up) }
    else if ascii_eq_ci(name, seq![0x64u8, 0x6f, 0x77, 0x6e]) { Some(Button::Down) }
    else if ascii_eq_ci(name, seq![0x6cu8, 0x65, 0x66, 0x74]) { Some(Button::Left) }
    else if ascii_eq_ci(name, seq![0x72u8, 0x69, 0x67, 0x68, 0x74]) { Some(Button::Right) }
    else { None }
}

impl Button {
    pub fn bit(&self) -> (r: u8)
        ensures r == button_bit(*self), r < 8,
    {
        match self {
            Button::A => 0,
            Button::B => 1,
            Button::Select => 2,
            Button::Start => 3,
            Button::Up => 4,
            Button::Down => 5,
            Button::Left => 6,
            Button::Right => 7,
        }
    }

    /// Look a button up by its (case-insensitive) name: `a`, `b`, `select`,
    /// `start`, `up`, `down`, `left`, `right`.
    pub fn from_name(name: &str) -> (r: Option<Button>)
        ensures r == button_named(name.spec_bytes()),
    {
        let b = name.as_bytes();
        let a: [u8; 1] = [0x61];
        let bb: [u8; 1] = [0x62];
        let select: [u8; 6] = [0x73, 0x65, 0x6c, 0x65, 0x63, 0x74];
        let start: [u8; 5] = [0x73, 0x74, 0x61, 0x72, 0x74];
        let up: [u8; 2] = [0x75, 0x70];
        let down: [u8; 4] = [0x64, 0x6f, 0x77, 0x6e];
        let left: [u8; 4] = [0x6c, 0x65, 0x66, 0x74];
        let right: [u8; 5] = [0x72, 0x69, 0x67, 0x68, 0x74];
        assert(a@ == seq![0x61u8]);
        assert(bb@ == seq![0x62u8]);
        assert(select@ == seq![0x73u8, 0x65, 0x6c, 0x65, 0x63, 0x74]);
        assert(start@ == seq![0x73u8, 0x74, 0x61, 0x72, 0x74]);
        assert(up@ == seq![0x75u8, 0x70]);
        assert(down@ == seq![0x64u8, 0x6f, 0x77, 0x6e]);
        assert(left@ == seq![0x6cu8, 0x65, 0x66, 0x74]);
        assert(right@ == seq![0x72u8, 0x69, 0x67, 0x68, 0x74]);
        if bytes_eq_ci(b, &a) { Some(Button::A) }
        else if bytes_eq_ci(b, &bb) { Some(Button::B) }
        else if bytes_eq_ci(b, &select) { Some(Button::Select) }
        else if bytes_eq_ci(b, &start) { Some(Button::Start) }
        else if bytes_eq_ci(b, &up) { Some(Button::Up) }
        else if bytes_eq_ci(b, &down) { Some(Button::Down) }
        else if bytes_eq_ci(b, &left) { Some(Button::Left) }
        else if bytes_eq_ci(b, &right) { Some(Button::Right) }
        else { None }
    }
}

} // verus!
