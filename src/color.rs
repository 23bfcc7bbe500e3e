use vstd::prelude::*;
use crate::text::{chars_of, same_chars};

verus! {

/// The colours that the interface can show.
#[derive(PartialEq, Eq, Structural, Clone, Copy, Debug)]
pub enum AcceptedColors {
    Black,
    Red,
    Green,
    Yellow,
    Blue,
    Magenta,
    Cyan,
    Gray,
    DarkGray,
    LightRed,
    LightGreen,
    LightYellow,
    LightBlue,
    LightMagenta,
    LightCyan,
    White,
}

/// The name of a colour.
pub open spec fn color_name(c: AcceptedColors) -> Seq<char> {
    match c {
        AcceptedColors::Black => "Black"@,
        AcceptedColors::Red => "Red"@,
        AcceptedColors::Green => "Green"@,
        AcceptedColors::Yellow => "Yellow"@,
        AcceptedColors::Blue => "Blue"@,
        AcceptedColors::Magenta => "Magenta"@,
        AcceptedColors::Cyan => "Cyan"@,
        AcceptedColors::Gray => "Gray"@,
        AcceptedColors::DarkGray => "DarkGray"@,
        AcceptedColors::LightRed => "LightRed"@,
        AcceptedColors::LightGreen => "LightGreen"@,
        AcceptedColors::LightYellow => "LightYellow"@,
        AcceptedColors::LightBlue => "LightBlue"@,
        AcceptedColors::LightMagenta => "LightMagenta"@,
        AcceptedColors::LightCyan => "LightCyan"@,
        AcceptedColors::White => "White"@,
    }
}

/// `c` is what [`AcceptedColors::from_name`] gives for `s`: the colour named `s`, or green
/// when no colour has that name.
pub open spec fn names_color(s: Seq<char>, c: AcceptedColors) -> bool {
    &&& (exists|d: AcceptedColors| color_name(d) == s) ==> color_name(c) == s
    &&& !(exists|d: AcceptedColors| color_name(d) == s) ==> c == AcceptedColors::Green
}

/// The colour at position `k` of the cycle, for `k < 16`.
pub open spec fn color_at(k: nat) -> AcceptedColors {
    seq![
        AcceptedColors::Black,
        AcceptedColors::Red,
        AcceptedColors::Green,
        AcceptedColors::Yellow,
        AcceptedColors::Blue,
        AcceptedColors::Magenta,
        AcceptedColors::Cyan,
        AcceptedColors::Gray,
        AcceptedColors::DarkGray,
        AcceptedColors::LightRed,
        AcceptedColors::LightGreen,
        AcceptedColors::LightYellow,
        AcceptedColors::LightBlue,
        AcceptedColors::LightMagenta,
        AcceptedColors::LightCyan,
        AcceptedColors::White,
    ][k as int]
}

impl AcceptedColors {
    /// Position of the colour in the cycle that the settings walk through.
    pub open spec fn ordinal(self) -> nat {
        match self {
            AcceptedColors::Black => 0,
            AcceptedColors::Red => 1,
            AcceptedColors::Green => 2,
            AcceptedColors::Yellow => 3,
            AcceptedColors::Blue => 4,
            AcceptedColors::Magenta => 5,
            AcceptedColors::Cyan => 6,
            AcceptedColors::Gray => 7,
            AcceptedColors::DarkGray => 8,
            AcceptedColors::LightRed => 9,
            AcceptedColors::LightGreen => 10,
            AcceptedColors::LightYellow => 11,
            AcceptedColors::LightBlue => 12,
            AcceptedColors::LightMagenta => 13,
            AcceptedColors::LightCyan => 14,
            AcceptedColors::White => 15,
        }
    }

    /// The following colour of the cycle.
    pub fn next_color(&self) -> (r: AcceptedColors)
        ensures
            r.ordinal() == (self.ordinal() + 1) % 16,
    {
        match self {
            AcceptedColors::Black => AcceptedColors::Red,
            AcceptedColors::Red => AcceptedColors::Green,
            AcceptedColors::Green => AcceptedColors::Yellow,
            AcceptedColors::Yellow => AcceptedColors::Blue,
            AcceptedColors::Blue => AcceptedColors::Magenta,
            AcceptedColors::Magenta => AcceptedColors::Cyan,
            AcceptedColors::Cyan => AcceptedColors::Gray,
            AcceptedColors::Gray => AcceptedColors::DarkGray,
            AcceptedColors::DarkGray => AcceptedColors::LightRed,
            AcceptedColors::LightRed => AcceptedColors::LightGreen,
            AcceptedColors::LightGreen => AcceptedColors::LightYellow,
            AcceptedColors::LightYellow => AcceptedColors::LightBlue,
            AcceptedColors::LightBlue => AcceptedColors::LightMagenta,
            AcceptedColors::LightMagenta => AcceptedColors::LightCyan,
            AcceptedColors::LightCyan => AcceptedColors::White,
            AcceptedColors::White => AcceptedColors::Black,
        }
    }

    /// The preceding colour of the cycle.
    pub fn previous_color(&self) -> (r: AcceptedColors)
        ensures
            r.ordinal() == (self.ordinal() + 15) % 16,
    {
        match self {
            AcceptedColors::Black => AcceptedColors::White,
            AcceptedColors::Red => AcceptedColors::Black,
            AcceptedColors::Green => AcceptedColors::Red,
            AcceptedColors::Yellow => AcceptedColors::Green,
            AcceptedColors::Blue => AcceptedColors::Yellow,
            AcceptedColors::Magenta => AcceptedColors::Blue,
            AcceptedColors::Cyan => AcceptedColors::Magenta,
            AcceptedColors::Gray => AcceptedColors::Cyan,
            AcceptedColors::DarkGray => AcceptedColors::Gray,
            AcceptedColors::LightRed => AcceptedColors::DarkGray,
            AcceptedColors::LightGreen => AcceptedColors::LightRed,
            AcceptedColors::LightYellow => AcceptedColors::LightGreen,
            AcceptedColors::LightBlue => AcceptedColors::LightYellow,
            AcceptedColors::LightMagenta => AcceptedColors::LightBlue,
            AcceptedColors::LightCyan => AcceptedColors::LightMagenta,
            AcceptedColors::White => AcceptedColors::LightCyan,
        }
    }

    /// The colour's name.
    pub fn name(&self) -> (r: String)
        ensures
            r@ == color_name(*self),
    {
        match self {
            AcceptedColors::Black => String::from_str("Black"),
            AcceptedColors::Red => String::from_str("Red"),
            AcceptedColors::Green => String::from_str("Green"),
            AcceptedColors::Yellow => String::from_str("Yellow"),
            AcceptedColors::Blue => String::from_str("Blue"),
            AcceptedColors::Magenta => String::from_str("Magenta"),
            AcceptedColors::Cyan => String::from_str("Cyan"),
            AcceptedColors::Gray => String::from_str("Gray"),
            AcceptedColors::DarkGray => String::from_str("DarkGray"),
            AcceptedColors::LightRed => String::from_str("LightRed"),
            AcceptedColors::LightGreen => String::from_str("LightGreen"),
            AcceptedColors::LightYellow => String::from_str("LightYellow"),
            AcceptedColors::LightBlue => String::from_str("LightBlue"),
            AcceptedColors::LightMagenta => String::from_str("LightMagenta"),
            AcceptedColors::LightCyan => String::from_str("LightCyan"),
            AcceptedColors::White => String::from_str("White"),
        }
    }

    /// The colour named `s`; an unknown name gives green.
    pub fn from_name(s: &str) -> (r: AcceptedColors)
        ensures
            names_color(s@, r),
    {
        let v = chars_of(s);
        if same_chars(&v, &chars_of("Black")) {
            assert(color_name(AcceptedColors::Black) == s@);
            return AcceptedColors::Black;
        }
        if same_chars(&v, &chars_of("Red")) {
            assert(color_name(AcceptedColors::Red) == s@);
            return AcceptedColors::Red;
        }
        if same_chars(&v, &chars_of("Green")) {
            assert(color_name(AcceptedColors::Green) == s@);
            return AcceptedColors::Green;
        }
        if same_chars(&v, &chars_of("Yellow")) {
            assert(color_name(AcceptedColors::Yellow) == s@);
            return AcceptedColors::Yellow;
        }
        if same_chars(&v, &chars_of("Blue")) {
            assert(color_name(AcceptedColors::Blue) == s@);
            return AcceptedColors::Blue;
        }
        if same_chars(&v, &chars_of("Magenta")) {
            assert(color_name(AcceptedColors::Magenta) == s@);
            return AcceptedColors::Magenta;
        }
        if same_chars(&v, &chars_of("Cyan")) {
            assert(color_name(AcceptedColors::Cyan) == s@);
            return AcceptedColors::Cyan;
        }
        if same_chars(&v, &chars_of("Gray")) {
            assert(color_name(AcceptedColors::Gray) == s@);
            return AcceptedColors::Gray;
        }
        if same_chars(&v, &chars_of("DarkGray")) {
            assert(color_name(AcceptedColors::DarkGray) == s@);
            return AcceptedColors::DarkGray;
        }
        if same_chars(&v, &chars_of("LightRed")) {
            assert(color_name(AcceptedColors::LightRed) == s@);
            return AcceptedColors::LightRed;
        }
        if same_chars(&v, &chars_of("LightGreen")) {
            assert(color_name(AcceptedColors::LightGreen) == s@);
            return AcceptedColors::LightGreen;
        }
        if same_chars(&v, &chars_of("LightYellow")) {
            assert(color_name(AcceptedColors::LightYellow) == s@);
            return AcceptedColors::LightYellow;
        }
        if same_chars(&v, &chars_of("LightBlue")) {
            assert(color_name(AcceptedColors::LightBlue) == s@);
            return AcceptedColors::LightBlue;
        }
        if same_chars(&v, &chars_of("LightMagenta")) {
            assert(color_name(AcceptedColors::LightMagenta) == s@);
            return AcceptedColors::LightMagenta;
        }
        if same_chars(&v, &chars_of("LightCyan")) {
            assert(color_name(AcceptedColors::LightCyan) == s@);
            return AcceptedColors::LightCyan;
        }
        if same_chars(&v, &chars_of("White")) {
            assert(color_name(AcceptedColors::White) == s@);
            return AcceptedColors::White;
        }
        AcceptedColors::Green
    }
}

} // verus!
