//! ANSI colour escape codes.
use vstd::prelude::*;

verus! {

/// A terminal colour.
#[derive(Debug, Clone, Copy)]
pub enum Colour {
    Red,
    Orange,
    Green,
    Blue,
    Cyan,
    Magenta,
    LightGrey,
    Black,
    FallbackDefault,
}

/// Whether a colour applies to the text or to the cell behind it.
#[derive(Debug, Clone, Copy)]
pub enum Layer {
    Background,
    ForeGround,
}

/// The digit that selects a colour in an SGR escape sequence.
pub open spec fn colour_digit(c: Colour) -> char {
    match c {
        Colour::Black => '0',
        Colour::Red => '1',
        Colour::Green => '2',
        Colour::Orange => '3',
        Colour::Blue => '4',
        Colour::Magenta => '5',
        Colour::Cyan => '6',
        Colour::LightGrey => '7',
        Colour::FallbackDefault => '9',
    }
}

/// The digit that selects the layer in an SGR escape sequence.
pub open spec fn layer_digit(l: Layer) -> char {
    match l {
        Layer::ForeGround => '3',
        Layer::Background => '4',
    }
}

/// The escape sequence `ESC [ <layer> <colour> m`.
pub open spec fn code_of(c: Colour, l: Layer) -> Seq<char> {
    seq!['\x1B', '[', layer_digit(l), colour_digit(c), 'm']
}

impl Colour {
    /// The escape sequence that switches `layer` to this colour.
    pub fn to_code(&self, layer: Layer) -> (r: &'static str)
        ensures
            r@ == code_of(*self, layer),
    {
        match layer {
            Layer::Background => match self {
                Colour::Black => {
                    proof { reveal_strlit("\x1B[40m"); }
                    "\x1B[40m"
                },
                Colour::Red => {
                    proof { reveal_strlit("\x1B[41m"); }
                    "\x1B[41m"
                },
                Colour::Green => {
                    proof { reveal_strlit("\x1B[42m"); }
                    "\x1B[42m"
                },
                Colour::Orange => {
                    proof { reveal_strlit("\x1B[43m"); }
                    "\x1B[43m"
                },
                Colour::Blue => {
                    proof { reveal_strlit("\x1B[44m"); }
                    "\x1B[44m"
                },
                Colour::Magenta => {
                    proof { reveal_strlit("\x1B[45m"); }
                    "\x1B[45m"
                },
                Colour::Cyan => {
                    proof { reveal_strlit("\x1B[46m"); }
                    "\x1B[46m"
                },
                Colour::LightGrey => {
                    proof { reveal_strlit("\x1B[47m"); }
                    "\x1B[47m"
                },
                Colour::FallbackDefault => {
                    proof { reveal_strlit("\x1B[49m"); }
                    "\x1B[49m"
                },
            },
            Layer::ForeGround => match self {
                Colour::Black => {
                    proof { reveal_strlit("\x1B[30m"); }
                    "\x1B[30m"
                },
                Colour::Red => {
                    proof { reveal_strlit("\x1B[31m"); }
                    "\x1B[31m"
                },
                Colour::Green => {
                    proof { reveal_strlit("\x1B[32m"); }
                    "\x1B[32m"
                },
                Colour::Orange => {
                    proof { reveal_strlit("\x1B[33m"); }
                    "\x1B[33m"
                },
                Colour::Blue => {
                    proof { reveal_strlit("\x1B[34m"); }
                    "\x1B[34m"
                },
                Colour::Magenta => {
                    proof { reveal_strlit("\x1B[35m"); }
                    "\x1B[35m"
                },
                Colour::Cyan => {
                    proof { reveal_strlit("\x1B[36m"); }
                    "\x1B[36m"
                },
                Colour::LightGrey => {
                    proof { reveal_strlit("\x1B[37m"); }
                    "\x1B[37m"
                },
                Colour::FallbackDefault => {
                    proof { reveal_strlit("\x1B[39m"); }
                    "\x1B[39m"
                },
            },
        }
    }
}

/// `text` wrapped in the code for colour `c` on layer `l` and the code that
/// restores that layer's default colour.
pub fn fmt_in_colour(text: &str, c: Colour, l: Layer) -> (r: String)
    ensures
        r@ == code_of(c, l) + text@ + code_of(Colour::FallbackDefault, l),
{
    let start = String::from_str(c.to_code(l));
    let reset = Colour::FallbackDefault.to_code(l);
    start.concat(text).concat(reset)
}

} // verus!
