//! Key colours for a keyboard control surface.

use vstd::prelude::*;

verus! {

/// The colour of one keyboard key.
#[derive(PartialEq, Eq, Structural, Debug)]
pub enum KeyColor {
    /// A natural key.
    White,
    /// An accidental key.
    Black,
}

impl KeyColor {
    /// The style-class name of this colour.
    pub fn to_string(&self) -> (r: String)
        ensures
            *self is White ==> r@ == "whitekey"@,
            *self is Black ==> r@ == "blackkey"@,
    {
        match self {
            KeyColor::White => "whitekey".to_owned(),
            KeyColor::Black => "blackkey".to_owned(),
        }
    }
}

} // verus!
