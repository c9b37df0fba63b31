//! Values that the screens and the background jobs pass around.
use vstd::prelude::*;

verus! {

/// The colour of the message line.
#[derive(Clone, Copy, Debug, PartialEq, Eq, Structural)]
pub enum MsgColor {
    Black,
    Red,
    Green,
    Blue,
}

/// The page shown under the common controls.
#[derive(Clone, Copy, Debug, PartialEq, Eq, Structural)]
pub enum PageChoice {
    ROT,
    CON,
    IND,
}

impl Default for PageChoice {
    /// The rotate-correction page.
    fn default() -> (r: Self)
        ensures
            r == PageChoice::ROT,
    {
        PageChoice::ROT
    }
}

/// The failure of a background job. No job of this crate produces one.
#[derive(Clone, Copy, Debug, PartialEq, Eq, Structural)]
pub enum Error {
    APIError,
}

/// The tick of the progress timer.
#[derive(Clone, Copy, Debug, PartialEq, Eq, Structural)]
pub struct Progstart {}

/// What a rotation run reports when it ends.
#[derive(Clone, Debug)]
pub struct Rotatex {
    pub errcolor: MsgColor,
    pub errval: String,
}

/// What a conversion run reports when it ends.
#[derive(Clone, Debug)]
pub struct Copyx {
    pub errcolor: MsgColor,
    pub errval: String,
}

} // verus!
