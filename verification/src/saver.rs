//! Writing a scene down.
//!
//! A saver lays a scene out as a sequence of pieces: runs of text, which it
//! chooses, and numbers, which the host prints in its own notation.

use vstd::prelude::*;
use crate::scalar::Scalar;

pub mod lisp;

verus! {

/// One piece of a written scene.
#[derive(Clone, Copy, Debug)]
pub enum Piece {
    /// Text to be written as it is.
    Text(&'static str),
    /// A number to be written in decimal notation.
    Number(Scalar),
}

} // verus!
