//! Logical input keys.
//!
//! The dashboard and the mood journal react to a small set of keys. The
//! terminal backend delivers its own event type; the binary translates each
//! event into this plain enum before handing it to the library, so every key
//! route below is verified.

use vstd::prelude::*;

verus! {

/// One logical key press. `Other` stands for any key the dashboard and its
/// modules do not recognize.
#[derive(Clone, Copy, Debug, PartialEq, Eq)]
pub enum Key {
    Char(char),
    Left,
    Right,
    Enter,
    Esc,
    Other,
}

} // verus!
