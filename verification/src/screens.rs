//! Which top-level screen the interface is showing.

use vstd::prelude::*;

verus! {

/// The two faces of the program: fetching the station directory, or
/// playing.
#[derive(PartialEq, Eq, Debug, Structural)]
pub enum Screen {
    Loading,
    Play,
}

} // verus!
