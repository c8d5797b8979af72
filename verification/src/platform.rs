//! The desktop platforms whose behaviour differs.

use vstd::prelude::*;

verus! {

/// The operating system the program runs on.
#[derive(Clone, Copy, Debug, PartialEq, Eq, Structural)]
pub enum Platform {
    Windows,
    MacOs,
    Linux,
}

} // verus!
