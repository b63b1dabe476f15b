//! The arguments of the program.

use vstd::prelude::*;

verus! {

/// The arguments that the program takes. There are none: all that the
/// command line can ask for is the help text or the version.
#[derive(Clone, Copy, Debug, PartialEq, Eq, Structural)]
pub struct Args {}

} // verus!
