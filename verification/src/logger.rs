//! Where a session writes what it reports.

use vstd::prelude::*;

verus! {

/// A sink for the lines a session reports. Implementations decide where
/// they go (a console, a file, nowhere).
pub trait Logger {
    fn write_line(&self, output: String);

    fn clear(&self);
}

} // verus!
