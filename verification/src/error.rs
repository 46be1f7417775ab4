//! The library's error taxonomy.

use vstd::prelude::*;
use crate::config::Signal;

verus! {

/// Startup failure: the exporter for the named signal could not be
/// constructed. Fatal to startup; the service must not begin serving.
#[derive(Clone, Copy, PartialEq, Eq, Structural, Debug)]
pub struct BuildError {
    pub signal: Signal,
}

/// Shutdown failure of one pipeline. Recoverable from the coordinator's
/// perspective: it proceeds to the next pipeline regardless.
#[derive(Clone, Copy, PartialEq, Eq, Structural, Debug)]
pub struct ShutdownError {
    pub signal: Signal,
}

} // verus!
