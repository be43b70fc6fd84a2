//! The operating system the application runs on, for the decisions that depend on it.
use vstd::prelude::*;

verus! {

/// The target operating system.
#[derive(Debug, Clone, Copy, PartialEq, Eq, Structural)]
pub enum TargetOs {
    MacOs,
    Windows,
    Linux,
    Other,
}

} // verus!
