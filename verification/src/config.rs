//! Configuration messages sent from the control context to the audio context.

use vstd::prelude::*;

verus! {

/// The latest desired state of the recording-armed flag. Later messages
/// override earlier ones when several arrive between two drains.
#[derive(PartialEq, Eq, Structural, Clone, Copy, Debug)]
pub struct Config {
    pub recording: bool,
}

} // verus!
