//! Peer-to-peer transport core: the driver that turns discovery, command and
//! transport occurrences into one ordered stream of application events.
use vstd::prelude::*;

pub mod address;
pub mod event;
pub mod stream;
pub mod laws;

verus! {

} // verus!
