use vstd::prelude::*;

verus! {

/// The kinds of channel the node uses to pass messages between its tasks.
#[derive(Debug, Copy, Clone, Eq, PartialEq, Structural)]
pub enum ChannelType {
    BoundedMPSC,
    UnboundedMPSC,
    Broadcast,
    OneShot,
    Watch,
}

} // verus!
