//! The options that a peer connection's data channel is created with.

use vstd::prelude::*;

verus! {

/// How a peer's data channel delivers messages. A negative limit is unset.
#[derive(Debug, Copy, Clone, PartialEq, Eq, Structural)]
pub struct DataChannelOptions {
    pub ordered: bool,
    pub max_retransmit_time: i32,
    pub max_retransmits: i32,
}

impl DataChannelOptions {
    /// The transport takes at most one of the two retransmission limits.
    pub open spec fn valid(self) -> bool {
        !(self.max_retransmit_time >= 0 && self.max_retransmits >= 0)
    }

    pub fn is_valid(&self) -> (ok: bool)
        ensures
            ok == self.valid(),
    {
        self.max_retransmit_time < 0 || self.max_retransmits < 0
    }

    /// Options with no retransmission limit: every message is retried until
    /// it arrives.
    pub fn reliable(ordered: bool) -> (options: DataChannelOptions)
        ensures
            options.valid(),
            options.ordered == ordered,
            options.max_retransmit_time == -1,
            options.max_retransmits == -1,
    {
        DataChannelOptions { ordered, max_retransmit_time: -1, max_retransmits: -1 }
    }
}

} // verus!
