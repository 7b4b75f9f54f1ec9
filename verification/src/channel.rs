//! The two capabilities that the application and the library exchange.

use vstd::prelude::*;

verus! {

/// Implemented by the application: receives what arrives on one session's
/// data channel, and learns when the session ends.
pub trait DataChannelHandler {
    fn on_message(&mut self, message: &[u8]);

    fn on_close(&mut self);
}

/// Handed to the application: the sending side of one session's data channel.
pub trait DataChannel {
    fn send(&mut self, message: &[u8]);
}

} // verus!
