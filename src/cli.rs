//! Start-up settings of the relay.
use vstd::prelude::*;

verus! {

/// Where the relay listens and where it delivers.
pub struct Args {
    /// Address to listen on.
    pub ip: String,
    /// Port to listen on.
    pub port: u16,
    /// The chat bot's webhook endpoint.
    pub webhook_url: String,
}

} // verus!
