use vstd::prelude::*;

verus! {

/// Where the signaling server and the relay servers are.
#[derive(PartialEq, Clone, Debug)]
pub struct Config {
    pub signaling_server_url: String,
    pub stun_server_urls: String,
    pub turn_server_urls: String,
    pub turn_server_username: String,
    pub turn_server_credential: String,
}

} // verus!
