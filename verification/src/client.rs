//! The client: the token, the endpoint groups, and how the transport that
//! sends their requests is to be set up.

use crate::bans::Bans;
use crate::images::Images;
use crate::kumo::Kumo;
use crate::music::Music;
use crate::poller::{Poller, LOOKBACK_SECS};
use crate::text::join;
use vstd::prelude::*;
use vstd::string::*;

verus! {

/// Name that the client gives itself in the `User-Agent` header.
pub const USER_AGENT: &'static str = "KSoft.rs";

/// Value of the `Authorization` header for the token `token`.
pub open spec fn bearer(token: Seq<char>) -> Seq<char> {
    "Bearer "@ + token
}

/// Set-up of the transport, fixed when the client is made: the values of
/// the `Authorization` and `User-Agent` headers that every request carries.
#[derive(Clone, Debug, PartialEq, Eq)]
pub struct Transport {
    pub authorization: String,
    pub user_agent: String,
}

impl Transport {
    /// The set-up for the token `token`.
    pub fn new(token: &str) -> (transport: Transport)
        ensures
            transport.authorization@ == bearer(token@),
            transport.user_agent@ == USER_AGENT@,
    {
        Transport {
            authorization: join("Bearer ", token),
            user_agent: String::from_str(USER_AGENT),
        }
    }
}

/// Client of the API.
#[derive(Clone, Debug)]
pub struct Client {
    pub token: String,
    pub images: Images,
    pub bans: Bans,
    pub kumo: Kumo,
    pub music: Music,
    pub http: Transport,
}

impl Client {
    /// A client that authorizes its requests with `token`.
    pub fn new(token: &str) -> (client: Client)
        ensures
            client.token@ == token@,
            client.http.authorization@ == bearer(token@),
            client.http.user_agent@ == USER_AGENT@,
    {
        Client {
            token: String::from_str(token),
            images: Images::new(),
            bans: Bans::new(),
            kumo: Kumo::new(),
            music: Music::new(),
            http: Transport::new(token),
        }
    }

    /// Starts polling for ban updates at the time `now`, in seconds since
    /// the epoch. The poller that comes back is then driven with the event
    /// handler.
    pub fn event_handler(&self, now: u64) -> (poller: Poller)
        requires
            now >= LOOKBACK_SECS,
        ensures
            poller.cursor() == now - LOOKBACK_SECS,
    {
        self.bans.event_handler(now)
    }
}

} // verus!
