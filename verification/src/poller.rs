//! The ban-update poller: the decisions of the polling loop, as a state
//! machine that a transport drives. The transport sends the poller's
//! request, hands the reply to `step`, carries out the action that comes
//! back, sleeps for the time that comes with it, and starts over.

use crate::model::bans::{BanUpdate, RawBanUpdate};
use crate::request::{bare_request, unsigned_param, Method, Param, PreparedRequest, RequestView};
use vstd::prelude::*;

verus! {

/// Seconds between the end of one poll and the start of the next.
pub const POLL_INTERVAL_SECS: u64 = 300;

/// How far before its start, in seconds, the poller's first request reaches.
pub const LOOKBACK_SECS: u64 = 600;

/// Receiver of the poller's events, supplied by the application.
pub trait EventHandler: Send + Sync + 'static {
    /// Called after a poll that found ban updates, with all of them.
    fn ban_updated(&self, _data: Vec<BanUpdate>) {
    }
}

/// What came back for one request of the poller.
#[derive(Debug)]
pub enum PollReply {
    /// No response arrived.
    Unreachable(reqwest::Error),
    /// A response arrived, and its body could not be decoded.
    Undecodable(reqwest::Error),
    /// A response arrived, and this is its decoded body.
    Decoded(RawBanUpdate),
}

/// Why a poll brought nothing.
#[derive(Debug)]
pub enum PollFailure {
    /// No response arrived.
    Request(reqwest::Error),
    /// The body of the response could not be decoded.
    Decode(reqwest::Error),
}

/// What is to be done after a poll, before sleeping.
#[derive(Debug)]
pub enum PollAction {
    /// Hand these updates to the event handler, in one call.
    Notify(Vec<BanUpdate>),
    /// Nothing: the poll succeeded and found no update.
    Nothing,
    /// Log the failure.
    Report(PollFailure),
}

/// Result of one step of the poller: the action to carry out, and the time
/// to sleep before the next request.
#[derive(Debug)]
pub struct PollStep {
    pub action: PollAction,
    pub sleep_secs: u64,
}

/// Summary of one poll that the poller carried out itself: whether the
/// event handler was called, the failure if there was one, and the time to
/// sleep before the next request.
#[derive(Debug)]
pub struct PollReport {
    pub notified: bool,
    pub failure: Option<PollFailure>,
    pub sleep_secs: u64,
}

/// The cursor after a poll that started with `cursor` and was answered by
/// `reply`: the server's timestamp if the reply was decoded, else `cursor`.
pub open spec fn cursor_after(cursor: u64, reply: PollReply) -> u64 {
    match reply {
        PollReply::Decoded(raw) => raw.timestamp,
        _ => cursor,
    }
}

/// The action that `reply` calls for.
pub open spec fn action_for(reply: PollReply) -> PollAction {
    match reply {
        PollReply::Unreachable(e) => PollAction::Report(PollFailure::Request(e)),
        PollReply::Undecodable(e) => PollAction::Report(PollFailure::Decode(e)),
        PollReply::Decoded(raw) => if raw.data@.len() >= 1 {
            PollAction::Notify(raw.data)
        } else {
            PollAction::Nothing
        },
    }
}

/// The cursor after the polls answered by `replies`, in this order, the
/// first of which started with `cursor`.
pub open spec fn cursor_after_all(cursor: u64, replies: Seq<PollReply>) -> u64
    decreases replies.len(),
{
    if replies.len() == 0 {
        cursor
    } else {
        cursor_after(cursor_after_all(cursor, replies.drop_last()), replies.last())
    }
}

/// The request that asks for the ban updates since `cursor`.
pub open spec fn updates_request(cursor: u64) -> RequestView {
    bare_request(Method::Get, "/bans/updates"@).query(unsigned_param("timestamp"@, cursor))
}

/// State of a running poller: the cursor, which is the timestamp since
/// which the next request asks for updates.
#[derive(Debug)]
pub struct Poller {
    last_check: u64,
}

impl Poller {
    /// The cursor.
    pub closed spec fn cursor(self) -> u64 {
        self.last_check
    }

    /// A poller started at the time `now`, in seconds since the epoch. Its
    /// first request reaches back `LOOKBACK_SECS`.
    pub fn start(now: u64) -> (poller: Poller)
        requires
            now >= LOOKBACK_SECS,
        ensures
            poller.cursor() == now - LOOKBACK_SECS,
    {
        Poller { last_check: now - LOOKBACK_SECS }
    }

    /// The cursor.
    pub fn last_check(&self) -> (cursor: u64)
        ensures
            cursor == self.cursor(),
    {
        self.last_check
    }

    /// The request of the next poll.
    pub fn request(&self) -> (r: PreparedRequest)
        ensures
            r@ == updates_request(self.cursor()),
    {
        PreparedRequest::get("/bans/updates").query(Param::unsigned("timestamp", self.last_check))
    }

    /// Takes the reply to the last request: moves the cursor to the
    /// server's timestamp if the reply was decoded, and says what is to be
    /// done before the next request.
    pub fn step(&mut self, reply: PollReply) -> (step: PollStep)
        ensures
            final(self).cursor() == cursor_after(old(self).cursor(), reply),
            step.action == action_for(reply),
            step.sleep_secs == POLL_INTERVAL_SECS,
            !(reply is Decoded) ==> final(self).cursor() == old(self).cursor(),
    {
        let action = match reply {
            PollReply::Unreachable(e) => PollAction::Report(PollFailure::Request(e)),
            PollReply::Undecodable(e) => PollAction::Report(PollFailure::Decode(e)),
            PollReply::Decoded(raw) => {
                let RawBanUpdate { data, timestamp } = raw;
                self.last_check = timestamp;
                if data.len() >= 1 {
                    PollAction::Notify(data)
                } else {
                    PollAction::Nothing
                }
            },
        };
        PollStep { action, sleep_secs: POLL_INTERVAL_SECS }
    }

    /// Takes the reply to the last request as `step` does, and hands the
    /// updates, if the reply brought any, to `handler` in one call.
    pub fn poll_once<H: EventHandler>(&mut self, handler: &H, reply: PollReply) -> (report:
        PollReport)
        ensures
            final(self).cursor() == cursor_after(old(self).cursor(), reply),
            report.notified == (action_for(reply) is Notify),
            report.failure == (match action_for(reply) {
                PollAction::Report(failure) => Some(failure),
                _ => None,
            }),
            report.sleep_secs == POLL_INTERVAL_SECS,
    {
        let PollStep { action, sleep_secs } = self.step(reply);
        match action {
            PollAction::Notify(data) => {
                handler.ban_updated(data);
                PollReport { notified: true, failure: None, sleep_secs }
            },
            PollAction::Nothing => PollReport { notified: false, failure: None, sleep_secs },
            PollAction::Report(failure) => PollReport {
                notified: false,
                failure: Some(failure),
                sleep_secs,
            },
        }
    }
}

/// The cursor after a run of polls, extended by one more poll.
pub proof fn lemma_cursor_after_one_more(cursor: u64, replies: Seq<PollReply>, reply: PollReply)
    ensures
        cursor_after_all(cursor, replies.push(reply)) == cursor_after(
            cursor_after_all(cursor, replies),
            reply,
        ),
{
    assert(replies.push(reply).drop_last() =~= replies);
}

/// After a poll whose reply was decoded, the cursor is the timestamp that
/// this reply carries, whatever came before.
pub proof fn lemma_cursor_is_server_timestamp(cursor: u64, replies: Seq<PollReply>, k: int)
    requires
        0 <= k < replies.len(),
        replies[k] is Decoded,
    ensures
        cursor_after_all(cursor, replies.take(k + 1)) == replies[k]->Decoded_0.timestamp,
{
    assert(replies.take(k + 1).last() == replies[k]);
}

/// Between two successive polls whose replies were decoded, the cursor does
/// not go back, as long as the server's timestamp does not: the cursor
/// after the later poll is the later timestamp.
pub proof fn lemma_cursor_monotonic(cursor: u64, replies: Seq<PollReply>, k: int)
    requires
        0 <= k,
        k + 1 < replies.len(),
        replies[k] is Decoded,
        replies[k + 1] is Decoded,
        replies[k]->Decoded_0.timestamp <= replies[k + 1]->Decoded_0.timestamp,
    ensures
        cursor_after_all(cursor, replies.take(k + 2)) >= cursor_after_all(
            cursor,
            replies.take(k + 1),
        ),
        cursor_after_all(cursor, replies.take(k + 2)) == replies[k + 1]->Decoded_0.timestamp,
{
    lemma_cursor_is_server_timestamp(cursor, replies, k);
    lemma_cursor_is_server_timestamp(cursor, replies, k + 1);
}

/// A poll that fails, because no response arrived or because the body
/// could not be decoded, leaves the cursor where it was before that poll.
pub proof fn lemma_failed_poll_keeps_cursor(cursor: u64, replies: Seq<PollReply>, k: int)
    requires
        0 <= k < replies.len(),
        !(replies[k] is Decoded),
    ensures
        cursor_after_all(cursor, replies.take(k + 1)) == cursor_after_all(cursor, replies.take(k)),
{
    assert(replies.take(k + 1).last() == replies[k]);
    assert(replies.take(k + 1).drop_last() =~= replies.take(k));
}

} // verus!
