//! The decisions of the receive loop. The loop itself, which reads frames
//! and talks to the presentation host, runs outside the library: it hands
//! each inbound event here and performs the step that comes back.

use vstd::prelude::*;
use crate::layout::{compute_height, notification_height};
use crate::protocol::{kind_of, MessageKind, Notification, Response};
use crate::query::host_query;

verus! {

/// What the transport delivered next.
pub enum Inbound {
    /// A close frame from the peer.
    Closed,
    /// The transport failed while reading.
    Failed,
    /// A frame that holds no text.
    NonText,
    /// A text frame that is not a valid envelope.
    Undecodable,
    /// A decoded envelope.
    Received(Response),
}

/// What the loop does next.
pub enum Step {
    /// End the session normally.
    Finish,
    /// End the session with a transport error.
    Abort,
    /// Drop the frame and read the next one.
    Skip,
    /// Report that a frame could not be decoded, then read the next one.
    ReportMalformed,
    /// Decode this payload as a notification and hand it back.
    DecodeNotification(serde_json::Value),
}

/// A surface to create, and when to close it.
pub struct Presentation {
    pub height: u128,
    pub query: String,
    pub close_after_secs: u64,
}

/// One session of the receive loop.
pub struct Session {
    pub base_height: u32,
    pub open: bool,
}

/// The step taken on an inbound event.
pub open spec fn step_for(inbound: Inbound) -> Step {
    match inbound {
        Inbound::Closed => Step::Finish,
        Inbound::Failed => Step::Abort,
        Inbound::NonText => Step::Skip,
        Inbound::Undecodable => Step::ReportMalformed,
        Inbound::Received(r) => match kind_of(r.kind@) {
            MessageKind::Notification => Step::DecodeNotification(r.data),
            _ => Step::Skip,
        },
    }
}

/// Whether the session stays open after an inbound event.
pub open spec fn stays_open(inbound: Inbound) -> bool {
    !(inbound is Closed || inbound is Failed)
}

/// Whether `p` presents notification `n` above `base`.
pub open spec fn presents(p: Presentation, base: nat, n: Notification) -> bool {
    &&& p.height == notification_height(base, n)
    &&& p.query@ == host_query(n)
    &&& p.close_after_secs == crate::protocol::timeout_of(n)
}

/// A decoded envelope whose `type` tag this client does not know is dropped:
/// nothing is presented and the session stays open.
pub proof fn lemma_unknown_kind_ignored(r: Response)
    requires
        kind_of(r.kind@) is Other,
    ensures
        step_for(Inbound::Received(r)) == Step::Skip,
        stays_open(Inbound::Received(r)),
{
}

/// A text frame that is no valid envelope is reported and dropped, and the
/// session stays open for the frames after it.
pub proof fn lemma_malformed_frame_reported(s: Session)
    requires
        s.open,
    ensures
        step_for(Inbound::Undecodable) == Step::ReportMalformed,
        stays_open(Inbound::Undecodable),
{
}

/// Two notifications, one after the other, leave the session open after
/// each, and each presentation closes after its own timeout, whatever the
/// other's.
pub proof fn lemma_presentations_independent(
    base: nat,
    r1: Response,
    r2: Response,
    n1: Notification,
    n2: Notification,
    p1: Presentation,
    p2: Presentation,
)
    requires
        kind_of(r1.kind@) is Notification,
        kind_of(r2.kind@) is Notification,
        presents(p1, base, n1),
        presents(p2, base, n2),
    ensures
        stays_open(Inbound::Received(r1)),
        stays_open(Inbound::Received(r2)),
        step_for(Inbound::Received(r1)) == Step::DecodeNotification(r1.data),
        step_for(Inbound::Received(r2)) == Step::DecodeNotification(r2.data),
        p1.close_after_secs == crate::protocol::timeout_of(n1),
        p2.close_after_secs == crate::protocol::timeout_of(n2),
{
}

/// A notification without a timeout is closed after five seconds.
pub proof fn lemma_default_timeout(base: nat, n: Notification, p: Presentation)
    requires
        n.timeout is None,
        presents(p, base, n),
    ensures
        p.close_after_secs == 5,
{
}

impl Session {
    /// A session that is open, sizing surfaces above `base_height`.
    pub fn new(base_height: u32) -> (s: Session)
        ensures
            s.base_height == base_height,
            s.open,
    {
        Session { base_height, open: true }
    }

    /// Decides what to do with an inbound event.
    pub fn on_inbound(&mut self, inbound: Inbound) -> (s: Step)
        requires
            old(self).open,
        ensures
            s == step_for(inbound),
            final(self).open == stays_open(inbound),
            final(self).base_height == old(self).base_height,
    {
        match inbound {
            Inbound::Closed => {
                self.open = false;
                Step::Finish
            },
            Inbound::Failed => {
                self.open = false;
                Step::Abort
            },
            Inbound::NonText => Step::Skip,
            Inbound::Undecodable => Step::ReportMalformed,
            Inbound::Received(r) => match r.message_kind() {
                MessageKind::Notification => Step::DecodeNotification(r.data),
                _ => Step::Skip,
            },
        }
    }

    /// The presentation of a notification: its height, the query that hands
    /// it to the host, and the seconds after which the surface is closed.
    pub fn present(&self, n: &Notification) -> (p: Presentation)
        ensures
            presents(p, self.base_height as nat, *n),
    {
        Presentation {
            height: compute_height(n, self.base_height),
            query: n.to_host_query(),
            close_after_secs: n.timeout_secs(),
        }
    }

    /// What to present for a notification payload, if it could be decoded.
    pub fn on_notification(&self, decoded: Option<Notification>) -> (p: Option<Presentation>)
        ensures
            decoded is None <==> p is None,
            decoded matches Some(n) ==> presents(p->Some_0, self.base_height as nat, n),
    {
        match decoded {
            Some(n) => Some(self.present(&n)),
            None => None,
        }
    }
}

} // verus!
