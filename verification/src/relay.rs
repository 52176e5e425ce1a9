//! The deep-link relay: when the platform activates the application's URI
//! scheme against the already-running instance, the activation carries one
//! or more URIs, and each must be forwarded individually, in the order
//! received, to the UI layer on a fixed notification channel.
//!
//! Forwarding is fire-and-forget: a delivery failure is counted for
//! diagnostics but never stops the rest of the batch. The host performs the
//! actual emission; this module decides, step by step, which notification is
//! owed next and that a recorded outcome — delivered or failed — always
//! moves the batch past exactly one URI.

use vstd::prelude::*;

verus! {

/// The name of the notification channel on which deep-link URIs are
/// forwarded to the UI layer.
pub open spec fn deep_link_channel() -> Seq<char> {
    "spectrus://deep-link"@
}

/// The channel name as an executable string.
pub fn deep_link_channel_name() -> (r: &'static str)
    ensures
        r@ == deep_link_channel(),
{
    "spectrus://deep-link"
}

/// One notification owed to the UI layer: a channel name and a single URI
/// payload.
pub struct Notification {
    pub channel: String,
    pub payload: String,
}

/// One activation's worth of URIs, forwarded in order. `sent` counts the
/// URIs the batch has moved past; `failures` counts the recorded delivery
/// failures among them.
pub struct RelayBatch {
    uris: Vec<String>,
    sent: usize,
    failures: usize,
}

/// The batch position after the host reports one delivery outcome per
/// remaining URI, starting from `sent`: each reported outcome — delivered or
/// not — moves the batch past exactly one URI.
pub open spec fn position_after(sent: int, outcomes: Seq<bool>) -> int
    decreases outcomes.len(),
{
    if outcomes.len() == 0 {
        sent
    } else {
        position_after(sent + 1, outcomes.drop_first())
    }
}

impl RelayBatch {
    /// The URIs of the activation, in the order received.
    pub closed spec fn uris_view(self) -> Seq<Seq<char>> {
        self.uris@.map_values(|u: String| u@)
    }

    /// How many URIs the batch has moved past.
    pub closed spec fn position(self) -> int {
        self.sent as int
    }

    /// How many recorded outcomes were delivery failures.
    pub closed spec fn failure_total(self) -> int {
        self.failures as int
    }

    /// The batch never moves past more URIs than it holds, and failures are
    /// only counted for URIs it moved past.
    pub closed spec fn wf(self) -> bool {
        self.sent <= self.uris@.len() && self.failures <= self.sent
    }

    /// A fresh batch for one activation: nothing forwarded yet.
    pub fn new(uris: Vec<String>) -> (b: Self)
        ensures
            b.wf(),
            b.uris_view() == uris@.map_values(|u: String| u@),
            b.position() == 0,
            b.failure_total() == 0,
    {
        RelayBatch { uris, sent: 0, failures: 0 }
    }

    /// The notification owed next: the URI at the current position, on the
    /// fixed deep-link channel — or nothing, once the whole batch has been
    /// forwarded. Does not advance the batch.
    pub fn next_notification(&self) -> (r: Option<Notification>)
        requires
            self.wf(),
        ensures
            self.position() < self.uris_view().len() ==> (r matches Option::Some(n)
                && n.channel@ == deep_link_channel() && n.payload@ == self.uris_view()[
                self.position()
            ]),
            self.position() >= self.uris_view().len() ==> r is None,
    {
        if self.sent < self.uris.len() {
            let payload = self.uris[self.sent].clone();
            let channel = String::from_str(deep_link_channel_name());
            Some(Notification { channel, payload })
        } else {
            None
        }
    }

    /// Record the outcome of emitting the current notification and move past
    /// it. The batch advances the same way whether or not delivery
    /// succeeded: a failure is counted, never fatal, and the URIs still owed
    /// are unchanged.
    pub fn advance(&mut self, delivered: bool)
        requires
            old(self).wf(),
            old(self).position() < old(self).uris_view().len(),
        ensures
            final(self).wf(),
            final(self).uris_view() == old(self).uris_view(),
            final(self).position() == old(self).position() + 1,
            final(self).failure_total() == old(self).failure_total() + (
            if delivered {
                0int
            } else {
                1int
            }),
    {
        let held: usize = self.uris.len();
        assert(self.sent < held);
        self.sent = self.sent + 1;
        if !delivered {
            self.failures = self.failures + 1;
        }
    }

    /// How many forwards failed so far (for the diagnostic stream).
    pub fn failures(&self) -> (n: usize)
        ensures
            n == self.failure_total(),
    {
        self.failures
    }
}

/// Stepping stone for the law below: processing outcomes one at a time adds
/// exactly their number to the position.
proof fn lemma_position_after_adds(sent: int, outcomes: Seq<bool>)
    ensures
        position_after(sent, outcomes) == sent + outcomes.len(),
    decreases outcomes.len(),
{
    if outcomes.len() > 0 {
        lemma_position_after_adds(sent + 1, outcomes.drop_first());
    }
}

/// Law: an activation carrying any list of URIs, with one reported delivery
/// outcome per URI, ends with the batch past every URI — failures among the
/// outcomes never cut the batch short. Together with the contract of
/// `next_notification`, the notification at each position carries exactly
/// the URI received at that position, on the fixed channel, so the
/// forwarded notifications are one per URI, in the order received.
pub proof fn lemma_every_uri_forwarded(uris: Seq<Seq<char>>, outcomes: Seq<bool>)
    requires
        outcomes.len() == uris.len(),
    ensures
        position_after(0, outcomes) == uris.len(),
{
    lemma_position_after_adds(0, outcomes);
}

} // verus!
