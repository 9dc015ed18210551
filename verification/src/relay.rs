//! The relay module itself: construction against the shared router slot, and
//! the run-loop decisions — one outbound message per upstream event,
//! batch order preserved, and termination on the first refused publish.

use vstd::prelude::*;
use crate::events::{HistoryEvent, TopicMessage, WalletEvent};
use crate::events::{spec_tx_message, spec_wallet_message, tx_message, wallet_message};
use crate::http_api::RouterCtx;
use crate::router::{app_routes, spec_app_routes, RouterSlot};

verus! {

/// The event relay: a stateless, order-preserving transform over the live
/// upstream streams. It keeps no event history; its only state is whether
/// the run loop may still consume events.
#[derive(Debug)]
pub struct AppModule {
    running: bool,
}

impl AppModule {
    /// Whether the run loop may still consume upstream events. False once a
    /// publish has been refused: the loop has terminated and consumes
    /// nothing further.
    pub closed spec fn is_running(self) -> bool {
        self.running
    }

    /// Construction: build the handler context from the wallet contract
    /// name, contribute the module's two routes to the shared slot — best
    /// effort: a slot whose router the server has already taken is left
    /// alone, and construction still succeeds — and return a module ready
    /// to run.
    pub fn build(wallet_cn: String, slot: &mut RouterSlot) -> (r: (AppModule, RouterCtx))
        ensures
            r.0.is_running(),
            r.1.wallet_cn@ == wallet_cn@,
            old(slot).routes() is Some ==> final(slot).routes() == Some(
                old(slot).routes().unwrap() + spec_app_routes(),
            ),
            old(slot).routes() is None ==> final(slot).routes() is None,
    {
        let ctx = RouterCtx { wallet_cn };
        let api = app_routes();
        let _merged = slot.merge(api);
        (AppModule { running: true }, ctx)
    }

    /// Whether the run loop is still consuming events.
    pub fn running(&self) -> (b: bool)
        ensures
            b == self.is_running(),
    {
        self.running
    }

    /// The outbound channel refused a publish: the run loop terminates, and
    /// no further upstream event is consumed.
    pub fn record_publish_failure(&mut self)
        ensures
            !final(self).is_running(),
    {
        self.running = false;
    }

    /// One upstream history batch: exactly one outbound message per element,
    /// in the batch's own order, each addressed to its element's account.
    pub fn on_history_batch(&self, batch: Vec<HistoryEvent>) -> (msgs: Vec<TopicMessage>)
        requires
            self.is_running(),
        ensures
            msgs@.len() == batch@.len(),
            forall|i: int|
                0 <= i < batch@.len() ==> (#[trigger] msgs@[i])@ == spec_tx_message(batch@[i]@),
    {
        let mut msgs: Vec<TopicMessage> = Vec::new();
        let n = batch.len();
        for i in 0..n
            invariant
                n == batch@.len(),
                msgs@.len() == i,
                forall|j: int|
                    0 <= j < i ==> (#[trigger] msgs@[j])@ == spec_tx_message(batch@[j]@),
        {
            msgs.push(tx_message(batch[i].clone()));
        }
        msgs
    }

    /// One upstream wallet event: exactly one outbound message, addressed to
    /// the event's account.
    pub fn on_wallet_event(&self, e: WalletEvent) -> (m: TopicMessage)
        requires
            self.is_running(),
        ensures
            m@ == spec_wallet_message(e@),
    {
        wallet_message(e)
    }

    /// One full run-loop turn on a history batch, with `accepted[i]` the
    /// outbound channel's verdict on the i-th publish attempt: exactly the
    /// messages before the first refusal are published, in batch order; a
    /// refusal terminates the loop, and the rest of the batch is never
    /// published.
    pub fn turn_history_batch(&mut self, batch: Vec<HistoryEvent>, accepted: &Vec<bool>) -> (sent:
        Vec<TopicMessage>)
        requires
            old(self).is_running(),
            accepted@.len() == batch@.len(),
        ensures
            sent@.len() <= batch@.len(),
            forall|i: int|
                0 <= i < sent@.len() ==> (#[trigger] sent@[i])@ == spec_tx_message(batch@[i]@),
            forall|i: int| 0 <= i < sent@.len() ==> accepted@[i],
            final(self).is_running() ==> sent@.len() == batch@.len(),
            !final(self).is_running() ==> sent@.len() < batch@.len() && !accepted@[
                sent@.len() as int
            ],
            (final(self).is_running() <==> (forall|i: int|
                0 <= i < accepted@.len() ==> accepted@[i])),
    {
        let mut sent: Vec<TopicMessage> = Vec::new();
        let n = batch.len();
        let mut i: usize = 0;
        let mut ok = true;
        while ok && i < n
            invariant
                n == batch@.len(),
                accepted@.len() == n,
                i <= n,
                sent@.len() == i,
                forall|j: int|
                    0 <= j < i ==> (#[trigger] sent@[j])@ == spec_tx_message(batch@[j]@),
                forall|j: int| 0 <= j < i ==> accepted@[j],
                !ok ==> i < n && !accepted@[i as int],
            decreases n - i + (if ok { 1int } else { 0int }),
        {
            if accepted[i] {
                sent.push(tx_message(batch[i].clone()));
                i = i + 1;
            } else {
                ok = false;
            }
        }
        if !ok {
            self.record_publish_failure();
        }
        sent
    }

    /// One full run-loop turn on a wallet event, with `accepted` the
    /// outbound channel's verdict on the single publish attempt: the derived
    /// message is published exactly when the channel accepts it; a refusal
    /// terminates the loop.
    pub fn turn_wallet_event(&mut self, e: WalletEvent, accepted: bool) -> (sent: Option<
        TopicMessage,
    >)
        requires
            old(self).is_running(),
        ensures
            accepted ==> (sent matches Some(m) && m@ == spec_wallet_message(e@)),
            accepted ==> final(self).is_running(),
            !accepted ==> sent is None && !final(self).is_running(),
    {
        let m = self.on_wallet_event(e);
        if accepted {
            Some(m)
        } else {
            self.record_publish_failure();
            None
        }
    }
}

} // verus!
