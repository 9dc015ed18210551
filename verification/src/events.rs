//! The upstream event records and the outbound topic message derived from
//! each of them.

use vstd::prelude::*;

verus! {

/// One transaction-related occurrence for an account, produced upstream in
/// ordered batches. The detail is opaque to the relay and passed through
/// unmodified.
#[derive(Debug, PartialEq, Eq)]
pub struct HistoryEvent {
    pub account: String,
    pub detail: String,
}

/// The mathematical value of a `HistoryEvent`.
pub struct HistoryEventV {
    pub account: Seq<char>,
    pub detail: Seq<char>,
}

impl View for HistoryEvent {
    type V = HistoryEventV;

    open spec fn view(&self) -> HistoryEventV {
        HistoryEventV { account: self.account@, detail: self.detail@ }
    }
}

impl Clone for HistoryEvent {
    /// A field-for-field copy.
    fn clone(&self) -> (r: Self)
        ensures
            r@ == self@,
    {
        HistoryEvent { account: self.account.clone(), detail: self.detail.clone() }
    }
}

/// One wallet-contract state change for an account, produced upstream one at
/// a time.
#[derive(Debug, Clone, PartialEq, Eq)]
pub struct WalletEvent {
    pub account: String,
    pub program_outputs: String,
}

/// The mathematical value of a `WalletEvent`.
pub struct WalletEventV {
    pub account: Seq<char>,
    pub program_outputs: Seq<char>,
}

impl View for WalletEvent {
    type V = WalletEventV;

    open spec fn view(&self) -> WalletEventV {
        WalletEventV { account: self.account@, program_outputs: self.program_outputs@ }
    }
}

/// Messages accepted from websocket clients: none is defined yet, so this
/// marker stands for the empty set of inbound commands. Reserved extension
/// point; no value of it carries any information.
#[derive(Debug, Clone, PartialEq, Eq)]
pub struct AppWsInMessage {}

/// Messages sent to websocket clients: the tagged union carried as the
/// payload of every outbound topic message.
#[derive(Debug, Clone, PartialEq, Eq)]
pub enum AppOutWsEvent {
    /// The full history record of one transaction-related occurrence.
    TxEvent(HistoryEvent),
    /// One wallet-contract state change, reduced to its account and outcome.
    WalletEvent { account: String, event: String },
}

/// The mathematical value of an `AppOutWsEvent`.
pub enum AppOutWsEventV {
    TxEvent(HistoryEventV),
    WalletEvent { account: Seq<char>, event: Seq<char> },
}

impl View for AppOutWsEvent {
    type V = AppOutWsEventV;

    open spec fn view(&self) -> AppOutWsEventV {
        match self {
            AppOutWsEvent::TxEvent(e) => AppOutWsEventV::TxEvent(e@),
            AppOutWsEvent::WalletEvent { account, event } => AppOutWsEventV::WalletEvent {
                account: account@,
                event: event@,
            },
        }
    }
}

/// A payload addressed to one account's topic; consumers of the outbound
/// channel fan out by topic.
#[derive(Debug, Clone, PartialEq, Eq)]
pub struct TopicMessage {
    pub topic: String,
    pub payload: AppOutWsEvent,
}

/// The mathematical value of a `TopicMessage`.
pub struct TopicMessageV {
    pub topic: Seq<char>,
    pub payload: AppOutWsEventV,
}

impl View for TopicMessage {
    type V = TopicMessageV;

    open spec fn view(&self) -> TopicMessageV {
        TopicMessageV { topic: self.topic@, payload: self.payload@ }
    }
}

/// The outbound message derived from one history event: addressed to the
/// event's own account, no renaming or truncation, carrying the full record
/// under the transaction tag.
pub open spec fn spec_tx_message(e: HistoryEventV) -> TopicMessageV {
    TopicMessageV { topic: e.account, payload: AppOutWsEventV::TxEvent(e) }
}

/// The outbound message derived from one wallet event: addressed to the
/// event's own account, carrying the account and the program outputs.
pub open spec fn spec_wallet_message(e: WalletEventV) -> TopicMessageV {
    TopicMessageV {
        topic: e.account,
        payload: AppOutWsEventV::WalletEvent { account: e.account, event: e.program_outputs },
    }
}

/// Re-address one history event to its account's topic.
pub fn tx_message(e: HistoryEvent) -> (m: TopicMessage)
    ensures
        m@ == spec_tx_message(e@),
{
    let topic = e.account.clone();
    TopicMessage { topic, payload: AppOutWsEvent::TxEvent(e) }
}

/// Re-address one wallet event to its account's topic.
pub fn wallet_message(e: WalletEvent) -> (m: TopicMessage)
    ensures
        m@ == spec_wallet_message(e@),
{
    let topic = e.account.clone();
    TopicMessage {
        topic,
        payload: AppOutWsEvent::WalletEvent { account: e.account, event: e.program_outputs },
    }
}

} // verus!
