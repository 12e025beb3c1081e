//! The decisions of a send: fetch the unspent outputs, fetch the fee rates,
//! build, sign, broadcast, stopping at the first failure. The caller performs
//! each action and hands back what came of it.
use crate::explorer::broadcast_outcome;
use crate::model::{FeeRates, Tx, Utxo, WalletError};
use crate::primitives::{consensus_of, hex_of};
use crate::wallet::{build_outcome, encode_tx_hex, is_signed_from, signable, Wallet};
use vstd::prelude::*;

verus! {

/// Where a send stands.
#[derive(Debug)]
pub enum SendState {
    Idle,
    AwaitingUtxos,
    AwaitingFeeRates { utxos: Vec<Utxo> },
    AwaitingBroadcast,
    Finished,
}

/// The explorer's answer to a submitted transaction.
#[derive(Debug)]
pub struct BroadcastReply {
    /// Whether the HTTP status was a success.
    pub success: bool,
    pub body: String,
}

/// What came of the last action.
#[derive(Debug)]
pub enum SendEvent {
    Start,
    UtxosFetched(Result<Vec<Utxo>, WalletError>),
    FeeRatesFetched(Result<FeeRates, WalletError>),
    BroadcastReplied(Result<BroadcastReply, WalletError>),
}

/// What the caller is to do next.
#[derive(Debug)]
pub enum SendAction {
    FetchUtxos,
    FetchFeeRates,
    /// Submit this hex-encoded raw transaction.
    Broadcast(String),
    /// The send is over, with the transaction id or the first error.
    Done(Result<String, WalletError>),
}

/// What may follow fee rates `rates` for a send of `amount` to `to` from
/// `utxos`: the broadcast of the signed payment, or the first error of
/// building or signing it.
pub open spec fn after_fee_rates(
    w: Wallet,
    to: Seq<char>,
    amount: u64,
    utxos: Seq<Utxo>,
    rates: FeeRates,
    next: SendState,
    action: SendAction,
) -> bool {
    match action {
        SendAction::Broadcast(h) => {
            &&& next is AwaitingBroadcast
            &&& exists|t: Tx, s: Tx|
                #[trigger] build_outcome(w.network_spec(), w.own_script(), to, amount, utxos, rates, Ok(t))
                    && #[trigger] is_signed_from(s@, t@, utxos, w.own_script(), w.secret_key(), w.public_key_spec())
                    && h@ == hex_of(consensus_of(s@))
        },
        SendAction::Done(Err(e)) => {
            &&& next is Finished
            &&& {
                ||| build_outcome(w.network_spec(), w.own_script(), to, amount, utxos, rates, Err(e))
                ||| (e == WalletError::InternalSigning && exists|t: Tx|
                    #[trigger] build_outcome(w.network_spec(), w.own_script(), to, amount, utxos, rates, Ok(t))
                        && !signable(t@, utxos, w.own_script(), w.secret_key()))
            }
        },
        _ => false,
    }
}

/// What one step of a send gives, by state and event.
pub open spec fn step_outcome(
    w: Wallet,
    to: Seq<char>,
    amount: u64,
    state: SendState,
    event: SendEvent,
    next: SendState,
    action: SendAction,
) -> bool {
    match (state, event) {
        (SendState::Idle, SendEvent::Start) => next is AwaitingUtxos && action is FetchUtxos,
        (SendState::AwaitingUtxos, SendEvent::UtxosFetched(Ok(u))) => {
            &&& action is FetchFeeRates
            &&& next matches SendState::AwaitingFeeRates { utxos }
            &&& next->utxos@ == u@
        },
        (SendState::AwaitingUtxos, SendEvent::UtxosFetched(Err(e))) => {
            next is Finished && action == SendAction::Done(Err(e))
        },
        (SendState::AwaitingFeeRates { utxos }, SendEvent::FeeRatesFetched(Ok(rates))) => {
            after_fee_rates(w, to, amount, utxos@, rates, next, action)
        },
        (SendState::AwaitingFeeRates { .. }, SendEvent::FeeRatesFetched(Err(e))) => {
            next is Finished && action == SendAction::Done(Err(e))
        },
        (SendState::AwaitingBroadcast, SendEvent::BroadcastReplied(Ok(reply))) => {
            &&& next is Finished
            &&& if reply.success {
                action matches SendAction::Done(Ok(t)) && t@ == reply.body@
            } else {
                action matches SendAction::Done(Err(WalletError::Broadcast(m))) && m@ == reply.body@
            }
        },
        (SendState::AwaitingBroadcast, SendEvent::BroadcastReplied(Err(e))) => {
            next is Finished && action == SendAction::Done(Err(e))
        },
        _ => next is Finished && action == SendAction::Done(Err(WalletError::OutOfOrder)),
    }
}

impl Wallet {
    /// One step of a send of `amount` satoshis to `to`: from the state and
    /// what came of the last action, the next state and action. An event that
    /// the state does not wait for ends the send with `OutOfOrder`.
    pub fn send_step(&self, to: &str, amount: u64, state: SendState, event: SendEvent) -> (r: (SendState, SendAction))
        requires
            self.wf(),
        ensures
            step_outcome(*self, to@, amount, state, event, r.0, r.1),
    {
        match (state, event) {
            (SendState::Idle, SendEvent::Start) => (SendState::AwaitingUtxos, SendAction::FetchUtxos),
            (SendState::AwaitingUtxos, SendEvent::UtxosFetched(Ok(utxos))) => (
                SendState::AwaitingFeeRates { utxos },
                SendAction::FetchFeeRates,
            ),
            (SendState::AwaitingUtxos, SendEvent::UtxosFetched(Err(e))) => (SendState::Finished, SendAction::Done(Err(e))),
            (SendState::AwaitingFeeRates { utxos }, SendEvent::FeeRatesFetched(Ok(rates))) => {
                let tx = match self.build_tx(to, amount, &utxos, rates) {
                    Ok(t) => t,
                    Err(e) => return (SendState::Finished, SendAction::Done(Err(e))),
                };
                match self.sign_tx(tx, &utxos) {
                    Ok(signed) => {
                        let hex = encode_tx_hex(&signed);
                        (SendState::AwaitingBroadcast, SendAction::Broadcast(hex))
                    },
                    Err(e) => (SendState::Finished, SendAction::Done(Err(e))),
                }
            },
            (SendState::AwaitingFeeRates { .. }, SendEvent::FeeRatesFetched(Err(e))) => (
                SendState::Finished,
                SendAction::Done(Err(e)),
            ),
            (SendState::AwaitingBroadcast, SendEvent::BroadcastReplied(Ok(reply))) => (
                SendState::Finished,
                SendAction::Done(broadcast_outcome(reply.success, reply.body)),
            ),
            (SendState::AwaitingBroadcast, SendEvent::BroadcastReplied(Err(e))) => (
                SendState::Finished,
                SendAction::Done(Err(e)),
            ),
            _ => (SendState::Finished, SendAction::Done(Err(WalletError::OutOfOrder))),
        }
    }
}

} // verus!
