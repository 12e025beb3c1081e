use vstd::prelude::*;

verus! {

/// The chain a wallet works on.
#[derive(Clone, Copy, Debug, PartialEq, Eq, Structural)]
pub enum Network {
    Bitcoin,
    Testnet,
    Testnet4,
    Signet,
    Regtest,
}

/// An unspent output of the wallet's address, as the explorer reports it.
#[derive(Clone, Debug)]
pub struct Utxo {
    /// The funding transaction's id, in hex as the explorer writes it.
    pub txid: String,
    pub vout: u32,
    /// The output's value in satoshis.
    pub value: u64,
    pub confirmed: bool,
    pub block_height: Option<u32>,
}

/// Fee rates in satoshis per byte, by tier.
#[derive(Clone, Copy, Debug, PartialEq, Eq, Structural)]
pub struct FeeRates {
    pub low: u32,
    pub medium: u32,
    pub high: u32,
}

/// An input of a transaction: the outpoint it spends, its sequence number and
/// its witness stack (empty until signed).
#[derive(Clone, Debug, PartialEq, Eq)]
pub struct TxInput {
    /// The spent transaction's id, in the byte order of the consensus encoding.
    pub txid: [u8; 32],
    pub vout: u32,
    pub sequence: u32,
    pub witness: Vec<Vec<u8>>,
}

/// An output of a transaction.
#[derive(Clone, Debug, PartialEq, Eq)]
pub struct TxOutput {
    pub value: u64,
    pub script_pubkey: Vec<u8>,
}

/// A transaction as this wallet builds it.
#[derive(Clone, Debug, PartialEq, Eq)]
pub struct Tx {
    pub version: i32,
    pub lock_time: u32,
    pub inputs: Vec<TxInput>,
    pub outputs: Vec<TxOutput>,
}

/// What can go wrong in the wallet's operations.
#[derive(Clone, Debug, PartialEq, Eq)]
pub enum WalletError {
    /// The transport failed; the text says how.
    Network(String),
    /// A response of the explorer was malformed.
    Decode,
    /// The network has no known explorer.
    UnsupportedNetwork,
    /// The recipient address does not decode, or belongs to another network.
    InvalidAddress,
    /// The inputs do not cover the amount and the fee.
    InsufficientFunds,
    /// The explorer rejected the transaction; the text is its reason.
    Broadcast(String),
    /// The key material could not produce a signature.
    InternalSigning,
    /// The mnemonic phrase does not decode, or derives no key.
    InvalidMnemonic,
    /// A send was handed an event that it was not waiting for.
    OutOfOrder,
}

/// An input as a mathematical value.
pub struct TxInputView {
    pub txid: Seq<u8>,
    pub vout: u32,
    pub sequence: u32,
    pub witness: Seq<Seq<u8>>,
}

/// An output as a mathematical value.
pub struct TxOutputView {
    pub value: u64,
    pub script_pubkey: Seq<u8>,
}

/// A transaction as a mathematical value.
pub struct TxView {
    pub version: i32,
    pub lock_time: u32,
    pub inputs: Seq<TxInputView>,
    pub outputs: Seq<TxOutputView>,
}

impl View for TxInput {
    type V = TxInputView;

    open spec fn view(&self) -> TxInputView {
        TxInputView {
            txid: self.txid@,
            vout: self.vout,
            sequence: self.sequence,
            witness: self.witness@.map_values(|w: Vec<u8>| w@),
        }
    }
}

impl View for TxOutput {
    type V = TxOutputView;

    open spec fn view(&self) -> TxOutputView {
        TxOutputView { value: self.value, script_pubkey: self.script_pubkey@ }
    }
}

impl View for Tx {
    type V = TxView;

    open spec fn view(&self) -> TxView {
        TxView {
            version: self.version,
            lock_time: self.lock_time,
            inputs: self.inputs@.map_values(|i: TxInput| i@),
            outputs: self.outputs@.map_values(|o: TxOutput| o@),
        }
    }
}

/// The sum of the values of a sequence of unspent outputs.
pub open spec fn sum_values(s: Seq<Utxo>) -> int
    decreases s.len(),
{
    if s.len() == 0 {
        0
    } else {
        sum_values(s.drop_last()) + s.last().value
    }
}

} // verus!
