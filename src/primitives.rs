//! The calls into the bitcoin, bip39, hex and rand crates, each behind one
//! function whose contract states what the called code does.
use crate::model::{Network, Tx, TxView};
use bitcoin::absolute::LockTime;
use bitcoin::transaction::Version;
use bitcoin::{Amount, OutPoint, ScriptBuf, Sequence, TxIn, TxOut, Witness};
use bitcoin::secp256k1::{Message, Secp256k1, SecretKey};
use rand::RngCore;
use std::str::FromStr;
use vstd::prelude::*;

verus! {

/// The value of a hex digit, of either case.
pub open spec fn hex_value(c: char) -> Option<int> {
    let n = c as u32 as int;
    if 48 <= n <= 57 {
        Some(n - 48)
    } else if 97 <= n <= 102 {
        Some(n - 87)
    } else if 65 <= n <= 70 {
        Some(n - 55)
    } else {
        None
    }
}

/// The 32 bytes of a transaction id written as 64 hex digits. The text
/// writes the bytes in reverse order, as transaction ids are displayed.
pub open spec fn txid_of(s: Seq<char>) -> Option<Seq<u8>> {
    if s.len() == 64 && forall|i: int| 0 <= i < 64 ==> (#[trigger] hex_value(s[i])) is Some {
        Some(
            Seq::new(
                32,
                |k: int| (16 * hex_value(s[62 - 2 * k])->Some_0 + hex_value(s[63 - 2 * k])->Some_0) as u8,
            ),
        )
    } else {
        None
    }
}

/// The script that pays an address, if the text is an address of the network.
pub uninterp spec fn recipient_script_of(s: Seq<char>, net: Network) -> Option<Seq<u8>>;

/// The secret key that a hex text encodes, if it is a valid one.
pub uninterp spec fn secret_of_hex(s: Seq<char>) -> Option<Seq<u8>>;

/// The compressed public key of a secret key, if the bytes are a valid secret key.
pub uninterp spec fn pubkey_of(secret: Seq<u8>) -> Option<Seq<u8>>;

/// The P2WPKH script of a compressed public key, if the bytes are a valid key.
pub uninterp spec fn p2wpkh_script_of(pubkey: Seq<u8>) -> Option<Seq<u8>>;

/// The P2WPKH address of a compressed public key on a network.
pub uninterp spec fn p2wpkh_address_of(pubkey: Seq<u8>, net: Network) -> Option<Seq<char>>;

/// The DER encoding of the deterministic ECDSA signature of a digest.
pub uninterp spec fn der_signature_of(digest: Seq<u8>, secret: Seq<u8>) -> Option<Seq<u8>>;

/// The BIP143 digest, with SIGHASH_ALL, of input `index` of the transaction
/// whose consensus encoding is `raw`, where that input spends `value`
/// satoshis locked by the P2WPKH script `script_pubkey`.
pub uninterp spec fn p2wpkh_sighash_of(raw: Seq<u8>, index: int, script_pubkey: Seq<u8>, value: u64) -> Option<Seq<u8>>;

/// The consensus encoding of a transaction.
pub uninterp spec fn consensus_of(tx: TxView) -> Seq<u8>;

/// The BIP39 seed of an English mnemonic phrase with an empty passphrase.
pub uninterp spec fn seed_of_phrase(phrase: Seq<char>) -> Option<Seq<u8>>;

/// The BIP32 child secret key at a derivation path of a master seed.
pub uninterp spec fn derived_secret_of(seed: Seq<u8>, path: Seq<char>) -> Option<Seq<u8>>;

/// The English mnemonic phrase that encodes some entropy.
pub uninterp spec fn phrase_of_entropy(entropy: Seq<u8>) -> Option<Seq<char>>;

/// One hex digit, lower case.
pub open spec fn hex_digit(n: u8) -> char {
    if n < 10 {
        (('0' as u8) + n) as char
    } else {
        (('a' as u8) + n - 10) as char
    }
}

/// Lower-case hex, two digits per byte, high nibble first.
pub open spec fn hex_of(b: Seq<u8>) -> Seq<char>
    decreases b.len(),
{
    if b.len() == 0 {
        seq![]
    } else {
        hex_of(b.drop_last()) + seq![hex_digit(b.last() / 16), hex_digit(b.last() % 16)]
    }
}

/// Relies on `bitcoin::Txid::from_str`: 64 hex digits of either case, read
/// into 32 bytes that are then reversed (`Txid` displays backward).
#[verifier::external_body]
pub(crate) fn parse_txid(s: &str) -> (r: Option<[u8; 32]>)
    ensures
        r is Some <==> txid_of(s@) is Some,
        r matches Some(a) ==> txid_of(s@) == Some(a@),
{
    bitcoin::Txid::from_str(s).ok().map(|t| bitcoin::hashes::Hash::to_byte_array(t))
}

/// Relies on `bitcoin::Address::from_str`, `require_network` and
/// `script_pubkey`: the script that pays an address of the given network.
#[verifier::external_body]
pub(crate) fn recipient_script(to: &str, net: Network) -> (r: Option<Vec<u8>>)
    ensures
        r is Some <==> recipient_script_of(to@, net) is Some,
        r matches Some(v) ==> recipient_script_of(to@, net) == Some(v@),
{
    let n = match net {
        Network::Bitcoin => bitcoin::Network::Bitcoin,
        Network::Testnet => bitcoin::Network::Testnet,
        Network::Testnet4 => bitcoin::Network::Testnet4,
        Network::Signet => bitcoin::Network::Signet,
        Network::Regtest => bitcoin::Network::Regtest,
    };
    let a = bitcoin::Address::from_str(to).ok()?.require_network(n).ok()?;
    Some(a.script_pubkey().into_bytes())
}

/// Relies on `secp256k1::SecretKey::from_str`: a secret key from 64 hex digits.
#[verifier::external_body]
pub(crate) fn parse_secret(s: &str) -> (r: Option<[u8; 32]>)
    ensures
        r is Some <==> secret_of_hex(s@) is Some,
        r matches Some(a) ==> secret_of_hex(s@) == Some(a@),
{
    SecretKey::from_str(s).ok().map(|k| k.secret_bytes())
}

/// Relies on `secp256k1::SecretKey::public_key` and `PublicKey::serialize`:
/// the 33-byte compressed public key of a secret key, whose first byte is
/// 0x02 or 0x03.
#[verifier::external_body]
pub(crate) fn compressed_pubkey(secret: &[u8; 32]) -> (r: Option<Vec<u8>>)
    ensures
        r is Some <==> pubkey_of(secret@) is Some,
        r matches Some(v) ==> pubkey_of(secret@) == Some(v@) && v@.len() == 33 && (v@[0] == 2 || v@[0] == 3),
{
    let sk = SecretKey::from_slice(secret).ok()?;
    Some(sk.public_key(&Secp256k1::signing_only()).serialize().to_vec())
}

/// Relies on `bitcoin::ScriptBuf::new_p2wpkh`: the script that pays the hash
/// of a compressed public key.
#[verifier::external_body]
pub(crate) fn p2wpkh_script(pubkey: &Vec<u8>) -> (r: Option<Vec<u8>>)
    ensures
        r is Some <==> p2wpkh_script_of(pubkey@) is Some,
        r matches Some(v) ==> p2wpkh_script_of(pubkey@) == Some(v@),
{
    let pk = bitcoin::CompressedPublicKey::from_slice(pubkey).ok()?;
    Some(bitcoin::ScriptBuf::new_p2wpkh(&pk.wpubkey_hash()).into_bytes())
}

/// Relies on `bitcoin::Address::p2wpkh`: the address of a compressed public
/// key on a network, as text.
#[verifier::external_body]
pub(crate) fn p2wpkh_address(pubkey: &Vec<u8>, net: Network) -> (r: Option<String>)
    ensures
        r is Some <==> p2wpkh_address_of(pubkey@, net) is Some,
        r matches Some(v) ==> p2wpkh_address_of(pubkey@, net) == Some(v@),
{
    let n = match net {
        Network::Bitcoin => bitcoin::Network::Bitcoin,
        Network::Testnet => bitcoin::Network::Testnet,
        Network::Testnet4 => bitcoin::Network::Testnet4,
        Network::Signet => bitcoin::Network::Signet,
        Network::Regtest => bitcoin::Network::Regtest,
    };
    let pk = bitcoin::CompressedPublicKey::from_slice(pubkey).ok()?;
    Some(bitcoin::Address::p2wpkh(&pk, n).to_string())
}

/// Relies on `secp256k1::Secp256k1::sign_ecdsa` (RFC 6979 nonces, so the
/// result depends on its arguments alone) and `Signature::serialize_der`,
/// whose DER encoding is a SEQUENCE (tag 0x30) of at most 72 bytes.
#[verifier::external_body]
pub(crate) fn ecdsa_der(digest: &[u8; 32], secret: &[u8; 32]) -> (r: Option<Vec<u8>>)
    ensures
        r is Some <==> der_signature_of(digest@, secret@) is Some,
        r matches Some(v) ==> der_signature_of(digest@, secret@) == Some(v@) && 1 <= v@.len() <= 72 && v@[0] == 0x30,
{
    let sk = SecretKey::from_slice(secret).ok()?;
    let sig = Secp256k1::signing_only().sign_ecdsa(&Message::from_digest(*digest), &sk);
    Some(sig.serialize_der().to_vec())
}

/// Relies on `bip39::Mnemonic::parse_in` (English) and `Mnemonic::to_seed`
/// with an empty passphrase.
#[verifier::external_body]
pub(crate) fn mnemonic_seed(phrase: &str) -> (r: Option<[u8; 64]>)
    ensures
        r is Some <==> seed_of_phrase(phrase@) is Some,
        r matches Some(a) ==> seed_of_phrase(phrase@) == Some(a@),
{
    let m = bip39::Mnemonic::parse_in(bip39::Language::English, phrase).ok()?;
    Some(m.to_seed(""))
}

/// Relies on `bitcoin::bip32::Xpriv::new_master` and `Xpriv::derive_priv`:
/// the secret key at a derivation path below a master seed.
#[verifier::external_body]
pub(crate) fn derive_secret(seed: &[u8; 64], path: &str) -> (r: Option<[u8; 32]>)
    ensures
        r is Some <==> derived_secret_of(seed@, path@) is Some,
        r matches Some(a) ==> derived_secret_of(seed@, path@) == Some(a@),
{
    let p = bitcoin::bip32::DerivationPath::from_str(path).ok()?;
    let master = bitcoin::bip32::Xpriv::new_master(bitcoin::Network::Bitcoin, seed).ok()?;
    let child = master.derive_priv(&Secp256k1::signing_only(), &p).ok()?;
    Some(child.private_key.secret_bytes())
}

/// Relies on `bip39::Mnemonic::from_entropy`: the English phrase of the entropy.
#[verifier::external_body]
pub(crate) fn mnemonic_from_entropy(entropy: &[u8; 16]) -> (r: Option<String>)
    ensures
        r is Some <==> phrase_of_entropy(entropy@) is Some,
        r matches Some(v) ==> phrase_of_entropy(entropy@) == Some(v@),
{
    bip39::Mnemonic::from_entropy(entropy).ok().map(|m| m.to_string())
}

/// Relies on `rand::thread_rng().fill_bytes`: sixteen random bytes.
#[verifier::external_body]
pub(crate) fn random_entropy() -> (r: [u8; 16]) {
    let mut e = [0u8; 16];
    rand::thread_rng().fill_bytes(&mut e);
    e
}

/// Relies on `bitcoin::sighash::SighashCache::p2wpkh_signature_hash` with
/// SIGHASH_ALL, on the transaction that `bitcoin::consensus::deserialize`
/// reads from `raw`.
#[verifier::external_body]
pub(crate) fn p2wpkh_sighash(raw: &Vec<u8>, index: usize, script_pubkey: &Vec<u8>, value: u64) -> (r: Option<[u8; 32]>)
    ensures
        r is Some <==> p2wpkh_sighash_of(raw@, index as int, script_pubkey@, value) is Some,
        r matches Some(d) ==> p2wpkh_sighash_of(raw@, index as int, script_pubkey@, value) == Some(d@),
{
    let tx: bitcoin::Transaction = bitcoin::consensus::deserialize(raw).ok()?;
    let mut cache = bitcoin::sighash::SighashCache::new(&tx);
    let script = bitcoin::Script::from_bytes(script_pubkey);
    let amount = bitcoin::Amount::from_sat(value);
    let h = cache.p2wpkh_signature_hash(index, script, amount, bitcoin::EcdsaSighashType::All).ok()?;
    Some(bitcoin::hashes::Hash::to_byte_array(h))
}

/// Relies on `bitcoin::consensus::serialize`: the consensus encoding of
/// the transaction, each input with an empty script.
#[verifier::external_body]
pub(crate) fn consensus_encoding(tx: &Tx) -> (r: Vec<u8>)
    ensures
        r@ == consensus_of(tx@),
{
    let input = tx.inputs.iter().map(|i| TxIn {
        previous_output: OutPoint { txid: bitcoin::hashes::Hash::from_byte_array(i.txid), vout: i.vout },
        script_sig: ScriptBuf::new(),
        sequence: Sequence(i.sequence),
        witness: Witness::from_slice(&i.witness),
    }).collect();
    let output = tx.outputs.iter().map(|o| TxOut {
        value: Amount::from_sat(o.value),
        script_pubkey: ScriptBuf::from_bytes(o.script_pubkey.clone()),
    }).collect();
    let t = bitcoin::Transaction { version: Version(tx.version), lock_time: LockTime::from_consensus(tx.lock_time), input, output };
    bitcoin::consensus::serialize(&t)
}

/// Relies on `hex::encode`: lower-case hex, two digits per byte.
#[verifier::external_body]
pub(crate) fn to_hex(b: &Vec<u8>) -> (r: String)
    ensures
        r@ == hex_of(b@),
{
    hex::encode(b)
}

} // verus!
