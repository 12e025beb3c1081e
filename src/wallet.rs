//! The wallet's key material, and the building and signing of a payment.
use crate::explorer::{network_name, network_name_of};
use crate::fee::{estimate_fee, estimated_fee};
use crate::model::{sum_values, FeeRates, Network, Tx, TxInput, TxOutput, TxView, Utxo, WalletError};
use crate::primitives::{
    compressed_pubkey, consensus_encoding, consensus_of, der_signature_of, derive_secret, derived_secret_of, ecdsa_der, mnemonic_from_entropy, mnemonic_seed,
    p2wpkh_address, p2wpkh_address_of, p2wpkh_script, p2wpkh_script_of, p2wpkh_sighash, p2wpkh_sighash_of,
    parse_secret, parse_txid, phrase_of_entropy, pubkey_of, random_entropy, recipient_script,
    recipient_script_of, secret_of_hex, seed_of_phrase, to_hex, txid_of, hex_of,
};
use vstd::prelude::*;

verus! {

/// The sequence number of every input: replace-by-fee signalled, no relative
/// lock time.
pub const RBF_SEQUENCE: u32 = 0xFFFF_FFFD;

/// The version of every transaction the wallet builds.
pub const TX_VERSION: i32 = 2;

/// The sighash-type byte appended to each signature: SIGHASH_ALL.
pub const SIGHASH_ALL: u8 = 1;

/// The BIP84 derivation path of the wallet's key.
pub const DERIVATION_PATH: &'static str = "m/84'/0'/0'/0/0";

/// A single-key wallet: a secret key, its compressed public key, and the
/// P2WPKH address and script of that key on one network.
#[derive(Clone, Debug)]
pub struct Wallet {
    secret: [u8; 32],
    public_key: Vec<u8>,
    network: Network,
    address: String,
    script_pubkey: Vec<u8>,
}

/// Whether every unspent output's id is a valid transaction id.
pub open spec fn all_txids_valid(utxos: Seq<Utxo>) -> bool {
    forall|i: int| 0 <= i < utxos.len() ==> (#[trigger] txid_of(utxos[i].txid@)) is Some
}

/// The fee of a payment that spends all of `utxos` at the high rate, with a
/// payment and a change output.
pub open spec fn payment_fee(rates: FeeRates, utxos: Seq<Utxo>) -> int {
    estimated_fee(rates.high as int, utxos.len() as int, 2)
}

/// `tx` is the unsigned transaction that spends every one of `utxos`, in their
/// order, and pays `amount` to the script `pay` and `change` to the script `own`.
pub open spec fn is_unsigned_payment(
    tx: TxView,
    utxos: Seq<Utxo>,
    amount: int,
    pay: Seq<u8>,
    change: int,
    own: Seq<u8>,
) -> bool {
    &&& tx.version == TX_VERSION
    &&& tx.lock_time == 0
    &&& tx.inputs.len() == utxos.len()
    &&& forall|i: int|
        0 <= i < utxos.len() ==> {
            &&& txid_of(utxos[i].txid@) == Some(#[trigger] tx.inputs[i].txid)
            &&& tx.inputs[i].vout == utxos[i].vout
            &&& tx.inputs[i].sequence == RBF_SEQUENCE
            &&& tx.inputs[i].witness.len() == 0
        }
    &&& tx.outputs.len() == 2
    &&& tx.outputs[0].value == amount
    &&& tx.outputs[0].script_pubkey == pay
    &&& tx.outputs[1].value == change
    &&& tx.outputs[1].script_pubkey == own
}

/// What building a payment of `amount` to the address `to` from `utxos` at
/// `rates` gives, for a wallet on `network` whose own script is `own`.
pub open spec fn build_outcome(
    network: Network,
    own: Seq<u8>,
    to: Seq<char>,
    amount: u64,
    utxos: Seq<Utxo>,
    rates: FeeRates,
    r: Result<Tx, WalletError>,
) -> bool {
    let total = sum_values(utxos);
    let fee = payment_fee(rates, utxos);
    if amount + fee > total {
        r == Err::<Tx, WalletError>(WalletError::InsufficientFunds)
    } else if total - amount - fee > u64::MAX {
        r == Err::<Tx, WalletError>(WalletError::Decode)
    } else if recipient_script_of(to, network) is None {
        r == Err::<Tx, WalletError>(WalletError::InvalidAddress)
    } else if !all_txids_valid(utxos) {
        r == Err::<Tx, WalletError>(WalletError::Decode)
    } else {
        r matches Ok(tx) && is_unsigned_payment(
            tx@,
            utxos,
            amount as int,
            recipient_script_of(to, network)->Some_0,
            total - amount - fee,
            own,
        )
    }
}

/// `w` is the witness of a P2WPKH input whose digest is `digest`: the DER
/// signature of the digest made with `secret` (at most 72 bytes), followed by
/// the SIGHASH_ALL byte, then the compressed public key `pubkey`.
pub open spec fn is_p2wpkh_witness(w: Seq<Seq<u8>>, digest: Seq<u8>, secret: Seq<u8>, pubkey: Seq<u8>) -> bool {
    &&& w.len() == 2
    &&& 1 <= w[0].len() <= 73
    &&& w[0].last() == SIGHASH_ALL
    &&& w[0][0] == 0x30
    &&& der_signature_of(digest, secret) == Some(w[0].drop_last())
    &&& w[1] == pubkey
    &&& pubkey.len() == 33
    &&& (pubkey[0] == 2 || pubkey[0] == 3)
}

/// Every input of `tx`, which spends `utxos` in their order, has a BIP143
/// digest for the value of its unspent output and the script `own`, and
/// `secret` signs that digest.
pub open spec fn signable(tx: TxView, utxos: Seq<Utxo>, own: Seq<u8>, secret: Seq<u8>) -> bool {
    &&& tx.inputs.len() == utxos.len()
    &&& forall|i: int|
        0 <= i < utxos.len() ==> {
            &&& (#[trigger] p2wpkh_sighash_of(consensus_of(tx), i, own, utxos[i].value)) is Some
            &&& der_signature_of(p2wpkh_sighash_of(consensus_of(tx), i, own, utxos[i].value)->Some_0, secret) is Some
        }
}

/// `signed` is `tx`, whose inputs spend `utxos` in their order, with nothing
/// changed but a witness on every input: input `i` is signed with `secret`
/// over its BIP143 digest, taken from the consensus encoding of `tx`, for the
/// value of `utxos[i]` and the script `own`.
pub open spec fn is_signed_from(
    signed: TxView,
    tx: TxView,
    utxos: Seq<Utxo>,
    own: Seq<u8>,
    secret: Seq<u8>,
    pubkey: Seq<u8>,
) -> bool {
    &&& signed.version == tx.version
    &&& signed.lock_time == tx.lock_time
    &&& signed.outputs == tx.outputs
    &&& signed.inputs.len() == tx.inputs.len()
    &&& utxos.len() == tx.inputs.len()
    &&& forall|i: int|
        0 <= i < tx.inputs.len() ==> {
            &&& (#[trigger] signed.inputs[i]).txid == tx.inputs[i].txid
            &&& signed.inputs[i].vout == tx.inputs[i].vout
            &&& signed.inputs[i].sequence == tx.inputs[i].sequence
            &&& p2wpkh_sighash_of(consensus_of(tx), i, own, utxos[i].value) is Some
            &&& is_p2wpkh_witness(
                signed.inputs[i].witness,
                p2wpkh_sighash_of(consensus_of(tx), i, own, utxos[i].value)->Some_0,
                secret,
                pubkey,
            )
        }
}

/// Building twice with the same wallet, recipient, amount, unspent outputs
/// and fee rates gives the same outcome: the same error, or two transactions
/// equal in every field. Construction draws on no hidden randomness.
pub proof fn lemma_build_deterministic(
    w: Wallet,
    to: Seq<char>,
    amount: u64,
    utxos: Seq<Utxo>,
    rates: FeeRates,
    r1: Result<Tx, WalletError>,
    r2: Result<Tx, WalletError>,
)
    requires
        build_outcome(w.network_spec(), w.own_script(), to, amount, utxos, rates, r1),
        build_outcome(w.network_spec(), w.own_script(), to, amount, utxos, rates, r2),
    ensures
        r1 is Err ==> r1 == r2,
        r1 matches Ok(t1) ==> (r2 matches Ok(t2) && t1@ == t2@ && consensus_of(t1@) == consensus_of(t2@)),
{
    if r1 is Ok {
        let t1 = r1->Ok_0@;
        let t2 = r2->Ok_0@;
        assert forall|i: int| 0 <= i < t1.inputs.len() implies t1.inputs[i] == t2.inputs[i] by {
            assert(t1.inputs[i].txid == t2.inputs[i].txid);
            assert(t1.inputs[i].witness =~= t2.inputs[i].witness);
        }
        assert(t1.inputs =~= t2.inputs);
        assert(t1.outputs[0] == t2.outputs[0]);
        assert(t1.outputs[1] == t2.outputs[1]);
        assert(t1.outputs =~= t2.outputs);
    }
}

/// Signing is deterministic: two transactions signed from the same
/// transaction, unspent outputs and key are equal, and so are their
/// consensus encodings.
pub proof fn lemma_sign_deterministic(
    w: Wallet,
    tx: TxView,
    utxos: Seq<Utxo>,
    s1: TxView,
    s2: TxView,
)
    requires
        is_signed_from(s1, tx, utxos, w.own_script(), w.secret_key(), w.public_key_spec()),
        is_signed_from(s2, tx, utxos, w.own_script(), w.secret_key(), w.public_key_spec()),
    ensures
        s1 == s2,
        consensus_of(s1) == consensus_of(s2),
{
    assert forall|i: int| 0 <= i < s1.inputs.len() implies s1.inputs[i] == s2.inputs[i] by {
        let a = s1.inputs[i].witness;
        let b = s2.inputs[i].witness;
        assert(a[0].drop_last() == b[0].drop_last());
        assert(a[0] =~= a[0].drop_last().push(a[0].last()));
        assert(b[0] =~= b[0].drop_last().push(b[0].last()));
        assert(a =~= b);
    }
    assert(s1.inputs =~= s2.inputs);
}

/// The hex of the consensus encoding of a transaction, as the explorer takes
/// it for broadcast.
pub fn encode_tx_hex(tx: &Tx) -> (r: String)
    ensures
        r@ == hex_of(consensus_of(tx@)),
{
    let raw = consensus_encoding(tx);
    to_hex(&raw)
}

/// An English mnemonic phrase gives a seed, the seed a key at the BIP84
/// path, and that key a wallet on `network`.
pub open spec fn phrase_gives_wallet(phrase: Seq<char>, network: Network) -> bool {
    &&& seed_of_phrase(phrase) is Some
    &&& derived_secret_of(seed_of_phrase(phrase)->Some_0, DERIVATION_PATH@) is Some
    &&& key_material_ok(derived_secret_of(seed_of_phrase(phrase)->Some_0, DERIVATION_PATH@)->Some_0, network)
}

/// A secret key gives a public key, and that key a P2WPKH script and an
/// address on `network`.
pub open spec fn key_material_ok(secret: Seq<u8>, network: Network) -> bool {
    &&& pubkey_of(secret) is Some
    &&& p2wpkh_script_of(pubkey_of(secret)->Some_0) is Some
    &&& p2wpkh_address_of(pubkey_of(secret)->Some_0, network) is Some
}

/// The total value of `utxos`, which a `u128` always holds.
pub fn total_value(utxos: &Vec<Utxo>) -> (r: u128)
    ensures
        r == sum_values(utxos@),
{
    let mut total: u128 = 0;
    let mut i: usize = 0;
    while i < utxos.len()
        invariant
            i <= utxos@.len(),
            total == sum_values(utxos@.subrange(0, i as int)),
            total <= (i as int) * (u64::MAX as int),
        decreases utxos@.len() - i,
    {
        assert(utxos@.subrange(0, i as int + 1).drop_last() =~= utxos@.subrange(0, i as int));
        let v = utxos[i].value;
        assert((i as int + 1) * (u64::MAX as int) <= (usize::MAX as int) * (u64::MAX as int)) by (nonlinear_arith)
            requires
                i < usize::MAX,
        ;
        assert((i as int) * (u64::MAX as int) + (u64::MAX as int) == (i as int + 1) * (u64::MAX as int)) by (nonlinear_arith);
        total = total + v as u128;
        i = i + 1;
    }
    assert(utxos@.subrange(0, i as int) =~= utxos@);
    total
}

impl Wallet {
    /// The wallet's key material is consistent: the public key, script and
    /// address all come from the secret key.
    pub open spec fn wf(&self) -> bool {
        &&& pubkey_of(self.secret_key()) == Some(self.public_key_spec())
        &&& self.public_key_spec().len() == 33
        &&& (self.public_key_spec()[0] == 2 || self.public_key_spec()[0] == 3)
        &&& p2wpkh_script_of(self.public_key_spec()) == Some(self.own_script())
        &&& p2wpkh_address_of(self.public_key_spec(), self.network_spec()) == Some(self.address_spec())
    }

    /// The secret key.
    pub closed spec fn secret_key(&self) -> Seq<u8> {
        self.secret@
    }

    /// The compressed public key.
    pub closed spec fn public_key_spec(&self) -> Seq<u8> {
        self.public_key@
    }

    /// The address, as text.
    pub closed spec fn address_spec(&self) -> Seq<char> {
        self.address@
    }

    /// The wallet of a secret key on a network: its public key, P2WPKH
    /// script and address.
    pub fn from_secret(secret: [u8; 32], network: Network) -> (r: Result<Wallet, WalletError>)
        ensures
            r is Ok <==> key_material_ok(secret@, network),
            r matches Err(e) ==> e == WalletError::InternalSigning,
            r matches Ok(w) ==> w.wf() && w.secret_key() == secret@ && w.network_spec() == network,
    {
        let public_key = match compressed_pubkey(&secret) {
            Some(p) => p,
            None => return Err(WalletError::InternalSigning),
        };
        let script_pubkey = match p2wpkh_script(&public_key) {
            Some(s) => s,
            None => return Err(WalletError::InternalSigning),
        };
        let address = match p2wpkh_address(&public_key, network) {
            Some(a) => a,
            None => return Err(WalletError::InternalSigning),
        };
        Ok(Wallet { secret, public_key, network, address, script_pubkey })
    }

    /// The wallet of a secret key written as 64 hex digits.
    pub fn from_private_key(key: &str, network: Network) -> (r: Result<Wallet, WalletError>)
        ensures
            r is Ok <==> (secret_of_hex(key@) is Some && key_material_ok(secret_of_hex(key@)->Some_0, network)),
            r matches Err(e) ==> e == WalletError::InternalSigning,
            r matches Ok(w) ==> w.wf() && w.network_spec() == network && Some(w.secret_key()) == secret_of_hex(key@),
    {
        match parse_secret(key) {
            Some(secret) => Wallet::from_secret(secret, network),
            None => Err(WalletError::InternalSigning),
        }
    }

    /// The wallet of an English BIP39 mnemonic phrase: the key at the BIP84
    /// path of its seed (empty passphrase).
    pub fn from_mnemonic(mnemonic_phrase: &str, network: Network) -> (r: Result<Wallet, WalletError>)
        ensures
            seed_of_phrase(mnemonic_phrase@) is None ==> r == Err::<Wallet, WalletError>(WalletError::InvalidMnemonic),
            r is Ok <==> phrase_gives_wallet(mnemonic_phrase@, network),
            r matches Err(e) ==> (e == WalletError::InvalidMnemonic || e == WalletError::InternalSigning),
            r matches Ok(w) ==> {
                &&& w.wf()
                &&& w.network_spec() == network
                &&& seed_of_phrase(mnemonic_phrase@) is Some
                &&& derived_secret_of(seed_of_phrase(mnemonic_phrase@)->Some_0, DERIVATION_PATH@)
                    == Some(w.secret_key())
            },
    {
        let seed = match mnemonic_seed(mnemonic_phrase) {
            Some(s) => s,
            None => return Err(WalletError::InvalidMnemonic),
        };
        let secret = match derive_secret(&seed, DERIVATION_PATH) {
            Some(k) => k,
            None => return Err(WalletError::InvalidMnemonic),
        };
        Wallet::from_secret(secret, network)
    }

    /// A new wallet from sixteen random bytes of entropy, with the mnemonic
    /// phrase that restores it.
    pub fn create(network: Network) -> (r: Result<(Wallet, String), WalletError>)
        ensures
            r matches Err(e) ==> (e == WalletError::InvalidMnemonic || e == WalletError::InternalSigning),
            (forall|e: Seq<u8>|
                e.len() == 16 ==> (#[trigger] phrase_of_entropy(e) matches Some(p) && phrase_gives_wallet(p, network)))
                ==> r is Ok,
            r matches Ok((w, phrase)) ==> {
                &&& w.wf()
                &&& w.network_spec() == network
                &&& seed_of_phrase(phrase@) is Some
                &&& derived_secret_of(seed_of_phrase(phrase@)->Some_0, DERIVATION_PATH@) == Some(w.secret_key())
                &&& exists|e: Seq<u8>| #[trigger] phrase_of_entropy(e) == Some(phrase@)
            },
    {
        let entropy = random_entropy();
        assert(entropy@.len() == 16);
        let phrase = match mnemonic_from_entropy(&entropy) {
            Some(p) => p,
            None => return Err(WalletError::InvalidMnemonic),
        };
        let w = Wallet::from_mnemonic(phrase.as_str(), network)?;
        Ok((w, phrase))
    }

    /// The wallet's address, as text.
    pub fn get_address(&self) -> (r: String)
        ensures
            r@ == self.address_spec(),
    {
        self.address.clone()
    }

    /// The network the wallet is on.
    pub fn network(&self) -> (r: Network)
        ensures
            r == self.network_spec(),
    {
        self.network
    }

    /// The name of the wallet's network.
    pub fn get_network(&self) -> (r: String)
        ensures
            r@ == network_name_of(self.network_spec()),
    {
        network_name(self.network)
    }

    /// Signs every input of `tx`, which spends `utxos` in their order: each
    /// gets the witness [DER signature + SIGHASH_ALL byte, compressed public
    /// key] over its BIP143 digest, computed from the consensus encoding of
    /// `tx` as the bitcoin crate writes it. Fails with `InternalSigning`, and returns
    /// no transaction, where the inputs and `utxos` differ in number or any
    /// input cannot be signed.
    pub fn sign_tx(&self, tx: Tx, utxos: &Vec<Utxo>) -> (r: Result<Tx, WalletError>)
        requires
            self.wf(),
        ensures
            r is Ok <==> signable(tx@, utxos@, self.own_script(), self.secret_key()),
            r matches Err(e) ==> e == WalletError::InternalSigning,
            r is Ok ==> is_signed_from(r->Ok_0@, tx@, utxos@, self.own_script(), self.secret_key(), self.public_key_spec()),
            r matches Ok(s) ==> s@.inputs.len() == tx@.inputs.len(),
    {
        if tx.inputs.len() != utxos.len() {
            return Err(WalletError::InternalSigning);
        }
        let raw = consensus_encoding(&tx);
        let ghost orig = tx@;
        let mut out = tx;
        let mut i: usize = 0;
        while i < utxos.len()
            invariant
                i <= utxos@.len(),
                utxos@.len() == orig.inputs.len(),
                orig == tx@,
                raw@ == consensus_of(orig),
                self.wf(),
                out@.version == orig.version,
                out@.lock_time == orig.lock_time,
                out@.outputs == orig.outputs,
                out@.inputs.len() == orig.inputs.len(),
                forall|j: int| i <= j < orig.inputs.len() ==> #[trigger] out@.inputs[j] == orig.inputs[j],
                forall|j: int|
                    0 <= j < i ==> {
                        &&& (#[trigger] out@.inputs[j]).txid == orig.inputs[j].txid
                        &&& out@.inputs[j].vout == orig.inputs[j].vout
                        &&& out@.inputs[j].sequence == orig.inputs[j].sequence
                        &&& p2wpkh_sighash_of(consensus_of(orig), j, self.script_pubkey@, utxos@[j].value) is Some
                        &&& is_p2wpkh_witness(
                            out@.inputs[j].witness,
                            p2wpkh_sighash_of(consensus_of(orig), j, self.script_pubkey@, utxos@[j].value)->Some_0,
                            self.secret@,
                            self.public_key@,
                        )
                    },
            decreases utxos@.len() - i,
        {
            let digest = match p2wpkh_sighash(&raw, i, &self.script_pubkey, utxos[i].value) {
                Some(d) => d,
                None => {
                    assert(p2wpkh_sighash_of(consensus_of(orig), i as int, self.own_script(), utxos@[i as int].value) is None);
                    assert(!signable(orig, utxos@, self.own_script(), self.secret_key()));
                    return Err(WalletError::InternalSigning);
                },
            };
            let der = match ecdsa_der(&digest, &self.secret) {
                Some(s) => s,
                None => {
                    assert(p2wpkh_sighash_of(consensus_of(orig), i as int, self.own_script(), utxos@[i as int].value)
                        == Some(digest@));
                    assert(!signable(orig, utxos@, self.own_script(), self.secret_key()));
                    return Err(WalletError::InternalSigning);
                },
            };
            let ghost der_v = der@;
            let mut sig = der;
            sig.push(SIGHASH_ALL);
            assert(sig@.drop_last() =~= der_v);
            assert(sig@[0] == der_v[0]);
            let key = self.public_key.clone();
            assert(key@ =~= self.public_key@);
            let ghost sig_v = sig@;
            let mut witness: Vec<Vec<u8>> = Vec::new();
            witness.push(sig);
            witness.push(key);
            let signed = TxInput {
                txid: out.inputs[i].txid,
                vout: out.inputs[i].vout,
                sequence: out.inputs[i].sequence,
                witness,
            };
            proof {
                assert(signed@.witness[0] == sig_v);
                assert(signed@.witness[1] == self.public_key@);
                assert(is_p2wpkh_witness(signed@.witness, digest@, self.secret@, self.public_key@));
                assert(out@.inputs[i as int] == orig.inputs[i as int]);
            }
            let ghost prev = out@;
            out.inputs.set(i, signed);
            proof {
                assert(out@.inputs =~= prev.inputs.update(i as int, signed@));
                assert(out@.outputs =~= prev.outputs);
            }
            i = i + 1;
        }
        proof {
            assert(is_signed_from(out@, orig, utxos@, self.own_script(), self.secret_key(), self.public_key_spec()));
            assert forall|j: int| 0 <= j < utxos@.len() implies {
                &&& (#[trigger] p2wpkh_sighash_of(consensus_of(orig), j, self.own_script(), utxos@[j].value)) is Some
                &&& der_signature_of(
                    p2wpkh_sighash_of(consensus_of(orig), j, self.own_script(), utxos@[j].value)->Some_0,
                    self.secret_key(),
                ) is Some
            } by {
                assert(out@.inputs[j].txid == orig.inputs[j].txid);
            }
            assert(signable(orig, utxos@, self.own_script(), self.secret_key()));
        }
        let ghost signed = out@;
        let r: Result<Tx, WalletError> = Ok(out);
        assert(r->Ok_0@ == signed);
        r
    }

    /// The network the wallet is on.
    pub closed spec fn network_spec(&self) -> Network {
        self.network
    }

    /// The script that locks the wallet's own outputs.
    pub closed spec fn own_script(&self) -> Seq<u8> {
        self.script_pubkey@
    }

    /// Builds the unsigned transaction that spends all of `utxos` in their
    /// order, pays `amount` to `to`, and returns the rest, less the fee at the
    /// high rate, to the wallet's own script. The change output is there even
    /// when the change is zero.
    pub fn build_tx(&self, to: &str, amount: u64, utxos: &Vec<Utxo>, rates: FeeRates) -> (r: Result<Tx, WalletError>)
        ensures
            build_outcome(self.network_spec(), self.own_script(), to@, amount, utxos@, rates, r),
            r == Err::<Tx, WalletError>(WalletError::InsufficientFunds)
                <==> amount + payment_fee(rates, utxos@) > sum_values(utxos@),
            r matches Ok(tx) ==> {
                &&& tx@.outputs.len() == 2
                &&& tx@.outputs[1].value == sum_values(utxos@) - amount - payment_fee(rates, utxos@)
            },
    {
        let total = total_value(utxos);
        let fee = estimate_fee(rates.high, utxos.len() as u64, 2);
        if amount as u128 > total || fee > total - amount as u128 {
            return Err(WalletError::InsufficientFunds);
        }
        let change_all = total - amount as u128 - fee;
        if change_all > u64::MAX as u128 {
            return Err(WalletError::Decode);
        }
        let change = change_all as u64;
        let pay = match recipient_script(to, self.network) {
            Some(s) => s,
            None => return Err(WalletError::InvalidAddress),
        };
        let mut inputs: Vec<TxInput> = Vec::new();
        let mut i: usize = 0;
        while i < utxos.len()
            invariant
                i <= utxos@.len(),
                total == sum_values(utxos@),
                fee == payment_fee(rates, utxos@),
                amount + fee <= total,
                change == total - amount - fee,
                recipient_script_of(to@, self.network) == Some(pay@),
                inputs@.len() == i,
                forall|j: int| 0 <= j < i ==> txid_of(utxos@[j].txid@) is Some,
                forall|j: int|
                    0 <= j < i ==> {
                        &&& txid_of(utxos@[j].txid@) == Some(#[trigger] inputs@[j].txid@)
                        &&& inputs@[j].vout == utxos@[j].vout
                        &&& inputs@[j].sequence == RBF_SEQUENCE
                        &&& inputs@[j].witness@.len() == 0
                    },
            decreases utxos@.len() - i,
        {
            let txid = match parse_txid(utxos[i].txid.as_str()) {
                Some(t) => t,
                None => return Err(WalletError::Decode),
            };
            inputs.push(TxInput { txid, vout: utxos[i].vout, sequence: RBF_SEQUENCE, witness: Vec::new() });
            i = i + 1;
        }
        let mut outputs: Vec<TxOutput> = Vec::new();
        outputs.push(TxOutput { value: amount, script_pubkey: pay });
        outputs.push(TxOutput { value: change, script_pubkey: self.script_pubkey.clone() });
        let tx = Tx { version: TX_VERSION, lock_time: 0, inputs, outputs };
        proof {
            assert(tx.outputs@[1].script_pubkey@ =~= self.script_pubkey@);
        }
        Ok(tx)
    }
}

} // verus!
