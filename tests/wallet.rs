use bitcli::explorer::{
    balance_from_stats, broadcast_outcome, fee_rates_from, get_api_url, network_name,
};
use bitcli::fee::{estimate_fee, estimate_tx_size};
use bitcli::model::{FeeRates, Network, Tx, Utxo, WalletError};
use bitcli::send::{BroadcastReply, SendAction, SendEvent, SendState};
use bitcli::wallet::{encode_tx_hex, total_value, Wallet};

const KEY: &str = "0101010101010101010101010101010101010101010101010101010101010101";
const OTHER_KEY: &str = "0202020202020202020202020202020202020202020202020202020202020202";
const TXID_A: &str = "4a5e1e4baab89f3a32518a88c31bc87f618f76673e2cc77ab2127b7afdeda33b";
const TXID_B: &str = "0e3e2357e806b6cdb1f70b54c3a3a17b6714ee1f0e68bebb44a74b1efd512098";

fn wallet() -> Wallet {
    Wallet::from_private_key(KEY, Network::Testnet).unwrap()
}

fn recipient() -> String {
    Wallet::from_private_key(OTHER_KEY, Network::Testnet).unwrap().get_address()
}

fn utxo(txid: &str, vout: u32, value: u64) -> Utxo {
    Utxo { txid: txid.to_string(), vout, value, confirmed: true, block_height: Some(100) }
}

fn rates(high: u32) -> FeeRates {
    FeeRates { low: 1, medium: 5, high }
}

#[test]
fn size_and_fee_estimates() {
    assert_eq!(estimate_tx_size(1, 2), 226);
    assert_eq!(estimate_tx_size(0, 0), 10);
    assert_eq!(estimate_tx_size(3, 2), 10 + 444 + 68);
    assert_eq!(estimate_fee(10, 1, 2), 2260);
    assert_eq!(estimate_fee(u32::MAX, u64::MAX, 2), (u32::MAX as u128) * (10 + 148 * (u64::MAX as u128) + 68));
}

#[test]
fn build_pays_amount_and_change() {
    let w = wallet();
    let utxos = vec![utxo(TXID_A, 0, 100000)];
    let tx = w.build_tx(&recipient(), 50000, &utxos, rates(10)).unwrap();
    assert_eq!(tx.version, 2);
    assert_eq!(tx.lock_time, 0);
    assert_eq!(tx.outputs.len(), 2);
    assert_eq!(tx.outputs[0].value, 50000);
    assert_eq!(tx.outputs[1].value, 47740);
    assert_eq!(tx.inputs.len(), 1);
    assert_eq!(tx.inputs[0].vout, 0);
    assert_eq!(tx.inputs[0].sequence, 0xFFFF_FFFD);
    assert!(tx.inputs[0].witness.is_empty());
    assert_ne!(tx.outputs[0].script_pubkey, tx.outputs[1].script_pubkey);
}

#[test]
fn build_reports_insufficient_funds() {
    let utxos = vec![utxo(TXID_A, 0, 100000)];
    let r = wallet().build_tx(&recipient(), 99000, &utxos, rates(10));
    assert_eq!(r, Err(WalletError::InsufficientFunds));
}

#[test]
fn build_from_nothing_is_insufficient() {
    let r = wallet().build_tx(&recipient(), 1, &vec![], rates(10));
    assert_eq!(r, Err(WalletError::InsufficientFunds));
}

#[test]
fn build_exact_cover_keeps_zero_change() {
    let utxos = vec![utxo(TXID_A, 0, 52260)];
    let tx = wallet().build_tx(&recipient(), 50000, &utxos, rates(10)).unwrap();
    assert_eq!(tx.outputs.len(), 2);
    assert_eq!(tx.outputs[1].value, 0);
    let r = wallet().build_tx(&recipient(), 50001, &utxos, rates(10));
    assert_eq!(r, Err(WalletError::InsufficientFunds));
}

#[test]
fn build_refuses_address_of_other_network() {
    let mainnet = Wallet::from_private_key(OTHER_KEY, Network::Bitcoin).unwrap().get_address();
    assert!(mainnet.starts_with("bc1"));
    let utxos = vec![utxo(TXID_A, 0, 100000)];
    let r = wallet().build_tx(&mainnet, 50000, &utxos, rates(10));
    assert_eq!(r, Err(WalletError::InvalidAddress));
    let r = wallet().build_tx("not an address", 50000, &utxos, rates(10));
    assert_eq!(r, Err(WalletError::InvalidAddress));
}

#[test]
fn build_refuses_malformed_txid() {
    let utxos = vec![utxo("zz", 0, 100000)];
    let r = wallet().build_tx(&recipient(), 50000, &utxos, rates(10));
    assert_eq!(r, Err(WalletError::Decode));
}

#[test]
fn build_is_deterministic() {
    let w = wallet();
    let utxos = vec![utxo(TXID_A, 0, 60000), utxo(TXID_B, 3, 40000)];
    let a = w.build_tx(&recipient(), 50000, &utxos, rates(7)).unwrap();
    let b = w.build_tx(&recipient(), 50000, &utxos, rates(7)).unwrap();
    assert_eq!(a, b);
    assert_eq!(encode_tx_hex(&a), encode_tx_hex(&b));
}

#[test]
fn total_value_sums_without_overflow() {
    assert_eq!(total_value(&vec![utxo(TXID_A, 0, 5), utxo(TXID_B, 1, 7)]), 12);
    assert_eq!(total_value(&vec![]), 0);
    assert_eq!(total_value(&vec![utxo(TXID_A, 0, u64::MAX), utxo(TXID_B, 1, 1)]), u64::MAX as u128 + 1);
}

#[test]
fn build_compares_against_the_whole_total() {
    let utxos = vec![utxo(TXID_A, 0, u64::MAX), utxo(TXID_B, 1, 1)];
    let r = wallet().build_tx(&recipient(), u64::MAX, &utxos, rates(10));
    assert_eq!(r, Err(WalletError::InsufficientFunds));
    let tx = wallet().build_tx(&recipient(), 10000, &utxos, rates(10)).unwrap();
    assert_eq!(tx.outputs[1].value, u64::MAX - 10000 - 10 * 374 + 1);
    let r = wallet().build_tx(&recipient(), 0, &vec![utxo(TXID_A, 0, u64::MAX), utxo(TXID_B, 1, u64::MAX)], rates(1));
    assert_eq!(r, Err(WalletError::Decode));
}

fn signed_pair() -> (Tx, Vec<Utxo>) {
    let w = wallet();
    let utxos = vec![utxo(TXID_A, 0, 60000), utxo(TXID_B, 3, 40000)];
    let tx = w.build_tx(&recipient(), 50000, &utxos, rates(10)).unwrap();
    (w.sign_tx(tx, &utxos).unwrap(), utxos)
}

#[test]
fn sign_gives_each_input_signature_and_key() {
    let (signed, _) = signed_pair();
    assert_eq!(signed.inputs.len(), 2);
    for input in &signed.inputs {
        assert_eq!(input.witness.len(), 2);
        let sig = &input.witness[0];
        assert!(sig.len() <= 73 && sig.len() > 8);
        assert_eq!(sig[0], 0x30);
        assert_eq!(*sig.last().unwrap(), 1);
        assert_eq!(input.witness[1].len(), 33);
        assert!(input.witness[1][0] == 2 || input.witness[1][0] == 3);
        assert_eq!(input.witness[1], signed.inputs[0].witness[1]);
    }
    assert_ne!(signed.inputs[0].witness[0], signed.inputs[1].witness[0]);
}

#[test]
fn signing_is_deterministic() {
    let (a, _) = signed_pair();
    let (b, _) = signed_pair();
    assert_eq!(a, b);
    assert_eq!(encode_tx_hex(&a), encode_tx_hex(&b));
}

#[test]
fn generator_key_address() {
    let one = "0000000000000000000000000000000000000000000000000000000000000001";
    let w = Wallet::from_private_key(one, Network::Testnet).unwrap();
    assert_eq!(w.get_address(), "tb1qw508d6qejxtdg4y5r3zarvary0c5xw7kxpjzsx");
}

#[test]
fn sign_refuses_mismatched_utxos() {
    let w = wallet();
    let utxos = vec![utxo(TXID_A, 0, 100000)];
    let tx = w.build_tx(&recipient(), 50000, &utxos, rates(10)).unwrap();
    let r = w.sign_tx(tx, &vec![]);
    assert_eq!(r, Err(WalletError::InternalSigning));
}

#[test]
fn encoding_round_trips_through_bitcoin() {
    let (signed, _) = signed_pair();
    let hex_tx = encode_tx_hex(&signed);
    assert!(hex_tx.starts_with("02000000"));
    let raw = hex::decode(&hex_tx).unwrap();
    let decoded: bitcoin::Transaction = bitcoin::consensus::deserialize(&raw).unwrap();
    assert_eq!(decoded.version.0, signed.version);
    assert_eq!(decoded.lock_time.to_consensus_u32(), signed.lock_time);
    assert_eq!(decoded.input.len(), signed.inputs.len());
    for (d, s) in decoded.input.iter().zip(signed.inputs.iter()) {
        assert_eq!(bitcoin::hashes::Hash::to_byte_array(d.previous_output.txid), s.txid);
        assert_eq!(d.previous_output.vout, s.vout);
        assert_eq!(d.sequence.0, s.sequence);
        assert_eq!(d.witness.to_vec(), s.witness);
    }
    assert_eq!(decoded.output.len(), signed.outputs.len());
    for (d, s) in decoded.output.iter().zip(signed.outputs.iter()) {
        assert_eq!(d.value.to_sat(), s.value);
        assert_eq!(d.script_pubkey.as_bytes(), &s.script_pubkey[..]);
    }
    assert_eq!(bitcoin::consensus::serialize(&decoded), raw);
}

#[test]
fn txid_is_read_in_display_order() {
    let utxos = vec![utxo(TXID_A, 0, 100000)];
    let tx = wallet().build_tx(&recipient(), 50000, &utxos, rates(10)).unwrap();
    let mut expected = hex::decode(TXID_A).unwrap();
    expected.reverse();
    assert_eq!(tx.inputs[0].txid.to_vec(), expected);
}

#[test]
fn key_material_is_consistent() {
    let w = wallet();
    assert!(w.get_address().starts_with("tb1q"));
    assert_eq!(w.get_network(), "testnet");
    assert_eq!(w.network(), Network::Testnet);
    assert_eq!(Wallet::from_private_key("xyz", Network::Testnet).unwrap_err(), WalletError::InternalSigning);
    let zero = "0000000000000000000000000000000000000000000000000000000000000000";
    assert_eq!(Wallet::from_private_key(zero, Network::Testnet).unwrap_err(), WalletError::InternalSigning);
}

#[test]
fn mnemonic_derives_bip84_key() {
    let phrase = "abandon abandon abandon abandon abandon abandon abandon abandon abandon abandon abandon about";
    let w = Wallet::from_mnemonic(phrase, Network::Bitcoin).unwrap();
    assert_eq!(w.get_address(), "bc1qcr8te4kr609gcawutmrza0j4xv80jy8z306fyu");
    assert_eq!(Wallet::from_mnemonic("not a phrase", Network::Bitcoin).unwrap_err(), WalletError::InvalidMnemonic);
}

#[test]
fn create_gives_restorable_phrase() {
    let (w, phrase) = Wallet::create(Network::Testnet).unwrap();
    assert_eq!(phrase.split(' ').count(), 12);
    let again = Wallet::from_mnemonic(&phrase, Network::Testnet).unwrap();
    assert_eq!(again.get_address(), w.get_address());
}

#[test]
fn explorer_answers() {
    assert_eq!(get_api_url(Network::Bitcoin), Ok("https://mempool.space".to_string()));
    assert_eq!(get_api_url(Network::Testnet), Ok("https://mempool.space/testnet4".to_string()));
    assert_eq!(get_api_url(Network::Regtest), Err(WalletError::UnsupportedNetwork));
    assert_eq!(network_name(Network::Signet), "signet");
    assert_eq!(balance_from_stats(1000, 300), Ok(700));
    assert_eq!(balance_from_stats(300, 1000), Err(WalletError::Decode));
    assert_eq!(fee_rates_from(20, 15, 10, 1, 3), FeeRates { low: 1, medium: 15, high: 20 });
    assert_eq!(broadcast_outcome(true, "abcd".to_string()), Ok("abcd".to_string()));
}

#[test]
fn rejected_broadcast_surfaces_reason() {
    let w = wallet();
    let reply = BroadcastReply { success: false, body: "min relay fee not met".to_string() };
    let (next, action) = w.send_step(&recipient(), 1000, SendState::AwaitingBroadcast, SendEvent::BroadcastReplied(Ok(reply)));
    assert!(matches!(next, SendState::Finished));
    match action {
        SendAction::Done(Err(WalletError::Broadcast(m))) => assert_eq!(m, "min relay fee not met"),
        other => panic!("unexpected action {:?}", other),
    }
}

#[test]
fn send_runs_in_order() {
    let w = wallet();
    let to = recipient();
    let (s, a) = w.send_step(&to, 50000, SendState::Idle, SendEvent::Start);
    assert!(matches!(a, SendAction::FetchUtxos));
    let utxos = vec![utxo(TXID_A, 0, 100000)];
    let (s, a) = w.send_step(&to, 50000, s, SendEvent::UtxosFetched(Ok(utxos)));
    assert!(matches!(a, SendAction::FetchFeeRates));
    let (s, a) = w.send_step(&to, 50000, s, SendEvent::FeeRatesFetched(Ok(rates(10))));
    assert!(matches!(s, SendState::AwaitingBroadcast));
    let hex_tx = match a {
        SendAction::Broadcast(h) => h,
        other => panic!("unexpected action {:?}", other),
    };
    assert!(hex::decode(&hex_tx).is_ok());
    let reply = BroadcastReply { success: true, body: "feed".to_string() };
    let (s, a) = w.send_step(&to, 50000, s, SendEvent::BroadcastReplied(Ok(reply)));
    assert!(matches!(s, SendState::Finished));
    assert!(matches!(a, SendAction::Done(Ok(ref t)) if t == "feed"));
}

#[test]
fn send_stops_at_first_failure() {
    let w = wallet();
    let to = recipient();
    let utxos = vec![utxo(TXID_A, 0, 100000)];
    let s = SendState::AwaitingFeeRates { utxos };
    let (s, a) = w.send_step(&to, 99000, s, SendEvent::FeeRatesFetched(Ok(rates(10))));
    assert!(matches!(s, SendState::Finished));
    assert!(matches!(a, SendAction::Done(Err(WalletError::InsufficientFunds))));
    let err = WalletError::Network("timed out".to_string());
    let (_, a) = w.send_step(&to, 1, SendState::AwaitingUtxos, SendEvent::UtxosFetched(Err(err)));
    assert!(matches!(a, SendAction::Done(Err(WalletError::Network(_)))));
    let (_, a) = w.send_step(&to, 1, SendState::Idle, SendEvent::FeeRatesFetched(Ok(rates(1))));
    assert!(matches!(a, SendAction::Done(Err(WalletError::OutOfOrder))));
}

#[test]
fn txid_accepts_either_case_and_exact_length() {
    let upper = TXID_A.to_uppercase();
    let a = wallet().build_tx(&recipient(), 50000, &vec![utxo(TXID_A, 0, 100000)], rates(10)).unwrap();
    let b = wallet().build_tx(&recipient(), 50000, &vec![utxo(&upper, 0, 100000)], rates(10)).unwrap();
    assert_eq!(a.inputs[0].txid, b.inputs[0].txid);
    let short = &TXID_A[..63];
    let r = wallet().build_tx(&recipient(), 50000, &vec![utxo(short, 0, 100000)], rates(10));
    assert_eq!(r, Err(WalletError::Decode));
}
