use bitcoin::absolute::LockTime;
use bitcoin::bip32::Xpriv;
use bitcoin::bip32::Xpub;
use bitcoin::hashes::Hash as _;
use bitcoin::transaction::Version;
use bitcoin::Amount;
use bitcoin::OutPoint;
use bitcoin::ScriptBuf;
use bitcoin::Sequence;
use bitcoin::Transaction;
use bitcoin::TxIn;
use bitcoin::TxOut;
use bitcoin::Witness;
use ctv_emulators::btc::fresh_context;
use ctv_emulators::oracle::HDOracleEmulator;
use ctv_emulators::oracle::SignOutcome;
use ctv_emulators::remote::HDOracleClient;
use ctv_emulators::remote::RemoteOutcome;
use ctv_emulators::template::template_commitment;
use ctv_emulators::template::TxTemplate;

fn master_key() -> Xpriv {
    Xpriv::new_master(bitcoin::Network::Regtest, &[44u8; 32]).unwrap()
}

fn master_pub(root: &Xpriv) -> Xpub {
    let secp = bitcoin::secp256k1::Secp256k1::new();
    Xpub::from_priv(&secp, root)
}

fn witness_script() -> ScriptBuf {
    ScriptBuf::from_bytes(vec![0x51])
}

fn template_tx() -> Transaction {
    Transaction {
        version: Version(2),
        lock_time: LockTime::ZERO,
        input: vec![TxIn {
            previous_output: OutPoint::null(),
            script_sig: ScriptBuf::new(),
            sequence: Sequence(0xffff_fffe),
            witness: Witness::new(),
        }],
        output: vec![TxOut {
            value: Amount::from_sat(99_000),
            script_pubkey: ScriptBuf::new(),
        }],
    }
}

fn signable_psbt() -> bitcoin::Psbt {
    let mut psbt = bitcoin::Psbt::from_unsigned_tx(template_tx()).unwrap();
    psbt.inputs[0].witness_script = Some(witness_script());
    psbt.inputs[0].witness_utxo = Some(TxOut {
        value: Amount::from_sat(100_000),
        script_pubkey: ScriptBuf::new(),
    });
    psbt
}

#[test]
fn public_and_private_derivation_commute() {
    let root = master_key();
    let ctx = fresh_context();
    let server = HDOracleEmulator::new(root);
    let client = HDOracleClient::new(master_pub(&root));
    for seed in [0u8, 7, 44, 255] {
        let h: Vec<u8> = (0..32).map(|i| seed.wrapping_add(i).wrapping_mul(31)).collect();
        let server_key = server.signing_public_key(&h, &ctx).unwrap();
        let client_key = client.expected_public_key(&h, &ctx).unwrap();
        assert_eq!(server_key, client_key);
        assert_eq!(client_key.len(), 33);
    }
}

#[test]
fn template_commitment_matches_manual_digest() {
    let t = TxTemplate {
        version: 2,
        lock_time: 7,
        sequences: vec![0xffff_fffe, 3],
        outputs: vec![vec![1, 2, 3], vec![4, 5]],
    };
    let got = template_commitment(&t, 0);

    let mut seq_blob: Vec<u8> = Vec::new();
    seq_blob.extend_from_slice(&0xffff_fffeu32.to_le_bytes());
    seq_blob.extend_from_slice(&3u32.to_le_bytes());
    let seq_hash = bitcoin::hashes::sha256::Hash::hash(&seq_blob);
    let out_blob: Vec<u8> = vec![1, 2, 3, 4, 5];
    let out_hash = bitcoin::hashes::sha256::Hash::hash(&out_blob);
    let mut pre: Vec<u8> = Vec::new();
    pre.extend_from_slice(&2u32.to_le_bytes());
    pre.extend_from_slice(&7u32.to_le_bytes());
    pre.extend_from_slice(&2u32.to_le_bytes());
    pre.extend_from_slice(&seq_hash.to_byte_array());
    pre.extend_from_slice(&2u32.to_le_bytes());
    pre.extend_from_slice(&out_hash.to_byte_array());
    pre.extend_from_slice(&0u32.to_le_bytes());
    let want = bitcoin::hashes::sha256::Hash::hash(&pre);
    assert_eq!(got, want.to_byte_array().to_vec());
}

#[test]
fn commitment_matches_unsigned_transaction_fields() {
    let psbt = signable_psbt();
    let (t, h) = HDOracleEmulator::commitment_of(&psbt, 0).unwrap();
    assert_eq!(t.version, 2);
    assert_eq!(t.lock_time, 0);
    assert_eq!(t.sequences, vec![0xffff_fffe]);
    assert_eq!(
        t.outputs,
        vec![bitcoin::consensus::encode::serialize(&template_tx().output[0])]
    );
    assert_eq!(h.len(), 32);
}

#[test]
fn round_trip_signature_under_expected_key() {
    let root = master_key();
    let ctx = fresh_context();
    let server = HDOracleEmulator::new(root);
    let client = HDOracleClient::new(master_pub(&root));

    let psbt = signable_psbt();
    let (_, commitment) = HDOracleEmulator::commitment_of(&psbt, 0).unwrap();
    let expected_key = client.expected_public_key(&commitment, &ctx).unwrap();

    let msg = psbt.serialize();
    let frame = server.handle_request(&msg, &ctx).unwrap();
    let declared = u32::from_be_bytes([frame[0], frame[1], frame[2], frame[3]]) as usize;
    assert_eq!(declared, frame.len() - 4);
    let resp = bitcoin::Psbt::deserialize(&frame[4..]).unwrap();

    assert_eq!(resp.inputs[0].partial_sigs.len(), 1);
    let (pk, sig) = resp.inputs[0].partial_sigs.iter().next().unwrap();
    assert_eq!(pk.to_bytes(), expected_key);
    assert_eq!(sig.sighash_type, bitcoin::EcdsaSighashType::All);

    let mut cache = bitcoin::sighash::SighashCache::new(&psbt.unsigned_tx);
    let digest = cache
        .p2wsh_signature_hash(
            0,
            &witness_script(),
            Amount::from_sat(100_000),
            bitcoin::EcdsaSighashType::All,
        )
        .unwrap();
    let secp = bitcoin::secp256k1::Secp256k1::new();
    let msg = bitcoin::secp256k1::Message::from_digest(digest.to_byte_array());
    let pubkey = bitcoin::secp256k1::PublicKey::from_slice(&expected_key).unwrap();
    secp.verify_ecdsa(&msg, &sig.signature, &pubkey).unwrap();
}

#[test]
fn missing_context_returns_structure_unchanged() {
    let root = master_key();
    let ctx = fresh_context();
    let server = HDOracleEmulator::new(root);
    let psbt = bitcoin::Psbt::from_unsigned_tx(template_tx()).unwrap();
    let msg = psbt.serialize();
    let frame = server.handle_request(&msg, &ctx).unwrap();
    assert_eq!(&frame[4..], &msg[..]);
}

#[test]
fn missing_context_is_reported() {
    let root = master_key();
    let ctx = fresh_context();
    let server = HDOracleEmulator::new(root);
    let psbt = bitcoin::Psbt::from_unsigned_tx(template_tx()).unwrap();
    let (_, outcome) = server.sign(psbt, &ctx);
    assert_eq!(outcome, SignOutcome::MissingContext);
}

#[test]
fn signable_structure_is_signed() {
    let root = master_key();
    let ctx = fresh_context();
    let server = HDOracleEmulator::new(root);
    let (signed, outcome) = server.sign(signable_psbt(), &ctx);
    assert_eq!(outcome, SignOutcome::Signed);
    assert_eq!(signed.inputs[0].partial_sigs.len(), 1);
}

#[test]
fn malformed_request_gets_no_response() {
    let root = master_key();
    let ctx = fresh_context();
    let server = HDOracleEmulator::new(root);
    assert!(server.handle_request(&vec![1u8, 2, 3], &ctx).is_none());
}

#[test]
fn build_sign_request_frames_the_serialization() {
    let psbt = signable_psbt();
    let frame = HDOracleClient::build_sign_request(&psbt).unwrap();
    let body = psbt.serialize();
    assert_eq!(&frame[..4], &(body.len() as u32).to_be_bytes()[..]);
    assert_eq!(&frame[4..], &body[..]);
}

#[test]
fn failed_exchange_leaves_structure_unchanged() {
    let original = signable_psbt();
    let original_bytes = original.serialize();

    let (back, outcome) = HDOracleClient::apply_sign_response(original, None);
    assert_eq!(outcome, RemoteOutcome::TransportFailed);
    assert_eq!(back.serialize(), original_bytes);

    let (back, outcome) = HDOracleClient::apply_sign_response(back, Some(vec![9u8, 9, 9]));
    assert_eq!(outcome, RemoteOutcome::DecodeFailed);
    assert_eq!(back.serialize(), original_bytes);
}

#[test]
fn merged_response_carries_the_signature() {
    let root = master_key();
    let ctx = fresh_context();
    let server = HDOracleEmulator::new(root);
    let original = signable_psbt();
    let frame = server.handle_request(&original.serialize(), &ctx).unwrap();
    let payload = frame[4..].to_vec();
    let (merged, outcome) = HDOracleClient::apply_sign_response(original, Some(payload));
    assert_eq!(outcome, RemoteOutcome::Merged);
    assert_eq!(merged.inputs[0].partial_sigs.len(), 1);
}

#[test]
fn response_for_another_transaction_is_not_merged() {
    let original = signable_psbt();
    let original_bytes = original.serialize();
    let mut other_tx = template_tx();
    other_tx.lock_time = LockTime::from_consensus(9);
    let other = bitcoin::Psbt::from_unsigned_tx(other_tx).unwrap();
    let (back, outcome) =
        HDOracleClient::apply_sign_response(original, Some(other.serialize()));
    assert_eq!(outcome, RemoteOutcome::MergeFailed);
    assert_eq!(back.serialize(), original_bytes);
}

#[test]
fn inconsistent_xpub_sources_fail_the_merge_cleanly() {
    let root = master_key();
    let secp = bitcoin::secp256k1::Secp256k1::new();
    let xpub = Xpub::from_priv(&secp, &root);
    let held_path: bitcoin::bip32::DerivationPath = vec![
        bitcoin::bip32::ChildNumber::from_normal_idx(0).unwrap(),
        bitcoin::bip32::ChildNumber::from_normal_idx(1).unwrap(),
    ]
    .into();
    let incoming_path: bitcoin::bip32::DerivationPath =
        vec![bitcoin::bip32::ChildNumber::from_normal_idx(2).unwrap()].into();
    let fp = bitcoin::bip32::Fingerprint::from([7u8; 4]);

    let mut original = signable_psbt();
    original.xpub.insert(xpub, (fp, held_path));
    let original_bytes = original.serialize();
    let mut response = signable_psbt();
    response.xpub.insert(xpub, (fp, incoming_path));

    // The incoming derivation path is shorter than the held one and not a
    // suffix of it: the merge must fail cleanly, not abort.
    let (back, outcome) =
        HDOracleClient::apply_sign_response(original, Some(response.serialize()));
    assert_eq!(outcome, RemoteOutcome::MergeFailed);
    assert_eq!(back.serialize(), original_bytes);
}
