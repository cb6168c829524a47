use psbt_explorer::document::{InputRecord, OutputRecord, PartiallySignedTransaction};
use psbt_explorer::fields::Field;
use psbt_explorer::keymap::KeyMap;
use psbt_explorer::operations::{MapUpdate, PsbtInputMsg, PsbtMessage, PsbtOutputMsg};
use psbt_explorer::values::{
    DerivationPath, Fingerprint, KeySource, PublicKey, Script, SigHashType, Transaction, TxOut,
};

const G1: &str = "0279be667ef9dcbbac55a06295ce870b07029bfcdb2dce28d959f2815b16f81798";
const TRANSACTION: &str = "02000000010000000000000000000000000000000000000000000000000000000000000000ffffffff00ffffffff0100000000000000000000000000";

fn key(text: &str) -> PublicKey {
    PublicKey::deserialize([text]).unwrap()
}

fn input() -> InputRecord {
    InputRecord {
        non_witness_utxo: None,
        witness_utxo: None,
        partial_sigs: KeyMap::new(),
        sighash_type: None,
        redeem_script: None,
        witness_script: None,
        bip32_derivation: KeyMap::new(),
        final_script_sig: None,
        final_script_witness: None,
        other: bitcoin::util::psbt::Input::default(),
    }
}

fn output() -> OutputRecord {
    OutputRecord {
        redeem_script: None,
        witness_script: None,
        bip32_derivation: KeyMap::new(),
        other: bitcoin::util::psbt::Output::default(),
    }
}

fn document(inputs: usize, outputs: usize) -> PartiallySignedTransaction {
    let transaction = bitcoin::Transaction {
        version: 2,
        lock_time: 0,
        input: vec![bitcoin::TxIn::default(); inputs],
        output: vec![bitcoin::TxOut::default(); outputs],
    };
    PartiallySignedTransaction {
        global: bitcoin::util::psbt::Global::from_unsigned_tx(transaction).unwrap(),
        inputs: vec![input(); inputs],
        outputs: vec![output(); outputs],
    }
}

fn source() -> KeySource {
    (Fingerprint([1, 2, 3, 4]), DerivationPath(vec![0x8000_002c, 0, 5]))
}

#[test]
fn scalar_change_returns_the_old_content() {
    let mut record = input();
    record.witness_script = Some(Script(vec![1]));
    let before = record.clone();
    let back = PsbtInputMsg::ChangeWitnessScript(Some(Script(vec![2, 3]))).apply_to(&mut record);
    assert_eq!(record.witness_script, Some(Script(vec![2, 3])));
    assert!(matches!(&back, PsbtInputMsg::ChangeWitnessScript(Some(s)) if *s == Script(vec![1])));
    let again = back.apply_to(&mut record);
    assert_eq!(record, before);
    assert!(matches!(&again, PsbtInputMsg::ChangeWitnessScript(Some(s)) if *s == Script(vec![2, 3])));
}

#[test]
fn each_input_change_touches_its_own_field() {
    let transaction = Transaction::deserialize([TRANSACTION]).unwrap();
    let utxo = TxOut { value: 5, script_pubkey: Script(vec![0x51]) };
    let changes = vec![
        PsbtInputMsg::ChangeSigHash(Some(SigHashType::Single)),
        PsbtInputMsg::ChangeWitnessUtxo(Some(utxo.clone())),
        PsbtInputMsg::ChangeNonWitnessUtxo(Some(transaction.clone())),
        PsbtInputMsg::ChangeRedeemScript(Some(Script(vec![1]))),
        PsbtInputMsg::ChangeWitnessScript(Some(Script(vec![2]))),
        PsbtInputMsg::ChangeFinalScript(Some(Script(vec![3]))),
        PsbtInputMsg::ChangeFinalWitness(Some(vec![vec![4], vec![]])),
        PsbtInputMsg::ChangePartialSigs(MapUpdate::Insert(key(G1), vec![6])),
        PsbtInputMsg::ChangeBIP32Derivation(MapUpdate::Insert(key(G1), source())),
    ];
    let mut record = input();
    let mut backs = Vec::new();
    for change in changes {
        backs.push(change.apply_to(&mut record));
    }
    let mut sigs = KeyMap::new();
    sigs.insert(key(G1), vec![6u8]);
    let mut sources = KeyMap::new();
    sources.insert(key(G1), source());
    let expected = InputRecord {
        non_witness_utxo: Some(transaction),
        witness_utxo: Some(utxo),
        partial_sigs: sigs,
        sighash_type: Some(SigHashType::Single),
        redeem_script: Some(Script(vec![1])),
        witness_script: Some(Script(vec![2])),
        bip32_derivation: sources,
        final_script_sig: Some(Script(vec![3])),
        final_script_witness: Some(vec![vec![4], vec![]]),
        other: bitcoin::util::psbt::Input::default(),
    };
    assert_eq!(record, expected);
    assert!(matches!(backs[0], PsbtInputMsg::ChangeSigHash(None)));
    assert!(matches!(backs[1], PsbtInputMsg::ChangeWitnessUtxo(None)));
    assert!(matches!(backs[2], PsbtInputMsg::ChangeNonWitnessUtxo(None)));
    assert!(matches!(backs[3], PsbtInputMsg::ChangeRedeemScript(None)));
    assert!(matches!(backs[4], PsbtInputMsg::ChangeWitnessScript(None)));
    assert!(matches!(backs[5], PsbtInputMsg::ChangeFinalScript(None)));
    assert!(matches!(backs[6], PsbtInputMsg::ChangeFinalWitness(None)));
    assert!(matches!(backs[7], PsbtInputMsg::ChangePartialSigs(MapUpdate::Remove(_))));
    assert!(matches!(backs[8], PsbtInputMsg::ChangeBIP32Derivation(MapUpdate::Remove(_))));
    while let Some(back) = backs.pop() {
        back.apply_to(&mut record);
    }
    assert_eq!(record, input());
}

#[test]
fn each_output_change_touches_its_own_field() {
    let mut record = output();
    let first = PsbtOutputMsg::ChangeRedeemScript(Some(Script(vec![1]))).apply_to(&mut record);
    let second = PsbtOutputMsg::ChangeWitnessScript(Some(Script(vec![2]))).apply_to(&mut record);
    let third =
        PsbtOutputMsg::ChangeBIP32Derivation(MapUpdate::Insert(key(G1), source())).apply_to(&mut record);
    assert_eq!(record.redeem_script, Some(Script(vec![1])));
    assert_eq!(record.witness_script, Some(Script(vec![2])));
    assert_eq!(record.bip32_derivation.get(&key(G1)), Some(&source()));
    assert!(matches!(first, PsbtOutputMsg::ChangeRedeemScript(None)));
    assert!(matches!(second, PsbtOutputMsg::ChangeWitnessScript(None)));
    assert!(matches!(third, PsbtOutputMsg::ChangeBIP32Derivation(MapUpdate::Remove(_))));
    third.apply_to(&mut record);
    second.apply_to(&mut record);
    first.apply_to(&mut record);
    assert_eq!(record, output());
}

#[test]
fn replacing_the_document_returns_the_old_one() {
    let mut psbt = None;
    let back = PsbtMessage::ChangePsbt(Some(document(1, 2))).apply_to(&mut psbt);
    assert_eq!(psbt, Some(document(1, 2)));
    assert!(matches!(back, PsbtMessage::ChangePsbt(None)));
    let again = back.apply_to(&mut psbt);
    assert_eq!(psbt, None);
    assert!(matches!(&again, PsbtMessage::ChangePsbt(Some(d)) if *d == document(1, 2)));
}

#[test]
fn change_is_routed_to_the_record_at_the_position() {
    let mut psbt = Some(document(3, 2));
    let change = PsbtInputMsg::ChangeRedeemScript(Some(Script(vec![7])));
    let back = PsbtMessage::ChangeInput(1, change).apply_to(&mut psbt);
    let now = psbt.clone().unwrap();
    assert_eq!(now.inputs[0], input());
    assert_eq!(now.inputs[1].redeem_script, Some(Script(vec![7])));
    assert_eq!(now.inputs[2], input());
    assert_eq!(now.outputs, vec![output(), output()]);
    assert!(matches!(back, PsbtMessage::ChangeInput(1, PsbtInputMsg::ChangeRedeemScript(None))));
    let change = PsbtOutputMsg::ChangeWitnessScript(Some(Script(vec![8])));
    let back_output = PsbtMessage::ChangeOutput(1, change).apply_to(&mut psbt);
    assert_eq!(psbt.clone().unwrap().outputs[1].witness_script, Some(Script(vec![8])));
    assert!(matches!(
        back_output,
        PsbtMessage::ChangeOutput(1, PsbtOutputMsg::ChangeWitnessScript(None))
    ));
    back_output.apply_to(&mut psbt);
    back.apply_to(&mut psbt);
    assert_eq!(psbt, Some(document(3, 2)));
}

#[test]
fn change_to_a_missing_record_changes_nothing() {
    let mut psbt = Some(document(1, 1));
    let change = PsbtInputMsg::ChangeRedeemScript(Some(Script(vec![7])));
    let back = PsbtMessage::ChangeInput(1, change.clone()).apply_to(&mut psbt);
    assert!(matches!(back, PsbtMessage::NoOp));
    assert_eq!(psbt, Some(document(1, 1)));
    let back = PsbtMessage::ChangeInput(usize::MAX, change.clone()).apply_to(&mut psbt);
    assert!(matches!(back, PsbtMessage::NoOp));
    let change_output = PsbtOutputMsg::ChangeRedeemScript(None);
    let back = PsbtMessage::ChangeOutput(5, change_output.clone()).apply_to(&mut psbt);
    assert!(matches!(back, PsbtMessage::NoOp));
    assert_eq!(psbt, Some(document(1, 1)));
    let mut none = None;
    assert!(matches!(PsbtMessage::ChangeInput(0, change).apply_to(&mut none), PsbtMessage::NoOp));
    assert!(matches!(
        PsbtMessage::ChangeOutput(0, change_output).apply_to(&mut none),
        PsbtMessage::NoOp
    ));
    assert_eq!(none, None);
}

#[test]
fn messages_that_are_no_operations_change_nothing() {
    let mut psbt = Some(document(1, 1));
    assert!(matches!(PsbtMessage::NoOp.apply_to(&mut psbt), PsbtMessage::NoOp));
    assert!(matches!(PsbtMessage::Undo.apply_to(&mut psbt), PsbtMessage::NoOp));
    assert!(matches!(PsbtMessage::Redo.apply_to(&mut psbt), PsbtMessage::NoOp));
    assert_eq!(psbt, Some(document(1, 1)));
}
