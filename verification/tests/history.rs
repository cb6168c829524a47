use psbt_explorer::controller::Psbt;
use psbt_explorer::document::{InputRecord, OutputRecord, PartiallySignedTransaction};
use psbt_explorer::history::History;
use psbt_explorer::keymap::KeyMap;
use psbt_explorer::fields::Field;
use psbt_explorer::operations::{MapUpdate, PsbtInputMsg, PsbtMessage, PsbtOutputMsg};
use psbt_explorer::values::{PublicKey, Script};

fn input() -> InputRecord {
    InputRecord {
        non_witness_utxo: None,
        witness_utxo: None,
        partial_sigs: KeyMap::new(),
        sighash_type: None,
        redeem_script: None,
        witness_script: None,
        bip32_derivation: KeyMap::new(),
        final_script_sig: None,
        final_script_witness: None,
        other: bitcoin::util::psbt::Input::default(),
    }
}

fn output() -> OutputRecord {
    OutputRecord {
        redeem_script: None,
        witness_script: None,
        bip32_derivation: KeyMap::new(),
        other: bitcoin::util::psbt::Output::default(),
    }
}

fn document(inputs: usize, outputs: usize) -> PartiallySignedTransaction {
    let transaction = bitcoin::Transaction {
        version: 2,
        lock_time: 0,
        input: vec![bitcoin::TxIn::default(); inputs],
        output: vec![bitcoin::TxOut::default(); outputs],
    };
    PartiallySignedTransaction {
        global: bitcoin::util::psbt::Global::from_unsigned_tx(transaction).unwrap(),
        inputs: vec![input(); inputs],
        outputs: vec![output(); outputs],
    }
}

fn set_witness_script(script: Option<Vec<u8>>) -> PsbtMessage {
    PsbtMessage::ChangeInput(0, PsbtInputMsg::ChangeWitnessScript(script.map(Script)))
}

fn edit(history: &mut History, psbt: &mut Option<PartiallySignedTransaction>, msg: PsbtMessage) {
    let back = msg.apply_to(psbt);
    history.add(back);
}

#[test]
fn empty_log_has_nothing_to_undo_or_redo() {
    let mut history = History::default();
    let mut psbt = Some(document(1, 1));
    assert_eq!(history.position(), 0);
    assert!(!history.undo(&mut psbt));
    assert!(!history.redo(&mut psbt));
    assert_eq!(history.position(), 0);
    assert_eq!(psbt, Some(document(1, 1)));
}

#[test]
fn add_moves_the_position() {
    let mut history = History::default();
    history.add(PsbtMessage::NoOp);
    assert_eq!(history.position(), 1);
    history.add(PsbtMessage::NoOp);
    assert_eq!(history.position(), 2);
}

#[test]
fn undo_applies_the_entry_below_the_position() {
    let mut history = History::default();
    let mut psbt = Some(document(1, 1));
    edit(&mut history, &mut psbt, set_witness_script(Some(vec![1])));
    edit(&mut history, &mut psbt, set_witness_script(Some(vec![2])));
    assert!(history.undo(&mut psbt));
    assert_eq!(history.position(), 1);
    assert_eq!(psbt.clone().unwrap().inputs[0].witness_script, Some(Script(vec![1])));
    assert!(history.undo(&mut psbt));
    assert_eq!(history.position(), 0);
    assert_eq!(psbt, Some(document(1, 1)));
    assert!(!history.undo(&mut psbt));
    assert_eq!(psbt, Some(document(1, 1)));
}

#[test]
fn redo_applies_the_entry_at_the_position() {
    let mut history = History::default();
    let mut psbt = Some(document(1, 1));
    edit(&mut history, &mut psbt, set_witness_script(Some(vec![1])));
    edit(&mut history, &mut psbt, set_witness_script(Some(vec![2])));
    history.undo(&mut psbt);
    history.undo(&mut psbt);
    assert!(history.redo(&mut psbt));
    assert_eq!(history.position(), 1);
    assert_eq!(psbt.clone().unwrap().inputs[0].witness_script, Some(Script(vec![1])));
    assert!(history.redo(&mut psbt));
    assert_eq!(history.position(), 2);
    assert_eq!(psbt.clone().unwrap().inputs[0].witness_script, Some(Script(vec![2])));
    assert!(!history.redo(&mut psbt));
    assert_eq!(history.position(), 2);
}

#[test]
fn undo_then_redo_changes_nothing() {
    let mut history = History::default();
    let mut psbt = Some(document(2, 1));
    edit(&mut history, &mut psbt, set_witness_script(Some(vec![1])));
    edit(&mut history, &mut psbt, set_witness_script(Some(vec![2])));
    edit(&mut history, &mut psbt, set_witness_script(None));
    history.undo(&mut psbt);
    let document_before = psbt.clone();
    let log_before = format!("{:?}", history);
    assert!(history.undo(&mut psbt));
    assert!(history.redo(&mut psbt));
    assert_eq!(psbt, document_before);
    assert_eq!(format!("{:?}", history), log_before);
    assert!(history.redo(&mut psbt));
    assert!(history.undo(&mut psbt));
    assert_eq!(psbt, document_before);
    assert_eq!(format!("{:?}", history), log_before);
}

#[test]
fn add_after_undo_leaves_nothing_to_redo() {
    let mut history = History::default();
    let mut psbt = Some(document(1, 1));
    edit(&mut history, &mut psbt, set_witness_script(Some(vec![1])));
    edit(&mut history, &mut psbt, set_witness_script(Some(vec![2])));
    assert!(history.undo(&mut psbt));
    assert_eq!(history.position(), 1);
    edit(&mut history, &mut psbt, set_witness_script(Some(vec![3])));
    assert_eq!(history.position(), 2);
    assert!(!history.redo(&mut psbt));
    assert_eq!(psbt.clone().unwrap().inputs[0].witness_script, Some(Script(vec![3])));
    assert!(history.undo(&mut psbt));
    assert_eq!(psbt.clone().unwrap().inputs[0].witness_script, Some(Script(vec![1])));
}

#[test]
fn add_after_two_undos_cuts_both() {
    let mut history = History::default();
    let mut psbt = Some(document(1, 1));
    edit(&mut history, &mut psbt, set_witness_script(Some(vec![1])));
    edit(&mut history, &mut psbt, set_witness_script(Some(vec![2])));
    edit(&mut history, &mut psbt, set_witness_script(Some(vec![3])));
    history.undo(&mut psbt);
    history.undo(&mut psbt);
    edit(&mut history, &mut psbt, set_witness_script(Some(vec![4])));
    assert_eq!(history.position(), 2);
    assert!(!history.redo(&mut psbt));
    assert!(history.undo(&mut psbt));
    assert!(history.undo(&mut psbt));
    assert!(!history.undo(&mut psbt));
    assert_eq!(psbt, Some(document(1, 1)));
}

#[test]
fn controller_starts_without_document() {
    let state = Psbt::new();
    assert_eq!(*state.psbt(), None);
    assert_eq!(state.history().position(), 0);
}

#[test]
fn controller_reports_nothing_to_undo_or_redo() {
    let mut state = Psbt::new();
    assert!(!state.update(PsbtMessage::Undo));
    assert!(!state.update(PsbtMessage::Redo));
    assert_eq!(*state.psbt(), None);
    assert_eq!(state.history().position(), 0);
}

#[test]
fn controller_records_every_operation() {
    let mut state = Psbt::new();
    assert!(state.update(PsbtMessage::ChangePsbt(Some(document(1, 1)))));
    assert!(state.update(PsbtMessage::NoOp));
    assert!(state.update(PsbtMessage::ChangeInput(9, PsbtInputMsg::ChangeSigHash(None))));
    assert!(state.update(PsbtMessage::ChangeOutput(
        0,
        PsbtOutputMsg::ChangeRedeemScript(Some(Script(vec![1])))
    )));
    assert_eq!(state.history().position(), 4);
    assert!(state.update(PsbtMessage::Undo));
    assert_eq!(*state.psbt(), Some(document(1, 1)));
    assert!(state.update(PsbtMessage::Undo));
    assert!(state.update(PsbtMessage::Undo));
    assert_eq!(*state.psbt(), Some(document(1, 1)));
    assert!(state.update(PsbtMessage::Undo));
    assert_eq!(*state.psbt(), None);
    assert!(!state.update(PsbtMessage::Undo));
}

#[test]
fn end_to_end() {
    let d0 = document(1, 1);
    let mut state = Psbt::new();
    assert_eq!(*state.psbt(), None);
    assert!(state.update(PsbtMessage::ChangePsbt(Some(d0.clone()))));
    assert_eq!(*state.psbt(), Some(d0.clone()));
    assert!(state.update(PsbtMessage::Undo));
    assert_eq!(*state.psbt(), None);
    assert!(state.update(PsbtMessage::Redo));
    assert_eq!(*state.psbt(), Some(d0.clone()));

    assert!(state.update(set_witness_script(Some(vec![0x51, 0x52]))));
    assert_eq!(state.history().position(), 2);
    assert_eq!(
        state.psbt().clone().unwrap().inputs[0].witness_script,
        Some(Script(vec![0x51, 0x52]))
    );
    assert!(state.update(PsbtMessage::Undo));
    assert_eq!(*state.psbt(), Some(d0.clone()));
    assert_eq!(state.history().position(), 1);

    assert!(state.update(set_witness_script(Some(vec![0x53]))));
    assert_eq!(state.history().position(), 2);
    assert!(!state.update(PsbtMessage::Redo));
    assert_eq!(state.psbt().clone().unwrap().inputs[0].witness_script, Some(Script(vec![0x53])));
    assert!(state.update(PsbtMessage::Undo));
    assert_eq!(*state.psbt(), Some(d0));
}

#[test]
fn index_from_another_document_is_no_operation() {
    let mut state = Psbt::new();
    state.update(PsbtMessage::ChangePsbt(Some(document(3, 1))));
    state.update(PsbtMessage::ChangePsbt(Some(document(1, 1))));
    assert!(state.update(PsbtMessage::ChangeInput(
        2,
        PsbtInputMsg::ChangeWitnessScript(Some(Script(vec![1])))
    )));
    assert_eq!(*state.psbt(), Some(document(1, 1)));
    assert!(state.update(PsbtMessage::Undo));
    assert_eq!(*state.psbt(), Some(document(1, 1)));
    assert!(state.update(PsbtMessage::Undo));
    assert_eq!(*state.psbt(), Some(document(3, 1)));
    assert!(state.update(PsbtMessage::Redo));
    assert!(state.update(PsbtMessage::Redo));
    assert_eq!(*state.psbt(), Some(document(1, 1)));
    assert!(!state.update(PsbtMessage::Redo));
}

#[test]
fn rename_is_taken_back_by_one_undo() {
    let a = PublicKey::deserialize(["0279be667ef9dcbbac55a06295ce870b07029bfcdb2dce28d959f2815b16f81798"]).unwrap();
    let b = PublicKey::deserialize(["02c6047f9441ed7d6d3045406e95c07cd85c778e4b8cef3ca7abac09b95c709ee5"]).unwrap();
    let mut state = Psbt::new();
    state.update(PsbtMessage::ChangePsbt(Some(document(1, 1))));
    state.update(PsbtMessage::ChangeInput(
        0,
        PsbtInputMsg::ChangePartialSigs(MapUpdate::Insert(a.clone(), vec![1])),
    ));
    let before = state.psbt().clone();
    let rename = MapUpdate::Both(
        Box::new(MapUpdate::Remove(a.clone())),
        Box::new(MapUpdate::Insert(b.clone(), vec![1])),
    );
    state.update(PsbtMessage::ChangeInput(0, PsbtInputMsg::ChangePartialSigs(rename)));
    assert_eq!(state.history().position(), 3);
    let now = state.psbt().clone().unwrap();
    assert_eq!(now.inputs[0].partial_sigs.len(), 1);
    assert_eq!(now.inputs[0].partial_sigs.get(&b), Some(&vec![1u8]));
    assert_eq!(now.inputs[0].partial_sigs.get(&a), None);
    assert!(state.update(PsbtMessage::Undo));
    assert_eq!(*state.psbt(), before);
    assert_eq!(state.history().position(), 2);
    assert!(state.update(PsbtMessage::Redo));
    assert_eq!(*state.psbt(), Some(now));
}
