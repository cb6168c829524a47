use psbt_explorer::codecs::ParseError;
use psbt_explorer::editor::{selection, MapField, MapFieldMsg, SingleField, SingleFieldMsg};
use psbt_explorer::fields::{blank_texts, read_optional, Field};
use psbt_explorer::io_boxes::{get_value, IOBoxMsg};
use psbt_explorer::keymap::KeyMap;
use psbt_explorer::operations::MapUpdate;
use psbt_explorer::values::{KeySource, PublicKey, Script, SigHashType, TxOut};

const G1: &str = "0279be667ef9dcbbac55a06295ce870b07029bfcdb2dce28d959f2815b16f81798";
const G2: &str = "02c6047f9441ed7d6d3045406e95c07cd85c778e4b8cef3ca7abac09b95c709ee5";

fn key(text: &str) -> PublicKey {
    PublicKey::deserialize([text]).unwrap()
}

#[test]
fn boxes_show_the_value() {
    let field: SingleField<Option<Script>, ParseError, 1> = SingleField::create(Some(Script(vec![0x51])));
    assert_eq!(field.serialized, ["51".to_string()]);
    assert!(field.error.is_none());
    let blank: SingleField<Option<KeySource>, ParseError, 2> = SingleField::create(None);
    assert_eq!(blank.serialized, [String::new(), String::new()]);
}

#[test]
fn text_that_reads_is_handed_on() {
    let mut field: SingleField<Option<Script>, ParseError, 1> = SingleField::create(None);
    let parsed = field.update(SingleFieldMsg::Change(0, "5152".to_string()));
    assert_eq!(parsed, Some(Some(Script(vec![0x51, 0x52]))));
    assert!(field.error.is_none());
    assert_eq!(field.serialized, ["5152".to_string()]);
    assert_eq!(field.value, None);
}

#[test]
fn text_that_does_not_read_is_kept_with_its_refusal() {
    let mut field: SingleField<Option<Script>, ParseError, 1> = SingleField::create(Some(Script(vec![0x51])));
    let parsed = field.update(SingleFieldMsg::Change(0, "51x".to_string()));
    assert_eq!(parsed, None);
    assert!(matches!(field.error, Some(ParseError::Hex(_))));
    assert_eq!(field.serialized, ["51x".to_string()]);
    assert_eq!(field.value, Some(Script(vec![0x51])));
    let parsed = field.update(SingleFieldMsg::Change(0, "52".to_string()));
    assert_eq!(parsed, Some(Some(Script(vec![0x52]))));
    assert!(field.error.is_none());
}

#[test]
fn half_filled_pair_reads_as_absent() {
    let mut field: SingleField<Option<KeySource>, ParseError, 2> = SingleField::create(None);
    let parsed = field.update(SingleFieldMsg::Change(1, "m/0/1".to_string()));
    assert_eq!(parsed, Some(None));
    assert!(field.error.is_none());
    let parsed = field.update(SingleFieldMsg::Change(0, "0102".to_string()));
    assert_eq!(parsed, None);
    assert!(matches!(field.error, Some(ParseError::Hex(_))));
    let parsed = field.update(SingleFieldMsg::Change(0, "01020304".to_string()));
    assert!(matches!(parsed, Some(Some(_))));
    assert!(field.error.is_none());
}

#[test]
fn new_value_rewrites_the_texts() {
    let mut field: SingleField<Option<Script>, ParseError, 1> = SingleField::create(Some(Script(vec![0x51])));
    field.update(SingleFieldMsg::Change(0, "zz".to_string()));
    field.change(Some(Script(vec![0x51])));
    assert_eq!(field.serialized, ["zz".to_string()]);
    assert!(field.error.is_some());
    field.change(Some(Script(vec![0x52])));
    assert_eq!(field.serialized, ["52".to_string()]);
    assert!(field.error.is_none());
    assert_eq!(field.value, Some(Script(vec![0x52])));
}

#[test]
fn list_box_chooses_by_position() {
    let values = vec![SigHashType::All, SigHashType::NoOutputs, SigHashType::Single];
    assert_eq!(selection(&values, true, 0), None);
    assert_eq!(selection(&values, true, 1), Some(&SigHashType::All));
    assert_eq!(selection(&values, true, 3), Some(&SigHashType::Single));
    assert_eq!(selection(&values, false, 0), Some(&SigHashType::All));
    assert_eq!(selection(&values, false, 2), Some(&SigHashType::Single));
    assert_eq!(selection(&values, false, -1), None);
    assert_eq!(selection(&values, true, -1), None);
}

#[test]
fn draft_needs_both_halves() {
    let mut field: MapField<Vec<u8>> = MapField::create(KeyMap::new());
    assert!(field.update(MapFieldMsg::AddNew).is_none());
    assert!(field.update(MapFieldMsg::SetNewKey(Some(key(G1)))).is_none());
    assert!(field.update(MapFieldMsg::AddNew).is_none());
    assert_eq!(field.new_key, Some(key(G1)));
    assert!(field.update(MapFieldMsg::SetNewKey(None)).is_none());
    assert!(field.update(MapFieldMsg::SetNewValue(Some(vec![1]))).is_none());
    assert!(field.update(MapFieldMsg::AddNew).is_none());
    assert_eq!(field.new_value, Some(vec![1]));
    assert!(field.update(MapFieldMsg::SetNewKey(Some(key(G2)))).is_none());
    let change = field.update(MapFieldMsg::AddNew);
    assert!(matches!(&change, Some(MapUpdate::Insert(k, v)) if *k == key(G2) && *v == vec![1]));
    assert_eq!(field.new_key, None);
    assert_eq!(field.new_value, None);
    assert!(field.update(MapFieldMsg::AddNew).is_none());
}

#[test]
fn newer_draft_replaces_the_older() {
    let mut field: MapField<Vec<u8>> = MapField::create(KeyMap::new());
    field.update(MapFieldMsg::SetNewKey(Some(key(G1))));
    field.update(MapFieldMsg::SetNewKey(Some(key(G2))));
    field.update(MapFieldMsg::SetNewValue(Some(vec![1])));
    field.update(MapFieldMsg::SetNewValue(Some(vec![2])));
    let change = field.update(MapFieldMsg::AddNew);
    assert!(matches!(&change, Some(MapUpdate::Insert(k, v)) if *k == key(G2) && *v == vec![2]));
}

#[test]
fn value_and_removal_are_handed_on() {
    let mut map = KeyMap::new();
    map.insert(key(G1), vec![1u8]);
    let mut field = MapField::create(map.clone());
    let change = field.update(MapFieldMsg::ChangeValue(key(G1), vec![2]));
    assert!(matches!(&change, Some(MapUpdate::Insert(k, v)) if *k == key(G1) && *v == vec![2]));
    let change = field.update(MapFieldMsg::RemoveKey(key(G1)));
    assert!(matches!(&change, Some(MapUpdate::Remove(k)) if *k == key(G1)));
    assert_eq!(field.map, map);
}

#[test]
fn new_key_moves_the_entry_in_one_change() {
    let mut map = KeyMap::new();
    map.insert(key(G1), vec![1u8]);
    let mut field = MapField::create(map.clone());
    let change = field.update(MapFieldMsg::ChangeKey(key(G1), key(G2))).unwrap();
    assert_eq!(field.map.len(), 0);
    let back = change.apply_to(&mut map);
    assert_eq!(map.len(), 1);
    assert_eq!(map.get(&key(G2)), Some(&vec![1u8]));
    assert_eq!(map.get(&key(G1)), None);
    back.apply_to(&mut map);
    assert_eq!(map.len(), 1);
    assert_eq!(map.get(&key(G1)), Some(&vec![1u8]));
    field.change(map.clone());
    assert_eq!(field.map, map);
}

#[test]
fn amount_comes_from_the_output_spent() {
    let utxo = Some(TxOut { value: 7, script_pubkey: Script(vec![]) });
    let amounts = vec![10u64, 20, 30];
    assert_eq!(get_value(&utxo, Some(&amounts), 1), Some(7));
    assert_eq!(get_value(&utxo, None, 1), Some(7));
    assert_eq!(get_value(&None, Some(&amounts), 1), Some(20));
    assert_eq!(get_value(&None, Some(&amounts), 2), Some(30));
    assert_eq!(get_value(&None, Some(&amounts), 3), None);
    assert_eq!(get_value(&None, Some(&amounts), u32::MAX), None);
    assert_eq!(get_value(&None, None, 0), None);
}

#[test]
fn summary_box_message_holds_the_flag() {
    let msg = IOBoxMsg::ToggleExpand(true);
    assert!(matches!(msg.clone(), IOBoxMsg::ToggleExpand(true)));
}

#[test]
fn blank_texts_are_all_blank() {
    assert_eq!(blank_texts::<1>(), [String::new()]);
    assert_eq!(blank_texts::<3>(), [String::new(), String::new(), String::new()]);
    let none: [String; 0] = blank_texts::<0>();
    assert_eq!(none.len(), 0);
}

#[test]
fn reader_is_asked_only_where_no_text_is_blank() {
    let read = |texts: [&str; 2]| -> Result<usize, String> {
        if texts[0] == "bad" {
            Err(texts[1].to_string())
        } else {
            Ok(texts[0].len() + texts[1].len())
        }
    };
    assert_eq!(read_optional(["ab", "cde"], read), Ok(Some(5)));
    assert_eq!(read_optional(["bad", "why"], read), Err("why".to_string()));
    assert_eq!(read_optional(["bad", ""], read), Ok(None));
    assert_eq!(read_optional(["", "cde"], read), Ok(None));
    let never = |_: [&str; 1]| -> Result<u8, u8> { panic!("asked") };
    assert_eq!(read_optional([""], never), Ok(None));
}

#[test]
fn boxes_work_with_any_reader() {
    let read = |texts: [&str; 1]| -> Result<u32, String> {
        texts[0].parse::<u32>().map_err(|_| format!("not a number: {}", texts[0]))
    };
    let mut field: SingleField<u32, String, 1> = SingleField::with_texts(7, ["7".to_string()]);
    assert_eq!(field.update_with(SingleFieldMsg::Change(0, "12".to_string()), read), Some(12));
    assert_eq!(field.value, 7);
    assert_eq!(field.error, None);
    assert_eq!(field.update_with(SingleFieldMsg::Change(0, "1x".to_string()), read), None);
    assert_eq!(field.error, Some("not a number: 1x".to_string()));
    assert_eq!(field.serialized, ["1x".to_string()]);
    field.change_with(7, None);
    assert_eq!(field.serialized, ["1x".to_string()]);
    assert!(field.error.is_some());
    field.change_with(8, Some(["8".to_string()]));
    assert_eq!(field.serialized, ["8".to_string()]);
    assert_eq!(field.error, None);
    assert_eq!(field.value, 8);
}
