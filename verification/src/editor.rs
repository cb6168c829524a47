//! What the text boxes of a field decide: when typed text becomes a value
//! to hand on, and when a draft entry of a collection becomes a change.

use crate::fields::{texts_in, texts_of, Field};
use crate::keymap::KeyMap;
use crate::operations::{renaming, MapUpdate};
use crate::values::PublicKey;
use vstd::prelude::*;
use vstd::std_specs::cmp::PartialEqSpec;

verus! {

/// What happened in the boxes of a single field.
#[derive(Clone, Debug)]
pub enum SingleFieldMsg {
    /// The box at this position now holds this text.
    Change(usize, String),
}

/// The boxes of one field: the value last given to show, the texts as they
/// stand, and why they were last refused, if they were.
pub struct SingleField<T, E, const N: usize> {
    pub value: T,
    pub serialized: [String; N],
    pub error: Option<E>,
}

/// Calls `std::array::from_fn` to borrow each of the texts.
#[verifier::external_body]
fn borrowed<'a, const N: usize>(texts: &'a [String; N]) -> (borrows: [&'a str; N])
    ensures
        texts_in(borrows) == texts_of(*texts),
{
    std::array::from_fn(|i| texts[i].as_str())
}

impl<T, E, const N: usize> SingleField<T, E, N> {
    /// The boxes that show a value as these texts.
    pub fn with_texts(value: T, serialized: [String; N]) -> (field: Self)
        ensures
            field.value == value,
            field.serialized == serialized,
            field.error is None,
    {
        SingleField { value, serialized, error: None }
    }

    /// Takes a value to show. Where texts come with it, they stand from now
    /// on and the refusal is dropped; where none do, the texts stay as they
    /// were typed.
    pub fn change_with(&mut self, value: T, anew: Option<[String; N]>)
        ensures
            final(self).value == value,
            match anew {
                Some(serialized) => final(self).serialized == serialized && final(self).error is None,
                None => final(self).serialized == old(self).serialized && final(self).error == old(
                    self,
                ).error,
            },
    {
        if let Some(serialized) = anew {
            self.serialized = serialized;
            self.error = None;
        }
        self.value = value;
    }

    /// Takes the text typed into one box and hands all the texts to `read`.
    /// Where it reads a value, that value is returned, to be handed on, and
    /// no refusal stands; where it refuses, nothing is returned and the
    /// refusal is kept. The value shown stays until another is given.
    pub fn update_with<F>(&mut self, msg: SingleFieldMsg, read: F) -> (parsed: Option<
        T,
    >) where F: FnOnce([&str; N]) -> Result<T, E>
        requires
            msg matches SingleFieldMsg::Change(i, _) && i < N,
            forall|texts: [&str; N]| call_requires(read, (texts,)),
        ensures
            final(self).value == old(self).value,
            msg matches SingleFieldMsg::Change(i, s) && final(self).serialized@ == old(
                self,
            ).serialized@.update(i as int, s),
            exists|texts: [&str; N]|
                {
                    &&& texts_in(texts) == texts_of(final(self).serialized)
                    &&& match parsed {
                        Some(t) => call_ensures(read, (texts,), Ok(t)) && final(self).error is None,
                        None => final(self).error matches Some(e) && call_ensures(
                            read,
                            (texts,),
                            Err(e),
                        ),
                    }
                },
    {
        match msg {
            SingleFieldMsg::Change(i, s) => {
                self.serialized[i] = s;
                let texts = borrowed(&self.serialized);
                match read(texts) {
                    Ok(t) => {
                        self.error = None;
                        Some(t)
                    },
                    Err(e) => {
                        self.error = Some(e);
                        None
                    },
                }
            },
        }
    }
}

impl<T: Field<N>, const N: usize> SingleField<T, T::DeserializeError, N> {
    /// The boxes that show a value.
    pub fn create(value: T) -> (field: Self)
        ensures
            field.value == value,
            texts_of(field.serialized) == T::encoding(value.deep_view()),
            field.error is None,
    {
        let serialized = value.serialize();
        SingleField::with_texts(value, serialized)
    }

    /// Takes a value to show. Where it differs from the one shown, the
    /// texts are written anew and the refusal is dropped; where it does
    /// not, the texts stay as they were typed.
    pub fn change(&mut self, value: T) where T: PartialEq
        ensures
            final(self).value == value,
            ({
                let anew = texts_of(final(self).serialized) == T::encoding(value.deep_view())
                    && final(self).error is None;
                let kept = final(self).serialized == old(self).serialized && final(self).error
                    == old(self).error;
                &&& anew || kept
                &&& T::obeys_eq_spec() ==> if value.eq_spec(&old(self).value) {
                    kept
                } else {
                    anew
                }
            }),
    {
        let anew = if value != self.value {
            Some(value.serialize())
        } else {
            None
        };
        self.change_with(value, anew);
    }

    /// Takes the text typed into one box and reads all the texts. Where
    /// they spell a value, it is returned, to be handed on, and no refusal
    /// stands; where they do not, nothing is returned and the refusal is
    /// kept. The value shown stays until `change` brings another.
    pub fn update(&mut self, msg: SingleFieldMsg) -> (parsed: Option<T>)
        requires
            msg matches SingleFieldMsg::Change(i, _) && i < N,
        ensures
            final(self).value == old(self).value,
            msg matches SingleFieldMsg::Change(i, s) && final(self).serialized@ == old(
                self,
            ).serialized@.update(i as int, s),
            match T::decoding(texts_of(final(self).serialized)) {
                Some(v) => parsed matches Some(t) && t.deep_view() == v && final(self).error is None,
                None => parsed is None && final(self).error is Some,
            },
    {
        self.update_with(msg, T::deserialize)
    }
}

/// Which of the values a list box has chosen: its entries are the values in
/// their order, behind one entry for no value where `allow_empty` is set.
pub fn selection<T>(values: &Vec<T>, allow_empty: bool, selected_index: i32) -> (selected: Option<
    &T,
>)
    requires
        -1 <= selected_index,
        selected_index - (if allow_empty { 1int } else { 0int }) < values.len(),
    ensures
        ({
            let index = selected_index - (if allow_empty { 1int } else { 0int });
            match selected {
                Some(v) => index >= 0 && *v == values[index],
                None => index < 0,
            }
        }),
{
    let effective_index: i32 = selected_index - if allow_empty { 1 } else { 0 };
    if effective_index < 0 {
        None
    } else {
        Some(&values[effective_index as usize])
    }
}

/// What happened in the boxes of a keyed collection.
#[derive(Debug)]
pub enum MapFieldMsg<K, V> {
    /// The key of the entry under the first key is now the second.
    ChangeKey(K, K),
    /// The entry under this key now has this value.
    ChangeValue(K, V),
    /// The entry under this key is to go.
    RemoveKey(K),
    /// The draft's key is now this, or blank.
    SetNewKey(Option<K>),
    /// The draft's value is now this, or blank.
    SetNewValue(Option<V>),
    /// The draft is to become an entry.
    AddNew,
}

impl<K: DeepView, V: DeepView> DeepView for MapFieldMsg<K, V> {
    type V = MapFieldMsg<K::V, V::V>;

    open spec fn deep_view(&self) -> MapFieldMsg<K::V, V::V> {
        match self {
            MapFieldMsg::ChangeKey(old, new) => MapFieldMsg::ChangeKey(
                old.deep_view(),
                new.deep_view(),
            ),
            MapFieldMsg::ChangeValue(k, v) => MapFieldMsg::ChangeValue(k.deep_view(), v.deep_view()),
            MapFieldMsg::RemoveKey(k) => MapFieldMsg::RemoveKey(k.deep_view()),
            MapFieldMsg::SetNewKey(k) => MapFieldMsg::SetNewKey(k.deep_view()),
            MapFieldMsg::SetNewValue(v) => MapFieldMsg::SetNewValue(v.deep_view()),
            MapFieldMsg::AddNew => MapFieldMsg::AddNew,
        }
    }
}

/// The boxes of a keyed collection: the entries shown, and a draft of a new
/// entry, whose key and value are typed apart and may each be missing.
pub struct MapField<V> {
    pub map: KeyMap<V>,
    pub new_key: Option<PublicKey>,
    pub new_value: Option<V>,
}

/// The boxes of a keyed collection as a mathematical value.
#[verifier::ext_equal]
pub struct MapFieldView<V> {
    pub map: Map<Seq<u8>, V>,
    pub new_key: Option<Seq<u8>>,
    pub new_value: Option<V>,
}

impl<V: DeepView> DeepView for MapField<V> {
    type V = MapFieldView<V::V>;

    open spec fn deep_view(&self) -> MapFieldView<V::V> {
        MapFieldView {
            map: self.map.deep_view(),
            new_key: self.new_key.deep_view(),
            new_value: self.new_value.deep_view(),
        }
    }
}

/// What the boxes hold after a message, and the change to hand on, if the
/// message makes one.
///
/// A new key for an entry is one change, which moves the entry. A new value
/// and a removal are handed on as they are. Typing into the draft changes
/// the draft alone. The draft becomes an entry only where both its key and
/// its value are there, and is then blank again; else nothing happens.
pub open spec fn map_field_updated<V>(
    field: MapFieldView<V>,
    msg: MapFieldMsg<Seq<u8>, V>,
) -> (MapFieldView<V>, Option<MapUpdate<Seq<u8>, V>>) {
    match msg {
        MapFieldMsg::ChangeKey(old, new) => (
            MapFieldView { map: field.map.remove(old), ..field },
            Some(renaming(old, new, field.map[old])),
        ),
        MapFieldMsg::ChangeValue(k, v) => (field, Some(MapUpdate::Insert(k, v))),
        MapFieldMsg::RemoveKey(k) => (field, Some(MapUpdate::Remove(k))),
        MapFieldMsg::SetNewKey(k) => (MapFieldView { new_key: k, ..field }, None),
        MapFieldMsg::SetNewValue(v) => (MapFieldView { new_value: v, ..field }, None),
        MapFieldMsg::AddNew => match (field.new_key, field.new_value) {
            (Some(k), Some(v)) => (
                MapFieldView { new_key: None, new_value: None, ..field },
                Some(MapUpdate::Insert(k, v)),
            ),
            _ => (field, None),
        },
    }
}

impl<V: DeepView> MapField<V> {
    /// The boxes that show these entries, with a blank draft.
    pub fn create(map: KeyMap<V>) -> (field: Self)
        ensures
            field.deep_view() == (MapFieldView {
                map: map.deep_view(),
                new_key: None,
                new_value: None,
            }),
    {
        MapField { map, new_key: None, new_value: None }
    }

    /// Takes other entries to show. The draft stays.
    pub fn change(&mut self, map: KeyMap<V>)
        ensures
            final(self).deep_view() == (MapFieldView {
                map: map.deep_view(),
                ..old(self).deep_view()
            }),
    {
        self.map = map;
    }

    /// Handles a message from the boxes and returns the change to hand on,
    /// if the message makes one.
    pub fn update(&mut self, msg: MapFieldMsg<PublicKey, V>) -> (change: Option<
        MapUpdate<PublicKey, V>,
    >)
        requires
            msg matches MapFieldMsg::ChangeKey(key, _) ==> old(self).map.deep_view().contains_key(
                key.deep_view(),
            ),
        ensures
            (final(self).deep_view(), change.deep_view()) == map_field_updated(
                old(self).deep_view(),
                msg.deep_view(),
            ),
    {
        match msg {
            MapFieldMsg::ChangeKey(old, new) => {
                match self.map.remove(&old) {
                    Some(v) => {
                        let first = MapUpdate::Remove(old);
                        let second = MapUpdate::Insert(new, v);
                        assert(first.deep_view() == MapUpdate::<Seq<u8>, V::V>::Remove(
                            old.deep_view(),
                        ));
                        assert(second.deep_view() == MapUpdate::Insert(
                            new.deep_view(),
                            v.deep_view(),
                        ));
                        Some(MapUpdate::Both(Box::new(first), Box::new(second)))
                    },
                    None => None,
                }
            },
            MapFieldMsg::ChangeValue(k, new_value) => Some(MapUpdate::Insert(k, new_value)),
            MapFieldMsg::RemoveKey(k) => Some(MapUpdate::Remove(k)),
            MapFieldMsg::SetNewKey(new_key) => {
                self.new_key = new_key;
                None
            },
            MapFieldMsg::SetNewValue(new_value) => {
                self.new_value = new_value;
                None
            },
            MapFieldMsg::AddNew => {
                if self.new_key.is_some() && self.new_value.is_some() {
                    let k = self.new_key.take().unwrap();
                    let v = self.new_value.take().unwrap();
                    Some(MapUpdate::Insert(k, v))
                } else {
                    None
                }
            },
        }
    }
}

} // verus!
