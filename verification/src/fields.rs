//! The field codec: every editable value shows as a fixed number of texts and
//! is read back from them.

use vstd::prelude::*;

verus! {

/// What the texts of an array of owned strings spell.
pub open spec fn texts_of<const N: usize>(texts: [String; N]) -> Seq<Seq<char>> {
    Seq::new(N as nat, |i: int| texts@[i]@)
}

/// What the texts of an array of borrowed strings spell.
pub open spec fn texts_in<const N: usize>(texts: [&str; N]) -> Seq<Seq<char>> {
    Seq::new(N as nat, |i: int| texts@[i]@)
}

/// Whether one of the texts is blank.
pub open spec fn has_blank(texts: Seq<Seq<char>>) -> bool {
    exists|i: int| 0 <= i < texts.len() && (#[trigger] texts[i]).len() == 0
}

/// A value that shows as `N` texts.
pub trait Field<const N: usize>: Sized + DeepView {
    /// Why a reading failed.
    type DeserializeError;

    /// The texts that show a value: `N` of them.
    spec fn encoding(value: Self::V) -> Seq<Seq<char>>;

    /// The value that texts spell, or `None` where they spell none.
    spec fn decoding(texts: Seq<Seq<char>>) -> Option<Self::V>;

    /// Writes the value as its texts. Never fails.
    fn serialize(&self) -> (texts: [String; N])
        ensures
            texts_of(texts) == Self::encoding(self.deep_view()),
    ;

    /// Reads a value from its texts.
    fn deserialize(s: [&str; N]) -> (value: Result<Self, Self::DeserializeError>)
        ensures
            match value {
                Ok(v) => Self::decoding(texts_in(s)) == Some(v.deep_view()),
                Err(_) => Self::decoding(texts_in(s)) is None,
            },
    ;
}

/// Calls `TryInto::try_into` of std from a vector of `N` strings to an array.
#[verifier::external_body]
fn into_array<const N: usize>(texts: Vec<String>) -> (array: [String; N])
    requires
        texts.len() == N,
    ensures
        array@ == texts@,
{
    texts.try_into().unwrap()
}

/// `N` blank texts: how an absent value shows.
pub fn blank_texts<const N: usize>() -> (texts: [String; N])
    ensures
        texts_of(texts) == Seq::new(N as nat, |i: int| Seq::<char>::empty()),
{
    let mut blanks: Vec<String> = Vec::new();
    while blanks.len() < N
        invariant
            blanks.len() <= N,
            forall|i: int| 0 <= i < blanks.len() ==> blanks@[i]@ == Seq::<char>::empty(),
        decreases N - blanks.len(),
    {
        blanks.push(String::new());
    }
    let texts = into_array::<N>(blanks);
    assert(texts_of(texts) =~= Seq::new(N as nat, |i: int| Seq::<char>::empty()));
    texts
}

/// Reads a value that may be absent. Where one of the texts is blank the
/// value is absent, whatever the others hold, and `read` is not called.
/// Where none is, the texts go to `read`, and its value or its refusal is
/// the result.
pub fn read_optional<T, E, F, const N: usize>(s: [&str; N], read: F) -> (value: Result<
    Option<T>,
    E,
>) where F: FnOnce([&str; N]) -> Result<T, E>
    requires
        !has_blank(texts_in(s)) ==> call_requires(read, (s,)),
    ensures
        has_blank(texts_in(s)) ==> value == Ok::<Option<T>, E>(None),
        !has_blank(texts_in(s)) ==> match value {
            Ok(Some(v)) => call_ensures(read, (s,), Ok(v)),
            Ok(None) => false,
            Err(e) => call_ensures(read, (s,), Err(e)),
        },
{
    let mut i: usize = 0;
    while i < N
        invariant
            i <= N,
            forall|j: int| 0 <= j < i ==> (#[trigger] texts_in(s)[j]).len() != 0,
        decreases N - i,
    {
        if s[i].is_empty() {
            assert(texts_in(s)[i as int].len() == 0);
            return Ok(None);
        }
        i += 1;
    }
    assert(!has_blank(texts_in(s)));
    match read(s) {
        Ok(v) => Ok(Some(v)),
        Err(e) => Err(e),
    }
}

/// A value that may be absent: one blank text means absent, whatever the
/// other texts hold, and only texts that are all filled are read as a value.
impl<T: Field<N>, const N: usize> Field<N> for Option<T> {
    type DeserializeError = T::DeserializeError;

    open spec fn encoding(value: Option<T::V>) -> Seq<Seq<char>> {
        match value {
            None => Seq::new(N as nat, |i: int| Seq::<char>::empty()),
            Some(v) => T::encoding(v),
        }
    }

    open spec fn decoding(texts: Seq<Seq<char>>) -> Option<Option<T::V>> {
        if has_blank(texts) {
            Some(None)
        } else {
            match T::decoding(texts) {
                Some(v) => Some(Some(v)),
                None => None,
            }
        }
    }

    fn serialize(&self) -> (texts: [String; N]) {
        match self {
            None => blank_texts(),
            Some(v) => v.serialize(),
        }
    }

    fn deserialize(s: [&str; N]) -> (value: Result<Self, Self::DeserializeError>)
        ensures
            value matches Err(e) ==> !has_blank(texts_in(s)) && call_ensures(
                T::deserialize,
                (s,),
                Err::<T, T::DeserializeError>(e),
            ),
    {
        read_optional(s, T::deserialize)
    }
}

/// Marks a value as the key of an entry. The mark says where the value
/// goes; it is no part of the texts.
#[derive(Debug, Clone, Copy, Eq, PartialEq)]
pub struct Key;

/// Marks a value as the value of an entry. The mark says where the value
/// goes; it is no part of the texts.
#[derive(Debug, Clone, Copy, Eq, PartialEq)]
pub struct Value;

impl DeepView for Key {
    type V = ();

    open spec fn deep_view(&self) -> () {
        ()
    }
}

impl DeepView for Value {
    type V = ();

    open spec fn deep_view(&self) -> () {
        ()
    }
}

/// A marked key shows and reads as the key alone.
impl<F: Field<N>, const N: usize> Field<N> for (Key, F) {
    type DeserializeError = F::DeserializeError;

    open spec fn encoding(value: ((), F::V)) -> Seq<Seq<char>> {
        F::encoding(value.1)
    }

    open spec fn decoding(texts: Seq<Seq<char>>) -> Option<((), F::V)> {
        match F::decoding(texts) {
            Some(v) => Some(((), v)),
            None => None,
        }
    }

    fn serialize(&self) -> (texts: [String; N]) {
        self.1.serialize()
    }

    fn deserialize(s: [&str; N]) -> (value: Result<Self, Self::DeserializeError>)
        ensures
            value matches Err(e) ==> call_ensures(
                F::deserialize,
                (s,),
                Err::<F, F::DeserializeError>(e),
            ),
    {
        match F::deserialize(s) {
            Ok(v) => Ok((Key, v)),
            Err(e) => Err(e),
        }
    }
}

/// A marked value shows and reads as the value alone.
impl<F: Field<N>, const N: usize> Field<N> for (Value, F) {
    type DeserializeError = F::DeserializeError;

    open spec fn encoding(value: ((), F::V)) -> Seq<Seq<char>> {
        F::encoding(value.1)
    }

    open spec fn decoding(texts: Seq<Seq<char>>) -> Option<((), F::V)> {
        match F::decoding(texts) {
            Some(v) => Some(((), v)),
            None => None,
        }
    }

    fn serialize(&self) -> (texts: [String; N]) {
        self.1.serialize()
    }

    fn deserialize(s: [&str; N]) -> (value: Result<Self, Self::DeserializeError>)
        ensures
            value matches Err(e) ==> call_ensures(
                F::deserialize,
                (s,),
                Err::<F, F::DeserializeError>(e),
            ),
    {
        match F::deserialize(s) {
            Ok(v) => Ok((Value, v)),
            Err(e) => Err(e),
        }
    }
}

/// Whether a value is read back from its own texts.
pub open spec fn round_trips<T: Field<N>, const N: usize>(value: T::V) -> bool {
    T::decoding(T::encoding(value)) == Some(value)
}

/// Texts of which one is blank read as the absent value, whatever the
/// others hold.
pub proof fn lemma_blank_reads_as_absent<T: Field<N>, const N: usize>(texts: Seq<Seq<char>>)
    requires
        has_blank(texts),
    ensures
        <Option<T> as Field<N>>::decoding(texts) == Some(None::<T::V>),
{
}

/// The absent value is read back from its texts, which are all blank; and
/// a present value is, where it is read back as itself and none of its
/// texts is blank.
pub proof fn lemma_option_round_trips<T: Field<N>, const N: usize>(value: Option<T::V>)
    requires
        N > 0,
        value matches Some(v) ==> round_trips::<T, N>(v) && !has_blank(T::encoding(v)),
    ensures
        round_trips::<Option<T>, N>(value),
{
    if value is None {
        let texts = <Option<T> as Field<N>>::encoding(value);
        assert(texts[0].len() == 0);
    }
}

/// A marked value is read back from its texts where the value itself is.
pub proof fn lemma_marked_round_trips<F: Field<N>, const N: usize>(value: F::V)
    requires
        round_trips::<F, N>(value),
    ensures
        round_trips::<(Key, F), N>(((), value)),
        round_trips::<(Value, F), N>(((), value)),
{
}

} // verus!
