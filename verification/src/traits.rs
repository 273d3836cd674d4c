//! What the engine asks of the inputs it works on. An input is opaque to the
//! engine: it is parsed from bytes, serialized to bytes, rendered as text,
//! duplicated and mutated, and nothing else.
//!
//! The contracts speak of an input as a mathematical value, so that they
//! can say when two inputs are the same. A type that is not verified keeps
//! the bodies that the spec functions have here and implements the
//! executable methods alone.

use crate::mutator::Mutator;
use crate::mutator::MutatorView;
use vstd::prelude::*;

verus! {

/// Conversion between an input of the fuzzer and its bytes.
pub trait Corpus: Sized {
    /// The input as a mathematical value.
    type Value;

    /// The value of this input.
    open spec fn value(&self) -> Self::Value {
        arbitrary()
    }

    /// The value that a buffer parses to, if any.
    open spec fn parsed(buf: Seq<u8>) -> Option<Self::Value> {
        arbitrary()
    }

    /// The bytes of an input.
    open spec fn serialized(value: Self::Value) -> Seq<u8> {
        arbitrary()
    }

    /// The bytes of an input with its derived fields made final.
    open spec fn built(value: Self::Value) -> Seq<u8> {
        arbitrary()
    }

    /// The text that shows an input to a reader.
    open spec fn shown(value: Self::Value) -> Seq<char> {
        arbitrary()
    }

    /// Parses the bytes to an input.
    fn from_bytes(buf: Vec<u8>) -> (item: Option<Self>)
        ensures
            item.is_some() == Self::parsed(buf@).is_some(),
            item matches Some(corpus) ==> Self::parsed(buf@) == Some(corpus.value()),
    ;

    /// Returns the bytes of the input. The bytes parse, and to an input
    /// with the same bytes.
    fn to_bytes(self) -> (buf: Vec<u8>)
        ensures
            buf@ == Self::serialized(self.value()),
            Self::parsed(buf@) matches Some(again) && Self::serialized(again) == buf@,
    ;

    /// Makes the derived fields final, such as checksums and lengths, and
    /// returns the bytes.
    fn build(self) -> (buf: Vec<u8>)
        ensures
            buf@ == Self::built(self.value()),
    ;

    /// Returns a human readable representation of the input.
    fn show(&self) -> (text: String)
        ensures
            text@ == Self::shown(self.value()),
    ;

    /// Returns an input with the same value.
    fn duplicate(&self) -> (copy: Self)
        ensures
            copy.value() == self.value(),
    ;
}

/// The mutation of an input.
pub trait Mutable: Corpus {
    /// The value that a mutation leaves, and the state it leaves the
    /// mutator in.
    open spec fn mutated(value: Self::Value, mutator: MutatorView) -> (Self::Value, MutatorView) {
        arbitrary()
    }

    /// Mutates the input in place. Every random decision is drawn from the
    /// mutator.
    fn mutate(&mut self, mutator: &mut Mutator)
        ensures
            (final(self).value(), final(mutator)@) == Self::mutated(
                old(self).value(),
                old(mutator)@,
            ),
    ;
}

} // verus!
