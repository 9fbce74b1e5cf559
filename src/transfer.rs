//! Values that travel as the single pointer-sized datum of a context switch.
use vstd::prelude::*;

verus! {

/// A value that converts to and from the datum of a switch.
pub trait TransferableData: Sized {
    /// The datum that stands for `self`.
    spec fn datum(&self) -> usize;

    /// Is `value` the datum of some value of this type?
    spec fn is_datum(value: usize) -> bool;

    /// Different values have different data, and every value's datum is one.
    proof fn lemma_datum_injective(a: Self, b: Self)
        ensures
            a.datum() == b.datum() ==> a == b,
            Self::is_datum(a.datum()),
    ;

    /// The datum that stands for `self`.
    fn into_usize(self) -> (r: usize)
        ensures
            r == self.datum(),
    ;

    /// The value that `value` stands for.
    fn from_usize(value: usize) -> (r: Self)
        requires
            Self::is_datum(value),
        ensures
            r.datum() == value,
    ;
}

impl TransferableData for u8 {
    open spec fn datum(&self) -> usize {
        *self as usize
    }

    open spec fn is_datum(value: usize) -> bool {
        value <= u8::MAX
    }

    proof fn lemma_datum_injective(a: Self, b: Self) {
    }

    fn into_usize(self) -> (r: usize) {
        self as usize
    }

    fn from_usize(value: usize) -> (r: Self) {
        value as u8
    }
}

impl TransferableData for u16 {
    open spec fn datum(&self) -> usize {
        *self as usize
    }

    open spec fn is_datum(value: usize) -> bool {
        value <= u16::MAX
    }

    proof fn lemma_datum_injective(a: Self, b: Self) {
    }

    fn into_usize(self) -> (r: usize) {
        self as usize
    }

    fn from_usize(value: usize) -> (r: Self) {
        value as u16
    }
}

impl TransferableData for u32 {
    open spec fn datum(&self) -> usize {
        *self as usize
    }

    open spec fn is_datum(value: usize) -> bool {
        value <= u32::MAX
    }

    proof fn lemma_datum_injective(a: Self, b: Self) {
    }

    fn into_usize(self) -> (r: usize) {
        self as usize
    }

    fn from_usize(value: usize) -> (r: Self) {
        value as u32
    }
}

impl TransferableData for usize {
    open spec fn datum(&self) -> usize {
        *self
    }

    open spec fn is_datum(value: usize) -> bool {
        true
    }

    proof fn lemma_datum_injective(a: Self, b: Self) {
    }

    fn into_usize(self) -> (r: usize) {
        self
    }

    fn from_usize(value: usize) -> (r: Self) {
        value
    }
}

impl TransferableData for bool {
    open spec fn datum(&self) -> usize {
        if *self { 1 } else { 0 }
    }

    open spec fn is_datum(value: usize) -> bool {
        value <= 1
    }

    proof fn lemma_datum_injective(a: Self, b: Self) {
    }

    fn into_usize(self) -> (r: usize) {
        if self { 1 } else { 0 }
    }

    fn from_usize(value: usize) -> (r: Self) {
        value != 0
    }
}

impl TransferableData for () {
    open spec fn datum(&self) -> usize {
        0
    }

    open spec fn is_datum(value: usize) -> bool {
        value == 0
    }

    proof fn lemma_datum_injective(a: Self, b: Self) {
    }

    fn into_usize(self) -> (r: usize) {
        0
    }

    fn from_usize(value: usize) -> (r: Self) {
        ()
    }
}

/// A value sent as a datum comes back unchanged.
pub proof fn lemma_datum_round_trip<T: TransferableData>(value: T, received: T)
    requires
        received.datum() == value.datum(),
    ensures
        received == value,
{
    T::lemma_datum_injective(value, received);
}

} // verus!
