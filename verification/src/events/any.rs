//! Arguments of custom events.

use std::any::Any;
use std::sync::Arc;
use vstd::prelude::*;
use vstd::std_specs::convert::{FromSpec, FromSpecImpl};

verus! {

/// A shared read-only value of any type, for arguments that are neither text
/// nor a number nor a character. Its content is not part of any contract.
#[verifier::external_body]
#[derive(Debug)]
pub struct SharedPayload {
    inner: Arc<dyn Any + Send + Sync>,
}

impl Clone for SharedPayload {
    /// `Arc::clone`: another handle to the same value.
    #[verifier::external_body]
    fn clone(&self) -> SharedPayload {
        SharedPayload { inner: self.inner.clone() }
    }
}

/// `Arc::new`, followed by the coercion to a payload of unknown type.
#[verifier::external_body]
fn share<T: Send + Sync + 'static>(value: T) -> SharedPayload {
    SharedPayload { inner: Arc::new(value) }
}

/// `Arc::downcast`: the value, if `T` is the type that the payload was built
/// from.
#[verifier::external_body]
fn downcast<T: Send + Sync + 'static>(payload: SharedPayload) -> Option<Arc<T>> {
    match payload.inner.downcast::<T>() {
        Ok(value) => Some(value),
        Err(_) => None,
    }
}

impl SharedPayload {
    /// Wraps `value` for sharing.
    pub fn new<T: Send + Sync + 'static>(value: T) -> SharedPayload {
        share(value)
    }

    /// The value, if it is of type `T`.
    pub fn get<T: Send + Sync + 'static>(&self) -> Option<Arc<T>> {
        downcast(self.clone())
    }
}

/// One argument of a custom event. A carrier: built once, never changed,
/// never compared.
#[derive(Clone, Debug)]
pub enum AnyType {
    AnyString(String),
    AnyInt(u64),
    /// A 64-bit float, held as its IEEE 754 bit pattern.
    AnyFloat(u64),
    AnyChar(char),
    /// A shared read-only payload of any other type.
    AnyCustom(SharedPayload),
}

impl AnyType {
    /// The integer that this argument carries, if it carries one.
    pub fn as_int(&self) -> (value: Option<u64>)
        ensures
            value == (match *self {
                AnyType::AnyInt(n) => Some(n),
                _ => None,
            }),
    {
        match self {
            AnyType::AnyInt(n) => Some(*n),
            _ => None,
        }
    }
}

impl From<String> for AnyType {
    fn from(other: String) -> (value: AnyType) {
        AnyType::AnyString(other)
    }
}

impl FromSpecImpl<String> for AnyType {
    open spec fn obeys_from_spec() -> bool {
        true
    }

    open spec fn from_spec(other: String) -> AnyType {
        AnyType::AnyString(other)
    }
}

impl<'a> From<&'a str> for AnyType {
    fn from(other: &'a str) -> (value: AnyType)
        ensures
            value matches AnyType::AnyString(text) && text@ == other@,
    {
        AnyType::AnyString(other.to_owned())
    }
}

impl<'a> FromSpecImpl<&'a str> for AnyType {
    /// A string slice is copied into a new string, which no value names
    /// before the call: `from` states its result itself.
    open spec fn obeys_from_spec() -> bool {
        false
    }

    open spec fn from_spec(other: &'a str) -> AnyType {
        arbitrary()
    }
}

impl From<usize> for AnyType {
    fn from(other: usize) -> (value: AnyType) {
        AnyType::AnyInt(other as u64)
    }
}

impl FromSpecImpl<usize> for AnyType {
    open spec fn obeys_from_spec() -> bool {
        true
    }

    open spec fn from_spec(other: usize) -> AnyType {
        AnyType::AnyInt(other as u64)
    }
}

impl From<u8> for AnyType {
    fn from(other: u8) -> (value: AnyType) {
        AnyType::AnyInt(other as u64)
    }
}

impl FromSpecImpl<u8> for AnyType {
    open spec fn obeys_from_spec() -> bool {
        true
    }

    open spec fn from_spec(other: u8) -> AnyType {
        AnyType::AnyInt(other as u64)
    }
}

impl From<u16> for AnyType {
    fn from(other: u16) -> (value: AnyType) {
        AnyType::AnyInt(other as u64)
    }
}

impl FromSpecImpl<u16> for AnyType {
    open spec fn obeys_from_spec() -> bool {
        true
    }

    open spec fn from_spec(other: u16) -> AnyType {
        AnyType::AnyInt(other as u64)
    }
}

impl From<u32> for AnyType {
    fn from(other: u32) -> (value: AnyType) {
        AnyType::AnyInt(other as u64)
    }
}

impl FromSpecImpl<u32> for AnyType {
    open spec fn obeys_from_spec() -> bool {
        true
    }

    open spec fn from_spec(other: u32) -> AnyType {
        AnyType::AnyInt(other as u64)
    }
}

impl From<u64> for AnyType {
    fn from(other: u64) -> (value: AnyType) {
        AnyType::AnyInt(other)
    }
}

impl FromSpecImpl<u64> for AnyType {
    open spec fn obeys_from_spec() -> bool {
        true
    }

    open spec fn from_spec(other: u64) -> AnyType {
        AnyType::AnyInt(other)
    }
}

impl From<char> for AnyType {
    fn from(other: char) -> (value: AnyType) {
        AnyType::AnyChar(other)
    }
}

impl FromSpecImpl<char> for AnyType {
    open spec fn obeys_from_spec() -> bool {
        true
    }

    open spec fn from_spec(other: char) -> AnyType {
        AnyType::AnyChar(other)
    }
}

/// Widening keeps the number: an argument built from a narrow integer is
/// the argument built from the same number in 64 bits.
pub proof fn lemma_widening_keeps_value(byte: u8, short: u16, word: u32, size: usize)
    ensures
        <AnyType as FromSpec<u8>>::from_spec(byte) == <AnyType as FromSpec<u64>>::from_spec(
            byte as u64,
        ),
        <AnyType as FromSpec<u16>>::from_spec(short) == <AnyType as FromSpec<u64>>::from_spec(
            short as u64,
        ),
        <AnyType as FromSpec<u32>>::from_spec(word) == <AnyType as FromSpec<u64>>::from_spec(
            word as u64,
        ),
        <AnyType as FromSpec<usize>>::from_spec(size) == <AnyType as FromSpec<u64>>::from_spec(
            size as u64,
        ),
        <AnyType as FromSpec<u8>>::from_spec(byte)->AnyInt_0 as int == byte as int,
        <AnyType as FromSpec<u16>>::from_spec(short)->AnyInt_0 as int == short as int,
        <AnyType as FromSpec<u32>>::from_spec(word)->AnyInt_0 as int == word as int,
        <AnyType as FromSpec<usize>>::from_spec(size)->AnyInt_0 as int == size as int,
{
}

} // verus!
