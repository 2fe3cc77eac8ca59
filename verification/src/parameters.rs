//! The last received vehicle-parameter payload and the cruise-control
//! literals that are searched for and spliced in it.

use vstd::prelude::*;
use vstd::string::StringSliceAdditionalSpecFns;
use vstd::utf8::valid_utf8;
use crate::text::{
    contains, find, lemma_first_occurrence_none, lemma_first_occurrence_unique, occurs_at,
    replace_first, replaced_first,
};

verus! {

/// The number of bytes that the parameter buffer can hold.
pub const PARAMETERS_CAPACITY: usize = 1024;

/// `heapless::String`: a text buffer of fixed capacity, `N` bytes.
#[verifier::external_type_specification]
#[verifier::external_body]
pub struct ExBoundedString<const N: usize>(heapless::String<N>);

/// The bytes that a bounded string holds, in order.
pub uninterp spec fn held_bytes(buffer: heapless::String<1024>) -> Seq<u8>;

/// `heapless::String::new`: the new string holds nothing.
#[verifier::external_body]
fn buffer_new() -> (buffer: heapless::String<1024>)
    ensures
        held_bytes(buffer) == Seq::<u8>::empty(),
{
    heapless::String::new()
}

/// `heapless::String::clear`: afterwards the string holds nothing.
#[verifier::external_body]
fn buffer_clear(buffer: &mut heapless::String<1024>)
    ensures
        held_bytes(*final(buffer)) == Seq::<u8>::empty(),
{
    buffer.clear()
}

/// `heapless::String::push_str`: where the bytes of `s` fit behind what the
/// string holds, they are appended; where they do not, the call fails and the
/// string is left as it was.
#[verifier::external_body]
fn buffer_push_str(buffer: &mut heapless::String<1024>, s: &str) -> (pushed: Result<(), ()>)
    ensures
        pushed is Ok <==> held_bytes(*old(buffer)).len() + s.spec_bytes().len() <= 1024,
        pushed is Ok ==> held_bytes(*final(buffer)) == held_bytes(*old(buffer)) + s.spec_bytes(),
        pushed is Err ==> held_bytes(*final(buffer)) == held_bytes(*old(buffer)),
{
    buffer.push_str(s)
}

/// `heapless::String::as_str`: the text that the string holds, which is never
/// longer than the string's capacity.
#[verifier::external_body]
fn buffer_as_str(buffer: &heapless::String<1024>) -> (s: &str)
    ensures
        s.spec_bytes() == held_bytes(*buffer),
        s.spec_bytes().len() <= 1024,
{
    buffer.as_str()
}

/// `core::str::from_utf8`: the bytes as text, where they are well-formed
/// UTF-8, and nothing where they are not.
#[verifier::external_body]
fn text_of(bytes: &[u8]) -> (text: Option<&str>)
    ensures
        text is Some <==> valid_utf8(bytes@),
        text matches Some(s) ==> s.spec_bytes() == bytes@,
{
    match core::str::from_utf8(bytes) {
        Ok(s) => Some(s),
        Err(_) => None,
    }
}

/// The literal whose presence in a payload means that cruise control is on:
/// `"CruiseControl":true`, quotes included.
pub open spec fn cruise_on() -> Seq<u8> {
    "\"CruiseControl\":true".spec_bytes()
}

/// The literal that the brake override puts in its place:
/// `"CruiseControl":false`, quotes included.
pub open spec fn cruise_off() -> Seq<u8> {
    "\"CruiseControl\":false".spec_bytes()
}

/// What is kept of a payload that is not well-formed UTF-8.
pub open spec fn unreadable() -> Seq<u8> {
    "<invalid>".spec_bytes()
}

/// The lengths of the three literals.
pub proof fn lemma_literal_lengths()
    ensures
        cruise_on().len() == 20,
        cruise_off().len() == 21,
        unreadable().len() == 9,
{
    reveal_strlit("\"CruiseControl\":true");
    reveal_strlit("\"CruiseControl\":false");
    reveal_strlit("<invalid>");
    vstd::string::is_ascii_spec_bytes("\"CruiseControl\":true");
    vstd::string::is_ascii_spec_bytes("\"CruiseControl\":false");
    vstd::string::is_ascii_spec_bytes("<invalid>");
}

/// A payload as the node reads it: the payload itself where it is well-formed
/// UTF-8, a fixed marker where it is not.
pub open spec fn readable(payload: Seq<u8>) -> Seq<u8> {
    if valid_utf8(payload) {
        payload
    } else {
        unreadable()
    }
}

/// What the parameter buffer holds after `payload` was received: the readable
/// payload, or nothing where that is longer than the buffer.
pub open spec fn kept(payload: Seq<u8>) -> Seq<u8> {
    if readable(payload).len() <= PARAMETERS_CAPACITY {
        readable(payload)
    } else {
        Seq::empty()
    }
}

/// A payload after the brake override: its leftmost cruise-on literal is
/// replaced by the cruise-off literal; a payload without one is unchanged.
pub open spec fn brake_override(payload: Seq<u8>) -> Seq<u8> {
    replaced_first(payload, cruise_on(), cruise_off())
}

/// The most recently received vehicle-parameter payload, kept verbatim in a
/// buffer of `PARAMETERS_CAPACITY` bytes.
pub struct VehicleParameters {
    buffer: heapless::String<1024>,
}

impl View for VehicleParameters {
    type V = Seq<u8>;

    closed spec fn view(&self) -> Seq<u8> {
        held_bytes(self.buffer)
    }
}

impl VehicleParameters {
    /// The buffer before anything was received.
    pub fn new() -> (params: VehicleParameters)
        ensures
            params@ == Seq::<u8>::empty(),
    {
        VehicleParameters { buffer: buffer_new() }
    }

    /// Overwrites the buffer with a received payload.
    pub fn store(&mut self, payload: &[u8])
        ensures
            final(self)@ == kept(payload@),
            final(self)@.len() <= PARAMETERS_CAPACITY,
    {
        let text: &str = match text_of(payload) {
            Some(s) => s,
            None => "<invalid>",
        };
        buffer_clear(&mut self.buffer);
        let _ = buffer_push_str(&mut self.buffer, text);
    }

    /// The bytes that the buffer holds.
    pub fn as_bytes(&self) -> (bytes: &[u8])
        ensures
            bytes@ == self@,
            bytes@.len() <= PARAMETERS_CAPACITY,
    {
        buffer_as_str(&self.buffer).as_bytes()
    }

    /// Tells whether nothing is held.
    pub fn is_empty(&self) -> (empty: bool)
        ensures
            empty == (self@.len() == 0),
    {
        self.as_bytes().len() == 0
    }
}

/// Tells whether a received payload asks for cruise control: whether its
/// readable form holds the cruise-on literal.
pub fn cruise_control_requested(payload: &[u8]) -> (on: bool)
    ensures
        on == contains(readable(payload@), cruise_on()),
{
    let text: &str = match text_of(payload) {
        Some(s) => s,
        None => "<invalid>",
    };
    find(text.as_bytes(), "\"CruiseControl\":true".as_bytes()).is_some()
}

/// The payload that the brake override publishes for `params`.
pub fn override_payload(params: &[u8]) -> (out: Vec<u8>)
    ensures
        out@ == brake_override(params@),
{
    replace_first(
        params,
        "\"CruiseControl\":true".as_bytes(),
        "\"CruiseControl\":false".as_bytes(),
    )
}

/// A payload that holds the cruise-on literal exactly once, at offset `at`,
/// comes out of the brake override with that literal replaced by the
/// cruise-off literal and every other byte as it was: the bytes before it
/// stay in place, the bytes behind it move up by one, and the whole is one
/// byte longer.
pub proof fn lemma_override_replaces_the_literal(payload: Seq<u8>, at: int)
    requires
        occurs_at(payload, cruise_on(), at),
        forall|j: int| occurs_at(payload, cruise_on(), j) ==> j == at,
    ensures
        brake_override(payload) == payload.subrange(0, at) + cruise_off() + payload.subrange(
            at + 20,
            payload.len() as int,
        ),
        brake_override(payload).len() == payload.len() + 1,
        occurs_at(brake_override(payload), cruise_off(), at),
        forall|i: int| 0 <= i < at ==> brake_override(payload)[i] == payload[i],
        forall|i: int|
            at + 20 <= i < payload.len() ==> brake_override(payload)[i + 1] == payload[i],
{
    lemma_literal_lengths();
    assert(crate::text::is_first_occurrence(payload, cruise_on(), at));
    lemma_first_occurrence_unique(payload, cruise_on(), at);
    let out = brake_override(payload);
    assert(out.subrange(at, at + cruise_off().len()) =~= cruise_off());
}

/// A payload without the cruise-on literal comes out of the brake override
/// unchanged.
pub proof fn lemma_override_keeps_other_payloads(payload: Seq<u8>)
    requires
        !contains(payload, cruise_on()),
    ensures
        brake_override(payload) == payload,
{
    lemma_first_occurrence_none(payload, cruise_on());
}

} // verus!
