//! The wire envelope and its payload model. The payload of an envelope is a
//! JSON value on the wire; the library models of it exactly what the protocol
//! reads: whether it is absent (or null), an object carrying a `newName`
//! string field (any extra fields are ignored by the boundary converter and
//! never reach the library), or anything else.

use vstd::prelude::*;

verus! {

/// What the protocol reads of an envelope's JSON payload.
#[derive(Clone, PartialEq, Eq, Debug)]
pub enum Payload {
    /// The payload is absent or JSON null.
    Absent,
    /// The payload is a JSON object holding a `newName` string field; the
    /// carried string is that field's value.
    NewName(String),
    /// The payload is any other JSON value: it matches no variant's shape.
    Other,
}

/// The mathematical model of a payload.
pub enum PayloadModel {
    Absent,
    NewName(Seq<char>),
    Other,
}

impl View for Payload {
    type V = PayloadModel;

    open spec fn view(&self) -> PayloadModel {
        match self {
            Payload::Absent => PayloadModel::Absent,
            Payload::NewName(s) => PayloadModel::NewName(s@),
            Payload::Other => PayloadModel::Other,
        }
    }
}

/// A wire envelope: a composite `"domain/bareType"` tag and a payload.
#[derive(Clone, PartialEq, Eq, Debug)]
pub struct Envelope {
    pub tag: String,
    pub payload: Payload,
}

/// The mathematical model of an envelope.
pub struct EnvelopeModel {
    pub tag: Seq<char>,
    pub payload: PayloadModel,
}

impl View for Envelope {
    type V = EnvelopeModel;

    open spec fn view(&self) -> EnvelopeModel {
        EnvelopeModel { tag: self.tag@, payload: self.payload@ }
    }
}

/// Why an envelope payload failed to decode into a domain's tagged union.
#[derive(Clone, Copy, PartialEq, Eq, Structural, Debug)]
pub enum DecodeError {
    /// The bare type names no variant of the domain's union.
    UnknownType,
    /// The payload's shape does not match what the named variant carries.
    PayloadMismatch,
}

/// The model of the fixed no-operation response: returned whenever an
/// envelope cannot be routed or decoded.
pub open spec fn no_op_model() -> EnvelopeModel {
    EnvelopeModel { tag: "noOperation/noOperation"@, payload: PayloadModel::Absent }
}

/// Builds the fixed no-operation response envelope.
pub fn no_operation_envelope() -> (r: Envelope)
    ensures
        r@ == no_op_model(),
{
    Envelope { tag: "noOperation/noOperation".to_owned(), payload: Payload::Absent }
}

} // verus!
