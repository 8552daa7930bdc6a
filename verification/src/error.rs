//! What can go wrong with a proof request.

use crate::decimal::{decimal_string, decimal_text};
use vstd::prelude::*;
use vstd::string::StringExecFns;

verus! {

/// A field of a proof request.
#[derive(Clone, Copy, Debug, PartialEq, Eq, Structural)]
pub enum Field {
    Value,
    Position,
    SpendingKey,
    Nsk,
    Rcv,
    Alpha,
    Anchor,
    /// The sibling at the given index of the Merkle path.
    MerklePathElement(usize),
    Rcm,
    Diversifier,
    PkD,
    Esk,
    /// The diversifier and the transmission key, read together as an address.
    Address,
}

/// Why a request was turned down.
#[derive(Clone, Copy, Debug, PartialEq, Eq, Structural)]
pub enum ProofError {
    /// The field is not a decimal number that fits in 64 bits.
    Parse(Field),
    /// The field does not have the length that its kind requires.
    Length(Field),
    /// The field has the right length but does not encode a valid element.
    InvalidEncoding(Field),
    /// The Merkle path does not have as many siblings as the tree is deep.
    PathConstruction,
    /// The proving backend declined the witness.
    Proving,
}

/// The number of bytes that a byte field must have.
pub open spec fn required_length(field: Field) -> nat {
    match field {
        Field::Diversifier => 11,
        _ => 32,
    }
}

/// How a message calls a field.
pub open spec fn field_name(field: Field) -> Seq<char> {
    match field {
        Field::Value => "value"@,
        Field::Position => "position"@,
        Field::SpendingKey => "spending_key (ask)"@,
        Field::Nsk => "nsk"@,
        Field::Rcv => "rcv"@,
        Field::Alpha => "alpha"@,
        Field::Anchor => "anchor"@,
        Field::MerklePathElement(i) => "Merkle path element "@ + decimal_text(i as nat),
        Field::Rcm => "rcm"@,
        Field::Diversifier => "diversifier"@,
        Field::PkD => "pk_d"@,
        Field::Esk => "esk"@,
        Field::Address => "payment address"@,
    }
}

/// The message that tells a client of the error.
pub open spec fn message_text(error: ProofError) -> Seq<char> {
    match error {
        ProofError::Parse(field) => "Invalid "@ + field_name(field),
        ProofError::Length(field) => field_name(field) + (match field {
            Field::Diversifier => " must be 11 bytes"@,
            Field::Esk => " must be 32 bytes if provided"@,
            _ => " must be 32 bytes"@,
        }),
        ProofError::InvalidEncoding(field) => match field {
            Field::MerklePathElement(i) => "Invalid merkle path element "@ + decimal_text(i as nat)
                + " - not a valid commitment"@,
            Field::Address => "Failed to create payment address from bytes"@,
            Field::Anchor => "Invalid scalar: anchor"@,
            _ => "Invalid field element: "@ + field_name(field),
        },
        ProofError::PathConstruction =>
            "Failed to create MerklePath - invalid position or path length"@,
        ProofError::Proving => "Proof generation failed - check inputs (anchor, merkle path, etc.)"@,
    }
}

impl Field {
    /// How a message calls this field.
    pub fn name(&self) -> (r: String)
        ensures
            r@ == field_name(*self),
    {
        match self {
            Field::Value => String::from_str("value"),
            Field::Position => String::from_str("position"),
            Field::SpendingKey => String::from_str("spending_key (ask)"),
            Field::Nsk => String::from_str("nsk"),
            Field::Rcv => String::from_str("rcv"),
            Field::Alpha => String::from_str("alpha"),
            Field::Anchor => String::from_str("anchor"),
            Field::MerklePathElement(i) => {
                let index = decimal_string(*i);
                String::from_str("Merkle path element ").concat(index.as_str())
            },
            Field::Rcm => String::from_str("rcm"),
            Field::Diversifier => String::from_str("diversifier"),
            Field::PkD => String::from_str("pk_d"),
            Field::Esk => String::from_str("esk"),
            Field::Address => String::from_str("payment address"),
        }
    }
}

impl ProofError {
    /// The message that tells a client of this error. It names the class of
    /// the error and the field at fault, and nothing of the backend's state.
    pub fn message(&self) -> (r: String)
        ensures
            r@ == message_text(*self),
    {
        match self {
            ProofError::Parse(field) => {
                let name = field.name();
                String::from_str("Invalid ").concat(name.as_str())
            },
            ProofError::Length(field) => {
                let name = field.name();
                match field {
                    Field::Diversifier => name.concat(" must be 11 bytes"),
                    Field::Esk => name.concat(" must be 32 bytes if provided"),
                    _ => name.concat(" must be 32 bytes"),
                }
            },
            ProofError::InvalidEncoding(field) => match field {
                Field::MerklePathElement(i) => {
                    let index = decimal_string(*i);
                    String::from_str("Invalid merkle path element ").concat(index.as_str()).concat(
                        " - not a valid commitment",
                    )
                },
                Field::Address => String::from_str("Failed to create payment address from bytes"),
                Field::Anchor => String::from_str("Invalid scalar: anchor"),
                _ => {
                    let name = field.name();
                    String::from_str("Invalid field element: ").concat(name.as_str())
                },
            },
            ProofError::PathConstruction => String::from_str(
                "Failed to create MerklePath - invalid position or path length",
            ),
            ProofError::Proving => String::from_str(
                "Proof generation failed - check inputs (anchor, merkle path, etc.)",
            ),
        }
    }
}

} // verus!
