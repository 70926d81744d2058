//! The errors of setup, proving and verification.
use vstd::prelude::*;

verus! {

/// Why a call could not be carried out. A proof that is merely wrong is not
/// an error: verification then answers `Ok(false)`.
#[derive(Clone, Copy, Debug, PartialEq, Eq, Structural)]
pub enum SynthesisError {
    /// The circuit's shape disagrees with the key's.
    ConstraintShapeMismatch,
    /// A variable has no value where one was required.
    AssignmentMissing,
    /// The number of public inputs and committed witnesses disagrees with the key.
    MalformedVerifyingKey,
    /// Bytes do not decode to a field or group element.
    SerializationError,
    /// A pairing degenerated, or setup met a trapdoor without inverse.
    UnexpectedIdentity,
    /// The circuit has more constraints than the field has room for in an
    /// evaluation domain.
    PolynomialDegreeTooLarge,
    /// The assignment does not meet every constraint, so no quotient
    /// polynomial exists.
    Unsatisfiable,
    /// A ciphertext holds no message within the bound that was searched.
    MessageOutOfRange,
}

impl SynthesisError {
    /// The message that goes with the error.
    pub fn message(&self) -> (s: &'static str)
        ensures
            s@ == self.spec_message(),
    {
        match self {
            SynthesisError::ConstraintShapeMismatch => "the circuit does not have the shape of the key",
            SynthesisError::AssignmentMissing => "an assignment for a variable could not be computed",
            SynthesisError::MalformedVerifyingKey => "malformed verifying key",
            SynthesisError::SerializationError => "the bytes do not encode a valid element",
            SynthesisError::UnexpectedIdentity => "encountered an identity element in the CRS",
            SynthesisError::PolynomialDegreeTooLarge => "polynomial degree is too large",
            SynthesisError::Unsatisfiable => "unsatisfiable constraint system",
            SynthesisError::MessageOutOfRange => "no message within the bound",
        }
    }

    /// The text of [`SynthesisError::message`].
    pub open spec fn spec_message(&self) -> Seq<char> {
        match self {
            SynthesisError::ConstraintShapeMismatch => "the circuit does not have the shape of the key"@,
            SynthesisError::AssignmentMissing => "an assignment for a variable could not be computed"@,
            SynthesisError::MalformedVerifyingKey => "malformed verifying key"@,
            SynthesisError::SerializationError => "the bytes do not encode a valid element"@,
            SynthesisError::UnexpectedIdentity => "encountered an identity element in the CRS"@,
            SynthesisError::PolynomialDegreeTooLarge => "polynomial degree is too large"@,
            SynthesisError::Unsatisfiable => "unsatisfiable constraint system"@,
            SynthesisError::MessageOutOfRange => "no message within the bound"@,
        }
    }
}

} // verus!
