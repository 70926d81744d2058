//! Hash functions over the scalar field.
use crate::error::SynthesisError;
use vstd::prelude::*;

pub mod mimc7;

verus! {

/// A hash of inputs of any length.
pub trait CRHScheme {
    type Input: ?Sized;

    type Output;

    type Parameters;

    /// Whether an input can be hashed.
    spec fn hashable(input: &Self::Input) -> bool;

    /// Whether `output` is the hash of `input`.
    spec fn is_hash(parameters: &Self::Parameters, input: &Self::Input, output: &Self::Output) -> bool;

    /// The hash of an input.
    fn evaluate(parameters: &Self::Parameters, input: &Self::Input) -> (r: Result<
        Self::Output,
        SynthesisError,
    >)
        requires
            Self::hashable(input),
        ensures
            r matches Ok(h) && Self::is_hash(parameters, input, &h),
    ;
}

/// A hash of two inputs into one output, which can be hashed on.
pub trait TwoToOneCRHScheme {
    type Input;

    type Output;

    type Parameters;

    /// Whether `output` is the hash of the two inputs.
    spec fn is_hash_of_inputs(
        parameters: &Self::Parameters,
        left: &Self::Input,
        right: &Self::Input,
        output: &Self::Output,
    ) -> bool;

    /// Whether `output` is the hash of the two outputs.
    spec fn is_hash_of_outputs(
        parameters: &Self::Parameters,
        left: &Self::Output,
        right: &Self::Output,
        output: &Self::Output,
    ) -> bool;

    /// The hash of two inputs.
    fn evaluate(parameters: &Self::Parameters, left_input: &Self::Input, right_input: &Self::Input) -> (r:
        Result<Self::Output, SynthesisError>)
        ensures
            r matches Ok(h) && Self::is_hash_of_inputs(parameters, left_input, right_input, &h),
    ;

    /// The hash of two outputs.
    fn compress(parameters: &Self::Parameters, left_input: &Self::Output, right_input: &Self::Output) -> (r:
        Result<Self::Output, SynthesisError>)
        ensures
            r matches Ok(h) && Self::is_hash_of_outputs(parameters, left_input, right_input, &h),
    ;
}

} // verus!
