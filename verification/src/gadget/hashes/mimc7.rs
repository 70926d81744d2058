//! The MiMC-7 hash: a block cipher whose round raises to the seventh power,
//! used in the Miyaguchi-Preneel mode.
use crate::error::SynthesisError;
use crate::gadget::hashes::{CRHScheme, TwoToOneCRHScheme};
use crate::field::{fr_modulus, fr_product, fr_sum, fr_views, Fr};
use vstd::arithmetic::power::pow;
use vstd::prelude::*;

pub mod parameters;

verus! {

/// The round constants of the cipher. The first one is never used: the first
/// round adds zero.
#[derive(Clone, Debug, PartialEq, Eq)]
pub struct Parameters {
    pub round_constants: Vec<Fr>,
}

impl View for Parameters {
    type V = Seq<nat>;

    open spec fn view(&self) -> Seq<nat> {
        fr_views(self.round_constants@)
    }
}

impl Default for Parameters {
    /// Parameters without a round constant: the cipher then has no round.
    fn default() -> (r: Parameters)
        ensures
            r.round_constants@ == Seq::<Fr>::empty(),
    {
        Parameters { round_constants: Vec::new() }
    }
}

/// `x^7` in the field.
pub open spec fn fr_pow7(x: nat) -> nat {
    (pow(x as int, 7) % (fr_modulus() as int)) as nat
}

/// One round of the cipher: `(xl + xr + rc)^7`.
pub open spec fn mimc_round(xl: nat, xr: nat, rc: nat) -> nat {
    fr_pow7(fr_sum(fr_sum(xl, xr), rc))
}

/// The state of the cipher after the first round, which adds zero, and the
/// rounds with the constants `rc[1]` up to `rc[n - 1]`.
pub open spec fn mimc_rounds(rc: Seq<nat>, xl: nat, xr: nat, n: nat) -> nat
    decreases n,
{
    if n <= 1 {
        mimc_round(xl, xr, 0)
    } else {
        mimc_round(mimc_rounds(rc, xl, xr, (n - 1) as nat), xr, rc[n - 1])
    }
}

/// The cipher: all rounds, then the key once more.
pub open spec fn mimc_encrypt(rc: Seq<nat>, xl: nat, xr: nat) -> nat {
    fr_sum(mimc_rounds(rc, xl, xr, rc.len()), xr)
}

/// The compression of two field elements: the cipher's output plus both
/// inputs.
pub open spec fn mimc_compress(rc: Seq<nat>, left: nat, right: nat) -> nat {
    fr_sum(fr_sum(mimc_encrypt(rc, left, right), left), right)
}

/// The hash of the first `n` elements of `input`, for `n` at least 2: the
/// elements are compressed into the first one from left to right.
pub open spec fn mimc_absorb(rc: Seq<nat>, input: Seq<nat>, n: nat) -> nat
    decreases n,
{
    if n <= 1 {
        input[0]
    } else {
        mimc_compress(rc, mimc_absorb(rc, input, (n - 1) as nat), input[n - 1])
    }
}

/// The hash of a nonempty input. A single element is compressed with itself.
pub open spec fn mimc_hash(rc: Seq<nat>, input: Seq<nat>) -> nat {
    if input.len() == 1 {
        mimc_compress(rc, input[0], input[0])
    } else {
        mimc_absorb(rc, input, input.len())
    }
}

/// Squaring twice and multiplying up gives the seventh power.
pub proof fn lemma_pow7(x: nat, x2: nat, x3: nat, x4: nat, x7: nat)
    requires
        x2 == fr_product(x, x),
        x3 == fr_product(x, x2),
        x4 == fr_product(x2, x2),
        x7 == fr_product(x3, x4),
    ensures
        x7 == fr_pow7(x),
{
    let m = fr_modulus() as int;
    let xi = x as int;
    let square = xi * xi;
    let cube = xi * square;
    let fourth = square * square;
    let seventh = cube * fourth;
    assert(pow(xi, 7) == seventh) by {
        reveal_with_fuel(pow, 8);
        assert(pow(xi, 7) == xi * (xi * (xi * (xi * (xi * (xi * (xi * 1)))))));
        assert(xi * (xi * (xi * (xi * (xi * (xi * (xi * 1)))))) == (xi * (xi * xi)) * ((xi * xi) * (
        xi * xi))) by (nonlinear_arith);
    }
    assert(x2 == square % m);
    vstd::arithmetic::div_mod::lemma_mul_mod_noop_right(xi, square, m);
    assert(x3 == cube % m);
    vstd::arithmetic::div_mod::lemma_mul_mod_noop_general(square, square, m);
    assert(x4 == fourth % m);
    vstd::arithmetic::div_mod::lemma_mul_mod_noop_general(cube, fourth, m);
    assert(x7 == seventh % m);
}

/// The hash of sequences of field elements.
pub struct MiMC {}

impl MiMC {
    /// One round: `(xl + xr + rc)^7`.
    pub fn round(xl: &Fr, xr: &Fr, rc: &Fr) -> (r: Fr)
        ensures
            r.is_canonical(),
            r@ == mimc_round(xl@, xr@, rc@),
    {
        let x = xl.add(xr).add(rc);
        let x2 = x.mul(&x);
        let x3 = x.mul(&x2);
        let x4 = x2.mul(&x2);
        let x7 = x3.mul(&x4);
        proof {
            lemma_pow7(x@, x2@, x3@, x4@, x7@);
        }
        x7
    }

    /// The cipher with key `xr` on the block `xl`.
    pub fn encrypt(params: &Parameters, xl: &Fr, xr: &Fr) -> (r: Fr)
        ensures
            r.is_canonical(),
            r@ == mimc_encrypt(params@, xl@, xr@),
    {
        let zero = Fr::zero();
        let mut result = Self::round(xl, xr, &zero);
        let mut i: usize = 1;
        while i < params.round_constants.len()
            invariant
                1 <= i,
                i <= params.round_constants.len() || (params.round_constants.len() == 0 && i == 1),
                result.is_canonical(),
                result@ == mimc_rounds(params@, xl@, xr@, i as nat),
            decreases params.round_constants.len() - i,
        {
            result = Self::round(&result, xr, &params.round_constants[i]);
            i += 1;
        }
        proof {
            assert(params@.len() == params.round_constants.len());
            if params.round_constants.len() == 0 {
                assert(mimc_rounds(params@, xl@, xr@, 0) == mimc_rounds(params@, xl@, xr@, 1));
            }
        }
        result.add(xr)
    }
}

impl CRHScheme for MiMC {
    type Input = [Fr];

    type Output = Fr;

    type Parameters = Parameters;

    /// An input can be hashed where it is not empty.
    open spec fn hashable(input: &[Fr]) -> bool {
        input@.len() >= 1
    }

    open spec fn is_hash(parameters: &Parameters, input: &[Fr], output: &Fr) -> bool {
        output.is_canonical() && output@ == mimc_hash(parameters@, fr_views(input@))
    }

    /// The hash of a nonempty input.
    fn evaluate(parameters: &Parameters, input: &[Fr]) -> (r: Result<Fr, SynthesisError>) {
        if input.len() == 1 {
            let output = Self::encrypt(parameters, &input[0], &input[0]).add(&input[0]).add(
                &input[0],
            );
            Ok(output)
        } else {
            let mut output = input[0];
            let mut i: usize = 1;
            while i < input.len()
                invariant
                    1 <= i <= input.len(),
                    output@ == mimc_absorb(parameters@, fr_views(input@), i as nat),
                decreases input.len() - i,
            {
                let xl = output;
                output = Self::encrypt(parameters, &xl, &input[i]).add(&xl).add(&input[i]);
                i += 1;
            }
            Ok(output.reduce())
        }
    }
}

/// The hash of two field elements into one, as the nodes of a Merkle tree
/// need it.
pub struct TwoToOneMiMC {}

impl TwoToOneMiMC {
    /// The cipher with key `xr` on the block `xl`.
    pub fn encrypt(params: &Parameters, xl: &Fr, xr: &Fr) -> (r: Fr)
        ensures
            r.is_canonical(),
            r@ == mimc_encrypt(params@, xl@, xr@),
    {
        MiMC::encrypt(params, xl, xr)
    }
}

impl TwoToOneCRHScheme for TwoToOneMiMC {
    type Input = Fr;

    type Output = Fr;

    type Parameters = Parameters;

    open spec fn is_hash_of_inputs(parameters: &Parameters, left: &Fr, right: &Fr, output: &Fr) -> bool {
        output.is_canonical() && output@ == mimc_compress(parameters@, left@, right@)
    }

    open spec fn is_hash_of_outputs(parameters: &Parameters, left: &Fr, right: &Fr, output: &Fr) -> bool {
        output.is_canonical() && output@ == mimc_compress(parameters@, left@, right@)
    }

    /// The compression of two inputs.
    fn evaluate(parameters: &Parameters, left_input: &Fr, right_input: &Fr) -> (r: Result<
        Fr,
        SynthesisError,
    >) {
        Ok(Self::encrypt(parameters, left_input, right_input).add(left_input).add(right_input))
    }

    /// The compression of two outputs, which is the compression of two
    /// inputs.
    fn compress(parameters: &Parameters, left_input: &Fr, right_input: &Fr) -> (r: Result<
        Fr,
        SynthesisError,
    >) {
        <Self as TwoToOneCRHScheme>::evaluate(parameters, left_input, right_input)
    }
}

/// A single element hashes like the pair of it with itself.
pub proof fn lemma_hash_of_one(rc: Seq<nat>, x: nat)
    ensures
        mimc_hash(rc, seq![x]) == mimc_compress(rc, x, x),
{
}

/// A pair hashes like its compression.
pub proof fn lemma_hash_of_two(rc: Seq<nat>, left: nat, right: nat)
    ensures
        mimc_hash(rc, seq![left, right]) == mimc_compress(rc, left, right),
{
    reveal_with_fuel(mimc_absorb, 3);
}

} // verus!
