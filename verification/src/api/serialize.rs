//! Field elements and bytes as hexadecimal strings.
use crate::field::{fq_modulus, fr_modulus, fr_views, limbs_value, Fq, Fr};
use crate::edwards::{ed_order, EdScalar};
use ark_bn254::{Fq as ArkFq, Fr as ArkFr};
use ark_ed_on_bn254::Fr as ArkEdFr;
use ark_ff::{BigInt, PrimeField};
use num_bigint::BigUint;
use vstd::prelude::*;

verus! {

/// The hexadecimal digit of a value below 16, in lower case.
pub open spec fn hex_digit(d: nat) -> char {
    if d == 0 {
        '0'
    } else if d == 1 {
        '1'
    } else if d == 2 {
        '2'
    } else if d == 3 {
        '3'
    } else if d == 4 {
        '4'
    } else if d == 5 {
        '5'
    } else if d == 6 {
        '6'
    } else if d == 7 {
        '7'
    } else if d == 8 {
        '8'
    } else if d == 9 {
        '9'
    } else if d == 10 {
        'a'
    } else if d == 11 {
        'b'
    } else if d == 12 {
        'c'
    } else if d == 13 {
        'd'
    } else if d == 14 {
        'e'
    } else {
        'f'
    }
}

/// The hexadecimal digits of an integer, most significant first, without
/// leading zeros: zero is `"0"`.
pub open spec fn hex_digits(n: nat) -> Seq<char>
    decreases n,
{
    if n < 16 {
        seq![hex_digit(n)]
    } else {
        hex_digits(n / 16).push(hex_digit(n % 16))
    }
}

/// The integer that a hexadecimal string stands for, as `num-bigint` reads
/// it, if it stands for one.
pub uninterp spec fn hex_value(s: Seq<char>) -> Option<nat>;

/// The bytes of an integer, most significant first, without leading zeros:
/// zero is one zero byte.
pub open spec fn be_bytes(n: nat) -> Seq<u8>
    decreases n,
{
    if n < 256 {
        seq![n as u8]
    } else {
        be_bytes(n / 256).push((n % 256) as u8)
    }
}

/// Two hexadecimal digits for each byte, in lower case.
pub open spec fn hex_of_bytes(bytes: Seq<u8>) -> Seq<char>
    decreases bytes.len(),
{
    if bytes.len() == 0 {
        Seq::empty()
    } else {
        hex_of_bytes(bytes.drop_last()).push(hex_digit((bytes.last() / 16) as nat)).push(
            hex_digit((bytes.last() % 16) as nat),
        )
    }
}

/// A hexadecimal number as smart contracts take it: `0x`, then the digits,
/// filled up with zeros on the left to 64.
pub open spec fn contract_word(digits: Seq<char>) -> Seq<char> {
    seq!['0', 'x'] + Seq::new(
        if digits.len() < 64 {
            (64 - digits.len()) as nat
        } else {
            0
        },
        |i: int| '0',
    ) + digits
}

/// The views of a sequence of strings.
pub open spec fn string_views(s: Seq<String>) -> Seq<Seq<char>> {
    Seq::new(s.len(), |i: int| s[i]@)
}

impl Fr {
    /// The residue in hexadecimal digits.
    pub fn to_hex(&self) -> (r: String)
        ensures
            r@ == hex_digits(self@),
            hex_value(r@) == Some(self@),
    {
        fr_to_hex(self)
    }

    /// The element that a hexadecimal string stands for: the integer's
    /// residue. `None` where the string is not a hexadecimal number.
    pub fn from_hex(s: &str) -> (r: Option<Fr>)
        ensures
            r.is_some() <==> hex_value(s@).is_some(),
            r matches Some(x) ==> x.is_canonical() && x@ == hex_value(s@).unwrap() % fr_modulus(),
    {
        hex_to_fr(s)
    }
}

impl Fq {
    /// The residue in hexadecimal digits.
    pub fn to_hex(&self) -> (r: String)
        ensures
            r@ == hex_digits(self@),
            hex_value(r@) == Some(self@),
    {
        fq_to_hex(self)
    }

    /// The element that a hexadecimal string stands for: the integer's
    /// residue. `None` where the string is not a hexadecimal number.
    pub fn from_hex(s: &str) -> (r: Option<Fq>)
        ensures
            r.is_some() <==> hex_value(s@).is_some(),
            r matches Some(x) ==> x.is_canonical() && x@ == hex_value(s@).unwrap() % fq_modulus(),
    {
        hex_to_fq(s)
    }
}

impl EdScalar {
    /// The residue in hexadecimal digits.
    pub fn to_hex(&self) -> (r: String)
        ensures
            r@ == hex_digits(self@),
            hex_value(r@) == Some(self@),
    {
        ed_scalar_to_hex(self)
    }

    /// The scalar that a hexadecimal string stands for: the integer's
    /// residue. `None` where the string is not a hexadecimal number.
    pub fn from_hex(s: &str) -> (r: Option<EdScalar>)
        ensures
            r.is_some() <==> hex_value(s@).is_some(),
            r matches Some(x) ==> x@ == hex_value(s@).unwrap() % ed_order(),
    {
        hex_to_ed_scalar(s)
    }
}

/// The residues of the first `n` strings of a list, if each is a
/// hexadecimal number.
pub open spec fn hex_values(s: Seq<Seq<char>>, n: nat) -> Option<Seq<nat>>
    decreases n,
{
    if n == 0 {
        Some(Seq::empty())
    } else {
        match (hex_values(s, (n - 1) as nat), hex_value(s[n - 1])) {
            (Some(before), Some(v)) => Some(before.push(v % fr_modulus())),
            _ => None,
        }
    }
}

/// The hexadecimal digits of each residue of a list.
pub open spec fn hex_list(v: Seq<nat>) -> Seq<Seq<char>> {
    Seq::new(v.len(), |i: int| hex_digits(v[i]))
}

/// Strings that each stand for a residue are read as those residues.
pub proof fn lemma_hex_values_read_back(s: Seq<Seq<char>>, values: Seq<nat>, n: nat)
    requires
        n <= s.len(),
        s.len() == values.len(),
        forall|k: int|
            0 <= k < s.len() ==> hex_value(#[trigger] s[k]) == Some(values[k]) && values[k]
                < fr_modulus(),
    ensures
        hex_values(s, n) == Some(values.subrange(0, n as int)),
    decreases n,
{
    if n == 0 {
        assert(values.subrange(0, 0) =~= Seq::<nat>::empty());
    } else {
        lemma_hex_values_read_back(s, values, (n - 1) as nat);
        assert(hex_value(s[n - 1]) == Some(values[n - 1]));
        vstd::arithmetic::div_mod::lemma_small_mod(values[n - 1], fr_modulus());
        assert(values.subrange(0, n - 1).push(values[n - 1]) =~= values.subrange(0, n as int));
    }
}

/// The elements of a list in hexadecimal digits, which are read back as the
/// same residues.
pub fn fr_list_to_hex(v: &Vec<Fr>) -> (r: Vec<String>)
    ensures
        string_views(r@) == hex_list(fr_views(v@)),
        r.len() == v.len(),
        hex_values(string_views(r@), r.len() as nat) == Some(fr_views(v@)),
{
    let mut out: Vec<String> = Vec::new();
    let mut i: usize = 0;
    while i < v.len()
        invariant
            i <= v.len(),
            out.len() == i,
            forall|k: int| 0 <= k < i ==> (#[trigger] out[k])@ == hex_digits(v[k]@),
            forall|k: int| 0 <= k < i ==> hex_value((#[trigger] out[k])@) == Some(v[k]@),
        decreases v.len() - i,
    {
        out.push(v[i].to_hex());
        i += 1;
    }
    assert(string_views(out@) =~= hex_list(fr_views(v@)));
    proof {
        let s = string_views(out@);
        let values = fr_views(v@);
        assert forall|k: int| 0 <= k < s.len() implies hex_value(#[trigger] s[k]) == Some(
            values[k],
        ) && values[k] < fr_modulus() by {
            assert(s[k] == out[k]@);
            vstd::arithmetic::div_mod::lemma_mod_bound(
                limbs_value(v[k].limbs) as int,
                fr_modulus() as int,
            );
        }
        lemma_hex_values_read_back(s, values, s.len());
        assert(values.subrange(0, s.len() as int) =~= values);
    }
    out
}

/// The elements that the hexadecimal strings of a list stand for, or `None`
/// where one of them is not a hexadecimal number.
pub fn hex_list_to_fr(v: &Vec<String>) -> (r: Option<Vec<Fr>>)
    ensures
        r.is_some() <==> hex_values(string_views(v@), v.len() as nat).is_some(),
        r matches Some(x) ==> Some(fr_views(x@)) == hex_values(string_views(v@), v.len() as nat),
{
    let ghost s = string_views(v@);
    let mut out: Vec<Fr> = Vec::new();
    let mut i: usize = 0;
    while i < v.len()
        invariant
            i <= v.len(),
            out.len() == i,
            s == string_views(v@),
            hex_values(s, i as nat) == Some(fr_views(out@)),
        decreases v.len() - i,
    {
        match Fr::from_hex(v[i].as_str()) {
            None => {
                proof {
                    assert(s[i as int] == v[i as int]@);
                    lemma_hex_values_none(s, (i + 1) as nat, v.len() as nat);
                }
                return None;
            },
            Some(x) => {
                let ghost before = fr_views(out@);
                out.push(x);
                assert(s[i as int] == v[i as int]@);
                assert(fr_views(out@) =~= before.push(x@));
            },
        }
        i += 1;
    }
    Some(out)
}

/// Where the first `k` strings are not all numbers, no longer list is.
pub proof fn lemma_hex_values_none(s: Seq<Seq<char>>, k: nat, n: nat)
    requires
        k <= n,
        hex_values(s, k).is_none(),
    ensures
        hex_values(s, n).is_none(),
    decreases n,
{
    if k < n {
        lemma_hex_values_none(s, k, (n - 1) as nat);
    }
}

/// The bytes in hexadecimal digits, two for each byte.
pub fn serialize_to_hex_string(data: &[u8]) -> (r: Result<String, String>)
    ensures
        r matches Ok(s) && s@ == hex_of_bytes(data@),
{
    Ok(bytes_to_hex(data))
}

/// The bytes in hexadecimal digits, two for each byte. The bytes are those
/// of an uncompressed encoding; the digits do not depend on that.
pub fn serialize_uncompressed_to_hex_string(data: &[u8]) -> (r: Result<String, String>)
    ensures
        r matches Ok(s) && s@ == hex_of_bytes(data@),
{
    Ok(bytes_to_hex(data))
}

/// The bytes of the integer that a hexadecimal string stands for, most
/// significant first. Leading zeros of the string do not come back.
pub fn deserialize_from_hex_string(value_string: &str) -> (r: Result<Vec<u8>, String>)
    ensures
        r.is_ok() <==> hex_value(value_string@).is_some(),
        r matches Ok(bytes) ==> bytes@ == be_bytes(hex_value(value_string@).unwrap()),
{
    match hex_to_bytes(value_string) {
        Some(bytes) => Ok(bytes),
        None => Err("Failed to deserialize: not a hexadecimal number".to_owned()),
    }
}

/// A hexadecimal number as smart contracts take it.
pub fn to_contract_word(digits: &str) -> (r: String)
    ensures
        r@ == contract_word(digits@),
{
    pad_hex(digits)
}

/// `BigUint::to_str_radix` with radix 16 on the residue of an
/// `ark_bn254::Fr`: the digits in lower case without leading zeros, which
/// `BigUint::parse_bytes` reads back as the same integer.
#[verifier::external_body]
fn fr_to_hex(x: &Fr) -> (r: String)
    ensures
        r@ == hex_digits(x@),
        hex_value(r@) == Some(x@),
{
    BigUint::from(ArkFr::from(BigUint::from(BigInt(x.limbs)))).to_str_radix(16)
}

/// `BigUint::to_str_radix` with radix 16 on the residue of an
/// `ark_bn254::Fq`: the digits in lower case without leading zeros, which
/// `BigUint::parse_bytes` reads back as the same integer.
#[verifier::external_body]
fn fq_to_hex(x: &Fq) -> (r: String)
    ensures
        r@ == hex_digits(x@),
        hex_value(r@) == Some(x@),
{
    BigUint::from(ArkFq::from(BigUint::from(BigInt(x.limbs)))).to_str_radix(16)
}

/// `BigUint::parse_bytes` with radix 16, then the conversion of
/// `ark_bn254::Fr` from a `BigUint`, which reduces: `None` where the string
/// is no number, else the integer's residue.
#[verifier::external_body]
fn hex_to_fr(s: &str) -> (r: Option<Fr>)
    ensures
        r.is_some() <==> hex_value(s@).is_some(),
        r matches Some(x) ==> x.is_canonical() && x@ == hex_value(s@).unwrap() % fr_modulus(),
{
    let v = BigUint::parse_bytes(s.as_bytes(), 16)?;
    Some(Fr { limbs: ArkFr::from(v).into_bigint().0 })
}

/// `BigUint::parse_bytes` with radix 16, then the conversion of
/// `ark_bn254::Fq` from a `BigUint`, which reduces: `None` where the string
/// is no number, else the integer's residue.
#[verifier::external_body]
fn hex_to_fq(s: &str) -> (r: Option<Fq>)
    ensures
        r.is_some() <==> hex_value(s@).is_some(),
        r matches Some(x) ==> x.is_canonical() && x@ == hex_value(s@).unwrap() % fq_modulus(),
{
    let v = BigUint::parse_bytes(s.as_bytes(), 16)?;
    Some(Fq { limbs: ArkFq::from(v).into_bigint().0 })
}

/// `BigUint::to_str_radix` with radix 16 on the residue of an
/// `ark_ed_on_bn254::Fr`: the digits in lower case without leading zeros,
/// which `BigUint::parse_bytes` reads back as the same integer.
#[verifier::external_body]
fn ed_scalar_to_hex(x: &EdScalar) -> (r: String)
    ensures
        r@ == hex_digits(x@),
        hex_value(r@) == Some(x@),
{
    BigUint::from(ArkEdFr::from(BigUint::from(BigInt(x.limbs)))).to_str_radix(16)
}

/// `BigUint::parse_bytes` with radix 16, then the conversion of
/// `ark_ed_on_bn254::Fr` from a `BigUint`, which reduces: `None` where the
/// string is no number, else the integer's residue.
#[verifier::external_body]
fn hex_to_ed_scalar(s: &str) -> (r: Option<EdScalar>)
    ensures
        r.is_some() <==> hex_value(s@).is_some(),
        r matches Some(x) ==> x@ == hex_value(s@).unwrap() % ed_order(),
{
    let v = BigUint::parse_bytes(s.as_bytes(), 16)?;
    Some(EdScalar { limbs: ArkEdFr::from(v).into_bigint().0 })
}

/// `BigUint::parse_bytes` with radix 16, then `BigUint::to_bytes_be`: `None`
/// where the string is no number, else the integer's bytes, most significant
/// first, one zero byte for zero.
#[verifier::external_body]
fn hex_to_bytes(s: &str) -> (r: Option<Vec<u8>>)
    ensures
        r.is_some() <==> hex_value(s@).is_some(),
        r matches Some(bytes) ==> bytes@ == be_bytes(hex_value(s@).unwrap()),
{
    Some(BigUint::parse_bytes(s.as_bytes(), 16)?.to_bytes_be())
}

/// `hex::encode`: two digits in lower case for each byte.
#[verifier::external_body]
fn bytes_to_hex(data: &[u8]) -> (r: String)
    ensures
        r@ == hex_of_bytes(data@),
{
    hex::encode(data)
}

/// `format!` with `0x{:0>64}`: `0x`, then the string filled up with zeros on
/// the left to 64 characters.
#[verifier::external_body]
fn pad_hex(digits: &str) -> (r: String)
    ensures
        r@ == contract_word(digits@),
{
    format!("0x{:0>64}", digits)
}

} // verus!
