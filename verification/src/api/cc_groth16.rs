//! Keys, proofs and commitments as lists of hexadecimal strings, which is
//! how they travel in JSON: a coordinate is the hexadecimal digits of its
//! residue.
use crate::api::serialize::{hex_digits, hex_value, string_views};
use crate::curve::{g1_views, Fq2, G1Point, G1Spec, G2Point, G2Spec};
use crate::encoding::{g1_is_valid, g1_option_view, g2_is_valid, g2_option_view};
use crate::field::{fq_modulus, limbs_value, Fq};
use vstd::prelude::*;

pub mod commitment;
pub mod proofs;
pub mod vk;

verus! {

/// The coordinates of a point of `G1` in hexadecimal digits: `x`, `y`.
pub open spec fn g1_hex(p: G1Spec) -> Seq<Seq<char>> {
    seq![hex_digits(p.x), hex_digits(p.y)]
}

/// The coordinates of a point of `G2` in hexadecimal digits: the two
/// coefficients of `x`, then those of `y`.
pub open spec fn g2_hex(p: G2Spec) -> Seq<Seq<char>> {
    seq![hex_digits(p.x.0), hex_digits(p.x.1), hex_digits(p.y.0), hex_digits(p.y.1)]
}

/// The coordinates of the first `n` points of a list, two strings for each.
pub open spec fn g1_run_hex(points: Seq<G1Spec>, n: nat) -> Seq<Seq<char>>
    decreases n,
{
    if n == 0 {
        Seq::empty()
    } else {
        g1_run_hex(points, (n - 1) as nat).push(hex_digits(points[n - 1].x)).push(
            hex_digits(points[n - 1].y),
        )
    }
}

/// The point of `G1` with the coordinates that two strings stand for, if
/// both are numbers and the point lies on the curve.
pub open spec fn g1_from_hex(x: Seq<char>, y: Seq<char>) -> Option<G1Spec> {
    match (hex_value(x), hex_value(y)) {
        (Some(a), Some(b)) => {
            let p = G1Spec { x: a % fq_modulus(), y: b % fq_modulus(), infinity: false };
            if g1_is_valid(p) {
                Some(p)
            } else {
                None
            }
        },
        _ => None,
    }
}

/// The point of `G2` with the coordinates that the first four strings of a
/// list stand for, if there are four, all are numbers, and the point lies on
/// the curve and in the group of prime order.
pub open spec fn g2_from_hex(v: Seq<Seq<char>>) -> Option<G2Spec> {
    if v.len() < 4 {
        None
    } else {
        match (hex_value(v[0]), hex_value(v[1]), hex_value(v[2]), hex_value(v[3])) {
            (Some(a), Some(b), Some(c), Some(d)) => {
                let p = G2Spec {
                    x: (a % fq_modulus(), b % fq_modulus()),
                    y: (c % fq_modulus(), d % fq_modulus()),
                    infinity: false,
                };
                if g2_is_valid(p) {
                    Some(p)
                } else {
                    None
                }
            },
            _ => None,
        }
    }
}

/// The `n` points of `G1` whose coordinates the first `2 * n` strings of a
/// list stand for, if each pair stands for a point.
pub open spec fn g1_run_from_hex(v: Seq<Seq<char>>, n: nat) -> Option<Seq<G1Spec>>
    decreases n,
{
    if n == 0 {
        Some(Seq::empty())
    } else {
        match (g1_run_from_hex(v, (n - 1) as nat), g1_from_hex(v[2 * n - 2], v[2 * n - 1])) {
            (Some(before), Some(p)) => Some(before.push(p)),
            _ => None,
        }
    }
}

/// Where the first `k` pairs do not all stand for points, no longer run does.
pub proof fn lemma_g1_run_from_hex_none(v: Seq<Seq<char>>, k: nat, n: nat)
    requires
        k <= n,
        g1_run_from_hex(v, k).is_none(),
    ensures
        g1_run_from_hex(v, n).is_none(),
    decreases n,
{
    if k < n {
        lemma_g1_run_from_hex_none(v, k, (n - 1) as nat);
    }
}

/// Whether a point of `G1` can travel as two strings: it is a valid point
/// other than the point at infinity, which has no coordinates.
pub open spec fn g1_travels(p: G1Spec) -> bool {
    !p.infinity && g1_is_valid(p)
}

/// Whether a point of `G2` can travel as four strings.
pub open spec fn g2_travels(p: G2Spec) -> bool {
    !p.infinity && g2_is_valid(p)
}

/// Whether every point of a sequence can travel.
pub open spec fn g1_all_travel(points: Seq<G1Spec>) -> bool {
    forall|i: int| 0 <= i < points.len() ==> g1_travels(#[trigger] points[i])
}

/// Whether the digits of a residue of the base field are read back as that
/// residue.
pub open spec fn reads_back(v: nat) -> bool {
    hex_value(hex_digits(v)) == Some(v) && v < fq_modulus()
}

/// Whether the digits of both coordinates of a point are read back.
pub open spec fn g1_reads_back(p: G1Spec) -> bool {
    reads_back(p.x) && reads_back(p.y)
}

/// A point that can travel, and whose digits are read back, is the point
/// that its strings stand for.
pub proof fn lemma_g1_hex_read_back(p: G1Spec)
    requires
        g1_travels(p),
        g1_reads_back(p),
    ensures
        g1_from_hex(g1_hex(p)[0], g1_hex(p)[1]) == Some(p),
{
    vstd::arithmetic::div_mod::lemma_small_mod(p.x, fq_modulus());
    vstd::arithmetic::div_mod::lemma_small_mod(p.y, fq_modulus());
    assert(G1Spec { x: p.x, y: p.y, infinity: false } == p);
}

/// A point of `G2` that can travel, and whose digits are read back, is the
/// point that its strings stand for.
pub proof fn lemma_g2_hex_read_back(p: G2Spec)
    requires
        g2_travels(p),
        reads_back(p.x.0),
        reads_back(p.x.1),
        reads_back(p.y.0),
        reads_back(p.y.1),
    ensures
        g2_from_hex(g2_hex(p)) == Some(p),
{
    vstd::arithmetic::div_mod::lemma_small_mod(p.x.0, fq_modulus());
    vstd::arithmetic::div_mod::lemma_small_mod(p.x.1, fq_modulus());
    vstd::arithmetic::div_mod::lemma_small_mod(p.y.0, fq_modulus());
    vstd::arithmetic::div_mod::lemma_small_mod(p.y.1, fq_modulus());
    assert(G2Spec { x: (p.x.0, p.x.1), y: (p.y.0, p.y.1), infinity: false } == p);
}

/// The strings of `n` points are `2 * n`, and a longer run begins with them.
pub proof fn lemma_g1_run_hex_prefix(points: Seq<G1Spec>, k: nat, n: nat)
    requires
        k < n,
    ensures
        g1_run_hex(points, n).len() == 2 * n,
        g1_run_hex(points, n)[(2 * k) as int] == hex_digits(points[k as int].x),
        g1_run_hex(points, n)[(2 * k + 1) as int] == hex_digits(points[k as int].y),
    decreases n,
{
    lemma_g1_run_hex_len(points, (n - 1) as nat);
    if k < n - 1 {
        lemma_g1_run_hex_prefix(points, k, (n - 1) as nat);
    }
}

/// The strings of `n` points are `2 * n`.
pub proof fn lemma_g1_run_hex_len(points: Seq<G1Spec>, n: nat)
    ensures
        g1_run_hex(points, n).len() == 2 * n,
    decreases n,
{
    if n > 0 {
        lemma_g1_run_hex_len(points, (n - 1) as nat);
    }
}

/// Points that can travel, and whose digits are read back, are the points
/// that their strings stand for.
pub proof fn lemma_g1_run_hex_read_back(points: Seq<G1Spec>, n: nat)
    requires
        n <= points.len(),
        g1_all_travel(points),
        forall|i: int| 0 <= i < points.len() ==> g1_reads_back(#[trigger] points[i]),
    ensures
        g1_run_from_hex(g1_run_hex(points, points.len()), n) == Some(points.subrange(0, n as int)),
    decreases n,
{
    let v = g1_run_hex(points, points.len());
    if n == 0 {
        assert(points.subrange(0, 0) =~= Seq::<G1Spec>::empty());
    } else {
        lemma_g1_run_hex_read_back(points, (n - 1) as nat);
        lemma_g1_run_hex_prefix(points, (n - 1) as nat, points.len());
        let p = points[n - 1];
        assert(g1_travels(p) && g1_reads_back(p));
        lemma_g1_hex_read_back(p);
        assert(v[2 * n - 2] == g1_hex(p)[0] && v[2 * n - 1] == g1_hex(p)[1]);
        assert(points.subrange(0, n - 1).push(p) =~= points.subrange(0, n as int));
    }
}

/// The coordinates of a point of `G1` in hexadecimal digits. A point that
/// can travel is the point that they stand for.
pub fn g1_to_hex(p: &G1Point) -> (r: Vec<String>)
    ensures
        string_views(r@) == g1_hex(p@),
        r.len() == 2,
        g1_reads_back(p@),
        g1_travels(p@) ==> g1_from_hex(r[0]@, r[1]@) == Some(p@),
{
    let mut out: Vec<String> = Vec::new();
    out.push(p.x.to_hex());
    out.push(p.y.to_hex());
    assert(string_views(out@) =~= g1_hex(p@));
    proof {
        vstd::arithmetic::div_mod::lemma_mod_bound(limbs_value(p.x.limbs) as int, fq_modulus() as int);
        vstd::arithmetic::div_mod::lemma_mod_bound(limbs_value(p.y.limbs) as int, fq_modulus() as int);
        if g1_travels(p@) {
            lemma_g1_hex_read_back(p@);
        }
    }
    out
}

/// The coordinates of a point of `G2` in hexadecimal digits. A point that
/// can travel is the point that they stand for.
pub fn g2_to_hex(p: &G2Point) -> (r: Vec<String>)
    ensures
        string_views(r@) == g2_hex(p@),
        g2_travels(p@) ==> g2_from_hex(string_views(r@)) == Some(p@),
{
    let mut out: Vec<String> = Vec::new();
    out.push(p.x.c0.to_hex());
    out.push(p.x.c1.to_hex());
    out.push(p.y.c0.to_hex());
    out.push(p.y.c1.to_hex());
    assert(string_views(out@) =~= g2_hex(p@));
    proof {
        vstd::arithmetic::div_mod::lemma_mod_bound(limbs_value(p.x.c0.limbs) as int, fq_modulus() as int);
        vstd::arithmetic::div_mod::lemma_mod_bound(limbs_value(p.x.c1.limbs) as int, fq_modulus() as int);
        vstd::arithmetic::div_mod::lemma_mod_bound(limbs_value(p.y.c0.limbs) as int, fq_modulus() as int);
        vstd::arithmetic::div_mod::lemma_mod_bound(limbs_value(p.y.c1.limbs) as int, fq_modulus() as int);
        if g2_travels(p@) {
            lemma_g2_hex_read_back(p@);
        }
    }
    out
}

/// The coordinates of the points of a list in hexadecimal digits. Points
/// that can all travel are the points that they stand for.
pub fn g1_run_to_hex(points: &Vec<G1Point>) -> (r: Vec<String>)
    ensures
        string_views(r@) == g1_run_hex(g1_views(points@), points.len() as nat),
        r.len() == 2 * points.len(),
        g1_all_travel(g1_views(points@)) ==> g1_run_from_hex(
            string_views(r@),
            points.len() as nat,
        ) == Some(g1_views(points@)),
{
    let ghost views = g1_views(points@);
    let mut out: Vec<String> = Vec::new();
    let mut i: usize = 0;
    while i < points.len()
        invariant
            i <= points.len(),
            views == g1_views(points@),
            string_views(out@) == g1_run_hex(views, i as nat),
            forall|j: int| 0 <= j < i ==> g1_reads_back(#[trigger] views[j]),
        decreases points.len() - i,
    {
        let ghost before = string_views(out@);
        let x = points[i].x.to_hex();
        let y = points[i].y.to_hex();
        let ghost xs = x@;
        let ghost ys = y@;
        out.push(x);
        out.push(y);
        assert(string_views(out@) =~= before.push(xs).push(ys));
        proof {
            vstd::arithmetic::div_mod::lemma_mod_bound(
                limbs_value(points[i as int].x.limbs) as int,
                fq_modulus() as int,
            );
            vstd::arithmetic::div_mod::lemma_mod_bound(
                limbs_value(points[i as int].y.limbs) as int,
                fq_modulus() as int,
            );
            assert(views[i as int] == points[i as int]@);
        }
        i += 1;
    }
    proof {
        lemma_g1_run_hex_len(views, points.len() as nat);
        if g1_all_travel(views) {
            lemma_g1_run_hex_read_back(views, views.len());
            assert(views.subrange(0, views.len() as int) =~= views);
        }
    }
    out
}

/// The point of `G1` with the coordinates that two strings stand for.
pub fn g1_point_from_hex(x: &str, y: &str) -> (r: Option<G1Point>)
    ensures
        g1_option_view(r) == g1_from_hex(x@, y@),
{
    let x = Fq::from_hex(x)?;
    let y = Fq::from_hex(y)?;
    let p = G1Point { x, y, infinity: false };
    if p.is_on_curve() {
        Some(p)
    } else {
        None
    }
}

/// The point of `G2` with the coordinates that the first four strings of a
/// list stand for.
pub fn g2_point_from_hex(v: &Vec<String>) -> (r: Option<G2Point>)
    ensures
        g2_option_view(r) == g2_from_hex(string_views(v@)),
{
    if v.len() < 4 {
        return None;
    }
    let a = Fq::from_hex(v[0].as_str())?;
    let b = Fq::from_hex(v[1].as_str())?;
    let c = Fq::from_hex(v[2].as_str())?;
    let d = Fq::from_hex(v[3].as_str())?;
    let p = G2Point { x: Fq2 { c0: a, c1: b }, y: Fq2 { c0: c, c1: d }, infinity: false };
    if p.is_in_group() {
        Some(p)
    } else {
        None
    }
}

/// The points of `G1` whose coordinates the strings of a list stand for, two
/// strings for each point. `None` where the list has an odd number of
/// strings or a pair stands for no point.
pub fn g1_run_from_hex_list(v: &Vec<String>) -> (r: Option<Vec<G1Point>>)
    ensures
        r.is_some() <==> v.len() % 2 == 0 && g1_run_from_hex(
            string_views(v@),
            (v.len() / 2) as nat,
        ).is_some(),
        r matches Some(points) ==> Some(g1_views(points@)) == g1_run_from_hex(
            string_views(v@),
            (v.len() / 2) as nat,
        ),
{
    if v.len() % 2 != 0 {
        return None;
    }
    let count = v.len() / 2;
    let ghost s = string_views(v@);
    let mut out: Vec<G1Point> = Vec::new();
    let mut i: usize = 0;
    while i < count
        invariant
            i <= count,
            count == v.len() / 2,
            v.len() % 2 == 0,
            s == string_views(v@),
            out.len() == i,
            g1_run_from_hex(s, i as nat) == Some(g1_views(out@)),
        decreases count - i,
    {
        assert(s[2 * i] == v[2 * i]@ && s[2 * i + 1] == v[2 * i + 1]@);
        match g1_point_from_hex(v[2 * i].as_str(), v[2 * i + 1].as_str()) {
            None => {
                proof {
                    lemma_g1_run_from_hex_none(s, (i + 1) as nat, count as nat);
                }
                return None;
            },
            Some(p) => {
                let ghost before = g1_views(out@);
                out.push(p);
                assert(g1_views(out@) =~= before.push(p@));
            },
        }
        i += 1;
    }
    Some(out)
}

} // verus!
