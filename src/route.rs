use vstd::prelude::*;
use crate::constant::{Constant, constant_at};
use crate::unit::DistanceUnit;

verus! {

/// What one hop does to a magnitude with its constant.
#[derive(Clone, Copy, Debug, PartialEq, Eq, Structural)]
pub enum Scaling {
    Multiply,
    Divide,
}

/// One step of a conversion, between two neighbouring units: the magnitude
/// in the first unit, scaled by `constant` as `scaling` says, is the
/// magnitude in the second.
#[derive(Clone, Copy, Debug, PartialEq, Eq, Structural)]
pub struct Hop {
    pub constant: Constant,
    pub scaling: Scaling,
}

/// Two units are neighbours on the chain.
pub open spec fn adjacent(a: DistanceUnit, b: DistanceUnit) -> bool {
    a.rank() + 1 == b.rank() || b.rank() + 1 == a.rank()
}

/// The hop from `a` to its neighbour `b`: going from the larger unit to the
/// smaller multiplies by the constant that links them, going back divides.
pub open spec fn hop_between(a: DistanceUnit, b: DistanceUnit) -> Hop
    recommends
        adjacent(a, b),
{
    let c = constant_at(if a.rank() < b.rank() { a.rank() } else { b.rank() });
    Hop { constant: c, scaling: if c.larger() == a { Scaling::Multiply } else { Scaling::Divide } }
}

/// Distance between two places on the chain.
pub open spec fn gap(a: DistanceUnit, b: DistanceUnit) -> nat {
    if a.rank() < b.rank() {
        (b.rank() - a.rank()) as nat
    } else {
        (a.rank() - b.rank()) as nat
    }
}

/// The hops that convert a magnitude in `from` into one in `to`: one per
/// link of the chain between them, walked from `from` to `to`.
pub open spec fn route(from: DistanceUnit, to: DistanceUnit) -> Seq<Hop>
    decreases gap(from, to),
{
    if from == to {
        seq![]
    } else {
        let next = from.spec_next_toward(to);
        seq![hop_between(from, next)] + route(next, to)
    }
}

/// The factor by which the hops, applied in turn, scale a magnitude is
/// `scale_numerator(hops) / scale_denominator(hops)`.
pub open spec fn scale_numerator(hops: Seq<Hop>) -> int
    decreases hops.len(),
{
    if hops.len() == 0 {
        1
    } else {
        hops[0].spec_numerator() * scale_numerator(hops.drop_first())
    }
}

pub open spec fn scale_denominator(hops: Seq<Hop>) -> int
    decreases hops.len(),
{
    if hops.len() == 0 {
        1
    } else {
        hops[0].spec_denominator() * scale_denominator(hops.drop_first())
    }
}

/// The hops that undo `hops`: each one inverted, in reverse order.
pub open spec fn undo(hops: Seq<Hop>) -> Seq<Hop> {
    Seq::new(hops.len(), |i: int| hops[hops.len() - 1 - i].inverse())
}

impl Hop {
    /// The hop undone: same constant, the other scaling.
    pub open spec fn inverse(self) -> Hop {
        Hop {
            constant: self.constant,
            scaling: match self.scaling {
                Scaling::Multiply => Scaling::Divide,
                Scaling::Divide => Scaling::Multiply,
            },
        }
    }

    /// The hop scales a magnitude by `spec_numerator() / spec_denominator()`.
    pub open spec fn spec_numerator(self) -> int {
        match self.scaling {
            Scaling::Multiply => self.constant.spec_numerator(),
            Scaling::Divide => self.constant.spec_denominator(),
        }
    }

    pub open spec fn spec_denominator(self) -> int {
        match self.scaling {
            Scaling::Multiply => self.constant.spec_denominator(),
            Scaling::Divide => self.constant.spec_numerator(),
        }
    }

    /// The hop from `from` to its neighbour `to`.
    pub fn between(from: DistanceUnit, to: DistanceUnit) -> (r: Hop)
        requires
            adjacent(from, to),
        ensures
            r == hop_between(from, to),
    {
        let (constant, scaling) = match (from, to) {
            (DistanceUnit::Mi, _) => (Constant::KmPerMi, Scaling::Multiply),
            (DistanceUnit::Km, DistanceUnit::Mi) => (Constant::KmPerMi, Scaling::Divide),
            (DistanceUnit::Km, _) => (Constant::KmPerAu, Scaling::Divide),
            (DistanceUnit::Au, DistanceUnit::Km) => (Constant::KmPerAu, Scaling::Multiply),
            (DistanceUnit::Au, _) => (Constant::AuPerLy, Scaling::Divide),
            (DistanceUnit::Ly, DistanceUnit::Au) => (Constant::AuPerLy, Scaling::Multiply),
            (DistanceUnit::Ly, _) => (Constant::LyPerPc, Scaling::Divide),
            (DistanceUnit::Pc, _) => (Constant::LyPerPc, Scaling::Multiply),
        };
        Hop { constant, scaling }
    }
}

/// The hops that convert a magnitude in `from` into one in `to`, in the
/// order in which they apply. Empty when the units are the same.
pub fn conversion_route(from: DistanceUnit, to: DistanceUnit) -> (r: Vec<Hop>)
    ensures
        r@ == route(from, to),
        r@.len() == gap(from, to),
{
    let mut hops: Vec<Hop> = Vec::new();
    let mut here = from;
    while here != to
        invariant
            hops@ + route(here, to) == route(from, to),
            hops@.len() + gap(here, to) == gap(from, to),
        decreases gap(here, to),
    {
        let next = here.next_toward(&to);
        let hop = Hop::between(here, next);
        proof {
            assert(route(here, to) == seq![hop] + route(next, to));
            assert(hops@.push(hop) + route(next, to) =~= hops@ + route(here, to));
        }
        hops.push(hop);
        here = next;
    }
    proof {
        assert(hops@ + route(here, to) =~= hops@);
    }
    hops
}

/// A route that starts with `h` scales by `h`, then by the rest.
proof fn lemma_scale_cons(h: Hop, rest: Seq<Hop>)
    ensures
        scale_numerator(seq![h] + rest) == h.spec_numerator() * scale_numerator(rest),
        scale_denominator(seq![h] + rest) == h.spec_denominator() * scale_denominator(rest),
{
    assert((seq![h] + rest).drop_first() =~= rest);
}

/// A single hop agrees with the lengths of the two units it joins.
proof fn lemma_hop_scale(a: DistanceUnit, b: DistanceUnit)
    requires
        adjacent(a, b),
    ensures
        hop_between(a, b).spec_numerator() * a.spec_km_denominator() * b.spec_km_numerator()
            == hop_between(a, b).spec_denominator() * a.spec_km_numerator() * b.spec_km_denominator(),
{
    assert(hop_between(a, b).spec_numerator() * a.spec_km_denominator() * b.spec_km_numerator()
        == hop_between(a, b).spec_denominator() * a.spec_km_numerator() * b.spec_km_denominator())
        by (nonlinear_arith)
        requires
            adjacent(a, b),
    {}
}

/// Converting from `a` to `b` scales a magnitude by exactly the length of
/// one `a` over the length of one `b`: every route agrees with the lengths
/// of the units, so the chain of conversions is consistent.
pub proof fn lemma_route_scale(a: DistanceUnit, b: DistanceUnit)
    ensures
        scale_numerator(route(a, b)) * a.spec_km_denominator() * b.spec_km_numerator()
            == scale_denominator(route(a, b)) * a.spec_km_numerator() * b.spec_km_denominator(),
    decreases gap(a, b),
{
    if a != b {
        let n = a.spec_next_toward(b);
        let h = hop_between(a, n);
        lemma_route_scale(n, b);
        lemma_scale_cons(h, route(n, b));
        lemma_hop_scale(a, n);
        let x = scale_numerator(route(n, b));
        let y = scale_denominator(route(n, b));
        let p = h.spec_numerator();
        let q = h.spec_denominator();
        let (ad, an) = (a.spec_km_denominator(), a.spec_km_numerator());
        let (nd, nn) = (n.spec_km_denominator(), n.spec_km_numerator());
        let (bd, bn) = (b.spec_km_denominator(), b.spec_km_numerator());
        lemma_length_positive(n);
        let k = nd * nn;
        assert(k > 0) by (nonlinear_arith)
            requires
                k == nd * nn,
                nd > 0,
                nn > 0,
        {}
        assert((p * ad * nn) * (x * nd * bn) == (q * an * nd) * (y * nn * bd));
        assert((p * x * ad * bn) * k == (p * ad * nn) * (x * nd * bn)) by (nonlinear_arith)
            requires
                k == nd * nn,
        {}
        assert((q * y * an * bd) * k == (q * an * nd) * (y * nn * bd)) by (nonlinear_arith)
            requires
                k == nd * nn,
        {}
        lemma_cancel(p * x * ad * bn, q * y * an * bd, k);
    } else {
        let (ad, an) = (a.spec_km_denominator(), a.spec_km_numerator());
        assert(1 * ad * an == 1 * an * ad) by (nonlinear_arith);
    }
}

/// A factor that is not zero cancels from both sides.
proof fn lemma_cancel(x: int, y: int, k: int)
    requires
        x * k == y * k,
        k != 0,
    ensures
        x == y,
{
    assert(x == y) by (nonlinear_arith)
        requires
            x * k == y * k,
            k != 0,
    {}
}

proof fn lemma_regroup(p: int, q: int, r: int, s: int, t: int, u: int, v: int)
    ensures
        (p * r * v) * (q * t * s * u) == p * (q * r * s) * (t * u * v),
{
    assert((p * r * v) * (q * t * s * u) == p * (q * r * s) * (t * u * v)) by (nonlinear_arith);
}

proof fn lemma_regroup_back(p: int, q: int, r: int, s: int, t: int, u: int, v: int)
    ensures
        p * (q * r * s) * (t * u * v) == (p * q * t) * (r * v * u * s),
{
    assert(p * (q * r * s) * (t * u * v) == (p * q * t) * (r * v * u * s)) by (nonlinear_arith);
}

/// One of every unit is a positive length.
proof fn lemma_length_positive(u: DistanceUnit)
    ensures
        u.spec_km_numerator() > 0,
        u.spec_km_denominator() > 0,
{
}

/// Converting from `a` to `b` and back gives the magnitude it started
/// from: the way back is the way there undone, and the two factors
/// multiply to exactly one.
pub proof fn lemma_round_trip(a: DistanceUnit, b: DistanceUnit)
    ensures
        route(b, a) == undo(route(a, b)),
        scale_numerator(route(a, b)) * scale_numerator(route(b, a))
            == scale_denominator(route(a, b)) * scale_denominator(route(b, a)),
{
    reveal_with_fuel(route, 5);
    assert(route(b, a) =~= undo(route(a, b)));
    lemma_route_scale(a, b);
    lemma_route_scale(b, a);
    lemma_length_positive(a);
    lemma_length_positive(b);
    let (n1, d1) = (scale_numerator(route(a, b)), scale_denominator(route(a, b)));
    let (n2, d2) = (scale_numerator(route(b, a)), scale_denominator(route(b, a)));
    let (ad, an, bd, bn) = (
        a.spec_km_denominator(),
        a.spec_km_numerator(),
        b.spec_km_denominator(),
        b.spec_km_numerator(),
    );
    let k = ad * an * bd * bn;
    assert(k > 0) by (nonlinear_arith)
        requires
            k == ad * an * bd * bn,
            ad > 0,
            an > 0,
            bd > 0,
            bn > 0,
    {}
    assert(n1 * n2 * k == (n1 * ad * bn) * (n2 * bd * an)) by (nonlinear_arith)
        requires
            k == ad * an * bd * bn,
    {}
    assert(d1 * d2 * k == (d1 * an * bd) * (d2 * bn * ad)) by (nonlinear_arith)
        requires
            k == ad * an * bd * bn,
    {}
    assert((n1 * ad * bn) * (n2 * bd * an) == (d1 * an * bd) * (d2 * bn * ad));
    lemma_cancel(n1 * n2, d1 * d2, k);
}

/// Converting from `a` to `c` scales a magnitude exactly as converting from
/// `a` to `b` and then from `b` to `c` does, whatever unit `b` is.
pub proof fn lemma_compose(a: DistanceUnit, b: DistanceUnit, c: DistanceUnit)
    ensures
        scale_numerator(route(a, c)) * scale_denominator(route(a, b)) * scale_denominator(
            route(b, c),
        ) == scale_denominator(route(a, c)) * scale_numerator(route(a, b)) * scale_numerator(
            route(b, c),
        ),
{
    lemma_route_scale(a, c);
    lemma_route_scale(a, b);
    lemma_route_scale(b, c);
    lemma_length_positive(a);
    lemma_length_positive(b);
    lemma_length_positive(c);
    let (n_ac, d_ac) = (scale_numerator(route(a, c)), scale_denominator(route(a, c)));
    let (n_ab, d_ab) = (scale_numerator(route(a, b)), scale_denominator(route(a, b)));
    let (n_bc, d_bc) = (scale_numerator(route(b, c)), scale_denominator(route(b, c)));
    let (ad, an) = (a.spec_km_denominator(), a.spec_km_numerator());
    let (bd, bn) = (b.spec_km_denominator(), b.spec_km_numerator());
    let (cd, cn) = (c.spec_km_denominator(), c.spec_km_numerator());
    let k = ad * cn * bd * bn;
    assert(k > 0) by (nonlinear_arith)
        requires
            k == ad * cn * bd * bn,
            ad > 0,
            cn > 0,
            bd > 0,
            bn > 0,
    {}
    assert((n_ac * d_ab * d_bc) * k == (n_ac * ad * cn) * (d_ab * d_bc * bd * bn))
        by (nonlinear_arith)
        requires
            k == ad * cn * bd * bn,
    {}
    let m = d_ab * an * bd;
    let w = d_bc * bn * cd;
    assert((d_ac * an * cd) * (d_ab * d_bc * bd * bn) == d_ac * m * w) by {
        lemma_regroup(d_ac, d_ab, an, bd, d_bc, bn, cd);
    }
    assert(m == n_ab * ad * bn);
    assert(w == n_bc * bd * cn);
    assert(d_ac * (n_ab * ad * bn) * (n_bc * bd * cn) == (d_ac * n_ab * n_bc) * k) by {
        lemma_regroup_back(d_ac, n_ab, ad, bn, n_bc, bd, cn);
    }
    assert((n_ac * d_ab * d_bc) * k == (d_ac * n_ab * n_bc) * k);
    lemma_cancel(n_ac * d_ab * d_bc, d_ac * n_ab * n_bc, k);
}

} // verus!
