use units_of_measure::constant::Constant;
use units_of_measure::route::{conversion_route, Hop, Scaling};
use units_of_measure::unit::DistanceUnit;

const UNITS: [DistanceUnit; 5] = [
    DistanceUnit::Km,
    DistanceUnit::Mi,
    DistanceUnit::Au,
    DistanceUnit::Ly,
    DistanceUnit::Pc,
];

fn constant_value(c: Constant) -> f64 {
    c.numerator() as f64 / c.denominator() as f64
}

fn convert(value: f64, from: DistanceUnit, to: DistanceUnit) -> f64 {
    let mut v = value;
    for hop in conversion_route(from, to) {
        let c = constant_value(hop.constant);
        v = match hop.scaling {
            Scaling::Multiply => v * c,
            Scaling::Divide => v / c,
        };
    }
    v
}

#[test]
fn round_trip_every_pair() {
    for &a in UNITS.iter() {
        for &b in UNITS.iter() {
            for &x in [1.0_f64, 0.5, 12345.678, 1.0e-6, 3.0e12].iter() {
                let back = convert(convert(x, a, b), b, a);
                assert!(((back - x) / x).abs() < 1e-9, "{:?} -> {:?} -> {:?}", a, b, a);
            }
        }
    }
}

#[test]
fn round_trip_au_km_au() {
    let km = convert(1.0, DistanceUnit::Au, DistanceUnit::Km);
    assert_eq!(km, 149_597_871.0);
    assert_eq!(convert(km, DistanceUnit::Km, DistanceUnit::Au), 1.0);
}

#[test]
fn canonical_constants_exact() {
    assert_eq!(convert(1.0, DistanceUnit::Mi, DistanceUnit::Km), 1.609344);
    assert_eq!(convert(1.0, DistanceUnit::Au, DistanceUnit::Km), 149_597_871.0);
    assert_eq!(convert(1.0, DistanceUnit::Ly, DistanceUnit::Au), 63241.0771);
    assert_eq!(convert(1.0, DistanceUnit::Pc, DistanceUnit::Ly), 3.26156378);
}

#[test]
fn constant_digits() {
    assert_eq!(Constant::KmPerMi.numerator(), 1609344);
    assert_eq!(Constant::KmPerMi.denominator(), 1000000);
    assert_eq!(Constant::KmPerAu.numerator(), 149597871);
    assert_eq!(Constant::KmPerAu.denominator(), 1);
    assert_eq!(Constant::AuPerLy.numerator(), 632410771);
    assert_eq!(Constant::AuPerLy.denominator(), 10000);
    assert_eq!(Constant::LyPerPc.numerator(), 326156378);
    assert_eq!(Constant::LyPerPc.denominator(), 100000000);
    assert_eq!(constant_value(Constant::AuPerLy), 63241.0771);
}

#[test]
fn route_to_same_unit_is_empty() {
    for &u in UNITS.iter() {
        assert!(conversion_route(u, u).is_empty());
        assert_eq!(convert(42.5, u, u), 42.5);
    }
}

#[test]
fn route_mile_to_parsec_walks_the_chain() {
    let r = conversion_route(DistanceUnit::Mi, DistanceUnit::Pc);
    assert_eq!(
        r,
        vec![
            Hop { constant: Constant::KmPerMi, scaling: Scaling::Multiply },
            Hop { constant: Constant::KmPerAu, scaling: Scaling::Divide },
            Hop { constant: Constant::AuPerLy, scaling: Scaling::Divide },
            Hop { constant: Constant::LyPerPc, scaling: Scaling::Divide },
        ]
    );
}

#[test]
fn route_parsec_to_kilometre_goes_through_ly_and_au() {
    let r = conversion_route(DistanceUnit::Pc, DistanceUnit::Km);
    assert_eq!(
        r,
        vec![
            Hop { constant: Constant::LyPerPc, scaling: Scaling::Multiply },
            Hop { constant: Constant::AuPerLy, scaling: Scaling::Multiply },
            Hop { constant: Constant::KmPerAu, scaling: Scaling::Multiply },
        ]
    );
    let x = 2.5_f64;
    assert_eq!(convert(x, DistanceUnit::Pc, DistanceUnit::Km), x * 3.26156378 * 63241.0771 * 149_597_871.0);
}

#[test]
fn route_kilometre_to_mile_divides() {
    let r = conversion_route(DistanceUnit::Km, DistanceUnit::Mi);
    assert_eq!(r, vec![Hop { constant: Constant::KmPerMi, scaling: Scaling::Divide }]);
    assert_eq!(convert(1.609344, DistanceUnit::Km, DistanceUnit::Mi), 1.0);
}

#[test]
fn route_lengths_follow_the_chain() {
    for &a in UNITS.iter() {
        for &b in UNITS.iter() {
            let gap = (a.position() as i32 - b.position() as i32).abs() as usize;
            assert_eq!(conversion_route(a, b).len(), gap);
        }
    }
}

#[test]
fn chain_positions_and_neighbours() {
    assert_eq!(DistanceUnit::Mi.position(), 0);
    assert_eq!(DistanceUnit::Km.position(), 1);
    assert_eq!(DistanceUnit::Au.position(), 2);
    assert_eq!(DistanceUnit::Ly.position(), 3);
    assert_eq!(DistanceUnit::Pc.position(), 4);
    assert_eq!(DistanceUnit::Mi.next_toward(&DistanceUnit::Pc), DistanceUnit::Km);
    assert_eq!(DistanceUnit::Pc.next_toward(&DistanceUnit::Mi), DistanceUnit::Ly);
    assert_eq!(DistanceUnit::Au.next_toward(&DistanceUnit::Au), DistanceUnit::Au);
    assert_eq!(DistanceUnit::Au.next_toward(&DistanceUnit::Km), DistanceUnit::Km);
}

#[test]
fn hop_between_neighbours() {
    assert_eq!(
        Hop::between(DistanceUnit::Ly, DistanceUnit::Au),
        Hop { constant: Constant::AuPerLy, scaling: Scaling::Multiply }
    );
    assert_eq!(
        Hop::between(DistanceUnit::Ly, DistanceUnit::Pc),
        Hop { constant: Constant::LyPerPc, scaling: Scaling::Divide }
    );
}

#[test]
fn composing_routes_matches_direct_route() {
    let x = 7.25_f64;
    let direct = convert(x, DistanceUnit::Mi, DistanceUnit::Ly);
    let via_au = convert(convert(x, DistanceUnit::Mi, DistanceUnit::Au), DistanceUnit::Au, DistanceUnit::Ly);
    assert_eq!(direct, via_au);
}
