use units_of_measure::label::{label, label_kelvin};
use units_of_measure::unit::DistanceUnit;

#[test]
fn kilometre_label() {
    assert_eq!(label(&format!("{}", 3.0_f64), DistanceUnit::Km), "3km");
}

#[test]
fn astronomical_unit_label() {
    assert_eq!(label(&format!("{}", 1.5_f64), DistanceUnit::Au), "1.5 AU");
}

#[test]
fn kelvin_label() {
    assert_eq!(label_kelvin(&format!("{}", 300.0_f64)), "300K");
}

#[test]
fn every_suffix() {
    assert_eq!(DistanceUnit::Km.suffix(), "km");
    assert_eq!(DistanceUnit::Mi.suffix(), " mi.");
    assert_eq!(DistanceUnit::Au.suffix(), " AU");
    assert_eq!(DistanceUnit::Ly.suffix(), " ly");
    assert_eq!(DistanceUnit::Pc.suffix(), " pc");
    assert_eq!(label("2", DistanceUnit::Mi), "2 mi.");
    assert_eq!(label("-4.5", DistanceUnit::Ly), "-4.5 ly");
    assert_eq!(label("0", DistanceUnit::Pc), "0 pc");
}

#[test]
fn labelling_is_stable() {
    let magnitude = String::from("12.5");
    let first = label(&magnitude, DistanceUnit::Au);
    let second = label(&magnitude, DistanceUnit::Au);
    assert_eq!(first, second);
    assert_eq!(magnitude, "12.5");
    assert_eq!(label_kelvin(&magnitude), label_kelvin(&magnitude));
}

#[test]
fn empty_magnitude_gives_suffix_alone() {
    assert_eq!(label("", DistanceUnit::Km), "km");
    assert_eq!(label_kelvin(""), "K");
}
