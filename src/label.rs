use vstd::prelude::*;
use crate::unit::DistanceUnit;

verus! {

/// The text written after a distance's magnitude.
pub open spec fn suffix_of(unit: DistanceUnit) -> Seq<char> {
    match unit {
        DistanceUnit::Km => "km"@,
        DistanceUnit::Mi => " mi."@,
        DistanceUnit::Au => " AU"@,
        DistanceUnit::Ly => " ly"@,
        DistanceUnit::Pc => " pc"@,
    }
}

/// The text written after a temperature's magnitude in kelvins.
pub open spec fn kelvin_suffix() -> Seq<char> {
    "K"@
}

impl DistanceUnit {
    /// The text written after a magnitude in this unit.
    pub fn suffix(&self) -> (r: &'static str)
        ensures
            r@ == suffix_of(*self),
    {
        match self {
            DistanceUnit::Km => "km",
            DistanceUnit::Mi => " mi.",
            DistanceUnit::Au => " AU",
            DistanceUnit::Ly => " ly",
            DistanceUnit::Pc => " pc",
        }
    }
}

/// A distance as text: the magnitude as written, then the unit's suffix.
/// The magnitude is read, never changed, so labelling twice gives the same
/// text.
pub fn label(magnitude: &str, unit: DistanceUnit) -> (r: String)
    ensures
        r@ == magnitude@ + suffix_of(unit),
{
    let mut text = magnitude.to_owned();
    text.append(unit.suffix());
    text
}

/// A temperature as text: the magnitude in kelvins as written, then `K`.
pub fn label_kelvin(magnitude: &str) -> (r: String)
    ensures
        r@ == magnitude@ + kelvin_suffix(),
{
    let mut text = magnitude.to_owned();
    text.append("K");
    text
}

} // verus!
