use vstd::prelude::*;
use crate::unit::DistanceUnit;

verus! {

/// One of the four canonical conversion constants.
///
/// Each links two neighbours on the chain of distance units and says how
/// many of the smaller unit make one of the larger. Every conversion is
/// built from these four and no other number.
#[derive(Clone, Copy, Debug, PartialEq, Eq, Structural)]
pub enum Constant {
    /// Kilometres in a mile: 1.609344.
    KmPerMi,
    /// Kilometres in an astronomical unit: 149,597,871.
    KmPerAu,
    /// Astronomical units in a light-year: 63,241.0771.
    AuPerLy,
    /// Light-years in a parsec: 3.26156378.
    LyPerPc,
}

/// The constant that links the units at places `rank` and `rank + 1`.
pub open spec fn constant_at(rank: int) -> Constant
    recommends
        0 <= rank < 4,
{
    if rank <= 0 {
        Constant::KmPerMi
    } else if rank == 1 {
        Constant::KmPerAu
    } else if rank == 2 {
        Constant::AuPerLy
    } else {
        Constant::LyPerPc
    }
}

impl Constant {
    /// The constant's exact value is `spec_numerator() / spec_denominator()`.
    pub open spec fn spec_numerator(self) -> int {
        match self {
            Constant::KmPerMi => 1609344,
            Constant::KmPerAu => 149597871,
            Constant::AuPerLy => 632410771,
            Constant::LyPerPc => 326156378,
        }
    }

    /// A power of ten: the constant is a decimal number.
    pub open spec fn spec_denominator(self) -> int {
        match self {
            Constant::KmPerMi => 1000000,
            Constant::KmPerAu => 1,
            Constant::AuPerLy => 10000,
            Constant::LyPerPc => 100000000,
        }
    }

    /// The unit of which one holds `self` of the other.
    pub open spec fn larger(self) -> DistanceUnit {
        match self {
            Constant::KmPerMi => DistanceUnit::Mi,
            Constant::KmPerAu => DistanceUnit::Au,
            Constant::AuPerLy => DistanceUnit::Ly,
            Constant::LyPerPc => DistanceUnit::Pc,
        }
    }

    /// The constant's digits, without its decimal point.
    pub fn numerator(&self) -> (r: u64)
        ensures
            r as int == self.spec_numerator(),
    {
        match self {
            Constant::KmPerMi => 1609344,
            Constant::KmPerAu => 149597871,
            Constant::AuPerLy => 632410771,
            Constant::LyPerPc => 326156378,
        }
    }

    /// The power of ten that divides `numerator` to give the constant.
    pub fn denominator(&self) -> (r: u64)
        ensures
            r as int == self.spec_denominator(),
    {
        match self {
            Constant::KmPerMi => 1000000,
            Constant::KmPerAu => 1,
            Constant::AuPerLy => 10000,
            Constant::LyPerPc => 100000000,
        }
    }
}

} // verus!
