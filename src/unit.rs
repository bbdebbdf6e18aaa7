use vstd::prelude::*;

verus! {

/// A unit of distance.
///
/// The units form a chain, ordered as `Mi`, `Km`, `Au`, `Ly`, `Pc`; every
/// conversion walks that chain one neighbour at a time.
#[derive(Clone, Copy, Debug, PartialEq, Eq, Structural)]
pub enum DistanceUnit {
    Km,
    Mi,
    Au,
    Ly,
    Pc,
}

/// The unit at a place on the chain.
pub open spec fn unit_at(rank: int) -> DistanceUnit
    recommends
        0 <= rank < 5,
{
    if rank <= 0 {
        DistanceUnit::Mi
    } else if rank == 1 {
        DistanceUnit::Km
    } else if rank == 2 {
        DistanceUnit::Au
    } else if rank == 3 {
        DistanceUnit::Ly
    } else {
        DistanceUnit::Pc
    }
}

impl DistanceUnit {
    /// The unit's place on the chain.
    pub open spec fn rank(self) -> int {
        match self {
            DistanceUnit::Mi => 0,
            DistanceUnit::Km => 1,
            DistanceUnit::Au => 2,
            DistanceUnit::Ly => 3,
            DistanceUnit::Pc => 4,
        }
    }

    /// One of the unit, in kilometres, is
    /// `spec_km_numerator() / spec_km_denominator()`: a mile is 1.609344 km,
    /// an astronomical unit 149,597,871 km, a light-year 63,241.0771
    /// astronomical units and a parsec 3.26156378 light-years.
    pub open spec fn spec_km_numerator(self) -> int {
        match self {
            DistanceUnit::Mi => 1609344,
            DistanceUnit::Km => 1,
            DistanceUnit::Au => 149597871,
            DistanceUnit::Ly => 149597871 as int * 632410771,
            DistanceUnit::Pc => 149597871 as int * 632410771 * 326156378,
        }
    }

    pub open spec fn spec_km_denominator(self) -> int {
        match self {
            DistanceUnit::Mi => 1000000,
            DistanceUnit::Km => 1,
            DistanceUnit::Au => 1,
            DistanceUnit::Ly => 10000,
            DistanceUnit::Pc => 10000 as int * 100000000,
        }
    }

    /// The neighbour of `self` on the way to `target`.
    pub open spec fn spec_next_toward(self, target: DistanceUnit) -> DistanceUnit {
        if self.rank() < target.rank() {
            unit_at(self.rank() + 1)
        } else if self.rank() > target.rank() {
            unit_at(self.rank() - 1)
        } else {
            self
        }
    }

    /// The unit's place on the chain, from 0 (`Mi`) to 4 (`Pc`).
    pub fn position(&self) -> (r: u8)
        ensures
            r as int == self.rank(),
            r < 5,
    {
        match self {
            DistanceUnit::Mi => 0,
            DistanceUnit::Km => 1,
            DistanceUnit::Au => 2,
            DistanceUnit::Ly => 3,
            DistanceUnit::Pc => 4,
        }
    }

    /// The neighbour of `self` on the chain on the way to `target`, or
    /// `self` when the two are the same unit.
    pub fn next_toward(&self, target: &DistanceUnit) -> (r: DistanceUnit)
        ensures
            r == self.spec_next_toward(*target),
    {
        let here = self.position();
        let there = target.position();
        if here == there {
            *self
        } else if here < there {
            match self {
                DistanceUnit::Mi => DistanceUnit::Km,
                DistanceUnit::Km => DistanceUnit::Au,
                DistanceUnit::Au => DistanceUnit::Ly,
                _ => DistanceUnit::Pc,
            }
        } else {
            match self {
                DistanceUnit::Pc => DistanceUnit::Ly,
                DistanceUnit::Ly => DistanceUnit::Au,
                DistanceUnit::Au => DistanceUnit::Km,
                _ => DistanceUnit::Mi,
            }
        }
    }
}

} // verus!
