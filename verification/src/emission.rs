//! The emission calculator: per-person CO2 emitted over a measured distance,
//! and the savings percentage a travel mode yields against the car baseline.

use vstd::prelude::*;
use vstd::arithmetic::div_mod::{
    lemma_div_basics_1,
    lemma_div_basics_2,
    lemma_div_is_ordered,
    lemma_div_multiples_vanish,
    lemma_div_nonincreasing,
};
use vstd::arithmetic::mul::lemma_mul_inequality;
use crate::transport::{CarSize, Location, Propulsion, Transport};
use crate::transport::{car_factor, emission_factor, emission_factor_bounded, is_resolved};

verus! {

/// Number of people among whom a trip's emissions are apportioned: two for a
/// carpool, one for every other transport.
pub open spec fn occupancy(t: Transport) -> u32 {
    match t {
        Transport::CarPool { .. } => 2,
        _ => 1,
    }
}

/// Grams of CO2 equivalent emitted per person over `distance` meters: the
/// per-kilometer factor is scaled to meters by the division by 1000, and the
/// total is split across the occupants, flooring at each whole gram.
pub open spec fn spec_emission(distance: int, t: Transport) -> int
    recommends
        distance >= 0,
        is_resolved(t),
{
    distance * emission_factor(t) / 1000 / (occupancy(t) as int)
}

/// Per-person emissions in grams of CO2 equivalent for a trip of
/// `distance` meters with a resolved transport.
pub fn calculate_emission(distance: u32, transport: &Transport) -> (r: u32)
    requires
        is_resolved(*transport),
    ensures
        r == spec_emission(distance as int, *transport),
{
    broadcast use emission_factor_bounded;

    let factor = transport.co2();
    let people: u64 = match transport {
        Transport::CarPool { .. } => 2,
        _ => 1,
    };
    proof {
        lemma_mul_inequality(distance as int, u32::MAX as int, factor as int);
        lemma_mul_inequality(factor as int, 410, u32::MAX as int);
    }
    let total: u64 = (distance as u64) * (factor as u64);
    let per_km: u64 = total / 1000;
    let per_person: u64 = per_km / people;
    proof {
        lemma_div_is_ordered(total as int, u32::MAX as int * 410, 1000);
        assert(per_km <= u32::MAX as int * 410 / 1000);
        lemma_div_nonincreasing(per_km as int, people as int);
        assert(per_person <= per_km);
    }
    per_person as u32
}

/// The percent reduction of a mode's per-person emissions against the car
/// baseline, floored to a whole percent.
pub open spec fn spec_savings_percent(emissions: int, car_emissions: int) -> int
    recommends
        car_emissions > 0,
        0 <= emissions <= car_emissions,
{
    100 - 100 * emissions / car_emissions
}

/// Percent reduction of `emissions` against the `car_emissions` baseline.
///
/// The baseline must be positive, and a mode that emits more than the car is
/// outside the comparison this report makes.
pub fn savings_percent(emissions: u32, car_emissions: u32) -> (r: u32)
    requires
        car_emissions > 0,
        emissions <= car_emissions,
    ensures
        r == spec_savings_percent(emissions as int, car_emissions as int),
{
    let scaled: u64 = 100 * (emissions as u64);
    let ratio: u64 = scaled / (car_emissions as u64);
    proof {
        lemma_mul_inequality(emissions as int, car_emissions as int, 100);
        lemma_div_is_ordered(
            100 * emissions as int,
            100 * car_emissions as int,
            car_emissions as int,
        );
        lemma_div_multiples_vanish(100, car_emissions as int);
        assert(100 * car_emissions as int == car_emissions as int * 100);
        assert(ratio <= 100);
    }
    100 - (ratio as u32)
}

/// Distance, duration, and per-person emissions: the shape handed back
/// across the system boundary for one measured trip.
#[derive(Clone, Copy, Debug, PartialEq, Eq, Structural, Hash)]
pub struct EmissionResult {
    /// Meters between origin and destination along the measured route.
    pub distance: u32,
    /// Seconds the measured route takes.
    pub duration: u32,
    /// Grams of CO2 equivalent emitted per person.
    pub emissions: u32,
}

/// Combine a route measurement with a resolved transport into the result
/// shape returned across the system boundary.
pub fn compute_emission_result(distance: u32, duration: u32, transport: &Transport) -> (r:
    EmissionResult)
    requires
        is_resolved(*transport),
    ensures
        r.distance == distance,
        r.duration == duration,
        r.emissions == spec_emission(distance as int, *transport),
{
    EmissionResult { distance, duration, emissions: calculate_emission(distance, transport) }
}

/// The stopover of a carpool never affects the emission factor: a carpool
/// shares the solo car's factor for the same drive train and size class.
pub proof fn lemma_carpool_factor_matches_car(
    propulsion: Propulsion,
    size: CarSize,
    stopover: Location,
)
    ensures
        emission_factor(Transport::CarPool { propulsion, size, stopover })
            == emission_factor(Transport::Car { propulsion, size }),
{
}

/// Cycling and walking emit nothing, whatever the distance.
pub proof fn lemma_zero_emission_modes(distance: int)
    requires
        distance >= 0,
    ensures
        spec_emission(distance, Transport::Cycle) == 0,
        spec_emission(distance, Transport::Walk) == 0,
{
    lemma_div_basics_1(1000);
    lemma_div_basics_2(0);
    assert(distance * emission_factor(Transport::Cycle) == 0);
    assert(distance * emission_factor(Transport::Walk) == 0);
}

/// Per-person emissions are linear in the distance wherever the flooring
/// divisions are exact: doubling a whole-kilometer distance doubles the
/// emissions of any resolved transport.
pub proof fn lemma_emission_doubles_with_distance(distance: int, t: Transport)
    requires
        distance >= 0,
        distance % 1000 == 0,
        is_resolved(t),
    ensures
        spec_emission(2 * distance, t) == 2 * spec_emission(distance, t),
{
    let f = emission_factor(t) as int;
    let k = distance / 1000;
    assert(distance == 1000 * k);
    assert(distance * f == 1000 * (k * f)) by (nonlinear_arith)
        requires
            distance == 1000 * k,
    ;
    assert(2 * distance * f == 1000 * (2 * (k * f))) by (nonlinear_arith)
        requires
            distance == 1000 * k,
    ;
    lemma_div_multiples_vanish(k * f, 1000);
    lemma_div_multiples_vanish(2 * (k * f), 1000);
    if occupancy(t) == 2 {
        let g = match t {
            Transport::CarPool { propulsion, size, .. } => car_factor(propulsion, size) as int / 2,
            _ => 0,
        };
        assert(f == 2 * g);
        lemma_div_multiples_vanish(k * g, 2);
        assert(k * f == 2 * (k * g)) by (nonlinear_arith)
            requires
                f == 2 * g,
        ;
        assert(2 * (k * f) == 2 * (2 * (k * g)));
        lemma_div_multiples_vanish(2 * (k * g), 2);
    }
}

/// A carpool halves the per-person emissions of the equivalent solo car at
/// the same distance, drive train, and size class, under floor division.
pub proof fn lemma_carpool_halves_emission(
    distance: int,
    propulsion: Propulsion,
    size: CarSize,
    stopover: Location,
)
    requires
        distance >= 0,
    ensures
        spec_emission(distance, Transport::CarPool { propulsion, size, stopover })
            == spec_emission(distance, Transport::Car { propulsion, size }) / 2,
{
    let f = car_factor(propulsion, size) as int;
    lemma_div_basics_2(distance * f / 1000);
}

} // verus!
