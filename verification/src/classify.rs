//! Classification of the routing provider's per-step vehicle-type codes into
//! the domain's transit categories, and resolution of a whole transit trip to
//! the single category used for its emission factor.

use vstd::prelude::*;
use crate::strutil::str_eq;
use crate::transport::TransitMode;

verus! {

/// Why a transit trip could not be resolved to a vehicle category. Both
/// variants are broken integration assumptions, fatal to the in-flight
/// request, and distinct from ordinary routing failures.
#[derive(Clone, Copy, Debug, PartialEq, Eq, Structural, Hash)]
pub enum TransitError {
    /// A step carried a vehicle-type code outside the provider's documented
    /// enumeration.
    UnknownVehicleType,
    /// No step carried a vehicle category with a modeled CO2 factor.
    NoClassifiableMode,
}

/// The classification table for the provider's vehicle-type enumeration:
/// `Some(Some(mode))` for a code with a modeled CO2 factor,
/// `Some(None)` for a recognized code whose vehicle is discarded
/// (no factor is modeled for it), and `None` for a code outside the
/// enumeration.
pub open spec fn spec_classify(code: Seq<char>) -> Option<Option<TransitMode>> {
    if code == "BUS"@ || code == "INTERCITY_BUS"@ || code == "TROLLEYBUS"@ {
        Some(Some(TransitMode::Bus))
    } else if code == "COMMUTER_TRAIN"@ {
        Some(Some(TransitMode::Sbahn))
    } else if code == "SUBWAY"@ {
        Some(Some(TransitMode::Subway))
    } else if code == "HEAVY_RAIL"@ || code == "HIGH_SPEED_TRAIN"@ || code
        == "LONG_DISTANCE_TRAIN"@ || code == "METRO_RAIL"@ || code == "MONORAIL"@ || code
        == "RAIL"@ {
        Some(Some(TransitMode::Train))
    } else if code == "TRAM"@ {
        Some(Some(TransitMode::Tram))
    } else if code == "CABLE_CAR"@ || code == "FERRY"@ || code == "FUNICULAR"@ || code
        == "GONDOLA_LIFT"@ || code == "OTHER"@ || code == "SHARE_TAXI"@ {
        Some(None)
    } else {
        None
    }
}

/// Does the provider's vehicle-type enumeration contain this code?
pub open spec fn known_code(code: Seq<char>) -> bool {
    spec_classify(code) is Some
}

/// Classify one step's vehicle-type code.
///
/// A code outside the provider's enumeration is a broken integration
/// assumption and is reported as `UnknownVehicleType`; a recognized code
/// without a modeled factor (ferries, cable cars, and the like) yields
/// `Ok(None)` and the step is discarded.
pub fn classify_vehicle_type(s: &str) -> (r: Result<Option<TransitMode>, TransitError>)
    ensures
        match spec_classify(s@) {
            Some(c) => r == Ok::<Option<TransitMode>, TransitError>(c),
            None => r == Err::<Option<TransitMode>, TransitError>(TransitError::UnknownVehicleType),
        },
{
    if str_eq(s, "BUS") || str_eq(s, "INTERCITY_BUS") || str_eq(s, "TROLLEYBUS") {
        Ok(Some(TransitMode::Bus))
    } else if str_eq(s, "COMMUTER_TRAIN") {
        Ok(Some(TransitMode::Sbahn))
    } else if str_eq(s, "SUBWAY") {
        Ok(Some(TransitMode::Subway))
    } else if str_eq(s, "HEAVY_RAIL") || str_eq(s, "HIGH_SPEED_TRAIN") || str_eq(
        s,
        "LONG_DISTANCE_TRAIN",
    ) || str_eq(s, "METRO_RAIL") || str_eq(s, "MONORAIL") || str_eq(s, "RAIL") {
        Ok(Some(TransitMode::Train))
    } else if str_eq(s, "TRAM") {
        Ok(Some(TransitMode::Tram))
    } else if str_eq(s, "CABLE_CAR") || str_eq(s, "FERRY") || str_eq(s, "FUNICULAR") || str_eq(
        s,
        "GONDOLA_LIFT",
    ) || str_eq(s, "OTHER") || str_eq(s, "SHARE_TAXI") {
        Ok(None)
    } else {
        Err(TransitError::UnknownVehicleType)
    }
}

impl TransitMode {
    /// Classify one step's vehicle-type code, for callers that have already
    /// ruled out codes outside the provider's enumeration.
    pub fn parse_vehicle_type(s: &str) -> (r: Option<TransitMode>)
        requires
            known_code(s@),
        ensures
            Some(r) == spec_classify(s@),
    {
        match classify_vehicle_type(s) {
            Ok(c) => c,
            Err(_) => unreached(),
        }
    }
}

/// Every code in the sequence lies inside the provider's enumeration.
pub open spec fn all_known(codes: Seq<Seq<char>>) -> bool {
    forall|i: int| 0 <= i < codes.len() ==> known_code(codes[i])
}

/// The first code, in step order, that classifies to a vehicle category with
/// a modeled factor; codes that classify but are discarded are skipped.
pub open spec fn first_classified(codes: Seq<Seq<char>>) -> Option<TransitMode>
    decreases codes.len(),
{
    if codes.len() == 0 {
        None
    } else {
        match spec_classify(codes[0]) {
            Some(Some(mode)) => Some(mode),
            _ => first_classified(codes.drop_first()),
        }
    }
}

/// Appending a code changes the first classified mode only when none was
/// classified before it.
proof fn lemma_first_classified_push(codes: Seq<Seq<char>>, code: Seq<char>)
    ensures
        first_classified(codes.push(code)) == match first_classified(codes) {
            Some(mode) => Some(mode),
            None => match spec_classify(code) {
                Some(Some(mode)) => Some(mode),
                _ => None::<TransitMode>,
            },
        },
    decreases codes.len(),
{
    if codes.len() == 0 {
        assert(codes.push(code).drop_first() =~= codes);
    } else {
        assert(codes.push(code).drop_first() =~= codes.drop_first().push(code));
        lemma_first_classified_push(codes.drop_first(), code);
    }
}

/// Resolve a measured transit trip to the vehicle category used for the
/// whole trip: the first step, in measurement order, whose code classifies
/// to a category with a modeled factor.
///
/// Selecting only the first classified mode is a deliberate simplification:
/// trips that mix several vehicle categories are not apportioned.
pub fn resolve_transit_mode(codes: &Vec<String>) -> (r: Result<TransitMode, TransitError>)
    ensures
        !all_known(codes.deep_view()) ==> r == Err::<TransitMode, TransitError>(
            TransitError::UnknownVehicleType,
        ),
        all_known(codes.deep_view()) ==> match first_classified(codes.deep_view()) {
            Some(mode) => r == Ok::<TransitMode, TransitError>(mode),
            None => r == Err::<TransitMode, TransitError>(TransitError::NoClassifiableMode),
        },
{
    let ghost views = codes.deep_view();
    let mut found: Option<TransitMode> = None;
    let mut i: usize = 0;
    while i < codes.len()
        invariant
            views == codes.deep_view(),
            i <= views.len(),
            views.len() == codes@.len(),
            forall|j: int| 0 <= j < i ==> known_code(views[j]),
            found == first_classified(views.take(i as int)),
        decreases codes@.len() - i,
    {
        proof {
            assert(views[i as int] == codes@[i as int]@);
        }
        match classify_vehicle_type(codes[i].as_str()) {
            Err(e) => {
                proof {
                    assert(!known_code(views[i as int]));
                    assert(!all_known(views));
                }
                return Err(e);
            },
            Ok(step_mode) => {
                proof {
                    lemma_first_classified_push(views.take(i as int), views[i as int]);
                    assert(views.take(i as int).push(views[i as int]) =~= views.take(
                        i as int + 1,
                    ));
                }
                if found.is_none() {
                    found = step_mode;
                }
            },
        }
        i += 1;
    }
    proof {
        assert(views.take(views.len() as int) =~= views);
    }
    match found {
        Some(mode) => Ok(mode),
        None => Err(TransitError::NoClassifiableMode),
    }
}

} // verus!
