//! The transport taxonomy: every supported way of traveling, with its
//! mode-specific parameters, and the CO2-intensity lookup.

use vstd::prelude::*;
use crate::strutil::{eq_ignore_ascii_case, fold_chars};

verus! {

/// Drive train of a car-based transport.
#[derive(Clone, Copy, Debug, PartialEq, Eq, Structural, Hash)]
pub enum Propulsion {
    Diesel,
    Electric,
    Gas,
}

/// The propulsion request parameter, matched without regard to ASCII case;
/// any string outside the recognized set is an input contract violation.
pub open spec fn spec_parse_propulsion(s: Seq<char>) -> Option<Propulsion> {
    if fold_chars(s) == fold_chars("diesel"@) {
        Some(Propulsion::Diesel)
    } else if fold_chars(s) == fold_chars("electric"@) {
        Some(Propulsion::Electric)
    } else if fold_chars(s) == fold_chars("gas"@) {
        Some(Propulsion::Gas)
    } else {
        None
    }
}

impl Propulsion {
    /// Parse the propulsion request parameter, ignoring ASCII case; a string
    /// outside the recognized set is rejected as an input contract violation.
    pub fn from_str(s: &str) -> (r: Result<Propulsion, ()>)
        ensures
            match spec_parse_propulsion(s@) {
                Some(p) => r == Ok::<Propulsion, ()>(p),
                None => r == Err::<Propulsion, ()>(()),
            },
    {
        if eq_ignore_ascii_case(s, "diesel") {
            Ok(Propulsion::Diesel)
        } else if eq_ignore_ascii_case(s, "electric") {
            Ok(Propulsion::Electric)
        } else if eq_ignore_ascii_case(s, "gas") {
            Ok(Propulsion::Gas)
        } else {
            Err(())
        }
    }
}

/// Size class of a car-based transport.
#[derive(Clone, Copy, Debug, PartialEq, Eq, Structural, Hash)]
pub enum CarSize {
    Small,
    Medium,
    Big,
}

/// The size request parameter, matched without regard to ASCII case; any
/// string outside the recognized set is an input contract violation.
pub open spec fn spec_parse_car_size(s: Seq<char>) -> Option<CarSize> {
    if fold_chars(s) == fold_chars("small"@) {
        Some(CarSize::Small)
    } else if fold_chars(s) == fold_chars("medium"@) {
        Some(CarSize::Medium)
    } else if fold_chars(s) == fold_chars("big"@) {
        Some(CarSize::Big)
    } else {
        None
    }
}

impl CarSize {
    /// Parse the size request parameter, ignoring ASCII case; a string
    /// outside the recognized set is rejected as an input contract violation.
    pub fn from_str(s: &str) -> (r: Result<CarSize, ()>)
        ensures
            match spec_parse_car_size(s@) {
                Some(c) => r == Ok::<CarSize, ()>(c),
                None => r == Err::<CarSize, ()>(()),
            },
    {
        if eq_ignore_ascii_case(s, "small") {
            Ok(CarSize::Small)
        } else if eq_ignore_ascii_case(s, "medium") {
            Ok(CarSize::Medium)
        } else if eq_ignore_ascii_case(s, "big") {
            Ok(CarSize::Big)
        } else {
            Err(())
        }
    }
}

/// The vehicle category actually used on a public-transit trip, discovered
/// only after the route has been measured.
#[derive(Clone, Copy, Debug, PartialEq, Eq, Structural, Hash)]
pub enum TransitMode {
    Bus,
    Sbahn,
    Subway,
    Train,
    Tram,
}

/// An address, kept verbatim; it is only ever passed through to the routing
/// service, so no validation is applied.
#[derive(Clone, Debug, PartialEq, Eq, Hash)]
pub struct Location(pub String);

impl Location {
    /// Wrap an address string verbatim.
    pub fn from(address: &str) -> (r: Location)
        ensures
            r.0@ == address@,
    {
        Location(address.to_owned())
    }
}

/// A selected way of traveling together with its mode-specific data.
///
/// A `Transit` value starts out unresolved (`None`) and is resolved exactly
/// once, after measurement, to the vehicle category the trip actually uses.
#[derive(Clone, Debug, PartialEq, Eq, Hash)]
pub enum Transport {
    Car { propulsion: Propulsion, size: CarSize },
    CarPool { propulsion: Propulsion, size: CarSize, stopover: Location },
    Cycle,
    Transit(Option<TransitMode>),
    Walk,
}

/// Grams of CO2 equivalent per kilometer for a car of the given drive train
/// and size class.
pub open spec fn car_factor(propulsion: Propulsion, size: CarSize) -> u32 {
    match (propulsion, size) {
        (Propulsion::Diesel, CarSize::Small) => 240,
        (Propulsion::Diesel, CarSize::Medium) => 310,
        (Propulsion::Diesel, CarSize::Big) => 390,
        (Propulsion::Electric, CarSize::Small) => 160,
        (Propulsion::Electric, CarSize::Medium) => 200,
        (Propulsion::Electric, CarSize::Big) => 240,
        (Propulsion::Gas, CarSize::Small) => 280,
        (Propulsion::Gas, CarSize::Medium) => 340,
        (Propulsion::Gas, CarSize::Big) => 410,
    }
}

/// Grams of CO2 equivalent per kilometer for a transit vehicle category.
pub open spec fn transit_factor(mode: TransitMode) -> u32 {
    match mode {
        TransitMode::Bus => 108,
        TransitMode::Train => 93,
        TransitMode::Sbahn => 80,
        TransitMode::Subway => 80,
        TransitMode::Tram => 80,
    }
}

/// A transport whose emission factor may be read: every variant except an
/// unresolved `Transit`.
pub open spec fn is_resolved(t: Transport) -> bool {
    !(t matches Transport::Transit(None))
}

/// Grams of CO2 equivalent per kilometer for a resolved transport.
pub open spec fn emission_factor(t: Transport) -> u32
    recommends
        is_resolved(t),
{
    match t {
        Transport::Car { propulsion, size } => car_factor(propulsion, size),
        Transport::CarPool { propulsion, size, .. } => car_factor(propulsion, size),
        Transport::Cycle => 0,
        Transport::Walk => 0,
        Transport::Transit(Some(mode)) => transit_factor(mode),
        Transport::Transit(None) => 0,
    }
}

/// Every entry of the CO2-intensity table stays at or below the largest car
/// factor; the emission arithmetic leans on this bound.
pub broadcast proof fn emission_factor_bounded(t: Transport)
    ensures
        #[trigger] emission_factor(t) <= 410,
{
}

impl Transport {
    /// The request parameter the routing service expects for this transport.
    pub fn mode(&self) -> (r: &'static str)
        ensures
            r@ == spec_routing_mode(*self),
    {
        match self {
            Transport::Car { .. } | Transport::CarPool { .. } => "driving",
            Transport::Cycle => "bicycling",
            Transport::Transit(_) => "transit",
            Transport::Walk => "walking",
        }
    }

    /// Human-readable label of the travel mode, independent of the
    /// mode-specific parameters.
    pub fn display_label(&self) -> (r: &'static str)
        ensures
            r@ == spec_display_label(*self),
    {
        match self {
            Transport::Car { .. } => "Driving",
            Transport::CarPool { .. } => "Carpooling",
            Transport::Cycle => "Cycling",
            Transport::Transit(_) => "Public transport",
            Transport::Walk => "Walking",
        }
    }

    /// Grams of CO2 equivalent per kilometer.
    ///
    /// Reading the factor of an unresolved `Transit` is a contract violation,
    /// so the caller must resolve the trip first.
    pub fn co2(&self) -> (r: u32)
        requires
            is_resolved(*self),
        ensures
            r == emission_factor(*self),
    {
        match self {
            Transport::CarPool { propulsion, size, .. } | Transport::Car { propulsion, size } => {
                match (propulsion, size) {
                    (Propulsion::Diesel, CarSize::Small) => 240,
                    (Propulsion::Diesel, CarSize::Medium) => 310,
                    (Propulsion::Diesel, CarSize::Big) => 390,
                    (Propulsion::Electric, CarSize::Small) => 160,
                    (Propulsion::Electric, CarSize::Medium) => 200,
                    (Propulsion::Electric, CarSize::Big) => 240,
                    (Propulsion::Gas, CarSize::Small) => 280,
                    (Propulsion::Gas, CarSize::Medium) => 340,
                    (Propulsion::Gas, CarSize::Big) => 410,
                }
            },
            Transport::Cycle | Transport::Walk => 0,
            Transport::Transit(Some(transit_mode)) => match transit_mode {
                TransitMode::Bus => 108,
                TransitMode::Train => 93,
                TransitMode::Sbahn | TransitMode::Subway | TransitMode::Tram => 80,
            },
            Transport::Transit(None) => unreached(),
        }
    }

    /// Record the vehicle category a measured transit trip actually uses.
    /// This is the single deferred write in a transport's lifecycle: only a
    /// still-unresolved transit may be resolved, and only once.
    pub fn resolve(&mut self, mode: TransitMode)
        requires
            old(self) matches Transport::Transit(None),
        ensures
            *final(self) == Transport::Transit(Some(mode)),
    {
        *self = Transport::Transit(Some(mode));
    }
}

/// The routing-service request parameter for each travel mode.
pub open spec fn spec_routing_mode(t: Transport) -> Seq<char> {
    match t {
        Transport::Car { .. } => "driving"@,
        Transport::CarPool { .. } => "driving"@,
        Transport::Cycle => "bicycling"@,
        Transport::Transit(_) => "transit"@,
        Transport::Walk => "walking"@,
    }
}

/// The display label for each travel mode.
pub open spec fn spec_display_label(t: Transport) -> Seq<char> {
    match t {
        Transport::Car { .. } => "Driving"@,
        Transport::CarPool { .. } => "Carpooling"@,
        Transport::Cycle => "Cycling"@,
        Transport::Transit(_) => "Public transport"@,
        Transport::Walk => "Walking"@,
    }
}

} // verus!
