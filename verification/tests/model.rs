use travel_emissions::{CarSize, Location, Propulsion, TransitMode, Transport};

fn car(propulsion: Propulsion, size: CarSize) -> Transport {
    Transport::Car { propulsion, size }
}

fn carpool(propulsion: Propulsion, size: CarSize) -> Transport {
    Transport::CarPool { propulsion, size, stopover: Location::from("Lohmühlenstraße 65, 12435 Berlin") }
}

#[test]
fn car_factor_table() {
    assert_eq!(car(Propulsion::Diesel, CarSize::Small).co2(), 240);
    assert_eq!(car(Propulsion::Diesel, CarSize::Medium).co2(), 310);
    assert_eq!(car(Propulsion::Diesel, CarSize::Big).co2(), 390);
    assert_eq!(car(Propulsion::Electric, CarSize::Small).co2(), 160);
    assert_eq!(car(Propulsion::Electric, CarSize::Medium).co2(), 200);
    assert_eq!(car(Propulsion::Electric, CarSize::Big).co2(), 240);
    assert_eq!(car(Propulsion::Gas, CarSize::Small).co2(), 280);
    assert_eq!(car(Propulsion::Gas, CarSize::Medium).co2(), 340);
    assert_eq!(car(Propulsion::Gas, CarSize::Big).co2(), 410);
}

#[test]
fn transit_factor_table() {
    assert_eq!(Transport::Transit(Some(TransitMode::Bus)).co2(), 108);
    assert_eq!(Transport::Transit(Some(TransitMode::Train)).co2(), 93);
    assert_eq!(Transport::Transit(Some(TransitMode::Sbahn)).co2(), 80);
    assert_eq!(Transport::Transit(Some(TransitMode::Subway)).co2(), 80);
    assert_eq!(Transport::Transit(Some(TransitMode::Tram)).co2(), 80);
}

#[test]
fn zero_factor_modes() {
    assert_eq!(Transport::Cycle.co2(), 0);
    assert_eq!(Transport::Walk.co2(), 0);
}

#[test]
fn carpool_factor_matches_car_for_every_configuration() {
    let propulsions = [Propulsion::Diesel, Propulsion::Electric, Propulsion::Gas];
    let sizes = [CarSize::Small, CarSize::Medium, CarSize::Big];
    for &p in &propulsions {
        for &s in &sizes {
            assert_eq!(car(p, s).co2(), carpool(p, s).co2());
        }
    }
}

#[test]
fn routing_modes() {
    assert_eq!(car(Propulsion::Diesel, CarSize::Small).mode(), "driving");
    assert_eq!(carpool(Propulsion::Gas, CarSize::Big).mode(), "driving");
    assert_eq!(Transport::Cycle.mode(), "bicycling");
    assert_eq!(Transport::Transit(None).mode(), "transit");
    assert_eq!(Transport::Transit(Some(TransitMode::Tram)).mode(), "transit");
    assert_eq!(Transport::Walk.mode(), "walking");
}

#[test]
fn display_labels() {
    assert_eq!(car(Propulsion::Electric, CarSize::Medium).display_label(), "Driving");
    assert_eq!(carpool(Propulsion::Diesel, CarSize::Small).display_label(), "Carpooling");
    assert_eq!(Transport::Cycle.display_label(), "Cycling");
    assert_eq!(Transport::Transit(None).display_label(), "Public transport");
    assert_eq!(Transport::Walk.display_label(), "Walking");
}

#[test]
fn parse_propulsion() {
    assert_eq!(Propulsion::from_str("diesel"), Ok(Propulsion::Diesel));
    assert_eq!(Propulsion::from_str("Diesel"), Ok(Propulsion::Diesel));
    assert_eq!(Propulsion::from_str("electric"), Ok(Propulsion::Electric));
    assert_eq!(Propulsion::from_str("Electric"), Ok(Propulsion::Electric));
    assert_eq!(Propulsion::from_str("gas"), Ok(Propulsion::Gas));
    assert_eq!(Propulsion::from_str("Gas"), Ok(Propulsion::Gas));
}

#[test]
fn parse_propulsion_ignores_case() {
    assert_eq!(Propulsion::from_str("DIESEL"), Ok(Propulsion::Diesel));
    assert_eq!(Propulsion::from_str("eLeCtRiC"), Ok(Propulsion::Electric));
    assert_eq!(Propulsion::from_str("gAS"), Ok(Propulsion::Gas));
}

#[test]
fn parse_propulsion_rejects_unrecognized() {
    assert_eq!(Propulsion::from_str("petrol"), Err(()));
    assert_eq!(Propulsion::from_str("diesels"), Err(()));
    assert_eq!(Propulsion::from_str(""), Err(()));
}

#[test]
fn parse_car_size() {
    assert_eq!(CarSize::from_str("small"), Ok(CarSize::Small));
    assert_eq!(CarSize::from_str("Small"), Ok(CarSize::Small));
    assert_eq!(CarSize::from_str("medium"), Ok(CarSize::Medium));
    assert_eq!(CarSize::from_str("Medium"), Ok(CarSize::Medium));
    assert_eq!(CarSize::from_str("big"), Ok(CarSize::Big));
    assert_eq!(CarSize::from_str("Big"), Ok(CarSize::Big));
}

#[test]
fn parse_car_size_ignores_case() {
    assert_eq!(CarSize::from_str("BIG"), Ok(CarSize::Big));
    assert_eq!(CarSize::from_str("MeDiUm"), Ok(CarSize::Medium));
    assert_eq!(CarSize::from_str("SMALL"), Ok(CarSize::Small));
}

#[test]
fn parse_car_size_rejects_unrecognized() {
    assert_eq!(CarSize::from_str("huge"), Err(()));
    assert_eq!(CarSize::from_str("bigger"), Err(()));
    assert_eq!(CarSize::from_str(""), Err(()));
}

#[test]
fn resolve_writes_transit_mode() {
    let mut transport = Transport::Transit(None);
    transport.resolve(TransitMode::Bus);
    assert_eq!(transport, Transport::Transit(Some(TransitMode::Bus)));
    assert_eq!(transport.co2(), 108);
}

#[test]
fn location_keeps_address_verbatim() {
    let address = "Richardstraße 64, 12055";
    assert_eq!(Location::from(address).0, address);
}
