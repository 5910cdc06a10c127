use travel_emissions::{
    calculate_emission, compute_emission_result, savings_percent, CarSize, EmissionResult,
    Location, Propulsion, TransitMode, Transport,
};

fn diesel_medium_car() -> Transport {
    Transport::Car { propulsion: Propulsion::Diesel, size: CarSize::Medium }
}

fn diesel_medium_carpool() -> Transport {
    Transport::CarPool {
        propulsion: Propulsion::Diesel,
        size: CarSize::Medium,
        stopover: Location::from("Lohmühlenstraße 65, 12435 Berlin"),
    }
}

#[test]
fn car_emission_scenario() {
    assert_eq!(calculate_emission(10_000, &diesel_medium_car()), 3100);
}

#[test]
fn carpool_emission_scenario() {
    assert_eq!(calculate_emission(10_000, &diesel_medium_carpool()), 1550);
}

#[test]
fn transit_bus_emission_scenario() {
    let transit = Transport::Transit(Some(TransitMode::Bus));
    assert_eq!(calculate_emission(10_000, &transit), 1080);
}

#[test]
fn cycling_and_walking_emit_nothing() {
    for distance in [0, 1, 999, 1000, 123_456, u32::MAX] {
        assert_eq!(calculate_emission(distance, &Transport::Cycle), 0);
        assert_eq!(calculate_emission(distance, &Transport::Walk), 0);
    }
}

#[test]
fn zero_distance_emits_nothing() {
    assert_eq!(calculate_emission(0, &diesel_medium_car()), 0);
    assert_eq!(calculate_emission(0, &Transport::Transit(Some(TransitMode::Train))), 0);
}

#[test]
fn emission_floors_to_whole_grams() {
    // 999 m * 310 g/km = 309.69 g, floored.
    assert_eq!(calculate_emission(999, &diesel_medium_car()), 309);
    // Per-person division floors as well: 309 / 2 = 154.5.
    assert_eq!(calculate_emission(999, &diesel_medium_carpool()), 154);
}

#[test]
fn emission_doubles_with_whole_kilometer_distance() {
    let transports = [
        diesel_medium_car(),
        diesel_medium_carpool(),
        Transport::Transit(Some(TransitMode::Train)),
        Transport::Cycle,
    ];
    for t in &transports {
        assert_eq!(calculate_emission(2000, t), 2 * calculate_emission(1000, t));
        assert_eq!(calculate_emission(14_000, t), 2 * calculate_emission(7000, t));
    }
}

#[test]
fn carpool_halves_solo_car_emission() {
    assert_eq!(
        calculate_emission(10_000, &diesel_medium_carpool()),
        calculate_emission(10_000, &diesel_medium_car()) / 2
    );
    assert_eq!(
        calculate_emission(999, &diesel_medium_carpool()),
        calculate_emission(999, &diesel_medium_car()) / 2
    );
}

#[test]
fn emission_at_largest_distance() {
    let gas_big = Transport::Car { propulsion: Propulsion::Gas, size: CarSize::Big };
    // floor(4294967295 * 410 / 1000) = 1760936590.
    assert_eq!(calculate_emission(u32::MAX, &gas_big), 1_760_936_590);
}

#[test]
fn savings_scenarios() {
    // Cycle against the 3100 g car baseline: a full saving.
    assert_eq!(savings_percent(0, 3100), 100);
    // Carpool against the same baseline: exactly half.
    assert_eq!(savings_percent(1550, 3100), 50);
    // Transit bus 1080 g: floor(100 * 1080 / 3100) = 34, saving 66.
    assert_eq!(savings_percent(1080, 3100), 66);
    // A mode as dirty as the baseline saves nothing.
    assert_eq!(savings_percent(3100, 3100), 0);
}

#[test]
fn emission_result_carries_measurement_and_emissions() {
    let result = compute_emission_result(10_000, 1800, &diesel_medium_car());
    assert_eq!(
        result,
        EmissionResult { distance: 10_000, duration: 1800, emissions: 3100 }
    );
}
