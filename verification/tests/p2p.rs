use itm::{
    p2p, Climate, ItmErrCode, ModeVariability, P2PCall, P2PRes, Polarization, Quantity,
    HZ_PER_MHZ,
};

/// The double that the model is handed for a quantity.
fn double(q: &Quantity<f32>) -> f64 {
    match *q {
        Quantity::Count(n) => n as f64,
        Quantity::Measured(x) => f64::from(x),
        Quantity::Scaled { value, divisor } => f64::from(value) / f64::from(divisor),
    }
}

/// A stand-in for the model: the loss in free space over the length of the
/// profile, at the frequency that the call presents.
fn free_space(call: P2PCall<f32>) -> P2PRes<f64> {
    let pfl: Vec<f64> = call.pfl.iter().map(double).collect();
    let distance_km = pfl[1] * (pfl[0] - 1.0) / 1000.0;
    let f_mhz = double(&call.f_mhz);
    P2PRes {
        ret_code: 0,
        attenuation_db: 20.0 * distance_km.log10() + 20.0 * f_mhz.log10() + 32.44,
    }
}

const TERRAIN: [f32; 27] = [
    2090.0, 2068.0, 2067.0, 2026.0, 1995.0, 1985.0, 1990.0, 1990.0, 2005.0, 1985.0, 1989.0,
    1954.0, 1962.0, 1938.0, 1928.0, 1920.0, 1920.0, 1916.0, 1925.0, 1931.0, 1931.0, 1960.0,
    1942.0, 1961.0, 1961.0, 1990.0, 1969.0,
];

#[test]
fn test_p2p() {
    let terrain: &[f32] = &[
        2090.0, 2068.0, 2067.0, 2026.0, 1995.0, 1985.0, 1990.0, 1990.0, 2005.0, 1985.0, 1989.0,
        1954.0, 1962.0, 1938.0, 1928.0, 1920.0, 1920.0, 1916.0, 1925.0, 1931.0, 1931.0, 1960.0,
        1942.0, 1961.0, 1961.0, 1990.0, 1969.0,
    ];
    let delta_d = 86.97297;
    let tx_alt = 4.0;
    let rx_alt = 30.0;
    let attenuation_db = p2p(
        tx_alt,
        rx_alt,
        delta_d,
        terrain,
        Climate::Desert,
        301.0,
        900e6,
        Polarization::Vertical,
        15.0,
        0.001,
        ModeVariability::SingleMessage,
        99.0,
        99.0,
        99.0,
        free_space,
    )
    .unwrap();

    println!("attenuation: {attenuation_db} dB");

    assert_ne!(attenuation_db, 273.6794585392174);

    // FSPL over 2261.297 meters
    let expected_free_space_path_loss = 98.61;
    assert!(attenuation_db < expected_free_space_path_loss + 20.0);
    assert!((attenuation_db - expected_free_space_path_loss).abs() < 0.01);
}

/// Runs the scenario with a model that hands the call itself back.
fn presented() -> P2PCall<f32> {
    p2p(
        4.0,
        30.0,
        86.97297,
        &TERRAIN,
        Climate::Desert,
        301.0,
        900e6,
        Polarization::Vertical,
        15.0,
        0.001,
        ModeVariability::SingleMessage,
        99.0,
        98.0,
        97.0,
        |call| P2PRes { ret_code: 0, attenuation_db: call },
    )
    .unwrap()
}

#[test]
fn p2p_presents_the_frequency_in_megahertz() {
    let call = presented();
    assert_eq!(call.f_mhz, Quantity::Scaled { value: 900e6, divisor: 1_000_000 });
    assert_eq!(double(&call.f_mhz), 900.0);
    assert_eq!(HZ_PER_MHZ, 1_000_000);
}

#[test]
fn p2p_presents_discrete_parameters_by_their_codes() {
    let call = presented();
    assert_eq!(call.climate, 4);
    assert_eq!(call.pol, 1);
    assert_eq!(call.mdvar, 0);
}

#[test]
fn p2p_presents_measurements_unchanged_and_in_place() {
    let call = presented();
    assert_eq!(call.h_tx_meter, 4.0);
    assert_eq!(call.h_rx_meter, 30.0);
    assert_eq!(call.n_0, 301.0);
    assert_eq!(call.epsilon, 15.0);
    assert_eq!(call.sigma, 0.001);
    assert_eq!(call.time, 99.0);
    assert_eq!(call.location, 98.0);
    assert_eq!(call.situation, 97.0);
}

#[test]
fn p2p_presents_the_profile_in_its_flat_encoding() {
    let call = presented();
    assert_eq!(call.pfl.len(), 29);
    assert_eq!(call.pfl[0], Quantity::Count(27));
    assert_eq!(call.pfl[1], Quantity::Measured(86.97297));
    for (i, elevation) in TERRAIN.iter().enumerate() {
        assert_eq!(call.pfl[i + 2], Quantity::Measured(*elevation));
    }
    let doubles: Vec<f64> = call.pfl.iter().map(double).collect();
    assert_eq!(doubles[0], 27.0);
    assert_eq!(doubles[1], f64::from(86.97297f32));
    assert_eq!(doubles[2], 2090.0);
    assert_eq!(doubles[28], 1969.0);
}

#[test]
fn p2p_presents_every_discrete_value_by_its_own_code() {
    let climates = [
        (Climate::Equatorial, 1),
        (Climate::ContinentalSubtropical, 2),
        (Climate::MaritimeSubtropical, 3),
        (Climate::Desert, 4),
        (Climate::ContinentalTemperate, 5),
        (Climate::MaritimeTemperateOverLand, 6),
        (Climate::MaritimeTemperateOverSea, 7),
    ];
    let polarizations = [(Polarization::Horizontal, 0), (Polarization::Vertical, 1)];
    let variabilities = [
        (ModeVariability::SingleMessage, 0),
        (ModeVariability::Accidental, 1),
        (ModeVariability::Mobile, 2),
        (ModeVariability::Broadcast, 3),
    ];
    for (climate, climate_code) in climates {
        for (pol, pol_code) in polarizations {
            for (mdvar, mdvar_code) in variabilities {
                let call = P2PCall::new(
                    1.0, 2.0, 3.0, &[4.0, 5.0], climate, 6.0, 7.0, pol, 8.0, 9.0, mdvar, 10.0,
                    11.0, 12.0,
                );
                assert_eq!(call.climate, climate_code);
                assert_eq!(call.pol, pol_code);
                assert_eq!(call.mdvar, mdvar_code);
            }
        }
    }
}

#[test]
fn call_holds_every_argument_in_its_own_place() {
    let call = P2PCall::new(
        1.0,
        2.0,
        3.0,
        &[4.0, 5.0],
        Climate::Equatorial,
        6.0,
        7.0,
        Polarization::Horizontal,
        8.0,
        9.0,
        ModeVariability::Broadcast,
        10.0,
        11.0,
        12.0,
    );
    let expected = P2PCall {
        h_tx_meter: 1.0,
        h_rx_meter: 2.0,
        pfl: vec![
            Quantity::Count(2),
            Quantity::Measured(3.0),
            Quantity::Measured(4.0),
            Quantity::Measured(5.0),
        ],
        climate: 1,
        n_0: 6.0,
        f_mhz: Quantity::Scaled { value: 7.0, divisor: 1_000_000 },
        pol: 0,
        epsilon: 8.0,
        sigma: 9.0,
        mdvar: 3,
        time: 10.0,
        location: 11.0,
        situation: 12.0,
    };
    assert_eq!(call, expected);
}

fn run_with_status(ret_code: i32) -> Result<f64, ItmErrCode> {
    p2p(
        4.0f32,
        30.0,
        86.97297,
        &TERRAIN,
        Climate::Desert,
        301.0,
        900e6,
        Polarization::Vertical,
        15.0,
        0.001,
        ModeVariability::SingleMessage,
        99.0,
        99.0,
        99.0,
        |_call| P2PRes { ret_code, attenuation_db: 101.5 },
    )
}

#[test]
fn p2p_returns_the_attenuation_after_a_clean_run() {
    assert_eq!(run_with_status(0), Ok(101.5));
}

#[test]
fn p2p_returns_the_attenuation_after_a_warning() {
    assert_eq!(run_with_status(1), Ok(101.5));
}

#[test]
fn p2p_returns_the_refusal_of_the_model() {
    assert_eq!(run_with_status(1000), Err(ItmErrCode::TxTerminalHeight));
    assert_eq!(run_with_status(1009), Err(ItmErrCode::Frequency));
    assert_eq!(run_with_status(1013), Err(ItmErrCode::GroundImpedance));
    assert_eq!(run_with_status(1017), Err(ItmErrCode::PathDistance));
    assert_eq!(run_with_status(1022), Err(ItmErrCode::SurfaceRefractivityLarge));
    for code in (1000..=1022).filter(|c| *c != 1015) {
        assert_eq!(run_with_status(code), Err(ItmErrCode::from_code(code).unwrap()));
    }
}

#[test]
fn p2p_calls_the_model_once() {
    let calls = std::cell::Cell::new(0);
    let outcome = p2p(
        4.0f64,
        30.0,
        90.0,
        &[1.0, 2.0, 3.0],
        Climate::ContinentalTemperate,
        301.0,
        433e6,
        Polarization::Horizontal,
        25.0,
        0.02,
        ModeVariability::Accidental,
        50.0,
        50.0,
        50.0,
        |call| {
            calls.set(calls.get() + 1);
            P2PRes { ret_code: 0, attenuation_db: call.pfl.len() }
        },
    );
    assert_eq!(outcome, Ok(5));
    assert_eq!(calls.get(), 1);
}

#[test]
fn p2p_takes_double_precision_measurements_too() {
    let outcome = p2p(
        4.0f64,
        30.0,
        90.0,
        &[1.0, 2.0, 3.0],
        Climate::ContinentalTemperate,
        301.0,
        2.4e9,
        Polarization::Horizontal,
        25.0,
        0.02,
        ModeVariability::Accidental,
        50.0,
        50.0,
        50.0,
        |call| {
            let f_mhz = match call.f_mhz {
                Quantity::Scaled { value, divisor } => value / f64::from(divisor),
                _ => unreachable!(),
            };
            P2PRes { ret_code: 1, attenuation_db: f_mhz }
        },
    );
    assert_eq!(outcome, Ok(2400.0));
}
