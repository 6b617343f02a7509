//! The call of the point-to-point propagation model.
//!
//! The model is foreign code behind an untyped numeric interface. What this
//! module fixes is everything that reaches it: which number stands in which
//! place, in which unit, and by which integer each discrete parameter goes.
//! The model itself is handed in by the caller as a function from the
//! argument list to a status code and a value, so that the same path serves
//! the native model and a stand-in.

use vstd::prelude::*;
use crate::enums::{Climate, ModeVariability, Polarization};
use crate::error::{is_documented_code, ItmErrCode};
use crate::profile::{encode_profile, profile_layout, Quantity};

verus! {

/// The number of hertz in a megahertz. The caller gives the frequency in
/// hertz; the model takes it in megahertz.
pub const HZ_PER_MHZ: u32 = 1_000_000;

/// The argument list of the model, in the model's order and units.
#[derive(Debug, PartialEq)]
pub struct P2PCall<T> {
    /// Transmitter height above ground, in meters.
    pub h_tx_meter: T,
    /// Receiver height above ground, in meters.
    pub h_rx_meter: T,
    /// The encoded terrain profile.
    pub pfl: Vec<Quantity<T>>,
    /// The code of the radio climate.
    pub climate: i32,
    /// Surface refractivity, in N-units.
    pub n_0: T,
    /// The frequency in megahertz.
    pub f_mhz: Quantity<T>,
    /// The code of the polarization.
    pub pol: i32,
    /// Relative permittivity of the ground.
    pub epsilon: T,
    /// Conductivity of the ground, in siemens per meter.
    pub sigma: T,
    /// The code of the mode of variability.
    pub mdvar: i32,
    /// Time percentage, as a percentage and not a fraction.
    pub time: T,
    /// Location percentage, as a percentage and not a fraction.
    pub location: T,
    /// Situation percentage, as a percentage and not a fraction.
    pub situation: T,
}

/// What the model hands back: its status code and, beside it, a value that
/// is the attenuation in decibels when the status code is zero or one.
#[derive(Debug, PartialEq)]
pub struct P2PRes<A> {
    pub ret_code: i32,
    pub attenuation_db: A,
}

impl<T> P2PCall<T> {
    /// Whether this argument list is the one that presents the given values
    /// of the caller to the model: measurements unchanged and in their
    /// places, the profile in its flat encoding, the frequency as the
    /// caller's hertz divided by [`HZ_PER_MHZ`], and each discrete parameter
    /// by its code.
    pub open spec fn presents(
        self,
        h_tx_meter: T,
        h_rx_meter: T,
        terrain_delta_m: T,
        terrain: Seq<T>,
        climate: Climate,
        n0: T,
        f_hz: T,
        pol: Polarization,
        epsilon: T,
        sigma: T,
        mode_variability: ModeVariability,
        time: T,
        location: T,
        situation: T,
    ) -> bool {
        &&& self.h_tx_meter == h_tx_meter
        &&& self.h_rx_meter == h_rx_meter
        &&& self.pfl@ == profile_layout(terrain_delta_m, terrain)
        &&& self.climate == climate.spec_code()
        &&& self.n_0 == n0
        &&& self.f_mhz == (Quantity::Scaled { value: f_hz, divisor: HZ_PER_MHZ })
        &&& self.pol == pol.spec_code()
        &&& self.epsilon == epsilon
        &&& self.sigma == sigma
        &&& self.mdvar == mode_variability.spec_code()
        &&& self.time == time
        &&& self.location == location
        &&& self.situation == situation
    }

    /// Whether the argument list has the shape that the model's interface
    /// asks for: a profile whose first number counts the samples that follow
    /// its second, a frequency that went through the change of unit, and
    /// integers that are codes of a climate, a polarization and a mode of
    /// variability.
    pub open spec fn well_shaped(self) -> bool {
        &&& self.pfl@.len() >= 2
        &&& self.pfl@[0] == Quantity::<T>::Count((self.pfl@.len() - 2) as usize)
        &&& forall|i: int| 1 <= i < self.pfl@.len() ==> #[trigger] self.pfl@[i] is Measured
        &&& self.f_mhz matches Quantity::Scaled { divisor, .. } && divisor == HZ_PER_MHZ
        &&& Climate::spec_from_code(self.climate) is Some
        &&& Polarization::spec_from_code(self.pol) is Some
        &&& ModeVariability::spec_from_code(self.mdvar) is Some
    }
}

impl<T: Copy> P2PCall<T> {
    /// Builds the argument list that presents the caller's values to the
    /// model.
    ///
    /// - `h_tx_meter`: transmitter height above ground (meters)
    /// - `h_rx_meter`: receiver height above ground (meters)
    /// - `terrain_delta_m`: distance between two elevation samples (meters)
    /// - `terrain`: elevation samples, `terrain_delta_m` apart (meters)
    /// - `n0`: refractivity (N-units, where 301 stands for 4/3 earth radius)
    /// - `f_hz`: frequency of the signal (hertz)
    /// - `epsilon`: relative permittivity
    /// - `sigma`: ground conductivity (siemens per meter)
    /// - `time`, `location`, `situation`: percentages, above 0 and below 100
    pub fn new(
        h_tx_meter: T,
        h_rx_meter: T,
        terrain_delta_m: T,
        terrain: &[T],
        climate: Climate,
        n0: T,
        f_hz: T,
        pol: Polarization,
        epsilon: T,
        sigma: T,
        mode_variability: ModeVariability,
        time: T,
        location: T,
        situation: T,
    ) -> (call: P2PCall<T>)
        ensures
            call.presents(
                h_tx_meter,
                h_rx_meter,
                terrain_delta_m,
                terrain@,
                climate,
                n0,
                f_hz,
                pol,
                epsilon,
                sigma,
                mode_variability,
                time,
                location,
                situation,
            ),
            call.well_shaped(),
    {
        P2PCall {
            h_tx_meter,
            h_rx_meter,
            pfl: encode_profile(terrain_delta_m, terrain),
            climate: climate.code(),
            n_0: n0,
            f_mhz: Quantity::Scaled { value: f_hz, divisor: HZ_PER_MHZ },
            pol: pol.code(),
            epsilon,
            sigma,
            mdvar: mode_variability.code(),
            time,
            location,
            situation,
        }
    }
}

/// Returns the attenuation between two points as the given model computes
/// it, or the reason for which the model refused the call.
///
/// The model is called once, with the argument list that
/// [`P2PCall::presents`] describes, and what it hands back goes to the
/// decoder of status codes as it is.
///
/// The model has to keep to its interface: a status code outside of it is a
/// broken agreement, which the caller of this function has to rule out.
///
/// Suggested surface parameters:
///
/// | Ground attribute | Ground conductivity | Relative ground permittivity |
/// |------------------|--------------------:|-----------------------------:|
/// | Poor ground      |               0.001 |                            4 |
/// | Average ground   |               0.005 |                           15 |
/// | Good ground      |                0.02 |                           25 |
/// | Fresh water      |                0.01 |                           25 |
/// | Sea water        |                 5.0 |                           25 |
pub fn p2p<T: Copy, A, M: FnOnce(P2PCall<T>) -> P2PRes<A>>(
    h_tx_meter: T,
    h_rx_meter: T,
    terrain_delta_m: T,
    terrain: &[T],
    climate: Climate,
    n0: T,
    f_hz: T,
    pol: Polarization,
    epsilon: T,
    sigma: T,
    mode_variability: ModeVariability,
    time: T,
    location: T,
    situation: T,
    model: M,
) -> (outcome: Result<A, ItmErrCode>)
    requires
        forall|call: P2PCall<T>|
            call.well_shaped() && #[trigger] call.presents(
                h_tx_meter,
                h_rx_meter,
                terrain_delta_m,
                terrain@,
                climate,
                n0,
                f_hz,
                pol,
                epsilon,
                sigma,
                mode_variability,
                time,
                location,
                situation,
            ) ==> model.requires((call,)),
        forall|call: P2PCall<T>, res: P2PRes<A>|
            call.presents(
                h_tx_meter,
                h_rx_meter,
                terrain_delta_m,
                terrain@,
                climate,
                n0,
                f_hz,
                pol,
                epsilon,
                sigma,
                mode_variability,
                time,
                location,
                situation,
            ) && #[trigger] model.ensures((call,), res) ==> is_documented_code(res.ret_code),
    ensures
        exists|call: P2PCall<T>, res: P2PRes<A>|
            {
                &&& call.presents(
                    h_tx_meter,
                    h_rx_meter,
                    terrain_delta_m,
                    terrain@,
                    climate,
                    n0,
                    f_hz,
                    pol,
                    epsilon,
                    sigma,
                    mode_variability,
                    time,
                    location,
                    situation,
                )
                &&& #[trigger] model.ensures((call,), res)
                &&& outcome == ItmErrCode::spec_from_retcode(res.ret_code, res.attenuation_db)
            },
{
    let call = P2PCall::new(
        h_tx_meter,
        h_rx_meter,
        terrain_delta_m,
        terrain,
        climate,
        n0,
        f_hz,
        pol,
        epsilon,
        sigma,
        mode_variability,
        time,
        location,
        situation,
    );
    let ghost presented = call;
    let res = model(call);
    let ghost returned = res;
    let outcome = ItmErrCode::from_retcode(res.ret_code, res.attenuation_db);
    assert(model.ensures((presented,), returned));
    outcome
}

} // verus!
