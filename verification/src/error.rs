//! Decoding of the status code that the propagation model returns.
//!
//! The model reports through one integer. Zero is a clean run, one is a run
//! that went through although an input was outside its nominal range, and
//! each code from 1000 to 1022 except 1015 names one parameter that the
//! model refused. Every other integer is outside the model's interface.

use vstd::prelude::*;

verus! {

/// The reasons for which the model refuses a call.
#[derive(Debug, Clone, Copy, PartialEq, Eq, Structural)]
pub enum ItmErrCode {
    TxTerminalHeight,
    RxTerminalHeight,
    InvalidRadioClimate,
    InvalidTime,
    InvalidLocation,
    InvalidSituation,
    InvalidConfidence,
    InvalidReliability,
    Refractivity,
    Frequency,
    Polarization,
    Epsilon,
    Sigma,
    GroundImpedance,
    Mdvar,
    EffectiveEarth,
    PathDistance,
    DeltaH,
    TxSitingCriteria,
    RxSitingCriteria,
    SurfaceRefractivitySmall,
    SurfaceRefractivityLarge,
}

/// What a status code says of the call that returned it.
#[derive(Debug, Clone, Copy, PartialEq, Eq, Structural)]
pub enum Status {
    /// The model ran and every input was in range.
    Success,
    /// The model ran although an input was outside its nominal range; the
    /// attenuation is still meaningful.
    Warning,
    /// The model refused the call for the given reason.
    Failure(ItmErrCode),
    /// The integer is no status code of the model.
    Undocumented,
}

/// The codes by which the model refuses a call.
pub open spec fn is_error_code(code: i32) -> bool {
    1000 <= code <= 1022 && code != 1015
}

/// The codes with which the model hands back a meaningful attenuation.
pub open spec fn is_success_code(code: i32) -> bool {
    code == 0 || code == 1
}

/// The codes that belong to the model's interface.
pub open spec fn is_documented_code(code: i32) -> bool {
    is_success_code(code) || is_error_code(code)
}

impl ItmErrCode {
    /// The status code by which the model reports this refusal.
    pub open spec fn spec_code(self) -> i32 {
        match self {
            ItmErrCode::TxTerminalHeight => 1000,
            ItmErrCode::RxTerminalHeight => 1001,
            ItmErrCode::InvalidRadioClimate => 1002,
            ItmErrCode::InvalidTime => 1003,
            ItmErrCode::InvalidLocation => 1004,
            ItmErrCode::InvalidSituation => 1005,
            ItmErrCode::InvalidConfidence => 1006,
            ItmErrCode::InvalidReliability => 1007,
            ItmErrCode::Refractivity => 1008,
            ItmErrCode::Frequency => 1009,
            ItmErrCode::Polarization => 1010,
            ItmErrCode::Epsilon => 1011,
            ItmErrCode::Sigma => 1012,
            ItmErrCode::GroundImpedance => 1013,
            ItmErrCode::Mdvar => 1014,
            ItmErrCode::EffectiveEarth => 1016,
            ItmErrCode::PathDistance => 1017,
            ItmErrCode::DeltaH => 1018,
            ItmErrCode::TxSitingCriteria => 1019,
            ItmErrCode::RxSitingCriteria => 1020,
            ItmErrCode::SurfaceRefractivitySmall => 1021,
            ItmErrCode::SurfaceRefractivityLarge => 1022,
        }
    }

    /// The refusal that `code` reports, if it reports one.
    pub open spec fn spec_from_code(code: i32) -> Option<ItmErrCode> {
        if code == 1000 {
            Some(ItmErrCode::TxTerminalHeight)
        } else if code == 1001 {
            Some(ItmErrCode::RxTerminalHeight)
        } else if code == 1002 {
            Some(ItmErrCode::InvalidRadioClimate)
        } else if code == 1003 {
            Some(ItmErrCode::InvalidTime)
        } else if code == 1004 {
            Some(ItmErrCode::InvalidLocation)
        } else if code == 1005 {
            Some(ItmErrCode::InvalidSituation)
        } else if code == 1006 {
            Some(ItmErrCode::InvalidConfidence)
        } else if code == 1007 {
            Some(ItmErrCode::InvalidReliability)
        } else if code == 1008 {
            Some(ItmErrCode::Refractivity)
        } else if code == 1009 {
            Some(ItmErrCode::Frequency)
        } else if code == 1010 {
            Some(ItmErrCode::Polarization)
        } else if code == 1011 {
            Some(ItmErrCode::Epsilon)
        } else if code == 1012 {
            Some(ItmErrCode::Sigma)
        } else if code == 1013 {
            Some(ItmErrCode::GroundImpedance)
        } else if code == 1014 {
            Some(ItmErrCode::Mdvar)
        } else if code == 1016 {
            Some(ItmErrCode::EffectiveEarth)
        } else if code == 1017 {
            Some(ItmErrCode::PathDistance)
        } else if code == 1018 {
            Some(ItmErrCode::DeltaH)
        } else if code == 1019 {
            Some(ItmErrCode::TxSitingCriteria)
        } else if code == 1020 {
            Some(ItmErrCode::RxSitingCriteria)
        } else if code == 1021 {
            Some(ItmErrCode::SurfaceRefractivitySmall)
        } else if code == 1022 {
            Some(ItmErrCode::SurfaceRefractivityLarge)
        } else {
            None
        }
    }

    /// What a status code of the interface and the value beside it amount
    /// to: the value after a run that produced one, else the refusal that
    /// the code names.
    pub open spec fn spec_from_retcode<A>(ret_code: i32, value: A) -> Result<A, ItmErrCode>
        recommends
            is_documented_code(ret_code),
    {
        if is_success_code(ret_code) {
            Ok(value)
        } else {
            Err(ItmErrCode::spec_from_code(ret_code)->Some_0)
        }
    }

    /// The fixed description of the refused parameter.
    pub open spec fn spec_description(self) -> Seq<char> {
        match self {
            ItmErrCode::TxTerminalHeight => "TX terminal height is out of range"@,
            ItmErrCode::RxTerminalHeight => "RX terminal height is out of range"@,
            ItmErrCode::InvalidRadioClimate => "Invalid value for radio climate"@,
            ItmErrCode::InvalidTime => "Time percentage is out of range"@,
            ItmErrCode::InvalidLocation => "Location percentage is out of range"@,
            ItmErrCode::InvalidSituation => "Situation percentage is out of range"@,
            ItmErrCode::InvalidConfidence => "Confidence percentage is out of range"@,
            ItmErrCode::InvalidReliability => "Reliability percentage is out of range"@,
            ItmErrCode::Refractivity => "Refractivity is out of range"@,
            ItmErrCode::Frequency => "Frequency is out of range"@,
            ItmErrCode::Polarization => "Invalid value for polarization"@,
            ItmErrCode::Epsilon => "Epsilon is out of range"@,
            ItmErrCode::Sigma => "Sigma is out of range"@,
            ItmErrCode::GroundImpedance => "The imaginary portion of the complex impedance is larger than the real portion"@,
            ItmErrCode::Mdvar => "Invalid value for mode of variability"@,
            ItmErrCode::EffectiveEarth => "Internally computed effective earth radius is invalid"@,
            ItmErrCode::PathDistance => "Path distance is out of range"@,
            ItmErrCode::DeltaH => "Delta H (terrain irregularity parameter) is out of range"@,
            ItmErrCode::TxSitingCriteria => "Invalid value for TX siting criteria"@,
            ItmErrCode::RxSitingCriteria => "Invalid value for RX siting criteria"@,
            ItmErrCode::SurfaceRefractivitySmall => "Internally computed surface refractivity value is too small"@,
            ItmErrCode::SurfaceRefractivityLarge => "Internally computed surface refractivity value is too large"@,
        }
    }

    #[verifier::when_used_as_spec(spec_code)]
    pub fn code(self) -> (code: i32)
        ensures
            code == self.spec_code(),
            is_error_code(code),
    {
        match self {
            ItmErrCode::TxTerminalHeight => 1000,
            ItmErrCode::RxTerminalHeight => 1001,
            ItmErrCode::InvalidRadioClimate => 1002,
            ItmErrCode::InvalidTime => 1003,
            ItmErrCode::InvalidLocation => 1004,
            ItmErrCode::InvalidSituation => 1005,
            ItmErrCode::InvalidConfidence => 1006,
            ItmErrCode::InvalidReliability => 1007,
            ItmErrCode::Refractivity => 1008,
            ItmErrCode::Frequency => 1009,
            ItmErrCode::Polarization => 1010,
            ItmErrCode::Epsilon => 1011,
            ItmErrCode::Sigma => 1012,
            ItmErrCode::GroundImpedance => 1013,
            ItmErrCode::Mdvar => 1014,
            ItmErrCode::EffectiveEarth => 1016,
            ItmErrCode::PathDistance => 1017,
            ItmErrCode::DeltaH => 1018,
            ItmErrCode::TxSitingCriteria => 1019,
            ItmErrCode::RxSitingCriteria => 1020,
            ItmErrCode::SurfaceRefractivitySmall => 1021,
            ItmErrCode::SurfaceRefractivityLarge => 1022,
        }
    }

    /// The refusal that `code` reports: some variant exactly for the codes
    /// from 1000 to 1022 without 1015, and then the one whose code it is.
    pub fn from_code(code: i32) -> (found: Option<ItmErrCode>)
        ensures
            found == ItmErrCode::spec_from_code(code),
            found is Some <==> is_error_code(code),
            found matches Some(e) ==> e.spec_code() == code,
    {
        let found = match code {
            1000 => Some(ItmErrCode::TxTerminalHeight),
            1001 => Some(ItmErrCode::RxTerminalHeight),
            1002 => Some(ItmErrCode::InvalidRadioClimate),
            1003 => Some(ItmErrCode::InvalidTime),
            1004 => Some(ItmErrCode::InvalidLocation),
            1005 => Some(ItmErrCode::InvalidSituation),
            1006 => Some(ItmErrCode::InvalidConfidence),
            1007 => Some(ItmErrCode::InvalidReliability),
            1008 => Some(ItmErrCode::Refractivity),
            1009 => Some(ItmErrCode::Frequency),
            1010 => Some(ItmErrCode::Polarization),
            1011 => Some(ItmErrCode::Epsilon),
            1012 => Some(ItmErrCode::Sigma),
            1013 => Some(ItmErrCode::GroundImpedance),
            1014 => Some(ItmErrCode::Mdvar),
            1016 => Some(ItmErrCode::EffectiveEarth),
            1017 => Some(ItmErrCode::PathDistance),
            1018 => Some(ItmErrCode::DeltaH),
            1019 => Some(ItmErrCode::TxSitingCriteria),
            1020 => Some(ItmErrCode::RxSitingCriteria),
            1021 => Some(ItmErrCode::SurfaceRefractivitySmall),
            1022 => Some(ItmErrCode::SurfaceRefractivityLarge),
            _ => None,
        };
        found
    }

    /// Whether the model's interface knows `code`.
    pub fn documented(code: i32) -> (known: bool)
        ensures
            known == is_documented_code(code),
    {
        code == 0 || code == 1 || (1000 <= code && code <= 1022 && code != 1015)
    }

    /// Tells a run that produced an attenuation from a refusal. The status
    /// codes zero and one are such a run; every other code of the interface
    /// is the refusal it names. An integer outside the interface breaks the
    /// agreement with the model and may not be handed in: see
    /// [`ItmErrCode::documented`] and [`Status::of`].
    pub fn result(err_code: i32) -> (outcome: Result<(), ItmErrCode>)
        requires
            is_documented_code(err_code),
        ensures
            outcome == ItmErrCode::spec_from_retcode(err_code, ()),
            outcome is Ok <==> is_success_code(err_code),
            outcome matches Err(e) ==> e.spec_code() == err_code,
    {
        match ItmErrCode::from_code(err_code) {
            Some(e) => Err(e),
            None => Ok(()),
        }
    }

    /// Joins a status code with the value that came back beside it: the
    /// value for a run that produced one, the refusal otherwise.
    pub fn from_retcode<A>(ret_code: i32, attenuation_db: A) -> (outcome: Result<A, ItmErrCode>)
        requires
            is_documented_code(ret_code),
        ensures
            outcome == ItmErrCode::spec_from_retcode(ret_code, attenuation_db),
            outcome is Ok <==> is_success_code(ret_code),
            outcome matches Err(e) ==> e.spec_code() == ret_code,
    {
        match ItmErrCode::result(ret_code) {
            Ok(()) => Ok(attenuation_db),
            Err(e) => Err(e),
        }
    }

    /// The fixed description of the refused parameter.
    pub fn description(&self) -> (text: &'static str)
        ensures
            text@ == self.spec_description(),
    {
        match self {
            ItmErrCode::TxTerminalHeight => "TX terminal height is out of range",
            ItmErrCode::RxTerminalHeight => "RX terminal height is out of range",
            ItmErrCode::InvalidRadioClimate => "Invalid value for radio climate",
            ItmErrCode::InvalidTime => "Time percentage is out of range",
            ItmErrCode::InvalidLocation => "Location percentage is out of range",
            ItmErrCode::InvalidSituation => "Situation percentage is out of range",
            ItmErrCode::InvalidConfidence => "Confidence percentage is out of range",
            ItmErrCode::InvalidReliability => "Reliability percentage is out of range",
            ItmErrCode::Refractivity => "Refractivity is out of range",
            ItmErrCode::Frequency => "Frequency is out of range",
            ItmErrCode::Polarization => "Invalid value for polarization",
            ItmErrCode::Epsilon => "Epsilon is out of range",
            ItmErrCode::Sigma => "Sigma is out of range",
            ItmErrCode::GroundImpedance => "The imaginary portion of the complex impedance is larger than the real portion",
            ItmErrCode::Mdvar => "Invalid value for mode of variability",
            ItmErrCode::EffectiveEarth => "Internally computed effective earth radius is invalid",
            ItmErrCode::PathDistance => "Path distance is out of range",
            ItmErrCode::DeltaH => "Delta H (terrain irregularity parameter) is out of range",
            ItmErrCode::TxSitingCriteria => "Invalid value for TX siting criteria",
            ItmErrCode::RxSitingCriteria => "Invalid value for RX siting criteria",
            ItmErrCode::SurfaceRefractivitySmall => "Internally computed surface refractivity value is too small",
            ItmErrCode::SurfaceRefractivityLarge => "Internally computed surface refractivity value is too large",
        }
    }

    /// Every refusal has a status code among the error codes, and reading
    /// that code back gives the same refusal.
    pub proof fn lemma_code_round_trip(self)
        ensures
            is_error_code(self.spec_code()),
            ItmErrCode::spec_from_code(self.spec_code()) == Some(self),
    {
    }

    /// Decoding is total on the error codes and defined on no other integer,
    /// and the refusal it gives for a code is the one that has that code.
    pub proof fn lemma_from_code_inverse(code: i32)
        ensures
            ItmErrCode::spec_from_code(code) is Some <==> is_error_code(code),
            ItmErrCode::spec_from_code(code) matches Some(e) ==> e.spec_code() == code,
            forall|e: ItmErrCode| #[trigger]
                e.spec_code() == code ==> ItmErrCode::spec_from_code(code) == Some(e),
    {
    }

    /// Two refusals with the same status code are the same refusal.
    pub proof fn lemma_code_injective(a: ItmErrCode, b: ItmErrCode)
        requires
            a.spec_code() == b.spec_code(),
        ensures
            a == b,
    {
    }

    /// Decoding is injective: two error codes that decode to the same
    /// refusal are the same code.
    pub proof fn lemma_decoding_injective(first: i32, second: i32)
        requires
            is_error_code(first),
            is_error_code(second),
            ItmErrCode::spec_from_code(first) == ItmErrCode::spec_from_code(second),
        ensures
            first == second,
    {
    }
}

impl Status {
    /// What `code` says of the call that returned it.
    pub open spec fn spec_of(code: i32) -> Status {
        if code == 0 {
            Status::Success
        } else if code == 1 {
            Status::Warning
        } else {
            match ItmErrCode::spec_from_code(code) {
                Some(e) => Status::Failure(e),
                None => Status::Undocumented,
            }
        }
    }

    /// Classifies any integer: the two codes of a run that went through, the
    /// refusal that an error code names, and `Undocumented` for everything
    /// that the model's interface does not know.
    pub fn of(code: i32) -> (status: Status)
        ensures
            status == Status::spec_of(code),
            status is Undocumented <==> !is_documented_code(code),
            status matches Status::Failure(e) ==> e.spec_code() == code,
    {
        if code == 0 {
            Status::Success
        } else if code == 1 {
            Status::Warning
        } else {
            match ItmErrCode::from_code(code) {
                Some(e) => Status::Failure(e),
                None => Status::Undocumented,
            }
        }
    }
}

} // verus!
