//! The closed sets of discrete parameters of the propagation model.
//!
//! The model knows each value by an integer. The mapping between a variant
//! and its integer is written out in both directions and proved to be a
//! bijection between the variants and a contiguous range of integers, so no
//! value crosses the boundary by an implicit cast and no integer is silently
//! given a default meaning.

use vstd::prelude::*;

verus! {

/// Antenna polarization.
#[derive(Debug, Clone, Copy, PartialEq, Eq, PartialOrd, Ord, Structural)]
pub enum Polarization {
    Horizontal,
    Vertical,
}

/// Siting criteria.
#[derive(Debug, Clone, Copy, PartialEq, Eq, PartialOrd, Ord, Structural)]
pub enum SittingCriteria {
    Random,
    Careful,
    VeryCareful,
}

/// Radio climate.
#[derive(Debug, Clone, Copy, PartialEq, Eq, PartialOrd, Ord, Structural)]
pub enum Climate {
    Equatorial,
    ContinentalSubtropical,
    MaritimeSubtropical,
    Desert,
    ContinentalTemperate,
    MaritimeTemperateOverLand,
    MaritimeTemperateOverSea,
}

/// Propagation mode.
#[derive(Debug, Clone, Copy, PartialEq, Eq, PartialOrd, Ord, Structural)]
pub enum Mode {
    NotSet,
    LineOfSight,
    Diffraction,
    Troposcatter,
}

/// Modes of variability.
#[derive(Debug, Clone, Copy, PartialEq, Eq, PartialOrd, Ord, Structural)]
pub enum Variability {
    SingleMessage,
    Accidental,
    Mobile,
    Broadcast,
}

/// The name under which the invocation interface takes a [`Variability`].
pub type ModeVariability = Variability;

impl Polarization {
    /// The integer the model knows this polarization by.
    pub open spec fn spec_code(self) -> i32 {
        match self {
            Polarization::Horizontal => 0,
            Polarization::Vertical => 1,
        }
    }

    /// The polarization that `code` stands for, if it stands for one.
    pub open spec fn spec_from_code(code: i32) -> Option<Polarization> {
        if code == 0 {
            Some(Polarization::Horizontal)
        } else if code == 1 {
            Some(Polarization::Vertical)
        } else {
            None
        }
    }

    #[verifier::when_used_as_spec(spec_code)]
    pub fn code(self) -> (code: i32)
        ensures
            code == self.spec_code(),
    {
        match self {
            Polarization::Horizontal => 0,
            Polarization::Vertical => 1,
        }
    }

    pub fn from_code(code: i32) -> (found: Option<Polarization>)
        ensures
            found == Polarization::spec_from_code(code),
            found is Some <==> 0 <= code <= 1,
            found matches Some(p) ==> p.spec_code() == code,
    {
        match code {
            0 => Some(Polarization::Horizontal),
            1 => Some(Polarization::Vertical),
            _ => None,
        }
    }

    /// Reading back the code of a polarization gives that polarization.
    pub proof fn lemma_code_round_trip(self)
        ensures
            Polarization::spec_from_code(self.spec_code()) == Some(self),
            0 <= self.spec_code() <= 1,
    {
    }

    /// An integer stands for at most one polarization, and the code of that
    /// polarization is the integer itself.
    pub proof fn lemma_from_code_inverse(code: i32)
        ensures
            Polarization::spec_from_code(code) is Some <==> 0 <= code <= 1,
            Polarization::spec_from_code(code) matches Some(p) ==> p.spec_code() == code,
    {
    }

    /// Two polarizations with the same code are the same polarization.
    pub proof fn lemma_code_injective(a: Polarization, b: Polarization)
        requires
            a.spec_code() == b.spec_code(),
        ensures
            a == b,
    {
    }
}

impl SittingCriteria {
    /// The integer the model knows this siting criterion by.
    pub open spec fn spec_code(self) -> i32 {
        match self {
            SittingCriteria::Random => 0,
            SittingCriteria::Careful => 1,
            SittingCriteria::VeryCareful => 2,
        }
    }

    /// The siting criterion that `code` stands for, if it stands for one.
    pub open spec fn spec_from_code(code: i32) -> Option<SittingCriteria> {
        if code == 0 {
            Some(SittingCriteria::Random)
        } else if code == 1 {
            Some(SittingCriteria::Careful)
        } else if code == 2 {
            Some(SittingCriteria::VeryCareful)
        } else {
            None
        }
    }

    #[verifier::when_used_as_spec(spec_code)]
    pub fn code(self) -> (code: i32)
        ensures
            code == self.spec_code(),
    {
        match self {
            SittingCriteria::Random => 0,
            SittingCriteria::Careful => 1,
            SittingCriteria::VeryCareful => 2,
        }
    }

    pub fn from_code(code: i32) -> (found: Option<SittingCriteria>)
        ensures
            found == SittingCriteria::spec_from_code(code),
            found is Some <==> 0 <= code <= 2,
            found matches Some(s) ==> s.spec_code() == code,
    {
        match code {
            0 => Some(SittingCriteria::Random),
            1 => Some(SittingCriteria::Careful),
            2 => Some(SittingCriteria::VeryCareful),
            _ => None,
        }
    }

    /// Reading back the code of a siting criterion gives that criterion.
    pub proof fn lemma_code_round_trip(self)
        ensures
            SittingCriteria::spec_from_code(self.spec_code()) == Some(self),
            0 <= self.spec_code() <= 2,
    {
    }

    /// An integer stands for at most one siting criterion, and the code of
    /// that criterion is the integer itself.
    pub proof fn lemma_from_code_inverse(code: i32)
        ensures
            SittingCriteria::spec_from_code(code) is Some <==> 0 <= code <= 2,
            SittingCriteria::spec_from_code(code) matches Some(s) ==> s.spec_code() == code,
    {
    }

    /// Two siting criteria with the same code are the same criterion.
    pub proof fn lemma_code_injective(a: SittingCriteria, b: SittingCriteria)
        requires
            a.spec_code() == b.spec_code(),
        ensures
            a == b,
    {
    }
}

impl Climate {
    /// The integer the model knows this climate by. Climates count from one.
    pub open spec fn spec_code(self) -> i32 {
        match self {
            Climate::Equatorial => 1,
            Climate::ContinentalSubtropical => 2,
            Climate::MaritimeSubtropical => 3,
            Climate::Desert => 4,
            Climate::ContinentalTemperate => 5,
            Climate::MaritimeTemperateOverLand => 6,
            Climate::MaritimeTemperateOverSea => 7,
        }
    }

    /// The climate that `code` stands for, if it stands for one.
    pub open spec fn spec_from_code(code: i32) -> Option<Climate> {
        if code == 1 {
            Some(Climate::Equatorial)
        } else if code == 2 {
            Some(Climate::ContinentalSubtropical)
        } else if code == 3 {
            Some(Climate::MaritimeSubtropical)
        } else if code == 4 {
            Some(Climate::Desert)
        } else if code == 5 {
            Some(Climate::ContinentalTemperate)
        } else if code == 6 {
            Some(Climate::MaritimeTemperateOverLand)
        } else if code == 7 {
            Some(Climate::MaritimeTemperateOverSea)
        } else {
            None
        }
    }

    #[verifier::when_used_as_spec(spec_code)]
    pub fn code(self) -> (code: i32)
        ensures
            code == self.spec_code(),
    {
        match self {
            Climate::Equatorial => 1,
            Climate::ContinentalSubtropical => 2,
            Climate::MaritimeSubtropical => 3,
            Climate::Desert => 4,
            Climate::ContinentalTemperate => 5,
            Climate::MaritimeTemperateOverLand => 6,
            Climate::MaritimeTemperateOverSea => 7,
        }
    }

    pub fn from_code(code: i32) -> (found: Option<Climate>)
        ensures
            found == Climate::spec_from_code(code),
            found is Some <==> 1 <= code <= 7,
            found matches Some(c) ==> c.spec_code() == code,
    {
        match code {
            1 => Some(Climate::Equatorial),
            2 => Some(Climate::ContinentalSubtropical),
            3 => Some(Climate::MaritimeSubtropical),
            4 => Some(Climate::Desert),
            5 => Some(Climate::ContinentalTemperate),
            6 => Some(Climate::MaritimeTemperateOverLand),
            7 => Some(Climate::MaritimeTemperateOverSea),
            _ => None,
        }
    }

    /// Reading back the code of a climate gives that climate.
    pub proof fn lemma_code_round_trip(self)
        ensures
            Climate::spec_from_code(self.spec_code()) == Some(self),
            1 <= self.spec_code() <= 7,
    {
    }

    /// An integer stands for at most one climate, and the code of that
    /// climate is the integer itself.
    pub proof fn lemma_from_code_inverse(code: i32)
        ensures
            Climate::spec_from_code(code) is Some <==> 1 <= code <= 7,
            Climate::spec_from_code(code) matches Some(c) ==> c.spec_code() == code,
    {
    }

    /// Two climates with the same code are the same climate.
    pub proof fn lemma_code_injective(a: Climate, b: Climate)
        requires
            a.spec_code() == b.spec_code(),
        ensures
            a == b,
    {
    }
}

impl Mode {
    /// The integer the model knows this propagation mode by.
    pub open spec fn spec_code(self) -> i32 {
        match self {
            Mode::NotSet => 0,
            Mode::LineOfSight => 1,
            Mode::Diffraction => 2,
            Mode::Troposcatter => 3,
        }
    }

    /// The propagation mode that `code` stands for, if it stands for one.
    pub open spec fn spec_from_code(code: i32) -> Option<Mode> {
        if code == 0 {
            Some(Mode::NotSet)
        } else if code == 1 {
            Some(Mode::LineOfSight)
        } else if code == 2 {
            Some(Mode::Diffraction)
        } else if code == 3 {
            Some(Mode::Troposcatter)
        } else {
            None
        }
    }

    #[verifier::when_used_as_spec(spec_code)]
    pub fn code(self) -> (code: i32)
        ensures
            code == self.spec_code(),
    {
        match self {
            Mode::NotSet => 0,
            Mode::LineOfSight => 1,
            Mode::Diffraction => 2,
            Mode::Troposcatter => 3,
        }
    }

    pub fn from_code(code: i32) -> (found: Option<Mode>)
        ensures
            found == Mode::spec_from_code(code),
            found is Some <==> 0 <= code <= 3,
            found matches Some(m) ==> m.spec_code() == code,
    {
        match code {
            0 => Some(Mode::NotSet),
            1 => Some(Mode::LineOfSight),
            2 => Some(Mode::Diffraction),
            3 => Some(Mode::Troposcatter),
            _ => None,
        }
    }

    /// Reading back the code of a propagation mode gives that mode.
    pub proof fn lemma_code_round_trip(self)
        ensures
            Mode::spec_from_code(self.spec_code()) == Some(self),
            0 <= self.spec_code() <= 3,
    {
    }

    /// An integer stands for at most one propagation mode, and the code of
    /// that mode is the integer itself.
    pub proof fn lemma_from_code_inverse(code: i32)
        ensures
            Mode::spec_from_code(code) is Some <==> 0 <= code <= 3,
            Mode::spec_from_code(code) matches Some(m) ==> m.spec_code() == code,
    {
    }

    /// Two propagation modes with the same code are the same mode.
    pub proof fn lemma_code_injective(a: Mode, b: Mode)
        requires
            a.spec_code() == b.spec_code(),
        ensures
            a == b,
    {
    }
}

impl Variability {
    /// The integer the model knows this mode of variability by.
    pub open spec fn spec_code(self) -> i32 {
        match self {
            Variability::SingleMessage => 0,
            Variability::Accidental => 1,
            Variability::Mobile => 2,
            Variability::Broadcast => 3,
        }
    }

    /// The mode of variability that `code` stands for, if it stands for one.
    pub open spec fn spec_from_code(code: i32) -> Option<Variability> {
        if code == 0 {
            Some(Variability::SingleMessage)
        } else if code == 1 {
            Some(Variability::Accidental)
        } else if code == 2 {
            Some(Variability::Mobile)
        } else if code == 3 {
            Some(Variability::Broadcast)
        } else {
            None
        }
    }

    #[verifier::when_used_as_spec(spec_code)]
    pub fn code(self) -> (code: i32)
        ensures
            code == self.spec_code(),
    {
        match self {
            Variability::SingleMessage => 0,
            Variability::Accidental => 1,
            Variability::Mobile => 2,
            Variability::Broadcast => 3,
        }
    }

    pub fn from_code(code: i32) -> (found: Option<Variability>)
        ensures
            found == Variability::spec_from_code(code),
            found is Some <==> 0 <= code <= 3,
            found matches Some(v) ==> v.spec_code() == code,
    {
        match code {
            0 => Some(Variability::SingleMessage),
            1 => Some(Variability::Accidental),
            2 => Some(Variability::Mobile),
            3 => Some(Variability::Broadcast),
            _ => None,
        }
    }

    /// Reading back the code of a mode of variability gives that mode.
    pub proof fn lemma_code_round_trip(self)
        ensures
            Variability::spec_from_code(self.spec_code()) == Some(self),
            0 <= self.spec_code() <= 3,
    {
    }

    /// An integer stands for at most one mode of variability, and the code
    /// of that mode is the integer itself.
    pub proof fn lemma_from_code_inverse(code: i32)
        ensures
            Variability::spec_from_code(code) is Some <==> 0 <= code <= 3,
            Variability::spec_from_code(code) matches Some(v) ==> v.spec_code() == code,
    {
    }

    /// Two modes of variability with the same code are the same mode.
    pub proof fn lemma_code_injective(a: Variability, b: Variability)
        requires
            a.spec_code() == b.spec_code(),
        ensures
            a == b,
    {
    }
}

} // verus!
