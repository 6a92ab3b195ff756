use vstd::prelude::*;

verus! {

/// Sign/Status Matrix: the validity state carried by every word.
#[derive(Debug, Clone, Copy, PartialEq, Eq, Structural)]
pub enum Ssm {
    /// Equipment failure detected.
    FailureWarning,
    /// Data not available or invalid.
    NoComputedData,
    /// Self-test in progress.
    FunctionalTest,
    /// Data is valid.
    NormalOperation,
}

impl Ssm {
    /// The two-bit code of this state.
    pub open spec fn code(self) -> u8 {
        match self {
            Ssm::FailureWarning => 0,
            Ssm::NoComputedData => 1,
            Ssm::FunctionalTest => 2,
            Ssm::NormalOperation => 3,
        }
    }

    /// The state for a raw code; codes above 3 read as no computed data.
    pub open spec fn from_code(value: u8) -> Ssm {
        match value {
            0 => Ssm::FailureWarning,
            1 => Ssm::NoComputedData,
            2 => Ssm::FunctionalTest,
            3 => Ssm::NormalOperation,
            _ => Ssm::NoComputedData,
        }
    }

    /// Human-readable description of a state.
    pub open spec fn name_spec(self) -> Seq<char> {
        match self {
            Ssm::FailureWarning => "Failure Warning"@,
            Ssm::NoComputedData => "No Computed Data"@,
            Ssm::FunctionalTest => "Functional Test"@,
            Ssm::NormalOperation => "Normal Operation"@,
        }
    }

    /// Converts raw SSM bits (0–3) to the corresponding state.
    pub fn from_u8(value: u8) -> (r: Self)
        ensures
            r == Ssm::from_code(value),
            value <= 3 ==> r.code() == value,
    {
        match value {
            0 => Ssm::FailureWarning,
            1 => Ssm::NoComputedData,
            2 => Ssm::FunctionalTest,
            3 => Ssm::NormalOperation,
            _ => Ssm::NoComputedData,
        }
    }

    /// Human-readable description of the state.
    pub fn name(&self) -> (r: &'static str)
        ensures
            r@ == self.name_spec(),
    {
        match self {
            Ssm::FailureWarning => "Failure Warning",
            Ssm::NoComputedData => "No Computed Data",
            Ssm::FunctionalTest => "Functional Test",
            Ssm::NormalOperation => "Normal Operation",
        }
    }
}

} // verus!
