use vstd::prelude::*;

verus! {

/// How the probe of one host ended. The five kinds exclude one another.
#[derive(Clone, Copy, Debug, PartialEq, Eq, Hash, Structural)]
pub enum ProbeOutcome {
    /// The endpoint answered with success and its page carried a signature.
    Confirmed,
    /// The endpoint refused access (401 or 403) on the enrollment path.
    Potential,
    /// The port answered, but nothing identified the endpoint.
    Absent,
    /// The TCP connection was refused or did not complete in time.
    Unreachable,
    /// The host text is no IP address literal.
    Invalid,
}

impl ProbeOutcome {
    /// The name of the kind, in lower case.
    pub open spec fn label(self) -> Seq<char> {
        match self {
            ProbeOutcome::Confirmed => "confirmed"@,
            ProbeOutcome::Potential => "potential"@,
            ProbeOutcome::Absent => "absent"@,
            ProbeOutcome::Unreachable => "unreachable"@,
            ProbeOutcome::Invalid => "invalid"@,
        }
    }

    /// The name of the kind, in lower case.
    pub fn name(&self) -> (name: &'static str)
        ensures
            name@ == self.label(),
    {
        match self {
            ProbeOutcome::Confirmed => "confirmed",
            ProbeOutcome::Potential => "potential",
            ProbeOutcome::Absent => "absent",
            ProbeOutcome::Unreachable => "unreachable",
            ProbeOutcome::Invalid => "invalid",
        }
    }
}

} // verus!
