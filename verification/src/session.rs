//! One peripheral's place in the discovery pipeline.

use vstd::prelude::*;

verus! {

/// Why a peripheral's pipeline ended without a reading.
#[derive(Debug, Clone, Copy, PartialEq, Eq, Structural)]
pub enum FailureReason {
    /// The platform could not connect to the peripheral.
    ConnectFailed,
    /// Discovering the services ended in an error.
    ServiceDiscoveryError,
    /// The peripheral reported no Battery Service.
    NoServices,
    /// Discovering the characteristics ended in an error.
    CharacteristicDiscoveryError,
    /// The service reported no Battery Level characteristic.
    NoCharacteristics,
    /// Reading the characteristic ended in an error.
    ReadError,
    /// The characteristic's value held no byte.
    EmptyValue,
}

/// How far a peripheral has come: connect, discover the services, discover
/// the characteristics, read the value. `Done` and `Failed` are final.
#[derive(Debug, Clone, Copy, PartialEq, Eq, Structural)]
pub enum Stage {
    /// A connect request is out.
    Connecting,
    /// Connected; the services are being discovered.
    DiscoveringServices,
    /// The characteristics of a service are being discovered.
    DiscoveringCharacteristics,
    /// The value of a characteristic is being read.
    ReadingValue,
    /// A battery level was read.
    Done,
    /// The pipeline broke off.
    Failed(FailureReason),
}

impl Stage {
    /// Whether the stage is final.
    pub open spec fn spec_is_terminal(self) -> bool {
        self is Done || self is Failed
    }

    /// The place of the stage in the pipeline.
    pub open spec fn spec_rank(self) -> u8 {
        match self {
            Stage::Connecting => 0,
            Stage::DiscoveringServices => 1,
            Stage::DiscoveringCharacteristics => 2,
            Stage::ReadingValue => 3,
            Stage::Done => 4,
            Stage::Failed(_) => 4,
        }
    }

    /// The stage after progress to `target`: the later of the two. A
    /// peripheral with several requests out never falls back.
    pub open spec fn spec_advanced_to(self, target: Stage) -> Stage {
        if self.spec_rank() < target.spec_rank() {
            target
        } else {
            self
        }
    }

    /// Whether the stage is final.
    #[verifier::when_used_as_spec(spec_is_terminal)]
    pub fn is_terminal(self) -> (terminal: bool)
        ensures
            terminal == self.spec_is_terminal(),
    {
        match self {
            Stage::Done => true,
            Stage::Failed(_) => true,
            _ => false,
        }
    }

    /// The place of the stage in the pipeline.
    #[verifier::when_used_as_spec(spec_rank)]
    pub fn rank(self) -> (rank: u8)
        ensures
            rank == self.spec_rank(),
    {
        match self {
            Stage::Connecting => 0,
            Stage::DiscoveringServices => 1,
            Stage::DiscoveringCharacteristics => 2,
            Stage::ReadingValue => 3,
            Stage::Done => 4,
            Stage::Failed(_) => 4,
        }
    }

    /// The later of this stage and `target`.
    #[verifier::when_used_as_spec(spec_advanced_to)]
    pub fn advanced_to(self, target: Stage) -> (stage: Stage)
        ensures
            stage == self.spec_advanced_to(target),
    {
        if self.rank() < target.rank() {
            target
        } else {
            self
        }
    }
}

/// What the coordinator keeps of one peripheral. The peripheral's identity is
/// the place of its session in the coordinator's list.
#[derive(Debug)]
pub struct PeripheralSession {
    /// How far the peripheral has come.
    pub stage: Stage,
    /// The name last seen for the peripheral, if the platform has given one.
    pub name: Option<String>,
}

/// A session as plain data.
pub struct SessionView {
    pub stage: Stage,
    pub name: Option<Seq<char>>,
}

impl View for PeripheralSession {
    type V = SessionView;

    open spec fn view(&self) -> SessionView {
        SessionView { stage: self.stage, name: self.name.deep_view() }
    }
}

impl DeepView for PeripheralSession {
    type V = SessionView;

    open spec fn deep_view(&self) -> SessionView {
        self@
    }
}

/// The name under which a reading is kept when the peripheral has none.
pub open spec fn unknown_name() -> Seq<char> {
    seq!['U', 'n', 'k', 'n', 'o', 'w', 'n']
}

impl SessionView {
    /// The session of a peripheral to which a connect request has just gone.
    pub open spec fn fresh(name: Option<Seq<char>>) -> SessionView {
        SessionView { stage: Stage::Connecting, name }
    }

    /// Whether the session can still change.
    pub open spec fn is_live(self) -> bool {
        !self.stage.spec_is_terminal()
    }

    /// The name under which a reading of this peripheral is kept.
    pub open spec fn result_name(self) -> Seq<char> {
        match self.name {
            Some(name) => name,
            None => unknown_name(),
        }
    }
}

} // verus!
