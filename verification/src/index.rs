//! The index-addressed, capacity-bounded model consumed by the binary
//! encoder.
//!
//! Every cross-reference is a [`StateIndex`]: an integer position into the
//! state list, minted only through the checked [`StateIndex::new`]. The
//! well-formedness predicates of this module say exactly what the encoder
//! may assume: a non-empty state list within capacity, no dangling index,
//! and every tagged union carrying exactly one payload.

use vstd::prelude::*;

verus! {

/// Device capacity: the most states one configuration may declare.
pub const MAX_STATES: usize = 16;

/// Device capacity: the most checks one state may declare.
pub const MAX_CHECKS: usize = 16;

/// Device capacity: the most commands one state may declare.
pub const MAX_COMMANDS: usize = 16;

/// An IEEE-754 single-precision value carried as its raw bit pattern.
///
/// The compiler only moves these values between the document and the
/// encoded form; it never does arithmetic on them.
#[derive(Clone, Copy, Debug, PartialEq, Eq, Structural)]
pub struct FloatBits(pub u32);

/// A duration in seconds, carried as float bits.
#[derive(Clone, Copy, Debug, PartialEq, Eq, Structural)]
pub struct Seconds(pub FloatBits);

/// The position of one declared state, always below [`MAX_STATES`].
///
/// Constructed only through the validated [`Self::new`]; no other path
/// mints an index, so an in-range bit pattern can never be forged from an
/// arbitrary integer.
#[derive(Clone, Copy, Debug, PartialEq, Eq, Structural)]
pub struct StateIndex(u8);

impl StateIndex {
    /// The position this index stands for.
    pub closed spec fn spec_get(self) -> int {
        self.0 as int
    }

    /// The index at position `i`, as a ghost value.
    pub closed spec fn spec_new(i: int) -> StateIndex {
        StateIndex(i as u8)
    }

    /// A ghost-constructed index stands for the position it was made from.
    pub proof fn lemma_spec_new_get(i: int)
        requires
            0 <= i < 256,
        ensures
            StateIndex::spec_new(i).spec_get() == i,
    {
    }

    /// The only way to mint an index: validates the range and refuses
    /// anything at or beyond the device's state capacity.
    pub fn new(i: u8) -> (r: Option<StateIndex>)
        ensures
            r is Some <==> (i as int) < MAX_STATES as int,
            r is Some ==> r->0 == StateIndex::spec_new(i as int),
            r is Some ==> r->0.spec_get() == i as int,
    {
        if (i as usize) < MAX_STATES {
            Some(StateIndex(i))
        } else {
            None
        }
    }

    /// The position as a machine integer.
    pub fn get(&self) -> (r: u8)
        ensures
            r as int == self.spec_get(),
    {
        self.0
    }
}

/// What a check does when it trips: move to a state, or abort to one.
/// The two are mutually exclusive by construction.
#[derive(Clone, Copy, Debug, PartialEq, Eq)]
pub enum StateTransition {
    Transition(StateIndex),
    Abort(StateIndex),
}

impl StateTransition {
    /// The state this action targets, whichever action it is.
    pub open spec fn target(self) -> StateIndex {
        match self {
            StateTransition::Transition(i) => i,
            StateTransition::Abort(i) => i,
        }
    }
}

/// A boolean condition on a native flag.
#[derive(Clone, Copy, Debug, PartialEq, Eq, Structural)]
pub struct NativeFlagCondition(pub bool);

/// A boolean condition on a pyro channel's continuity.
#[derive(Clone, Copy, Debug, PartialEq, Eq, Structural)]
pub struct PyroContinuityCondition(pub bool);

/// A numeric condition on a measured value.
#[derive(Clone, Copy, Debug, PartialEq, Eq)]
pub enum FloatCondition {
    GreaterThan(FloatBits),
    LessThan(FloatBits),
    Between { upper_bound: FloatBits, lower_bound: FloatBits },
}

/// What one check observes, tagged by the check kind; the payload shape is
/// consistent with the kind by construction.
#[derive(Clone, Copy, Debug, PartialEq, Eq)]
pub enum CheckData {
    ApogeeFlag(NativeFlagCondition),
    Altitude(FloatCondition),
    Pyro1Continuity(PyroContinuityCondition),
    Pyro2Continuity(PyroContinuityCondition),
    Pyro3Continuity(PyroContinuityCondition),
}

/// One lowered check: its observation and the optional action taken when it
/// trips.
#[derive(Clone, Copy, Debug, PartialEq, Eq)]
pub struct Check {
    pub data: CheckData,
    pub transition: Option<StateTransition>,
}

impl Check {
    /// Every index a check carries refers to one of the `n_states` declared
    /// states.
    pub open spec fn wf(self, n_states: int) -> bool {
        match self.transition {
            Some(t) => t.target().spec_get() < n_states,
            None => true,
        }
    }

    pub fn new(data: CheckData, transition: Option<StateTransition>) -> (r: Check)
        ensures
            r.data == data,
            r.transition == transition,
    {
        Check { data, transition }
    }
}

/// The payload of one command; exactly one object is addressed.
#[derive(Clone, Copy, Debug, PartialEq, Eq)]
pub enum CommandObject {
    Pyro1(bool),
    Pyro2(bool),
    Pyro3(bool),
    DataRate(u16),
    Beacon(bool),
}

/// One lowered command: its payload and the delay before it runs.
#[derive(Clone, Copy, Debug, PartialEq, Eq)]
pub struct Command {
    pub object: CommandObject,
    pub delay: Seconds,
}

impl Command {
    pub fn new(object: CommandObject, delay: Seconds) -> (r: Command)
        ensures
            r.object == object,
            r.delay == delay,
    {
        Command { object, delay }
    }
}

/// A state timeout: how long the state may run before the automatic
/// transition fires.
#[derive(Clone, Copy, Debug, PartialEq, Eq)]
pub struct Timeout {
    pub seconds: Seconds,
    pub transition: StateIndex,
}

impl Timeout {
    pub open spec fn wf(self, n_states: int) -> bool {
        self.transition.spec_get() < n_states
    }
}

/// One lowered state: its checks and commands, within device capacity.
#[derive(Clone, Debug, PartialEq, Eq)]
pub struct State {
    pub checks: Vec<Check>,
    pub commands: Vec<Command>,
    pub timeout: Option<Timeout>,
}

impl State {
    /// List lengths are within device capacity and every carried index
    /// refers to one of the `n_states` declared states.
    pub open spec fn wf(self, n_states: int) -> bool {
        &&& self.checks@.len() <= MAX_CHECKS as int
        &&& self.commands@.len() <= MAX_COMMANDS as int
        &&& forall|i: int| 0 <= i < self.checks@.len() ==> (#[trigger] self.checks@[i]).wf(n_states)
        &&& match self.timeout {
            Some(t) => t.wf(n_states),
            None => true,
        }
    }

    pub fn new(checks: Vec<Check>, commands: Vec<Command>, timeout: Option<Timeout>) -> (r: State)
        ensures
            r.checks@ == checks@,
            r.commands@ == commands@,
            r.timeout == timeout,
    {
        State { checks, commands, timeout }
    }
}

/// The whole lowered configuration: the default state's index and the dense
/// state list.
#[derive(Clone, Debug, PartialEq, Eq)]
pub struct ConfigFile {
    pub default_state: StateIndex,
    pub states: Vec<State>,
}

impl ConfigFile {
    /// The invariants the encoder relies on: a non-empty state list within
    /// capacity, a default index that refers to a declared state, and every
    /// state well-formed against the list's length.
    pub open spec fn wf(self) -> bool {
        &&& 0 < self.states@.len() <= MAX_STATES as int
        &&& self.default_state.spec_get() < self.states@.len()
        &&& forall|i: int|
            0 <= i < self.states@.len() ==> (#[trigger] self.states@[i]).wf(
                self.states@.len() as int,
            )
    }
}

} // verus!
