//! The lifecycle of a deployed machine: planned, then provisioning, then
//! initialized, then ready; provisioning and initialization may fail.

use crate::errors::state::State;
use crate::text::{
    all_ascii, ascii_lower_char, ascii_lowercase, ascii_upper_char, ascii_uppercase, joined, owned, same_text,
    to_lowercase, unicode_lowercase,
};
use vstd::prelude::*;

verus! {

/// A lifecycle state of a machine.
#[derive(Debug, Clone, Copy, PartialEq, Eq, Structural)]
pub enum Machine {
    Planned,
    Provisioning,
    Initialized,
    Ready,
    Failed,
}

/// The states a machine may move to from `state`, in the order they are listed.
pub open spec fn successors(state: Machine) -> Seq<Machine> {
    match state {
        Machine::Planned => seq![Machine::Provisioning],
        Machine::Provisioning => seq![Machine::Initialized, Machine::Failed],
        Machine::Initialized => seq![Machine::Ready, Machine::Failed],
        Machine::Ready => Seq::empty(),
        Machine::Failed => Seq::empty(),
    }
}

/// Whether the lifecycle leads directly from `from` to `to`.
pub open spec fn allows(from: Machine, to: Machine) -> bool {
    successors(from).contains(to)
}

/// The lower-case name of a state.
pub open spec fn state_name(state: Machine) -> Seq<char> {
    match state {
        Machine::Planned => "planned"@,
        Machine::Provisioning => "provisioning"@,
        Machine::Initialized => "initialized"@,
        Machine::Ready => "ready"@,
        Machine::Failed => "failed"@,
    }
}

/// The state whose name is exactly `text`, if any.
pub open spec fn state_named(text: Seq<char>) -> Option<Machine> {
    if text == "planned"@ {
        Some(Machine::Planned)
    } else if text == "provisioning"@ {
        Some(Machine::Provisioning)
    } else if text == "initialized"@ {
        Some(Machine::Initialized)
    } else if text == "ready"@ {
        Some(Machine::Ready)
    } else if text == "failed"@ {
        Some(Machine::Failed)
    } else {
        None
    }
}

/// How far along the lifecycle a state is.
pub open spec fn rank(state: Machine) -> int {
    match state {
        Machine::Planned => 0,
        Machine::Provisioning => 1,
        Machine::Initialized => 2,
        Machine::Ready => 3,
        Machine::Failed => 3,
    }
}

/// The names of the successors of `state`, separated by ", ".
pub open spec fn successor_names(state: Machine) -> Seq<char> {
    joined(successors(state).map_values(|s: Machine| state_name(s)), ", "@)
}

impl Machine {
    /// The lower-case name of the state.
    pub fn as_str(&self) -> (name: &'static str)
        ensures
            name@ == state_name(*self),
    {
        match self {
            Machine::Planned => "planned",
            Machine::Provisioning => "provisioning",
            Machine::Initialized => "initialized",
            Machine::Ready => "ready",
            Machine::Failed => "failed",
        }
    }

    /// The states this one may move to.
    pub fn valid_transitions(&self) -> (states: Vec<Machine>)
        ensures
            states@ == successors(*self),
    {
        let mut states = Vec::new();
        match self {
            Machine::Planned => {
                states.push(Machine::Provisioning);
            },
            Machine::Provisioning => {
                states.push(Machine::Initialized);
                states.push(Machine::Failed);
            },
            Machine::Initialized => {
                states.push(Machine::Ready);
                states.push(Machine::Failed);
            },
            Machine::Ready => {},
            Machine::Failed => {},
        }
        assert(states@ =~= successors(*self));
        states
    }

    /// Whether the lifecycle leads directly from this state to `target`.
    pub fn can_transition_to(&self, target: &Machine) -> (allowed: bool)
        ensures
            allowed == allows(*self, *target),
    {
        let states = self.valid_transitions();
        let mut i: usize = 0;
        while i < states.len()
            invariant
                states@ == successors(*self),
                i <= states.len(),
                forall|j: int| 0 <= j < i ==> states@[j] != *target,
            decreases states.len() - i,
        {
            if states[i] == *target {
                return true;
            }
            i = i + 1;
        }
        false
    }

    /// Moves to `target` when the lifecycle allows it, else reports the
    /// refused transition with the list of allowed ones.
    pub fn transition_to(self, target: Machine) -> (outcome: Result<Machine, State>)
        ensures
            allows(self, target) ==> outcome == Ok::<Machine, State>(target),
            !allows(self, target) ==> (outcome matches Err(State::InvalidTransition {
                current,
                attempted,
                valid_transitions,
            }) && current == self && attempted == target && valid_transitions@
                == successor_names(self)),
    {
        if self.can_transition_to(&target) {
            Ok(target)
        } else {
            Err(
                State::InvalidTransition {
                    current: self,
                    attempted: target,
                    valid_transitions: self.successor_names(),
                },
            )
        }
    }

    fn successor_names(&self) -> (names: String)
        ensures
            names@ == successor_names(*self),
    {
        let states = self.valid_transitions();
        let ghost names = successors(*self).map_values(|s: Machine| state_name(s));
        let mut out = String::new();
        let mut i: usize = 0;
        while i < states.len()
            invariant
                states@ == successors(*self),
                names == successors(*self).map_values(|s: Machine| state_name(s)),
                i <= states.len(),
                out@ == joined(names.take(i as int), ", "@),
            decreases states.len() - i,
        {
            if i > 0 {
                out.append(", ");
            }
            out.append(states[i].as_str());
            proof {
                assert(names.take(i + 1).drop_last() =~= names.take(i as int));
                if i == 0 {
                    assert(out@ =~= names.take(1)[0]);
                }
            }
            i = i + 1;
        }
        assert(names.take(states.len() as int) =~= names);
        out
    }

    /// The state named by a text that is already in lower case.
    pub fn from_lowercase(lowered: &str) -> (state: Option<Machine>)
        ensures
            state == state_named(lowered@),
    {
        if same_text(lowered, "planned") {
            Some(Machine::Planned)
        } else if same_text(lowered, "provisioning") {
            Some(Machine::Provisioning)
        } else if same_text(lowered, "initialized") {
            Some(Machine::Initialized)
        } else if same_text(lowered, "ready") {
            Some(Machine::Ready)
        } else if same_text(lowered, "failed") {
            Some(Machine::Failed)
        } else {
            None
        }
    }

    /// The state named by `value`, compared without regard to case.
    pub fn from_str(value: &str) -> (state: Result<Machine, State>)
        ensures
            state_named(unicode_lowercase(value@)) matches Some(s) ==> state == Ok::<Machine, State>(s),
            state_named(unicode_lowercase(value@)) is None ==> (state matches Err(State::UnknownState { value: v }) && v@ == value@),
            all_ascii(value@) ==> match state_named(ascii_lowercase(value@)) {
                Some(s) => state == Ok::<Machine, State>(s),
                None => state matches Err(State::UnknownState { value: v }) && v@ == value@,
            },
    {
        let lowered = to_lowercase(value);
        match Machine::from_lowercase(lowered.as_str()) {
            Some(state) => Ok(state),
            None => Err(State::UnknownState { value: owned(value) }),
        }
    }
}

/// Every transition the lifecycle allows moves strictly forward, so no
/// sequence of transitions ever returns to a state it left.
pub proof fn lemma_transitions_advance(from: Machine, to: Machine)
    requires
        allows(from, to),
    ensures
        rank(to) > rank(from),
{
}

/// Ready and failed machines are final: nothing follows them.
pub proof fn lemma_final_states(state: Machine)
    requires
        state == Machine::Ready || state == Machine::Failed,
    ensures
        forall|target: Machine| !allows(state, target),
{
}

/// A failure can only be recorded while a machine is provisioning or being
/// initialized, and every such machine may fail.
pub proof fn lemma_failure_sources(state: Machine)
    ensures
        allows(state, Machine::Failed) <==> (state == Machine::Provisioning || state
            == Machine::Initialized),
{
}

/// The name of every state, read back without regard to case, gives the state.
pub proof fn lemma_name_round_trip(state: Machine)
    ensures
        all_ascii(state_name(state)),
        state_named(state_name(state)) == Some(state),
        state_named(ascii_lowercase(state_name(state))) == Some(state),
{
    reveal_strlit("planned");
    reveal_strlit("provisioning");
    reveal_strlit("initialized");
    reveal_strlit("ready");
    reveal_strlit("failed");
    assert(ascii_lowercase(state_name(state)) =~= state_name(state));
}

/// Parsing ignores ASCII case: an ASCII text names a state exactly when its
/// lower case is that state's name.
pub proof fn lemma_parse_ignores_case(text: Seq<char>, state: Machine)
    ensures
        state_named(ascii_lowercase(text)) == Some(state) <==> ascii_lowercase(text) == state_name(state),
{
    lemma_name_round_trip(state);
    assert(ascii_lowercase(state_name(state)) =~= state_name(state));
}

/// A state's name in upper case is ASCII and parses back to the state, as
/// its name itself does.
pub proof fn lemma_uppercase_name_round_trip(state: Machine)
    ensures
        all_ascii(ascii_uppercase(state_name(state))),
        state_named(ascii_lowercase(ascii_uppercase(state_name(state)))) == Some(state),
{
    lemma_name_round_trip(state);
    let name = state_name(state);
    reveal_strlit("planned");
    reveal_strlit("provisioning");
    reveal_strlit("initialized");
    reveal_strlit("ready");
    reveal_strlit("failed");
    assert forall|i: int| 0 <= i < name.len() implies 'a' <= #[trigger] name[i] && name[i] <= 'z' by {}
    assert forall|i: int| 0 <= i < name.len() implies (ascii_upper_char(#[trigger] name[i]) as u32) < 128
        && ascii_lower_char(ascii_upper_char(name[i])) == name[i] by {
        let c = name[i];
        assert(('a' as u32) <= (c as u32) <= ('z' as u32));
    }
    assert(ascii_lowercase(ascii_uppercase(name)) =~= name);
}

} // verus!
