//! The encode phase: serialises a lowered configuration to the byte form
//! the device reads.
//!
//! The format is fixed and position-based: structs are their fields in
//! order, a list is a one-byte length followed by its elements, an option
//! is a one-byte presence tag, an enum is a one-byte variant tag followed
//! by its payload, floats travel as their four little-endian bit-pattern
//! bytes. The specification functions here define the format; [`encode`]
//! is proved to produce exactly those bytes, so equal configurations
//! always encode to byte-identical output. Capacity is the caller's
//! obligation: [`crate::index::ConfigFile::wf`] is exactly what makes every
//! length fit its one-byte prefix.

use vstd::prelude::*;

use crate::index::{
    Check, CheckData, Command, CommandObject, ConfigFile, FloatBits, FloatCondition, State,
    StateTransition, Timeout,
};

verus! {

/// A `u16` as two little-endian bytes.
pub open spec fn spec_u16_le(v: u16) -> Seq<u8> {
    seq![(v & 0xff) as u8, ((v >> 8) & 0xff) as u8]
}

/// A `u32` as four little-endian bytes.
pub open spec fn spec_u32_le(v: u32) -> Seq<u8> {
    seq![
        (v & 0xff) as u8,
        ((v >> 8) & 0xff) as u8,
        ((v >> 16) & 0xff) as u8,
        ((v >> 24) & 0xff) as u8,
    ]
}

/// A boolean as one byte, one for true.
pub open spec fn spec_encode_bool(b: bool) -> Seq<u8> {
    seq![if b { 1u8 } else { 0u8 }]
}

/// A float as its four little-endian bit-pattern bytes.
pub open spec fn spec_encode_float(f: FloatBits) -> Seq<u8> {
    spec_u32_le(f.0)
}

/// A numeric condition: variant tag, then its bounds.
pub open spec fn spec_encode_float_condition(c: FloatCondition) -> Seq<u8> {
    match c {
        FloatCondition::GreaterThan(v) => seq![0u8] + spec_encode_float(v),
        FloatCondition::LessThan(v) => seq![1u8] + spec_encode_float(v),
        FloatCondition::Between { upper_bound, lower_bound } => seq![2u8] + spec_encode_float(
            upper_bound,
        ) + spec_encode_float(lower_bound),
    }
}

/// A check's observation: kind tag, then the condition payload.
pub open spec fn spec_encode_check_data(d: CheckData) -> Seq<u8> {
    match d {
        CheckData::ApogeeFlag(c) => seq![0u8] + spec_encode_bool(c.0),
        CheckData::Altitude(c) => seq![1u8] + spec_encode_float_condition(c),
        CheckData::Pyro1Continuity(c) => seq![2u8] + spec_encode_bool(c.0),
        CheckData::Pyro2Continuity(c) => seq![3u8] + spec_encode_bool(c.0),
        CheckData::Pyro3Continuity(c) => seq![4u8] + spec_encode_bool(c.0),
    }
}

/// A check's action: action tag, then the target state's index byte.
pub open spec fn spec_encode_transition(t: StateTransition) -> Seq<u8> {
    match t {
        StateTransition::Transition(i) => seq![0u8, i.spec_get() as u8],
        StateTransition::Abort(i) => seq![1u8, i.spec_get() as u8],
    }
}

/// An optional action: one presence byte, then the action if present.
pub open spec fn spec_encode_opt_transition(o: Option<StateTransition>) -> Seq<u8> {
    match o {
        None => seq![0u8],
        Some(t) => seq![1u8] + spec_encode_transition(t),
    }
}

/// One check: its observation, then its optional action.
pub open spec fn spec_encode_check(c: Check) -> Seq<u8> {
    spec_encode_check_data(c.data) + spec_encode_opt_transition(c.transition)
}

/// A command's payload: object tag, then the payload bytes.
pub open spec fn spec_encode_command_object(o: CommandObject) -> Seq<u8> {
    match o {
        CommandObject::Pyro1(b) => seq![0u8] + spec_encode_bool(b),
        CommandObject::Pyro2(b) => seq![1u8] + spec_encode_bool(b),
        CommandObject::Pyro3(b) => seq![2u8] + spec_encode_bool(b),
        CommandObject::DataRate(v) => seq![3u8] + spec_u16_le(v),
        CommandObject::Beacon(b) => seq![4u8] + spec_encode_bool(b),
    }
}

/// One command: its payload, then its delay.
pub open spec fn spec_encode_command(c: Command) -> Seq<u8> {
    spec_encode_command_object(c.object) + spec_encode_float(c.delay.0)
}

/// A state timeout: its duration, then the target state's index byte.
pub open spec fn spec_encode_timeout(t: Timeout) -> Seq<u8> {
    spec_encode_float(t.seconds.0) + seq![t.transition.spec_get() as u8]
}

/// An optional timeout: one presence byte, then the timeout if present.
pub open spec fn spec_encode_opt_timeout(o: Option<Timeout>) -> Seq<u8> {
    match o {
        None => seq![0u8],
        Some(t) => seq![1u8] + spec_encode_timeout(t),
    }
}

/// A check list's elements, in order.
pub open spec fn spec_encode_checks(s: Seq<Check>) -> Seq<u8>
    decreases s.len(),
{
    if s.len() == 0 {
        Seq::<u8>::empty()
    } else {
        spec_encode_checks(s.drop_last()) + spec_encode_check(s.last())
    }
}

/// A command list's elements, in order.
pub open spec fn spec_encode_commands(s: Seq<Command>) -> Seq<u8>
    decreases s.len(),
{
    if s.len() == 0 {
        Seq::<u8>::empty()
    } else {
        spec_encode_commands(s.drop_last()) + spec_encode_command(s.last())
    }
}

/// One state: its length-prefixed check and command lists, then its
/// optional timeout.
pub open spec fn spec_encode_state(s: State) -> Seq<u8> {
    seq![s.checks@.len() as u8] + spec_encode_checks(s.checks@) + seq![s.commands@.len() as u8]
        + spec_encode_commands(s.commands@) + spec_encode_opt_timeout(s.timeout)
}

/// A state list's elements, in order.
pub open spec fn spec_encode_states(s: Seq<State>) -> Seq<u8>
    decreases s.len(),
{
    if s.len() == 0 {
        Seq::<u8>::empty()
    } else {
        spec_encode_states(s.drop_last()) + spec_encode_state(s.last())
    }
}

/// The whole configuration: the default state's index byte, then the
/// length-prefixed state list.
pub open spec fn spec_encode_config(c: ConfigFile) -> Seq<u8> {
    seq![c.default_state.spec_get() as u8, c.states@.len() as u8] + spec_encode_states(c.states@)
}

/// Law: encoding is deterministic. The byte form is a function of the
/// lowered configuration alone, so equal configurations — however and
/// whenever they were produced — encode to byte-identical output.
pub proof fn lemma_encode_deterministic(c1: ConfigFile, c2: ConfigFile)
    requires
        c1 == c2,
    ensures
        spec_encode_config(c1) == spec_encode_config(c2),
{
}

fn push_u16_le(out: &mut Vec<u8>, v: u16)
    ensures
        final(out)@ == old(out)@ + spec_u16_le(v),
{
    out.push((v & 0xff) as u8);
    out.push(((v >> 8) & 0xff) as u8);
    proof {
        assert(out@ =~= old(out)@ + spec_u16_le(v));
    }
}

fn push_u32_le(out: &mut Vec<u8>, v: u32)
    ensures
        final(out)@ == old(out)@ + spec_u32_le(v),
{
    out.push((v & 0xff) as u8);
    out.push(((v >> 8) & 0xff) as u8);
    out.push(((v >> 16) & 0xff) as u8);
    out.push(((v >> 24) & 0xff) as u8);
    proof {
        assert(out@ =~= old(out)@ + spec_u32_le(v));
    }
}

fn push_bool(out: &mut Vec<u8>, b: bool)
    ensures
        final(out)@ == old(out)@ + spec_encode_bool(b),
{
    out.push(if b { 1 } else { 0 });
    proof {
        assert(out@ =~= old(out)@ + spec_encode_bool(b));
    }
}

fn push_check(out: &mut Vec<u8>, c: &Check)
    ensures
        final(out)@ == old(out)@ + spec_encode_check(*c),
{
    match &c.data {
        CheckData::ApogeeFlag(f) => {
            out.push(0);
            push_bool(out, f.0);
        },
        CheckData::Altitude(fc) => {
            out.push(1);
            match fc {
                FloatCondition::GreaterThan(v) => {
                    out.push(0);
                    push_u32_le(out, v.0);
                },
                FloatCondition::LessThan(v) => {
                    out.push(1);
                    push_u32_le(out, v.0);
                },
                FloatCondition::Between { upper_bound, lower_bound } => {
                    out.push(2);
                    push_u32_le(out, upper_bound.0);
                    push_u32_le(out, lower_bound.0);
                },
            }
        },
        CheckData::Pyro1Continuity(f) => {
            out.push(2);
            push_bool(out, f.0);
        },
        CheckData::Pyro2Continuity(f) => {
            out.push(3);
            push_bool(out, f.0);
        },
        CheckData::Pyro3Continuity(f) => {
            out.push(4);
            push_bool(out, f.0);
        },
    }
    match &c.transition {
        None => {
            out.push(0);
        },
        Some(t) => {
            out.push(1);
            match t {
                StateTransition::Transition(i) => {
                    out.push(0);
                    out.push(i.get());
                },
                StateTransition::Abort(i) => {
                    out.push(1);
                    out.push(i.get());
                },
            }
        },
    }
    proof {
        assert(out@ =~= old(out)@ + spec_encode_check(*c));
    }
}

fn push_command(out: &mut Vec<u8>, c: &Command)
    ensures
        final(out)@ == old(out)@ + spec_encode_command(*c),
{
    match &c.object {
        CommandObject::Pyro1(b) => {
            out.push(0);
            push_bool(out, *b);
        },
        CommandObject::Pyro2(b) => {
            out.push(1);
            push_bool(out, *b);
        },
        CommandObject::Pyro3(b) => {
            out.push(2);
            push_bool(out, *b);
        },
        CommandObject::DataRate(v) => {
            out.push(3);
            push_u16_le(out, *v);
        },
        CommandObject::Beacon(b) => {
            out.push(4);
            push_bool(out, *b);
        },
    }
    push_u32_le(out, c.delay.0.0);
    proof {
        assert(out@ =~= old(out)@ + spec_encode_command(*c));
    }
}

fn push_state(out: &mut Vec<u8>, s: &State)
    requires
        s.checks@.len() <= 255,
        s.commands@.len() <= 255,
    ensures
        final(out)@ == old(out)@ + spec_encode_state(*s),
{
    out.push(s.checks.len() as u8);
    let ghost after_check_len = out@;
    let n_checks = s.checks.len();
    for j in 0..n_checks
        invariant
            n_checks == s.checks@.len() <= 255,
            out@ == after_check_len + spec_encode_checks(s.checks@.take(j as int)),
    {
        push_check(out, &s.checks[j]);
        proof {
            assert(s.checks@.take(j as int + 1).drop_last() =~= s.checks@.take(j as int));
            assert(out@ =~= after_check_len + spec_encode_checks(s.checks@.take(j as int + 1)));
        }
    }
    proof {
        assert(s.checks@.take(n_checks as int) =~= s.checks@);
    }

    out.push(s.commands.len() as u8);
    let ghost after_command_len = out@;
    let n_commands = s.commands.len();
    for j in 0..n_commands
        invariant
            n_commands == s.commands@.len() <= 255,
            out@ == after_command_len + spec_encode_commands(s.commands@.take(j as int)),
    {
        push_command(out, &s.commands[j]);
        proof {
            assert(s.commands@.take(j as int + 1).drop_last() =~= s.commands@.take(j as int));
            assert(out@ =~= after_command_len + spec_encode_commands(
                s.commands@.take(j as int + 1),
            ));
        }
    }
    proof {
        assert(s.commands@.take(n_commands as int) =~= s.commands@);
    }

    match &s.timeout {
        None => {
            out.push(0);
        },
        Some(t) => {
            out.push(1);
            push_u32_le(out, t.seconds.0.0);
            out.push(t.transition.get());
        },
    }
    proof {
        assert(out@ =~= old(out)@ + spec_encode_state(*s));
    }
}

/// Serialises a well-formed lowered configuration. Well-formedness is what
/// the lowering pass guarantees of everything it produces, and exactly
/// what makes every list length fit its one-byte prefix — so encoding a
/// lowered configuration never fails.
pub fn encode(config: &ConfigFile) -> (r: Vec<u8>)
    requires
        config.wf(),
    ensures
        r@ == spec_encode_config(*config),
{
    let mut out: Vec<u8> = Vec::new();
    out.push(config.default_state.get());
    out.push(config.states.len() as u8);
    let ghost header = out@;
    let n_states = config.states.len();
    for i in 0..n_states
        invariant
            config.wf(),
            n_states == config.states@.len(),
            out@ == header + spec_encode_states(config.states@.take(i as int)),
            header == seq![
                config.default_state.spec_get() as u8,
                config.states@.len() as u8,
            ],
    {
        push_state(&mut out, &config.states[i]);
        proof {
            assert(config.states@.take(i as int + 1).drop_last() =~= config.states@.take(
                i as int,
            ));
            assert(out@ =~= header + spec_encode_states(config.states@.take(i as int + 1)));
        }
    }
    proof {
        assert(config.states@.take(n_states as int) =~= config.states@);
        assert(out@ =~= spec_encode_config(*config));
    }
    out
}

} // verus!
