//! The lowering pass: the compiler's correctness gate.
//!
//! Consumes the name-addressed document model, resolves every state name to
//! a dense [`StateIndex`], enforces the structural invariants of the
//! index-addressed model — exactly one condition per check, exactly one
//! payload per command, transition and abort mutually exclusive, state
//! count within device capacity — and either assembles the lowered
//! configuration or reports, per item, why it cannot. A defect in one item
//! does not stop the pass: it is recorded and the pass moves to the next
//! item, so one run surfaces as many defects as possible.

use vstd::prelude::*;

use crate::error::{Context, Diagnostic, DiagnosticBuilder, Level, Span, SpanStyle, Spanned};
use crate::index::{
    Check, CheckData, Command, CommandObject, ConfigFile, FloatBits, FloatCondition, MAX_CHECKS,
    MAX_COMMANDS, MAX_STATES, NativeFlagCondition, PyroContinuityCondition, Seconds, State,
    StateIndex, StateTransition,
};
use crate::upper;

verus! {

// ---------------------------------------------------------------------------
// Name resolution
// ---------------------------------------------------------------------------

/// The declared state names, in declaration order.
pub open spec fn state_names(states: Seq<Spanned<upper::State>>) -> Seq<Seq<char>> {
    states.map(|i: int, s: Spanned<upper::State>| s.value.name.value@)
}

/// What a list of owned name strings reads as.
pub open spec fn names_view(names: Seq<String>) -> Seq<Seq<char>> {
    names.map(|i: int, n: String| n@)
}

/// The index a name resolves to: the position of its last declaration, as
/// a later declaration of the same name shadows an earlier one.
pub open spec fn resolve(names: Seq<Seq<char>>, name: Seq<char>) -> Option<int>
    decreases names.len(),
{
    if names.len() == 0 {
        None
    } else if names.last() == name {
        Some(names.len() - 1)
    } else {
        resolve(names.drop_last(), name)
    }
}

/// A name resolves exactly when it is declared, and what it resolves to is
/// a position holding that name.
pub proof fn lemma_resolve(names: Seq<Seq<char>>, name: Seq<char>)
    ensures
        resolve(names, name) is Some <==> names.contains(name),
        resolve(names, name) matches Some(i) ==> 0 <= i < names.len() && names[i] == name,
    decreases names.len(),
{
    if names.len() > 0 {
        lemma_resolve(names.drop_last(), name);
        if names.last() == name {
            assert(names.contains(name));
        } else {
            assert(names.contains(name) ==> names.drop_last().contains(name)) by {
                if names.contains(name) {
                    let i = choose|i: int| 0 <= i < names.len() && names[i] == name;
                    assert(names.drop_last()[i] == name);
                }
            }
            assert(names.drop_last().contains(name) ==> names.contains(name)) by {
                if names.drop_last().contains(name) {
                    let i = choose|i: int|
                        0 <= i < names.drop_last().len() && names.drop_last()[i] == name;
                    assert(names[i] == name);
                }
            }
        }
    }
}

/// The name table built by the lowering pass: every declared state name at
/// its declaration position. Lookups through [`Self::get_index`] are the
/// only way the pass turns a name into a [`StateIndex`].
pub struct NameTable {
    names: Vec<String>,
}

impl View for NameTable {
    type V = Seq<Seq<char>>;

    closed spec fn view(&self) -> Seq<Seq<char>> {
        names_view(self.names@)
    }
}

impl NameTable {
    /// The table never holds more names than the device holds states, so
    /// every position fits a `StateIndex`.
    pub open spec fn wf(self) -> bool {
        self@.len() <= MAX_STATES as int
    }

    /// Builds the table from the declared states, in declaration order.
    pub fn new(states: &Vec<Spanned<upper::State>>) -> (r: NameTable)
        requires
            states@.len() <= MAX_STATES as int,
        ensures
            r@ == state_names(states@),
            r.wf(),
    {
        let mut names: Vec<String> = Vec::new();
        let n = states.len();
        for i in 0..n
            invariant
                n == states@.len() <= MAX_STATES as int,
                names@.len() == i,
                names_view(names@) == state_names(states@.take(i as int)),
        {
            let ghost prev = names@;
            names.push(states[i].value.name.value.clone());
            proof {
                assert forall|k: int| 0 <= k < i + 1 implies names_view(names@)[k] == state_names(
                    states@.take(i as int + 1),
                )[k] by {
                    if k < i {
                        assert(names_view(prev)[k] == state_names(states@.take(i as int))[k]);
                        assert(names@[k] == prev[k]);
                        assert(states@.take(i as int)[k] == states@.take(i as int + 1)[k]);
                    } else {
                        assert(names@[k] == states@[k].value.name.value);
                    }
                }
                assert(names_view(names@) =~= state_names(states@.take(i as int + 1)));
            }
        }
        proof {
            assert(states@.take(n as int) =~= states@);
        }
        NameTable { names }
    }

    /// Resolves one written name, or records the reference error that names
    /// the exact string that failed to resolve.
    pub fn get_index(&self, name: &Spanned<String>, context: &mut Context) -> (r: Result<
        StateIndex,
        (),
    >)
        requires
            self.wf(),
        ensures
            old(context).same_file(*final(context)),
            r is Ok <==> resolve(self@, name.value@) is Some,
            r is Ok ==> r->Ok_0 == StateIndex::spec_new(resolve(self@, name.value@)->0),
            r is Ok ==> r->Ok_0.spec_get() == resolve(self@, name.value@)->0,
            r is Ok ==> final(context).session.diagnostics@ == old(context).session.diagnostics@,
            r is Err ==> final(context).session.diagnostics@.len() == old(context).session.diagnostics@.len() + 1,
            r is Err ==> final(context).session.diagnostics@.drop_last() == old(context).session.diagnostics@,
            r is Err ==> is_state_not_found_diag(
                final(context).session.diagnostics@.last(),
                *name,
            ),
    {
        let n = self.names.len();
        let mut found: Option<usize> = None;
        for i in 0..n
            invariant
                n == self.names@.len(),
                self.wf(),
                match found {
                    Some(j) => resolve(self@.take(i as int), name.value@) == Some(j as int),
                    None => resolve(self@.take(i as int), name.value@) is None,
                },
        {
            proof {
                assert(self@.take(i as int + 1).drop_last() =~= self@.take(i as int));
                assert(self@.take(i as int + 1).last() == self.names@[i as int]@);
            }
            if self.names[i] == name.value {
                found = Some(i);
            }
        }
        proof {
            assert(self@.take(n as int) =~= self@);
            lemma_resolve(self@, name.value@);
        }
        match found {
            Some(j) => {
                let ix = StateIndex::new(j as u8);
                Ok(ix.unwrap())
            },
            None => {
                let span = Span::from_spanned(name);
                let message = concat3("state not found `", &name.value, "`");
                let b = context.error(message.as_str());
                let b = b.set_primary_span(span, "not found");
                b.emit(context);
                proof {
                    assert(context.session.diagnostics@.drop_last() =~= old(context).session.diagnostics@);
                }
                Err(())
            },
        }
    }
}

/// The diagnostic recorded for a dangling state reference: an `Error` whose
/// message names the exact string that did not resolve, pointing at where
/// it was written.
pub open spec fn is_state_not_found_diag(d: Diagnostic, name: Spanned<String>) -> bool {
    &&& d.level == Level::Error
    &&& d.message@ == "state not found `"@ + name.value@ + "`"@
    &&& if name.span.spec_is_dummy() {
        d.spans@.len() == 0
    } else {
        &&& d.spans@.len() == 1
        &&& d.spans@[0].span == name.span
        &&& d.spans@[0].style == SpanStyle::Primary
        &&& d.spans@[0].label matches Some(l) && l@ == "not found"@
    }
}

/// `prefix` is what the diagnostic list was before; everything after it was
/// appended since.
pub open spec fn extends(ds: Seq<Diagnostic>, prefix: Seq<Diagnostic>) -> bool {
    &&& ds.len() >= prefix.len()
    &&& forall|i: int| 0 <= i < prefix.len() ==> ds[i] == prefix[i]
}

/// Some diagnostic appended after `prefix` has `Error` severity.
pub open spec fn added_error(ds: Seq<Diagnostic>, prefix: Seq<Diagnostic>) -> bool {
    exists|i: int| prefix.len() <= i < ds.len() && ds[i].level == Level::Error
}

fn concat3(prefix: &str, mid: &String, suffix: &str) -> (r: String)
    ensures
        r@ == prefix@ + mid@ + suffix@,
{
    let mut s = String::from_str(prefix);
    s.append(mid.as_str());
    s.append(suffix);
    s
}

// ---------------------------------------------------------------------------
// Commands
// ---------------------------------------------------------------------------

/// How many of a command's payload fields are set; a command lowers only
/// when exactly one is.
pub open spec fn action_count(c: upper::Command) -> int {
    (if c.pyro1 is Some { 1int } else { 0int }) + (if c.pyro2 is Some { 1int } else { 0int }) + (
    if c.pyro3 is Some { 1int } else { 0int }) + (if c.data_rate is Some { 1int } else { 0int })
        + (if c.beacon is Some { 1int } else { 0int })
}

/// A command lowers exactly when it sets exactly one payload field.
pub open spec fn command_valid(c: upper::Command) -> bool {
    action_count(c) == 1
}

/// The lowered form of a valid command: its single payload, and a delay
/// that defaults to zero seconds when absent.
pub open spec fn lowered_command(c: upper::Command) -> Command {
    let object = if c.pyro1 is Some {
        CommandObject::Pyro1(c.pyro1->0.value.0)
    } else if c.pyro2 is Some {
        CommandObject::Pyro2(c.pyro2->0.value.0)
    } else if c.pyro3 is Some {
        CommandObject::Pyro3(c.pyro3->0.value.0)
    } else if c.data_rate is Some {
        CommandObject::DataRate(c.data_rate->0.value)
    } else {
        CommandObject::Beacon(c.beacon->0.value.0)
    };
    let delay = match c.delay {
        Some(d) => d.value,
        None => FloatBits(0),
    };
    Command { object, delay: Seconds(delay) }
}

/// `d` carries a secondary "declared here" label pointing at `s`.
pub open spec fn diag_labels_span(d: Diagnostic, s: Span) -> bool {
    exists|j: int|
        0 <= j < d.spans@.len() && (#[trigger] d.spans@[j]).span == s && d.spans@[j].style
            == SpanStyle::Secondary && (d.spans@[j].label matches Some(l)
            && l@ == "declared here"@)
}

/// The diagnostic recorded when a command sets more than one payload field:
/// an `Error` that labels every one of the conflicting fields, so the
/// writer sees all of them at once. The reserved empty span is suppressed.
pub open spec fn is_too_many_actions_diag(d: Diagnostic, c: upper::Command) -> bool {
    &&& d.level == Level::Error
    &&& d.message@ == "too many command actions"@
    &&& (c.pyro1 matches Some(s) ==> (s.span.spec_is_dummy() || diag_labels_span(d, s.span)))
    &&& (c.pyro2 matches Some(s) ==> (s.span.spec_is_dummy() || diag_labels_span(d, s.span)))
    &&& (c.pyro3 matches Some(s) ==> (s.span.spec_is_dummy() || diag_labels_span(d, s.span)))
    &&& (c.data_rate matches Some(s) ==> (s.span.spec_is_dummy() || diag_labels_span(d, s.span)))
    &&& (c.beacon matches Some(s) ==> (s.span.spec_is_dummy() || diag_labels_span(d, s.span)))
}

/// All spans in declared order of source position, so conflict reports come
/// out the same way every run.
pub open spec fn spans_sorted(ss: Seq<Span>) -> bool {
    forall|i: int, j: int| 0 <= i < j < ss.len() ==> (#[trigger] ss[i]).start <= (#[trigger] ss[j]).start
}

/// Attaches a secondary "declared here" label for every span in `values`,
/// in order; the reserved empty span is suppressed by the builder.
fn add_declared_here_labels(builder: DiagnosticBuilder, values: &Vec<Span>) -> (r: DiagnosticBuilder)
    ensures
        r.diagnostic.level == builder.diagnostic.level,
        r.diagnostic.message@ == builder.diagnostic.message@,
        forall|x: Span|
            values@.contains(x) && !x.spec_is_dummy() ==> diag_labels_span(r.diagnostic, x),
{
    let ghost b0 = builder;
    let mut b = builder;
    let n_values = values.len();
    for k in 0..n_values
        invariant
            n_values == values@.len(),
            b.diagnostic.level == b0.diagnostic.level,
            b.diagnostic.message@ == b0.diagnostic.message@,
            forall|x: Span|
                values@.take(k as int).contains(x) && !x.spec_is_dummy() ==> diag_labels_span(
                    b.diagnostic,
                    x,
                ),
    {
        let ghost prev = b;
        b = b.span_label(values[k], "declared here");
        proof {
            assert(values@.take(k as int + 1).drop_last() =~= values@.take(k as int));
            assert forall|x: Span|
                values@.take(k as int + 1).contains(x) && !x.spec_is_dummy()
                implies diag_labels_span(b.diagnostic, x) by {
                if x == values@[k as int] {
                    assert(b.diagnostic.spans@.last().span == x);
                } else {
                    assert(values@.take(k as int).contains(x));
                    assert(diag_labels_span(prev.diagnostic, x));
                    let j = choose|j: int|
                        0 <= j < prev.diagnostic.spans@.len() && (
                        #[trigger] prev.diagnostic.spans@[j]).span == x
                            && prev.diagnostic.spans@[j].style == SpanStyle::Secondary && (
                        prev.diagnostic.spans@[j].label matches Some(l)
                            && l@ == "declared here"@);
                    assert(b.diagnostic.spans@[j] == prev.diagnostic.spans@[j]);
                }
            }
        }
    }
    proof {
        assert(values@.take(n_values as int) =~= values@);
    }
    b
}

/// Inserts a span keeping the list ordered by start position.
fn push_span_sorted(spans: &mut Vec<Span>, s: Span)
    requires
        spans_sorted(old(spans)@),
    ensures
        spans_sorted(final(spans)@),
        final(spans)@.len() == old(spans)@.len() + 1,
        final(spans)@.contains(s),
        forall|x: Span| old(spans)@.contains(x) ==> final(spans)@.contains(x),
{
    let n = spans.len();
    let mut idx: usize = 0;
    while idx < n && spans[idx].start <= s.start
        invariant
            n == spans@.len(),
            idx <= n,
            forall|k: int| 0 <= k < idx ==> (#[trigger] spans@[k]).start <= s.start,
        decreases n - idx,
    {
        idx = idx + 1;
    }
    spans.insert(idx, s);
    proof {
        let new = spans@;
        let old_s = old(spans)@;
        assert(new[idx as int] == s);
        assert(forall|k: int| 0 <= k < idx ==> new[k] == old_s[k]);
        assert(forall|k: int| idx < k < new.len() ==> new[k] == old_s[k - 1]);
        assert(forall|i: int, j: int|
            0 <= i < j < new.len() ==> (#[trigger] new[i]).start <= (#[trigger] new[j]).start) by {
            assert(forall|k: int|
                idx < k < new.len() ==> s.start <= (#[trigger] new[k]).start) by {
                assert(forall|k: int|
                    (idx as int) <= k < old_s.len() ==> s.start <= (#[trigger] old_s[k]).start)
                    by {
                    if idx < n {
                        assert(old_s[idx as int].start > s.start);
                        assert(forall|k: int|
                            idx < k < old_s.len() ==> old_s[idx as int].start <= (
                            #[trigger] old_s[k]).start);
                    }
                }
            }
        }
        assert(forall|x: Span| old_s.contains(x) ==> new.contains(x)) by {
            assert forall|x: Span| old_s.contains(x) implies new.contains(x) by {
                let k = choose|k: int| 0 <= k < old_s.len() && old_s[k] == x;
                if k < idx {
                    assert(new[k] == x);
                } else {
                    assert(new[k + 1] == x);
                }
            }
        }
    }
}

/// Lowers one command, or records why it cannot be lowered: a command must
/// set exactly one of its payload fields. A missing delay becomes zero
/// seconds.
pub fn convert_command(command: &Spanned<upper::Command>, context: &mut Context) -> (r: Result<
    Command,
    (),
>)
    ensures
        old(context).same_file(*final(context)),
        extends(final(context).session.diagnostics@, old(context).session.diagnostics@),
        r is Ok <==> command_valid(command.value),
        r is Ok ==> r->Ok_0 == lowered_command(command.value),
        r is Ok ==> final(context).session.diagnostics@ == old(context).session.diagnostics@,
        r is Err ==> added_error(
            final(context).session.diagnostics@,
            old(context).session.diagnostics@,
        ),
        action_count(command.value) == 0 ==> added_error_with(
            final(context).session.diagnostics@,
            old(context).session.diagnostics@,
            "command action missing"@,
        ),
        action_count(command.value) > 1 ==> exists|i: int|
            old(context).session.diagnostics@.len() <= i < final(context).session.diagnostics@.len() && is_too_many_actions_diag(
                #[trigger] final(context).session.diagnostics@[i],
                command.value,
            ),
{
    let span = Span::from_spanned(command);
    let cmd = &command.value;

    let mut count: u32 = 0;
    if cmd.pyro1.is_some() {
        count += 1;
    }
    if cmd.pyro2.is_some() {
        count += 1;
    }
    if cmd.pyro3.is_some() {
        count += 1;
    }
    if cmd.data_rate.is_some() {
        count += 1;
    }
    if cmd.beacon.is_some() {
        count += 1;
    }
    proof {
        assert(count as int == action_count(command.value));
    }

    if count == 0 {
        let b = context.error("command action missing");
        let b = b.set_primary_span(span, "you must specify one command action");
        b.emit(context);
        proof {
            let ds = context.session.diagnostics@;
            let prev = old(context).session.diagnostics@;
            assert(ds.take(prev.len() as int) =~= prev);
            assert(ds[ds.len() - 1].level == Level::Error);
            assert(ds[ds.len() - 1].message@ == "command action missing"@);
        }
        return Err(());
    }
    if count > 1 {
        let mut values: Vec<Span> = Vec::new();
        if let Some(s) = &cmd.pyro1 {
            push_span_sorted(&mut values, s.span);
        }
        if let Some(s) = &cmd.pyro2 {
            push_span_sorted(&mut values, s.span);
        }
        if let Some(s) = &cmd.pyro3 {
            push_span_sorted(&mut values, s.span);
        }
        if let Some(s) = &cmd.data_rate {
            push_span_sorted(&mut values, s.span);
        }
        if let Some(s) = &cmd.beacon {
            push_span_sorted(&mut values, s.span);
        }

        let b = context.error("too many command actions");
        let b = b.set_primary_span(span, "you must specify exactly one command action");
        let b = add_declared_here_labels(b, &values);
        let ghost done = b;
        b.emit(context);
        proof {
            let ds = context.session.diagnostics@;
            let prev = old(context).session.diagnostics@;
            assert(ds.take(prev.len() as int) =~= prev);
            assert(ds[ds.len() - 1] == done.diagnostic);
            assert(is_too_many_actions_diag(done.diagnostic, command.value));
        }
        return Err(());
    }

    // Exactly one payload field is set; take it in field order.
    let object = if let Some(pyro1) = &cmd.pyro1 {
        CommandObject::Pyro1(pyro1.value.get())
    } else if let Some(pyro2) = &cmd.pyro2 {
        CommandObject::Pyro2(pyro2.value.get())
    } else if let Some(pyro3) = &cmd.pyro3 {
        CommandObject::Pyro3(pyro3.value.get())
    } else if let Some(data_rate) = &cmd.data_rate {
        CommandObject::DataRate(data_rate.value)
    } else if let Some(beacon) = &cmd.beacon {
        CommandObject::Beacon(beacon.value.get())
    } else {
        // Provably unreachable: exactly one payload field is set.
        proof {
            assert(false);
        }
        CommandObject::Beacon(false)
    };
    let delay = match &cmd.delay {
        Some(d) => d.value,
        None => FloatBits(0),
    };
    Ok(Command::new(object, Seconds(delay)))
}

// ---------------------------------------------------------------------------
// Checks
// ---------------------------------------------------------------------------

/// The range condition group is present only when both of its bounds are.
pub open spec fn has_between(c: upper::Check) -> bool {
    c.upper_bound is Some && c.lower_bound is Some
}

/// One bound of the range group written without the other; such a check is
/// rejected before condition groups are even counted.
pub open spec fn unmatched_bound(c: upper::Check) -> bool {
    (c.upper_bound is Some) != (c.lower_bound is Some)
}

/// How many of the mutually exclusive condition groups `{greater_than}`,
/// `{upper_bound, lower_bound}`, `{flag}` are present; a check lowers only
/// when exactly one is.
pub open spec fn condition_count(c: upper::Check) -> int {
    (if c.greater_than is Some { 1int } else { 0int }) + (if has_between(c) { 1int } else { 0int })
        + (if c.flag is Some { 1int } else { 0int })
}

/// The check kinds whose condition is a flag.
pub open spec fn is_flag_kind(kind: Seq<char>) -> bool {
    ||| kind == "apogee"@
    ||| kind == "pyro1_continuity"@
    ||| kind == "pyro2_continuity"@
    ||| kind == "pyro3_continuity"@
}

/// The finite set of recognized check kinds.
pub open spec fn known_kind(kind: Seq<char>) -> bool {
    is_flag_kind(kind) || kind == "altitude"@
}

/// The two values a flag condition may be written as.
pub open spec fn flag_value_ok(f: Seq<char>) -> bool {
    f == "set"@ || f == "unset"@
}

/// The name-independent demands on one check: matched bounds, exactly one
/// condition group, a recognized kind, a well-formed flag value, and a
/// condition shape that fits the kind.
pub open spec fn check_shape_valid(c: upper::Check) -> bool {
    &&& !unmatched_bound(c)
    &&& condition_count(c) == 1
    &&& known_kind(c.check.value@)
    &&& (c.flag matches Some(f) ==> flag_value_ok(f.value@))
    &&& (is_flag_kind(c.check.value@) <==> c.flag is Some)
}

/// Everything the lowering pass demands of one check: a valid shape,
/// resolvable targets, and never both `transition` and `abort`.
pub open spec fn check_valid(c: upper::Check, names: Seq<Seq<char>>) -> bool {
    &&& check_shape_valid(c)
    &&& (c.transition matches Some(t) ==> resolve(names, t.value@) is Some)
    &&& (c.abort matches Some(a) ==> resolve(names, a.value@) is Some)
    &&& !(c.transition is Some && c.abort is Some)
}

/// The observation a valid check lowers to: the kind picks the tag, the
/// single condition group supplies the payload.
pub open spec fn lowered_check_data(c: upper::Check) -> CheckData {
    let kind = c.check.value@;
    let flag_set = c.flag->0.value@ == "set"@;
    if kind == "apogee"@ {
        CheckData::ApogeeFlag(NativeFlagCondition(flag_set))
    } else if kind == "pyro1_continuity"@ {
        CheckData::Pyro1Continuity(PyroContinuityCondition(flag_set))
    } else if kind == "pyro2_continuity"@ {
        CheckData::Pyro2Continuity(PyroContinuityCondition(flag_set))
    } else if kind == "pyro3_continuity"@ {
        CheckData::Pyro3Continuity(PyroContinuityCondition(flag_set))
    } else {
        if c.greater_than is Some {
            CheckData::Altitude(FloatCondition::GreaterThan(c.greater_than->0.value))
        } else {
            CheckData::Altitude(
                FloatCondition::Between {
                    upper_bound: c.upper_bound->0.value,
                    lower_bound: c.lower_bound->0.value,
                },
            )
        }
    }
}

/// The action a valid check lowers to: a transition or an abort to the
/// resolved index, or nothing.
pub open spec fn lowered_transition(c: upper::Check, names: Seq<Seq<char>>) -> Option<
    StateTransition,
> {
    if c.transition is Some {
        Some(
            StateTransition::Transition(
                StateIndex::spec_new(resolve(names, c.transition->0.value@)->0),
            ),
        )
    } else if c.abort is Some {
        Some(StateTransition::Abort(StateIndex::spec_new(resolve(names, c.abort->0.value@)->0)))
    } else {
        None
    }
}

/// The lowered form of a valid check.
pub open spec fn lowered_check(c: upper::Check, names: Seq<Seq<char>>) -> Check {
    Check { data: lowered_check_data(c), transition: lowered_transition(c, names) }
}

/// The diagnostic recorded when a check sets more than one condition group:
/// an `Error` that labels every one of the conflicting groups — the range
/// pair is labeled at its upper bound — so the writer sees all of them at
/// once. The reserved empty span is suppressed.
pub open spec fn is_too_many_conditions_diag(d: Diagnostic, c: upper::Check) -> bool {
    &&& d.level == Level::Error
    &&& d.message@ == "too many conditions"@
    &&& (c.greater_than matches Some(g) ==> (g.span.spec_is_dummy() || diag_labels_span(
        d,
        g.span,
    )))
    &&& (has_between(c) ==> (c.upper_bound->0.span.spec_is_dummy() || diag_labels_span(
        d,
        c.upper_bound->0.span,
    )))
    &&& (c.flag matches Some(f) ==> (f.span.spec_is_dummy() || diag_labels_span(d, f.span)))
}

/// A private tag for the recognized check kinds, fixed before the
/// condition's shape is examined.
enum CheckKind {
    Apogee,
    Altitude,
    Pyro1Continuity,
    Pyro2Continuity,
    Pyro3Continuity,
}

/// A private tag for the single condition group a check was written with.
enum CheckCondition {
    FlagEq(bool),
    GreaterThan(FloatBits),
    Between { upper_bound: FloatBits, lower_bound: FloatBits },
}

/// Records the error for a condition whose shape does not fit the check's
/// declared kind.
fn emit_mismatched_check(context: &mut Context, span: Span)
    ensures
        old(context).same_file(*final(context)),
        extends(final(context).session.diagnostics@, old(context).session.diagnostics@),
        added_error(final(context).session.diagnostics@, old(context).session.diagnostics@),
        added_error_with(
            final(context).session.diagnostics@,
            old(context).session.diagnostics@,
            "mismatched check type"@,
        ),
{
    let b = context.error("mismatched check type");
    let b = b.set_primary_span(span, "the condition does not fit this check kind");
    b.emit(context);
    proof {
        let ds = context.session.diagnostics@;
        assert(ds[ds.len() - 1].level == Level::Error);
        assert(ds[ds.len() - 1].message@ == "mismatched check type"@);
    }
}

/// Lowers one check, or records why it cannot be lowered. Every demand of
/// [`check_valid`] is enforced here, and each defect is reported where it
/// was written: conflicting condition groups are all labeled at once, a
/// dangling target names the exact unresolved string, and an unknown kind
/// comes with the finite set of valid ones.
pub fn convert_check(check: &Spanned<upper::Check>, table: &NameTable, context: &mut Context) -> (r:
    Result<Check, ()>)
    requires
        table.wf(),
    ensures
        old(context).same_file(*final(context)),
        extends(final(context).session.diagnostics@, old(context).session.diagnostics@),
        r is Ok <==> check_valid(check.value, table@),
        r is Ok ==> r->Ok_0 == lowered_check(check.value, table@),
        r is Ok ==> r->Ok_0.wf(table@.len() as int),
        r is Ok ==> final(context).session.diagnostics@ == old(context).session.diagnostics@,
        r is Err ==> added_error(
            final(context).session.diagnostics@,
            old(context).session.diagnostics@,
        ),
        unmatched_bound(check.value) ==> added_error_with(
            final(context).session.diagnostics@,
            old(context).session.diagnostics@,
            "unmatched bound"@,
        ),
        !unmatched_bound(check.value) && condition_count(check.value) == 0 ==> added_error_with(
            final(context).session.diagnostics@,
            old(context).session.diagnostics@,
            "no condition"@,
        ),
        !unmatched_bound(check.value) && condition_count(check.value) > 1 ==> exists|i: int|
            old(context).session.diagnostics@.len() <= i < final(context).session.diagnostics@.len()
                && is_too_many_conditions_diag(
                #[trigger] final(context).session.diagnostics@[i],
                check.value,
            ),
        !unmatched_bound(check.value) && condition_count(check.value) == 1 && !known_kind(
            check.value.check.value@,
        ) ==> added_error_with(
            final(context).session.diagnostics@,
            old(context).session.diagnostics@,
            "no check with name `"@ + check.value.check.value@ + "` exists"@,
        ),
        !unmatched_bound(check.value) && condition_count(check.value) == 1 && known_kind(
            check.value.check.value@,
        ) && (check.value.flag matches Some(f) && !flag_value_ok(f.value@)) ==> added_error_with(
            final(context).session.diagnostics@,
            old(context).session.diagnostics@,
            "flag values must be `set` or `unset`"@,
        ),
        !unmatched_bound(check.value) && condition_count(check.value) == 1 && known_kind(
            check.value.check.value@,
        ) && (check.value.flag matches Some(f) ==> flag_value_ok(f.value@)) && !(is_flag_kind(
            check.value.check.value@,
        ) <==> check.value.flag is Some) ==> added_error_with(
            final(context).session.diagnostics@,
            old(context).session.diagnostics@,
            "mismatched check type"@,
        ),
        check_shape_valid(check.value) && (check.value.transition matches Some(t) && resolve(
            table@,
            t.value@,
        ) is None) ==> exists|i: int|
            old(context).session.diagnostics@.len() <= i < final(context).session.diagnostics@.len()
                && is_state_not_found_diag(
                #[trigger] final(context).session.diagnostics@[i],
                check.value.transition->0,
            ),
        check_shape_valid(check.value) && (check.value.transition matches Some(t) ==> resolve(
            table@,
            t.value@,
        ) is Some) && (check.value.abort matches Some(a) && resolve(table@, a.value@) is None)
            ==> exists|i: int|
            old(context).session.diagnostics@.len() <= i < final(context).session.diagnostics@.len()
                && is_state_not_found_diag(
                #[trigger] final(context).session.diagnostics@[i],
                check.value.abort->0,
            ),
        check_shape_valid(check.value) && (check.value.transition matches Some(t) && resolve(
            table@,
            t.value@,
        ) is Some) && (check.value.abort matches Some(a) && resolve(table@, a.value@) is Some)
            ==> added_error_with(
            final(context).session.diagnostics@,
            old(context).session.diagnostics@,
            "abort and transition cannot be active in the same check"@,
        ),
{
    let full_span = Span::from_spanned(check);
    let c = &check.value;

    // A half-written range never counts as a condition group; reject it
    // before counting.
    if c.upper_bound.is_some() != c.lower_bound.is_some() {
        let b = context.error("unmatched bound");
        let b = b.set_primary_span(
            full_span,
            "if one of `lower_bound` or `upper_bound` is set, both must be set",
        );
        b.emit(context);
        proof {
            let ds = context.session.diagnostics@;
            assert(ds[ds.len() - 1].level == Level::Error);
        }
        return Err(());
    }

    let mut count: u32 = 0;
    if c.greater_than.is_some() {
        count += 1;
    }
    if c.upper_bound.is_some() && c.lower_bound.is_some() {
        count += 1;
    }
    if c.flag.is_some() {
        count += 1;
    }
    proof {
        assert(count as int == condition_count(check.value));
    }

    if count == 0 {
        let b = context.error("no condition");
        let b = b.set_primary_span(full_span, "you must specify one check condition per check");
        b.emit(context);
        proof {
            let ds = context.session.diagnostics@;
            assert(ds[ds.len() - 1].level == Level::Error);
        }
        return Err(());
    }
    if count > 1 {
        let mut values: Vec<Span> = Vec::new();
        if let Some(gt) = &c.greater_than {
            push_span_sorted(&mut values, gt.span);
        }
        if let Some(u) = &c.upper_bound {
            push_span_sorted(&mut values, u.span);
        }
        if let Some(flag) = &c.flag {
            push_span_sorted(&mut values, flag.span);
        }
        let b = context.error("too many conditions");
        let b = b.set_primary_span(full_span, "you must specify exactly one check condition");
        let b = add_declared_here_labels(b, &values);
        let ghost done = b;
        b.emit(context);
        proof {
            let ds = context.session.diagnostics@;
            assert(ds[ds.len() - 1] == done.diagnostic);
            assert(is_too_many_conditions_diag(done.diagnostic, check.value));
        }
        return Err(());
    }

    proof {
        reveal_strlit("apogee");
        reveal_strlit("altitude");
        reveal_strlit("pyro1_continuity");
        reveal_strlit("pyro2_continuity");
        reveal_strlit("pyro3_continuity");
        reveal_strlit("set");
        reveal_strlit("unset");
    }

    let kind = &c.check.value;
    let check_kind: CheckKind = if *kind == String::from_str("apogee") {
        CheckKind::Apogee
    } else if *kind == String::from_str("altitude") {
        CheckKind::Altitude
    } else if *kind == String::from_str("pyro1_continuity") {
        CheckKind::Pyro1Continuity
    } else if *kind == String::from_str("pyro2_continuity") {
        CheckKind::Pyro2Continuity
    } else if *kind == String::from_str("pyro3_continuity") {
        CheckKind::Pyro3Continuity
    } else {
        let message = concat3("no check with name `", kind, "` exists");
        let label = concat3("unknown check `", kind, "`");
        let b = context.error(message.as_str());
        let b = b.set_primary_span(full_span, label.as_str());
        b.emit(context);
        let ghost mid = context.session.diagnostics@;
        let h = context.help("try `apogee`, or `altitude`, or `pyroX_continuity`");
        let h = h.set_primary_span_no_msg(full_span);
        h.emit(context);
        proof {
            let ds = context.session.diagnostics@;
            assert(ds[mid.len() - 1].level == Level::Error);
        }
        return Err(());
    };

    // The single condition group, with the flag's value read here so that a
    // malformed flag is reported at the flag itself.
    let condition: CheckCondition = if let Some(gt) = &c.greater_than {
        CheckCondition::GreaterThan(gt.value)
    } else if c.upper_bound.is_some() {
        // The unmatched-bound gate already ran: both bounds are present.
        let u = c.upper_bound.as_ref().unwrap().value;
        let l = c.lower_bound.as_ref().unwrap().value;
        CheckCondition::Between { upper_bound: u, lower_bound: l }
    } else if let Some(flag) = &c.flag {
        if flag.value == String::from_str("set") {
            CheckCondition::FlagEq(true)
        } else if flag.value == String::from_str("unset") {
            CheckCondition::FlagEq(false)
        } else {
            let label = concat3("unknown flag value `", &flag.value, "`");
            let b = context.error("flag values must be `set` or `unset`");
            let b = b.set_primary_span(Span::from_spanned(flag), label.as_str());
            b.emit(context);
            proof {
                let ds = context.session.diagnostics@;
                assert(ds[ds.len() - 1].level == Level::Error);
            }
            return Err(());
        }
    } else {
        // Provably unreachable: exactly one condition group is present.
        proof {
            assert(false);
        }
        CheckCondition::FlagEq(false)
    };

    // Kind/condition type checking: after this match, the observation's
    // shape provably fits its tag, so assembly cannot go wrong.
    let data: CheckData = match check_kind {
        CheckKind::Apogee => match condition {
            CheckCondition::FlagEq(val) => CheckData::ApogeeFlag(NativeFlagCondition(val)),
            _ => {
                emit_mismatched_check(context, Span::from_spanned(&c.check));
                return Err(());
            },
        },
        CheckKind::Altitude => match condition {
            CheckCondition::GreaterThan(val) => CheckData::Altitude(
                FloatCondition::GreaterThan(val),
            ),
            CheckCondition::Between { upper_bound, lower_bound } => CheckData::Altitude(
                FloatCondition::Between { upper_bound, lower_bound },
            ),
            _ => {
                emit_mismatched_check(context, Span::from_spanned(&c.check));
                return Err(());
            },
        },
        CheckKind::Pyro1Continuity => match condition {
            CheckCondition::FlagEq(val) => CheckData::Pyro1Continuity(
                PyroContinuityCondition(val),
            ),
            _ => {
                emit_mismatched_check(context, Span::from_spanned(&c.check));
                return Err(());
            },
        },
        CheckKind::Pyro2Continuity => match condition {
            CheckCondition::FlagEq(val) => CheckData::Pyro2Continuity(
                PyroContinuityCondition(val),
            ),
            _ => {
                emit_mismatched_check(context, Span::from_spanned(&c.check));
                return Err(());
            },
        },
        CheckKind::Pyro3Continuity => match condition {
            CheckCondition::FlagEq(val) => CheckData::Pyro3Continuity(
                PyroContinuityCondition(val),
            ),
            _ => {
                emit_mismatched_check(context, Span::from_spanned(&c.check));
                return Err(());
            },
        },
    };

    let transition_ix: Option<StateIndex> = match &c.transition {
        Some(state) => match table.get_index(state, context) {
            Ok(ix) => Some(ix),
            Err(_) => {
                return Err(());
            },
        },
        None => None,
    };

    let abort_ix: Option<StateIndex> = match &c.abort {
        Some(state) => match table.get_index(state, context) {
            Ok(ix) => Some(ix),
            Err(_) => {
                return Err(());
            },
        },
        None => None,
    };

    let transition: Option<StateTransition> = match (transition_ix, abort_ix) {
        (Some(t), None) => Some(StateTransition::Transition(t)),
        (None, Some(a)) => Some(StateTransition::Abort(a)),
        (None, None) => None,
        (Some(_), Some(_)) => {
            // Both actions written: report both places, first by source
            // position, and suggest the fix.
            let t_span = c.transition.as_ref().unwrap().span;
            let a_span = c.abort.as_ref().unwrap().span;
            let (s1, s2) = if t_span.start > a_span.start {
                (a_span, t_span)
            } else {
                (t_span, a_span)
            };
            let b = context.error("abort and transition cannot be active in the same check");
            let b = b.set_primary_span_no_msg(s1);
            let b = b.span_label(s2, "second action declared here");
            b.emit(context);
            let ghost mid = context.session.diagnostics@;
            let h = context.help("remove either `abort` or `transition`");
            let h = h.add_span(s1);
            let h = h.add_span(s2);
            h.emit(context);
            proof {
                let ds = context.session.diagnostics@;
                assert(ds[mid.len() - 1].level == Level::Error);
            }
            return Err(());
        },
    };

    proof {
        if c.transition is Some {
            lemma_resolve(table@, c.transition->0.value@);
        }
        if c.abort is Some {
            lemma_resolve(table@, c.abort->0.value@);
        }
    }
    Ok(Check::new(data, transition))
}

// ---------------------------------------------------------------------------
// States and the whole document
// ---------------------------------------------------------------------------

/// Everything the lowering pass demands of one state: item lists within
/// device capacity, every check and every command valid.
pub open spec fn state_valid(s: upper::State, names: Seq<Seq<char>>) -> bool {
    &&& s.checks@.len() <= MAX_CHECKS as int
    &&& s.commands@.len() <= MAX_COMMANDS as int
    &&& forall|j: int|
        0 <= j < s.checks@.len() ==> check_valid((#[trigger] s.checks@[j]).value, names)
    &&& forall|j: int|
        0 <= j < s.commands@.len() ==> command_valid((#[trigger] s.commands@[j]).value)
}

/// The explicitly named default state, if any, is a declared state.
pub open spec fn default_resolvable(c: upper::ConfigFile) -> bool {
    c.default_state matches Some(n) ==> resolve(state_names(c.states.value@), n.value@) is Some
}

/// Everything the lowering pass demands of a whole document; [`verify`]
/// succeeds on exactly these documents.
pub open spec fn config_lowerable(c: upper::ConfigFile) -> bool {
    &&& 0 < c.states.value@.len() <= MAX_STATES as int
    &&& default_resolvable(c)
    &&& forall|i: int|
        0 <= i < c.states.value@.len() ==> state_valid(
            (#[trigger] c.states.value@[i]).value,
            state_names(c.states.value@),
        )
}

/// The encoded default state: the explicitly named state's position in
/// declaration order, or position zero — the first declared state — when
/// none is named.
pub open spec fn spec_default_index(c: upper::ConfigFile) -> StateIndex {
    match c.default_state {
        Some(n) => StateIndex::spec_new(resolve(state_names(c.states.value@), n.value@)->0),
        None => StateIndex::spec_new(0),
    }
}

/// `out` is the lowered form of the written state `s`: the same checks and
/// commands in order, and no timeout — the document timeout is not carried
/// into the lowered form.
pub open spec fn state_lowers_to(s: upper::State, names: Seq<Seq<char>>, out: State) -> bool {
    &&& out.checks@.len() == s.checks@.len()
    &&& forall|j: int|
        0 <= j < s.checks@.len() ==> #[trigger] out.checks@[j] == lowered_check(
            s.checks@[j].value,
            names,
        )
    &&& out.commands@.len() == s.commands@.len()
    &&& forall|j: int|
        0 <= j < s.commands@.len() ==> #[trigger] out.commands@[j] == lowered_command(
            s.commands@[j].value,
        )
    &&& out.timeout is None
}

/// `out` is the lowered form of the whole document `c`: the resolved
/// default index and every state lowered in declaration order.
pub open spec fn lowers_to(c: upper::ConfigFile, out: ConfigFile) -> bool {
    &&& out.default_state == spec_default_index(c)
    &&& out.states@.len() == c.states.value@.len()
    &&& forall|i: int|
        0 <= i < out.states@.len() ==> state_lowers_to(
            c.states.value@[i].value,
            state_names(c.states.value@),
            #[trigger] out.states@[i],
        )
}

/// Some diagnostic appended after `prefix` is an `Error` with this exact
/// message.
pub open spec fn added_error_with(ds: Seq<Diagnostic>, prefix: Seq<Diagnostic>, msg: Seq<char>) -> bool {
    exists|i: int|
        prefix.len() <= i < ds.len() && (#[trigger] ds[i]).level == Level::Error && ds[i].message@
            == msg
}

/// Lowers one state, or records why it cannot be lowered. A defect in one
/// check or command is reported and the remaining items are still
/// examined, so one pass surfaces every defect in the state.
fn convert_state(src: &Spanned<upper::State>, table: &NameTable, context: &mut Context) -> (r:
    Result<State, ()>)
    requires
        table.wf(),
    ensures
        old(context).same_file(*final(context)),
        extends(final(context).session.diagnostics@, old(context).session.diagnostics@),
        r is Ok <==> state_valid(src.value, table@),
        r is Ok ==> state_lowers_to(src.value, table@, r->Ok_0),
        r is Ok ==> r->Ok_0.wf(table@.len() as int),
        r is Ok ==> final(context).session.diagnostics@ == old(context).session.diagnostics@,
        r is Err ==> added_error(
            final(context).session.diagnostics@,
            old(context).session.diagnostics@,
        ),
        src.value.checks@.len() > MAX_CHECKS as int ==> added_error_with(
            final(context).session.diagnostics@,
            old(context).session.diagnostics@,
            "too many checks"@,
        ),
        src.value.checks@.len() <= MAX_CHECKS as int && src.value.commands@.len()
            > MAX_COMMANDS as int ==> added_error_with(
            final(context).session.diagnostics@,
            old(context).session.diagnostics@,
            "too many commands"@,
        ),
{
    let span = Span::from_spanned(src);
    let s = &src.value;

    if s.checks.len() > MAX_CHECKS {
        let b = context.error("too many checks");
        let b = b.set_primary_span(span, "more checks in this state than the device supports");
        b.emit(context);
        proof {
            let ds = context.session.diagnostics@;
            assert(ds[ds.len() - 1].level == Level::Error);
            assert(ds[ds.len() - 1].message@ == "too many checks"@);
        }
        return Err(());
    }
    if s.commands.len() > MAX_COMMANDS {
        let b = context.error("too many commands");
        let b = b.set_primary_span(span, "more commands in this state than the device supports");
        b.emit(context);
        proof {
            let ds = context.session.diagnostics@;
            assert(ds[ds.len() - 1].level == Level::Error);
            assert(ds[ds.len() - 1].message@ == "too many commands"@);
        }
        return Err(());
    }

    let mut ok = true;
    let mut checks: Vec<Check> = Vec::new();
    let n_checks = s.checks.len();
    for j in 0..n_checks
        invariant
            table.wf(),
            n_checks == s.checks@.len() <= MAX_CHECKS,
            old(context).same_file(*context),
            extends(context.session.diagnostics@, old(context).session.diagnostics@),
            ok ==> context.session.diagnostics@ == old(context).session.diagnostics@,
            !ok ==> added_error(
                context.session.diagnostics@,
                old(context).session.diagnostics@,
            ),
            ok == (forall|m: int|
                0 <= m < j ==> check_valid((#[trigger] s.checks@[m]).value, table@)),
            ok ==> checks@.len() == j,
            ok ==> forall|m: int|
                0 <= m < j ==> #[trigger] checks@[m] == lowered_check(s.checks@[m].value, table@)
                    && checks@[m].wf(table@.len() as int),
    {
        match convert_check(&s.checks[j], table, context) {
            Ok(ck) => {
                checks.push(ck);
            },
            Err(_) => {
                ok = false;
            },
        }
    }

    let mut commands: Vec<Command> = Vec::new();
    let n_commands = s.commands.len();
    for j in 0..n_commands
        invariant
            table.wf(),
            n_commands == s.commands@.len() <= MAX_COMMANDS,
            n_checks == s.checks@.len() <= MAX_CHECKS,
            old(context).same_file(*context),
            extends(context.session.diagnostics@, old(context).session.diagnostics@),
            ok ==> context.session.diagnostics@ == old(context).session.diagnostics@,
            !ok ==> added_error(
                context.session.diagnostics@,
                old(context).session.diagnostics@,
            ),
            ok == ((forall|m: int|
                0 <= m < n_checks ==> check_valid((#[trigger] s.checks@[m]).value, table@))
                && (forall|m: int|
                0 <= m < j ==> command_valid((#[trigger] s.commands@[m]).value))),
            ok ==> checks@.len() == n_checks,
            ok ==> forall|m: int|
                0 <= m < n_checks ==> #[trigger] checks@[m] == lowered_check(
                    s.checks@[m].value,
                    table@,
                ) && checks@[m].wf(table@.len() as int),
            ok ==> commands@.len() == j,
            ok ==> forall|m: int|
                0 <= m < j ==> #[trigger] commands@[m] == lowered_command(s.commands@[m].value),
    {
        match convert_command(&s.commands[j], context) {
            Ok(cmd) => {
                commands.push(cmd);
            },
            Err(_) => {
                ok = false;
            },
        }
    }

    if !ok {
        return Err(());
    }
    Ok(State::new(checks, commands, None))
}

/// Lowers a whole document, or records why it cannot be lowered.
///
/// The first declared state is the implicit default when none is named, so
/// it occupies index zero in the lowered form. A document declaring zero
/// states, or more than the device holds, fails as a whole; any other
/// defect is recorded and the pass continues with the next item, so one
/// run reports as many defects as possible. On success nothing was
/// recorded and the result satisfies every invariant the encoder relies
/// on.
pub fn verify(mid: upper::ConfigFile, context: &mut Context) -> (r: Result<ConfigFile, ()>)
    ensures
        old(context).same_file(*final(context)),
        extends(final(context).session.diagnostics@, old(context).session.diagnostics@),
        r is Ok <==> config_lowerable(mid),
        r is Ok ==> lowers_to(mid, r->Ok_0),
        r is Ok ==> r->Ok_0.wf(),
        r is Ok ==> final(context).session.diagnostics@ == old(context).session.diagnostics@,
        r is Err ==> added_error(
            final(context).session.diagnostics@,
            old(context).session.diagnostics@,
        ),
        mid.states.value@.len() == 0 ==> added_error_with(
            final(context).session.diagnostics@,
            old(context).session.diagnostics@,
            "no states declared"@,
        ),
        mid.states.value@.len() > MAX_STATES as int ==> added_error_with(
            final(context).session.diagnostics@,
            old(context).session.diagnostics@,
            "too many states"@,
        ),
        0 < mid.states.value@.len() <= MAX_STATES as int && !default_resolvable(mid)
            ==> exists|i: int|
            old(context).session.diagnostics@.len() <= i < final(context).session.diagnostics@.len()
                && is_state_not_found_diag(
                #[trigger] final(context).session.diagnostics@[i],
                mid.default_state->0,
            ),
{
    let span = Span::from_spanned(&mid.states);
    let n_states = mid.states.value.len();
    if n_states == 0 {
        let b = context.error("no states declared");
        let b = b.set_primary_span(span, "you need to have at least one state");
        b.emit(context);
        proof {
            let ds = context.session.diagnostics@;
            assert(ds[ds.len() - 1].level == Level::Error);
        }
        return Err(());
    }
    if n_states > MAX_STATES {
        let b = context.error("too many states");
        let b = b.set_primary_span(span, "more states than the device supports");
        b.emit(context);
        proof {
            let ds = context.session.diagnostics@;
            assert(ds[ds.len() - 1].level == Level::Error);
        }
        return Err(());
    }

    let table = NameTable::new(&mid.states.value);
    let mut failed: bool = false;
    let default_state: Option<StateIndex> = match &mid.default_state {
        Some(name) => {
            match table.get_index(name, context) {
                Ok(ix) => {
                    proof {
                        lemma_resolve(table@, name.value@);
                    }
                    Some(ix)
                },
                Err(_) => {
                    failed = true;
                    None
                },
            }
        },
        None => StateIndex::new(0),
    };

    let mut states: Vec<State> = Vec::new();
    for i in 0..n_states
        invariant
            n_states == mid.states.value@.len(),
            0 < n_states <= MAX_STATES,
            table.wf(),
            table@ == state_names(mid.states.value@),
            old(context).same_file(*context),
            extends(context.session.diagnostics@, old(context).session.diagnostics@),
            !failed ==> context.session.diagnostics@ == old(context).session.diagnostics@,
            failed ==> added_error(
                context.session.diagnostics@,
                old(context).session.diagnostics@,
            ),
            failed == (!default_resolvable(mid) || exists|k: int|
                0 <= k < i && !state_valid((#[trigger] mid.states.value@[k]).value, table@)),
            !default_resolvable(mid) ==> exists|di: int|
                old(context).session.diagnostics@.len() <= di
                    < context.session.diagnostics@.len() && is_state_not_found_diag(
                    #[trigger] context.session.diagnostics@[di],
                    mid.default_state->0,
                ),
            default_state is Some <==> default_resolvable(mid),
            default_state matches Some(ix) ==> ix == spec_default_index(mid) && ix.spec_get()
                < n_states,
            states@.len() == i,
            !failed ==> forall|k: int|
                0 <= k < i ==> state_lowers_to(
                    mid.states.value@[k].value,
                    table@,
                    #[trigger] states@[k],
                ) && states@[k].wf(n_states as int),
    {
        match convert_state(&mid.states.value[i], &table, context) {
            Ok(st) => {
                states.push(st);
            },
            Err(_) => {
                failed = true;
                states.push(State::new(Vec::new(), Vec::new(), None));
            },
        }
    }

    if failed {
        return Err(());
    }
    let default_ix = match default_state {
        Some(ix) => ix,
        None => {
            // Provably unreachable: nothing failed, so the default resolved.
            proof {
                assert(false);
            }
            return Err(());
        },
    };
    Ok(ConfigFile { default_state: default_ix, states })
}

// ---------------------------------------------------------------------------
// Laws
// ---------------------------------------------------------------------------

/// Law: the default state comes first. In every lowered configuration the
/// default state's index is zero when the document names no default, and
/// otherwise the named state's position in declaration order.
pub proof fn lemma_default_state_first(c: upper::ConfigFile, out: ConfigFile)
    requires
        config_lowerable(c),
        lowers_to(c, out),
    ensures
        c.default_state is None ==> out.default_state.spec_get() == 0,
        c.default_state matches Some(n) ==> out.default_state.spec_get() == resolve(
            state_names(c.states.value@),
            n.value@,
        )->0,
{
    if c.default_state is None {
        StateIndex::lemma_spec_new_get(0);
    } else {
        let names = state_names(c.states.value@);
        let n = c.default_state->0;
        lemma_resolve(names, n.value@);
        StateIndex::lemma_spec_new_get(resolve(names, n.value@)->0);
    }
}

/// Law: state-count totality. A document declaring no states never
/// lowers, one declaring more states than the device holds never lowers,
/// and one within the bound lowers exactly when its default resolves and
/// every state is valid — so a document with exactly the capacity's worth
/// of valid states lowers.
pub proof fn lemma_cardinality(c: upper::ConfigFile)
    ensures
        c.states.value@.len() == 0 ==> !config_lowerable(c),
        c.states.value@.len() > MAX_STATES as int ==> !config_lowerable(c),
        0 < c.states.value@.len() <= MAX_STATES as int ==> (config_lowerable(c) <==> (
        default_resolvable(c) && forall|i: int|
            0 <= i < c.states.value@.len() ==> state_valid(
                (#[trigger] c.states.value@[i]).value,
                state_names(c.states.value@),
            ))),
{
}

/// Law: exactly one condition. A check lowers only when exactly one of
/// the condition groups `{greater_than}`, `{upper_bound, lower_bound}`,
/// `{flag}` is present: none, or two or more, never lowers.
pub proof fn lemma_exactly_one_condition(c: upper::Check, names: Seq<Seq<char>>)
    ensures
        condition_count(c) == 0 ==> !check_valid(c, names),
        condition_count(c) >= 2 ==> !check_valid(c, names),
        check_valid(c, names) ==> condition_count(c) == 1,
{
}

/// Law: transition and abort are mutually exclusive. A check that writes
/// both never lowers, whether or not either name resolves.
pub proof fn lemma_transition_abort_exclusive(c: upper::Check, names: Seq<Seq<char>>)
    requires
        c.transition is Some,
        c.abort is Some,
    ensures
        !check_valid(c, names),
{
}

/// Law: no dangling references. A document whose `default_state`, or any
/// check's `transition` or `abort`, names a state that is not declared
/// never lowers.
pub proof fn lemma_dangling_reference(c: upper::ConfigFile, name: Seq<char>)
    requires
        !state_names(c.states.value@).contains(name),
    ensures
        c.default_state matches Some(n) && n.value@ == name ==> !config_lowerable(c),
        forall|i: int, j: int|
            0 <= i < c.states.value@.len() && 0 <= j
                < (#[trigger] c.states.value@[i]).value.checks@.len() && ((
            #[trigger] c.states.value@[i].value.checks@[j]).value.transition matches Some(t)
                && t.value@ == name) ==> !config_lowerable(c),
        forall|i: int, j: int|
            0 <= i < c.states.value@.len() && 0 <= j
                < (#[trigger] c.states.value@[i]).value.checks@.len() && ((
            #[trigger] c.states.value@[i].value.checks@[j]).value.abort matches Some(a)
                && a.value@ == name) ==> !config_lowerable(c),
{
    let names = state_names(c.states.value@);
    lemma_resolve(names, name);
}

} // verus!
