//! The name-addressed document model: the source document's shape with
//! every field individually spanned.
//!
//! Raw text is turned into this model by an external deserializer, a black
//! box that either produces the tree or fails with a position. [`verify`]
//! receives that outcome, converts a failure position into one positioned
//! `Error` diagnostic, and hands a success through untouched. No
//! cross-reference is inspected here: names may dangle, counts may be off —
//! that is the lowering pass's job.

use vstd::prelude::*;

use crate::error::{Context, Diagnostic, Level, Span, SpanStyle, Spanned};
use crate::index::FloatBits;

verus! {

/// A whole configuration document as written, names unresolved.
#[derive(Clone, Debug, PartialEq, Eq)]
pub struct ConfigFile {
    pub default_state: Option<Spanned<String>>,
    pub states: Spanned<Vec<Spanned<State>>>,
}

/// A state timeout as written: both fields optional, names unresolved.
#[derive(Clone, Debug, PartialEq, Eq)]
pub struct Timeout {
    /// How long this state may run, in seconds, before the automatic
    /// transition fires.
    pub seconds: Option<Spanned<FloatBits>>,
    /// The state to transition to when the timeout fires.
    pub transition: Option<Spanned<String>>,
}

/// One declared state and everything written under it.
#[derive(Clone, Debug, PartialEq, Eq)]
pub struct State {
    /// The name other fields refer to this state by.
    pub name: Spanned<String>,
    pub timeout: Option<Spanned<Timeout>>,
    pub checks: Vec<Spanned<Check>>,
    pub commands: Vec<Spanned<Command>>,
}

/// One check as written. Exactly one of the condition groups
/// `{greater_than}`, `{upper_bound, lower_bound}`, `{flag}` must be set for
/// the check to lower; nothing enforces that here.
#[derive(Clone, Debug, PartialEq, Eq)]
pub struct Check {
    /// The name describing this check.
    pub name: Spanned<String>,
    /// The kind of observation: `apogee`, `altitude` or
    /// `pyro{1,2,3}_continuity`.
    pub check: Spanned<String>,
    /// The state to transition to when the check trips. Mutually exclusive
    /// with `abort`.
    pub transition: Option<Spanned<String>>,
    /// The state to abort to when the check trips. Mutually exclusive with
    /// `transition`.
    pub abort: Option<Spanned<String>>,
    /// Trips when the observed value exceeds this bound. Only legal for
    /// numeric check kinds.
    pub greater_than: Option<Spanned<FloatBits>>,
    /// With `lower_bound`, trips when the observed value lies in the range.
    /// Set either both bounds or neither.
    pub upper_bound: Option<Spanned<FloatBits>>,
    /// See `upper_bound`.
    pub lower_bound: Option<Spanned<FloatBits>>,
    /// `"set"` or `"unset"`: trips on the named flag's value. Only legal
    /// for flag check kinds.
    pub flag: Option<Spanned<String>>,
}

/// A boolean as the document writes it: either a plain boolean or one of
/// the strings `"true"`, `"false"`, `"enable"`, `"disable"`.
#[derive(Clone, Copy, Debug, PartialEq, Eq, Structural)]
pub struct TomlBool(pub bool);

impl TomlBool {
    /// The reading of a document string as a boolean, if it has one.
    pub open spec fn spec_from_str(s: Seq<char>) -> Option<TomlBool> {
        if s == "true"@ || s == "enable"@ {
            Some(TomlBool(true))
        } else if s == "false"@ || s == "disable"@ {
            Some(TomlBool(false))
        } else {
            None
        }
    }

    /// Reads a document string as a boolean: `"true"` and `"enable"` mean
    /// true, `"false"` and `"disable"` mean false, anything else is not a
    /// boolean.
    pub fn from_toml_str(s: &String) -> (r: Option<TomlBool>)
        ensures
            r == Self::spec_from_str(s@),
    {
        if *s == String::from_str("true") || *s == String::from_str("enable") {
            Some(TomlBool(true))
        } else if *s == String::from_str("false") || *s == String::from_str("disable") {
            Some(TomlBool(false))
        } else {
            None
        }
    }

    /// The boolean a plain document boolean means.
    pub fn from_bool(b: bool) -> (r: TomlBool)
        ensures
            r == TomlBool(b),
    {
        TomlBool(b)
    }

    /// The carried boolean.
    pub fn get(&self) -> (r: bool)
        ensures
            r == self.0,
    {
        self.0
    }
}

/// One command as written. Exactly one of the payload fields must be set
/// for the command to lower; nothing enforces that here.
#[derive(Clone, Debug, PartialEq, Eq)]
pub struct Command {
    pub pyro1: Option<Spanned<TomlBool>>,
    pub pyro2: Option<Spanned<TomlBool>>,
    pub pyro3: Option<Spanned<TomlBool>>,
    pub data_rate: Option<Spanned<u16>>,
    pub beacon: Option<Spanned<TomlBool>>,
    /// Seconds to wait before running the command; zero when absent.
    pub delay: Option<Spanned<FloatBits>>,
}

/// How the external deserializer reports a failure: a 0-indexed position
/// and its own message.
#[derive(Clone, Debug, PartialEq, Eq)]
pub struct ParseError {
    pub row: usize,
    pub col: usize,
    pub message: String,
}

/// The diagnostic that [`verify`] records for a parse failure: one `Error`
/// whose primary span covers the single character at the reported position,
/// labeled with the deserializer's message. The reserved empty span is
/// suppressed.
pub open spec fn is_parse_failure_diag(d: Diagnostic, span: Span, message: Seq<char>) -> bool {
    &&& d.level == Level::Error
    &&& d.message@ == "failed to parse config file"@
    &&& if span.spec_is_dummy() {
        d.spans@.len() == 0
    } else {
        &&& d.spans@.len() == 1
        &&& d.spans@[0].span == span
        &&& d.spans@[0].style == SpanStyle::Primary
        &&& d.spans@[0].label matches Some(l) && l@ == message
    }
}

/// Ends the parse phase's work: passes a deserialized document through, or
/// converts the deserializer's failure position into one positioned `Error`
/// diagnostic and returns the failure sentinel — the session, not the
/// return value, is the channel of record.
pub fn verify(context: &mut Context, parsed: Result<ConfigFile, ParseError>) -> (r: Result<
    ConfigFile,
    (),
>)
    requires
        old(context).wf(),
    ensures
        r is Ok <==> parsed is Ok,
        parsed matches Ok(c) ==> r->Ok_0 == c,
        parsed is Ok ==> *final(context) == *old(context),
        old(context).same_file(*final(context)),
        parsed matches Err(e) ==> {
            let ds = final(context).session.diagnostics@;
            &&& ds.drop_last() == old(context).session.diagnostics@
            &&& ds.len() == old(context).session.diagnostics@.len() + 1
            &&& is_parse_failure_diag(
                ds.last(),
                old(context).spec_row_col_span(e.row as int, e.col as int),
                e.message@,
            )
        },
{
    match parsed {
        Ok(c) => Ok(c),
        Err(e) => {
            let span = context.row_col_to_span((e.row, e.col));
            let b = context.error("failed to parse config file");
            let b = b.set_primary_span(span, e.message.as_str());
            b.emit(context);
            proof {
                assert(context.session.diagnostics@.drop_last()
                    =~= old(context).session.diagnostics@);
            }
            Err(())
        },
    }
}

} // verus!
