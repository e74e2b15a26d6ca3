//! Spans, diagnostics and the per-compilation session that owns them.
//!
//! A [`Session`] is the single collection authority for diagnostics: every
//! reported condition is built through a [`DiagnosticBuilder`] and ends up in
//! the session, where it stays until a phase boundary drains it through
//! [`Context::end_phase`]. Rendering the drained diagnostics against the
//! source text is left to the caller of the library.

use vstd::prelude::*;

verus! {

/// A half-open byte range `[start, end)` into one source text.
///
/// The reserved span `(0, 0)` means "no location available"; builders
/// suppress it instead of pointing a label at the start of the file.
#[derive(Clone, Copy, Debug, Hash, PartialEq, Eq, Structural)]
pub struct Span {
    pub start: u32,
    pub end: u32,
}

impl Span {
    /// A span never runs backwards.
    pub open spec fn wf(self) -> bool {
        self.start <= self.end
    }

    /// The reserved "no location available" span.
    pub open spec fn spec_is_dummy(&self) -> bool {
        self.start == 0 && self.end == 0
    }

    pub fn new(start: u32, end: u32) -> (r: Span)
        requires
            start <= end,
        ensures
            r.start == start,
            r.end == end,
            r.wf(),
    {
        Span { start, end }
    }

    /// The reserved span that carries no location.
    pub fn dummy() -> (r: Span)
        ensures
            r.spec_is_dummy(),
            r.wf(),
    {
        Span { start: 0, end: 0 }
    }

    #[verifier::when_used_as_spec(spec_is_dummy)]
    pub fn is_dummy(&self) -> (r: bool)
        ensures
            r == self.spec_is_dummy(),
    {
        self.start == 0 && self.end == 0
    }

    /// The location of a spanned value.
    pub fn from_spanned<T>(spanned: &Spanned<T>) -> (r: Span)
        ensures
            r == spanned.span,
    {
        spanned.span
    }
}

/// A value together with the source location it was read from.
///
/// Two spanned values with equal `value` fields mean the same thing to the
/// resolver; the span only serves diagnostics.
#[derive(Clone, Debug, PartialEq, Eq)]
pub struct Spanned<T> {
    pub value: T,
    pub span: Span,
}

impl<T> Spanned<T> {
    pub fn new(value: T, span: Span) -> (r: Spanned<T>)
        ensures
            r.value == value,
            r.span == span,
    {
        Spanned { value, span }
    }
}

/// Severity of one diagnostic.
#[derive(Clone, Copy, Debug, PartialEq, Eq, Structural)]
pub enum Level {
    Error,
    Warning,
    Note,
    Help,
}

/// Whether a labeled span is the diagnostic's main location or context.
#[derive(Clone, Copy, Debug, PartialEq, Eq, Structural)]
pub enum SpanStyle {
    Primary,
    Secondary,
}

/// One labeled source location attached to a diagnostic.
#[derive(Clone, Debug, PartialEq, Eq)]
pub struct SpanLabel {
    pub span: Span,
    pub label: Option<String>,
    pub style: SpanStyle,
}

/// One reported condition: severity, message and zero or more labeled spans.
#[derive(Clone, Debug, PartialEq, Eq)]
pub struct Diagnostic {
    pub level: Level,
    pub message: String,
    pub spans: Vec<SpanLabel>,
}

/// True if some diagnostic in the sequence has `Error` severity.
pub open spec fn spec_has_error(ds: Seq<Diagnostic>) -> bool {
    exists|i: int| 0 <= i < ds.len() && ds[i].level == Level::Error
}

/// Owns every diagnostic of one compilation until a phase boundary drains
/// them. No diagnostic exists outside its session.
#[derive(Debug)]
pub struct Session {
    pub diagnostics: Vec<Diagnostic>,
}

impl Default for Session {
    /// A fresh session holds no diagnostics.
    fn default() -> (s: Session)
        ensures
            s.diagnostics@ == Seq::<Diagnostic>::empty(),
    {
        Session { diagnostics: Vec::new() }
    }
}

impl Session {
    pub fn new() -> (s: Session)
        ensures
            s.diagnostics@ == Seq::<Diagnostic>::empty(),
    {
        Session { diagnostics: Vec::new() }
    }

    /// Appends a finished diagnostic. Most callers should prefer the
    /// builder interface reached through [`Context::error`] and friends.
    pub fn add_diagnostic(&mut self, diagnostic: Diagnostic)
        ensures
            final(self).diagnostics@ == old(self).diagnostics@.push(diagnostic),
    {
        self.diagnostics.push(diagnostic);
    }

    /// Binds one source text to the session, producing the context that the
    /// compilation phases work against. Offsets into the source must fit the
    /// 32-bit spans of the diagnostic model.
    pub fn add_file(self, data: Vec<u8>, file_path: String) -> (r: Result<Context, ()>)
        requires
            data@.len() <= u32::MAX,
        ensures
            r is Ok,
            r->Ok_0.session.diagnostics@ == self.diagnostics@,
            r->Ok_0.source@ == data@,
            r->Ok_0.file_name@ == file_path@,
            r->Ok_0.wf(),
    {
        Ok(Context { session: self, source: data, file_name: file_path })
    }
}

/// The diagnostics drained by one phase boundary, in emission order.
#[derive(Debug)]
pub struct Diagnostics {
    pub diagnostics: Vec<Diagnostic>,
}

/// A session together with the source text that spans point into.
#[derive(Debug)]
pub struct Context {
    pub session: Session,
    pub source: Vec<u8>,
    pub file_name: String,
}

impl Context {
    /// Spans are 32-bit byte offsets, so the source must fit them.
    pub open spec fn wf(self) -> bool {
        self.source@.len() <= u32::MAX
    }

    /// The source and file identity are fixed for the context's lifetime;
    /// only the diagnostic list moves.
    pub open spec fn same_file(self, other: Context) -> bool {
        self.source@ == other.source@ && self.file_name@ == other.file_name@
    }

    /// Starts an `Error` diagnostic. The builder must be finished with
    /// [`DiagnosticBuilder::emit`] or dropped via [`DiagnosticBuilder::cancel`].
    pub fn error(&self, message: &str) -> (b: DiagnosticBuilder)
        ensures
            b.is_fresh(Level::Error, message@),
    {
        DiagnosticBuilder::new(Level::Error, message)
    }

    /// Starts a `Warning` diagnostic.
    pub fn warn(&self, message: &str) -> (b: DiagnosticBuilder)
        ensures
            b.is_fresh(Level::Warning, message@),
    {
        DiagnosticBuilder::new(Level::Warning, message)
    }

    /// Starts a `Note` diagnostic.
    pub fn note(&self, message: &str) -> (b: DiagnosticBuilder)
        ensures
            b.is_fresh(Level::Note, message@),
    {
        DiagnosticBuilder::new(Level::Note, message)
    }

    /// Starts a `Help` diagnostic.
    pub fn help(&self, message: &str) -> (b: DiagnosticBuilder)
        ensures
            b.is_fresh(Level::Help, message@),
    {
        DiagnosticBuilder::new(Level::Help, message)
    }

    /// True if the current phase has recorded an `Error` diagnostic.
    pub fn has_error(&self) -> (r: bool)
        ensures
            r == spec_has_error(self.session.diagnostics@),
    {
        let n = self.session.diagnostics.len();
        for i in 0..n
            invariant
                n == self.session.diagnostics@.len(),
                forall|j: int| 0 <= j < i ==> self.session.diagnostics@[j].level != Level::Error,
        {
            if self.session.diagnostics[i].level == Level::Error {
                return true;
            }
        }
        false
    }

    /// A span covering the whole source.
    pub fn span(&self) -> (r: Span)
        requires
            self.wf(),
        ensures
            r.start == 0,
            r.end == self.source@.len(),
    {
        Span { start: 0, end: self.source.len() as u32 }
    }

    /// The source text this context was opened on.
    pub fn source(&self) -> (r: &Vec<u8>)
        ensures
            r@ == self.source@,
    {
        &self.source
    }

    /// Ends the current phase, draining every diagnostic recorded since the
    /// last boundary. The failure variant is returned exactly when an
    /// `Error`-severity diagnostic was among them; both variants carry the
    /// full list, so warnings surface even on success.
    pub fn end_phase(&mut self) -> (r: Result<Diagnostics, Diagnostics>)
        ensures
            final(self).session.diagnostics@ == Seq::<Diagnostic>::empty(),
            old(self).same_file(*final(self)),
            r is Err <==> spec_has_error(old(self).session.diagnostics@),
            r is Ok ==> r->Ok_0.diagnostics@ == old(self).session.diagnostics@,
            r is Err ==> r->Err_0.diagnostics@ == old(self).session.diagnostics@,
    {
        let error = self.has_error();
        let mut drained: Vec<Diagnostic> = Vec::new();
        core::mem::swap(&mut drained, &mut self.session.diagnostics);
        let result = Diagnostics { diagnostics: drained };
        if error {
            Err(result)
        } else {
            Ok(result)
        }
    }

    /// The byte offset where line `row` (0-indexed, lines separated by
    /// `'\n'`) starts, clamped to the end of the source.
    pub closed spec fn spec_line_start(src: Seq<u8>, row: nat) -> nat
        decreases src.len(),
    {
        if row == 0 || src.len() == 0 {
            0
        } else if src[0] == 10 {
            1 + Self::spec_line_start(src.drop_first(), (row - 1) as nat)
        } else {
            1 + Self::spec_line_start(src.drop_first(), row)
        }
    }

    /// The single-character span at 0-indexed `(row, col)`, clamped to the
    /// end of the source.
    pub open spec fn spec_row_col_span(self, row: int, col: int) -> Span {
        let start = vstd::math::min(
            Self::spec_line_start(self.source@, row as nat) + col,
            self.source@.len() as int,
        );
        Span {
            start: start as u32,
            end: vstd::math::min(start + 1, self.source@.len() as int) as u32,
        }
    }

    /// The single-character span at 0-indexed `(row, col)`, clamped to the
    /// end of the source. Used to point at the position an external
    /// deserializer reports for a parse failure.
    pub fn row_col_to_span(&self, row_col: (usize, usize)) -> (r: Span)
        requires
            self.wf(),
        ensures
            r == self.spec_row_col_span(row_col.0 as int, row_col.1 as int),
            r.wf(),
    {
        let src_len = self.source.len();
        let row = row_col.0;
        let col = row_col.1;
        let mut pos: usize = 0;
        let mut lines_left: usize = row;
        proof {
            assert(self.source@.skip(0) =~= self.source@);
        }
        while lines_left > 0 && pos < src_len
            invariant
                self.wf(),
                pos <= src_len,
                src_len == self.source@.len(),
                lines_left <= row,
                Self::spec_line_start(self.source@, row as nat) == pos
                    + Self::spec_line_start(self.source@.skip(pos as int), lines_left as nat),
            decreases src_len - pos,
        {
            proof {
                assert(self.source@.skip(pos as int).drop_first()
                    =~= self.source@.skip(pos as int + 1));
            }
            if self.source[pos] == 10 {
                lines_left = lines_left - 1;
            }
            pos = pos + 1;
        }
        proof {
            assert(Self::spec_line_start(self.source@, row as nat) == pos);
        }
        let start = if col < src_len - pos {
            pos + col
        } else {
            src_len
        };
        let end = if start < src_len {
            start + 1
        } else {
            src_len
        };
        Span { start: start as u32, end: end as u32 }
    }

}

/// Builds one diagnostic. The builder owns the diagnostic until it is moved
/// into the session by [`Self::emit`]; forgetting to finish it cannot lose a
/// recorded condition, because only `emit` ever creates one.
#[derive(Debug)]
#[must_use]
pub struct DiagnosticBuilder {
    pub diagnostic: Diagnostic,
    pub cancelled: bool,
}

impl DiagnosticBuilder {
    /// A builder as handed out by the session: given level and message, no
    /// spans yet, not cancelled.
    pub open spec fn is_fresh(self, level: Level, message: Seq<char>) -> bool {
        &&& self.diagnostic.level == level
        &&& self.diagnostic.message@ == message
        &&& self.diagnostic.spans@ == Seq::<SpanLabel>::empty()
        &&& !self.cancelled
    }

    /// The builder with one more span label, everything else unchanged.
    pub open spec fn pushed(self, prev: DiagnosticBuilder, span: Span, label: Option<Seq<char>>, style: SpanStyle) -> bool {
        &&& self.diagnostic.level == prev.diagnostic.level
        &&& self.diagnostic.message@ == prev.diagnostic.message@
        &&& self.diagnostic.spans@.len() == prev.diagnostic.spans@.len() + 1
        &&& self.diagnostic.spans@.drop_last() == prev.diagnostic.spans@
        &&& self.diagnostic.spans@.last().span == span
        &&& self.diagnostic.spans@.last().style == style
        &&& (match self.diagnostic.spans@.last().label {
            Some(l) => label is Some && l@ == label->0,
            None => label is None,
        })
        &&& self.cancelled == prev.cancelled
    }

    fn new(level: Level, message: &str) -> (b: DiagnosticBuilder)
        ensures
            b.is_fresh(level, message@),
    {
        DiagnosticBuilder {
            diagnostic: Diagnostic { level, message: String::from_str(message), spans: Vec::new() },
            cancelled: false,
        }
    }

    /// Attaches the main location without a label. The span is recorded as
    /// given, even when it is the reserved empty span.
    pub fn set_primary_span_no_msg(self, span: Span) -> (r: DiagnosticBuilder)
        ensures
            r.pushed(self, span, None, SpanStyle::Primary),
    {
        let mut b = self;
        b.diagnostic.spans.push(SpanLabel { span, label: None, style: SpanStyle::Primary });
        proof {
            assert(b.diagnostic.spans@.drop_last() =~= self.diagnostic.spans@);
        }
        b
    }

    /// Attaches the main location with a label. The reserved empty span is
    /// recognized and suppressed: rendering it against real text would point
    /// at the top of the file and mislead the reader.
    pub fn set_primary_span(self, span: Span, message: &str) -> (r: DiagnosticBuilder)
        ensures
            span.spec_is_dummy() ==> r == self,
            !span.spec_is_dummy() ==> r.pushed(self, span, Some(message@), SpanStyle::Primary),
    {
        if span.is_dummy() {
            self
        } else {
            let mut b = self;
            b.diagnostic.spans.push(SpanLabel {
                span,
                label: Some(String::from_str(message)),
                style: SpanStyle::Primary,
            });
            proof {
                assert(b.diagnostic.spans@.drop_last() =~= self.diagnostic.spans@);
            }
            b
        }
    }

    /// Attaches an additional labeled location, suppressing the reserved
    /// empty span as [`Self::set_primary_span`] does.
    pub fn span_label(self, span: Span, label: &str) -> (r: DiagnosticBuilder)
        ensures
            span.spec_is_dummy() ==> r == self,
            !span.spec_is_dummy() ==> r.pushed(self, span, Some(label@), SpanStyle::Secondary),
    {
        if span.is_dummy() {
            self
        } else {
            let mut b = self;
            b.diagnostic.spans.push(SpanLabel {
                span,
                label: Some(String::from_str(label)),
                style: SpanStyle::Secondary,
            });
            proof {
                assert(b.diagnostic.spans@.drop_last() =~= self.diagnostic.spans@);
            }
            b
        }
    }

    /// Attaches an additional location without a label, as given.
    pub fn add_span(self, span: Span) -> (r: DiagnosticBuilder)
        ensures
            r.pushed(self, span, None, SpanStyle::Secondary),
    {
        let mut b = self;
        b.diagnostic.spans.push(SpanLabel { span, label: None, style: SpanStyle::Secondary });
        proof {
            assert(b.diagnostic.spans@.drop_last() =~= self.diagnostic.spans@);
        }
        b
    }

    /// Moves the finished diagnostic into the session, consuming the
    /// builder.
    pub fn emit(self, context: &mut Context)
        ensures
            final(context).session.diagnostics@
                == old(context).session.diagnostics@.push(self.diagnostic),
            old(context).same_file(*final(context)),
    {
        context.session.add_diagnostic(self.diagnostic);
    }

    /// Marks this builder as deliberately discarded.
    pub fn cancel(&mut self)
        ensures
            final(self).cancelled,
            final(self).diagnostic == old(self).diagnostic,
    {
        self.cancelled = true;
    }

    /// True if this builder was cancelled.
    pub fn cancelled(&self) -> (r: bool)
        ensures
            r == self.cancelled,
    {
        self.cancelled
    }
}

} // verus!
