//! Compiles a textual flight-state configuration into the compact binary
//! form consumed by the flight computer.
//!
//! The pipeline has three phases. The parse phase turns the source text into
//! a fully spanned document model ([`upper`]); the lowering phase resolves
//! state names to dense indices while checking every structural invariant
//! ([`lower`]); the encode phase serialises the index-addressed model to
//! bytes ([`encode`]). Problems found along the way are collected as
//! diagnostics in a [`error::Session`], so one run reports as many defects
//! as possible.

use vstd::prelude::*;

pub mod encode;
pub mod error;
pub mod index;
pub mod lower;
pub mod upper;

use crate::error::{spec_has_error, Context, Diagnostic, Session};
use crate::lower::{config_lowerable, extends, lowers_to};
use crate::upper::ParseError;

verus! {

/// Runs the compilation phases over one source document and the outcome
/// the external deserializer produced for it, stopping at the first phase
/// boundary that drained an `Error`.
///
/// On success the result carries the encoded bytes together with every
/// non-error diagnostic; on failure it carries everything recorded up to
/// and including the failing phase, and no bytes — partial output is never
/// produced. The session's diagnostics from before the first phase count
/// against that phase, so a session opened with an error never reaches
/// encoding.
pub fn verify_inner(
    session: Session,
    source: Vec<u8>,
    file_path: String,
    parsed: Result<upper::ConfigFile, ParseError>,
) -> (r: Result<(Vec<u8>, Vec<Diagnostic>), Vec<Diagnostic>>)
    requires
        source@.len() <= u32::MAX,
    ensures
        r is Ok <==> (!spec_has_error(session.diagnostics@) && parsed is Ok && config_lowerable(
            parsed->Ok_0,
        )),
        r is Ok ==> exists|low: index::ConfigFile|
            lowers_to(parsed->Ok_0, low) && low.wf() && r->Ok_0.0@ == encode::spec_encode_config(
                low,
            ),
        r is Ok ==> r->Ok_0.1@ == session.diagnostics@,
        r is Err ==> spec_has_error(r->Err_0@),
        r is Err ==> extends(r->Err_0@, session.diagnostics@),
{
    let mut all_diagnostics: Vec<Diagnostic> = Vec::new();
    let mut context: Context = match session.add_file(source, file_path) {
        Ok(c) => c,
        Err(_) => {
            // Provably unreachable: binding a file never fails.
            proof {
                assert(false);
            }
            return Err(Vec::new());
        },
    };

    let mid = upper::verify(&mut context, parsed);
    match context.end_phase() {
        Ok(mut d) => {
            all_diagnostics.append(&mut d.diagnostics);
        },
        Err(d) => {
            return Err(d.diagnostics);
        },
    }
    let mid = match mid {
        Ok(m) => m,
        Err(_) => {
            // Provably unreachable: a parse failure records an error, which
            // already failed the phase above.
            proof {
                assert(false);
            }
            return Err(Vec::new());
        },
    };

    let lowered = lower::verify(mid, &mut context);
    match context.end_phase() {
        Ok(mut d) => {
            all_diagnostics.append(&mut d.diagnostics);
        },
        Err(mut d) => {
            let ghost before = all_diagnostics@;
            let ghost drained = d.diagnostics@;
            all_diagnostics.append(&mut d.diagnostics);
            proof {
                let i = choose|i: int|
                    0 <= i < drained.len() && drained[i].level == error::Level::Error;
                assert(all_diagnostics@[before.len() + i].level == error::Level::Error);
            }
            return Err(all_diagnostics);
        },
    }
    let lowered = match lowered {
        Ok(l) => l,
        Err(_) => {
            // Provably unreachable: a failed lowering records an error, which
            // already failed the phase above.
            proof {
                assert(false);
            }
            return Err(Vec::new());
        },
    };

    let bytes = encode::encode(&lowered);
    match context.end_phase() {
        Ok(mut d) => {
            all_diagnostics.append(&mut d.diagnostics);
        },
        Err(_) => {
            // Provably unreachable: encoding records no diagnostics.
            proof {
                assert(false);
            }
            return Err(Vec::new());
        },
    }
    Ok((bytes, all_diagnostics))
}

} // verus!
