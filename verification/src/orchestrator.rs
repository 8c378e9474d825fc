//! The request orchestrator: how a lookup composes the catalog fetch with
//! the optional transform call, and the fallback policy for transform
//! failures. A plain lookup is the catalog fetch alone
//! (`PokemonService::interpret_fetch`); a transformed lookup runs the two
//! phases below around the transform call.

use vstd::prelude::*;
use vstd::string::StringExecFns;

use crate::error::{AppError, TransportError};
use crate::pokemon::Pokemon;

verus! {

/// What a transformed lookup does once the catalog fetch has resolved.
#[derive(Debug, PartialEq, Eq)]
pub enum TranslatedStep {
    /// Respond with this result; the transform API is not called.
    Done(Result<Pokemon, AppError>),
    /// Call the transform API with the record's description (the second
    /// payload), then close the lookup with `finish_translated` on the
    /// record (the first payload).
    Translate(Pokemon, String),
}

/// Decide the second phase of a transformed lookup from the result of the
/// catalog fetch. A failed fetch is answered with that error unchanged and
/// the transform is never attempted; a record without a description is
/// returned as it is; only a record with a description goes on to the
/// transform call.
pub fn begin_translated(fetched: Result<Pokemon, AppError>) -> (step: TranslatedStep)
    ensures
        fetched matches Err(e) ==> step == TranslatedStep::Done(Err(e)),
        fetched matches Ok(p) ==> match p.description {
            None => step == TranslatedStep::Done(Ok(p)),
            Some(d) => step matches TranslatedStep::Translate(record, text) && record == p && text
                == d,
        },
{
    match fetched {
        Err(e) => TranslatedStep::Done(Err(e)),
        Ok(p) => {
            let text = match &p.description {
                Some(d) => Some(d.clone()),
                None => None,
            };
            match text {
                None => TranslatedStep::Done(Ok(p)),
                Some(text) => TranslatedStep::Translate(p, text),
            }
        },
    }
}

/// Close a transformed lookup: a successful transform replaces the
/// description with the rewritten text; a failed transform is discarded
/// and the record keeps its original normalized description — transform
/// failures never surface to the caller.
pub fn finish_translated(record: Pokemon, transformed: Result<String, AppError>) -> (r: Pokemon)
    ensures
        r.name == record.name,
        r.habitat == record.habitat,
        r.is_legendary == record.is_legendary,
        transformed matches Ok(text) ==> r.description == Some(text),
        transformed is Err ==> r.description == record.description,
{
    match transformed {
        Ok(text) => Pokemon {
            name: record.name,
            description: Some(text),
            habitat: record.habitat,
            is_legendary: record.is_legendary,
        },
        Err(_) => record,
    }
}

/// Interpret a reachability probe: success reports readiness of that
/// upstream, and any transport failure is an upstream error.
pub fn interpret_health(outcome: Result<(), TransportError>) -> (r: Result<(), AppError>)
    ensures
        outcome is Ok ==> r is Ok,
        outcome matches Err(t) ==> r matches Err(AppError::ExternalApi(m)) && m@
            == "Health check failed: "@ + t.detail(),
{
    match outcome {
        Ok(()) => Ok(()),
        Err(t) => {
            let detail = match t {
                TransportError::TimedOut(d) => d,
                TransportError::ConnectionFailed(d) => d,
                TransportError::Other(d) => d,
            };
            let mut m = "Health check failed: ".to_owned();
            m.append(detail.as_str());
            Err(AppError::ExternalApi(m))
        },
    }
}

/// The service is ready only if both upstream probes succeeded.
pub fn readiness(catalog: &Result<(), AppError>, translation: &Result<(), AppError>) -> (r: bool)
    ensures
        r == (catalog is Ok && translation is Ok),
{
    let catalog_ok = match catalog {
        Ok(_) => true,
        Err(_) => false,
    };
    let translation_ok = match translation {
        Ok(_) => true,
        Err(_) => false,
    };
    catalog_ok && translation_ok
}

} // verus!
