//! The compile task: prevalidate the blob, compile it, and name the failure
//! where either step fails or the task panics. The two steps themselves are
//! the caller's: this module knows them only as functions.

use crate::pvf_worker::error::PrepareError;
use crate::pvf_worker::request::{CompiledArtifact, PvfPrepData};
use vstd::prelude::*;

verus! {

/// What a panic carried, as far as the worker can read it.
#[derive(Debug, Clone, PartialEq, Eq)]
pub enum PanicPayload {
    /// A string literal, as `panic!` with a plain message carries.
    StaticMessage(&'static str),
    /// An owned string, as `panic!` with a formatted message carries.
    Message(String),
    /// Anything else.
    Other,
}

/// The text that stands for a payload of an unreadable shape.
pub open spec fn spec_unknown_payload() -> Seq<char> {
    "unknown panic payload"@
}

/// The text of a payload: its message where it has one.
pub open spec fn spec_stringify_panic_payload(payload: PanicPayload) -> Seq<char> {
    match payload {
        PanicPayload::StaticMessage(message) => message@,
        PanicPayload::Message(message) => message@,
        PanicPayload::Other => spec_unknown_payload(),
    }
}

/// The text of a panic payload, as good as it can be had: the message of a
/// payload that is a string, and a fixed text for any other.
pub fn stringify_panic_payload(payload: PanicPayload) -> (text: String)
    ensures
        text@ == spec_stringify_panic_payload(payload),
{
    match payload {
        PanicPayload::StaticMessage(message) => message.to_owned(),
        PanicPayload::Message(message) => message,
        PanicPayload::Other => "unknown panic payload".to_owned(),
    }
}

/// The failure that a panic of the compile task is reported as.
pub fn panic_to_error(payload: PanicPayload) -> (error: PrepareError)
    ensures
        error matches PrepareError::Panic(detail) && detail@ == spec_stringify_panic_payload(
            payload,
        ),
{
    PrepareError::Panic(stringify_panic_payload(payload))
}

/// What the compile task yields, given what prevalidation said: a rejected
/// blob is a `Prevalidation` failure with the detail given.
pub fn conclude_prevalidation<B>(prevalidated: Result<B, String>) -> (r: Result<B, PrepareError>)
    ensures
        r == match prevalidated {
            Ok(blob) => Ok::<B, PrepareError>(blob),
            Err(detail) => Err::<B, PrepareError>(PrepareError::Prevalidation(detail)),
        },
{
    match prevalidated {
        Ok(blob) => Ok(blob),
        Err(detail) => Err(PrepareError::Prevalidation(detail)),
    }
}

/// What the compile task yields, given what the compiler said: its bytes as
/// an artifact, or a `Preparation` failure with the detail given.
pub fn conclude_compilation(compiled: Result<Vec<u8>, String>) -> (r: Result<
    CompiledArtifact,
    PrepareError,
>)
    ensures
        match compiled {
            Ok(bytes) => r matches Ok(artifact) && artifact@ == bytes@,
            Err(detail) => r == Err::<CompiledArtifact, PrepareError>(
                PrepareError::Preparation(detail),
            ),
        },
{
    match compiled {
        Ok(bytes) => Ok(CompiledArtifact::new(bytes)),
        Err(detail) => Err(PrepareError::Preparation(detail)),
    }
}

/// Whether `r` is what the compile task yields when prevalidation said
/// `prevalidated` and, where it was asked, `compile` may say `compiled`.
pub open spec fn spec_prepared<B, C: FnOnce(B, &Vec<u8>) -> Result<Vec<u8>, String>>(
    pvf: &PvfPrepData,
    compile: C,
    prevalidated: Result<B, String>,
    r: Result<CompiledArtifact, PrepareError>,
) -> bool {
    match prevalidated {
        Err(detail) => r == Err::<CompiledArtifact, PrepareError>(
            PrepareError::Prevalidation(detail),
        ),
        Ok(blob) => exists|compiled: Result<Vec<u8>, String>|
            #![trigger compile.ensures((blob, pvf.spec_executor_params()), compiled)]
            compile.ensures((blob, pvf.spec_executor_params()), compiled) && match compiled {
                Ok(bytes) => r matches Ok(artifact) && artifact@ == bytes@,
                Err(detail) => r == Err::<CompiledArtifact, PrepareError>(
                    PrepareError::Preparation(detail),
                ),
            },
    }
}

/// Runs the compile task on a request: `prevalidate` on the blob, then, if
/// the blob passed, `compile` on the validated blob and the executor
/// parameters. A blob that does not pass is never compiled.
pub fn prepare_artifact<B, P, C>(pvf: &PvfPrepData, prevalidate: P, compile: C) -> (r: Result<
    CompiledArtifact,
    PrepareError,
>) where
    P: FnOnce(&Vec<u8>) -> Result<B, String>,
    C: FnOnce(B, &Vec<u8>) -> Result<Vec<u8>, String>,

    requires
        prevalidate.requires((pvf.spec_code(),)),
        forall|blob: B|
            prevalidate.ensures((pvf.spec_code(),), Ok::<B, String>(blob))
                ==> #[trigger] compile.requires((blob, pvf.spec_executor_params())),
    ensures
        exists|prevalidated: Result<B, String>|
            #![trigger prevalidate.ensures((pvf.spec_code(),), prevalidated)]
            prevalidate.ensures((pvf.spec_code(),), prevalidated) && spec_prepared(
                pvf,
                compile,
                prevalidated,
                r,
            ),
{
    let prevalidated = prevalidate(pvf.code());
    let ghost seen = prevalidated;
    match conclude_prevalidation(prevalidated) {
        Err(error) => {
            assert(spec_prepared(pvf, compile, seen, Err(error)));
            Err(error)
        },
        Ok(blob) => {
            let compiled = compile(blob, pvf.executor_params());
            let ghost said = compiled;
            let r = conclude_compilation(compiled);
            assert(compile.ensures((blob, pvf.spec_executor_params()), said));
            assert(spec_prepared(pvf, compile, seen, r));
            r
        },
    }
}

} // verus!
