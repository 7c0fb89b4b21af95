use polkadot::pvf_worker::duration::CpuDuration;
use polkadot::pvf_worker::error::{OutcomeKind, PrepareError};
use polkadot::pvf_worker::path::bytes_to_path;
use polkadot::pvf_worker::prepare::{
    conclude_compilation, conclude_prevalidation, panic_to_error, prepare_artifact,
    stringify_panic_payload, PanicPayload,
};
use polkadot::pvf_worker::request::{CompiledArtifact, PvfPrepData};
use std::cell::Cell;

fn pvf(code: &[u8], params: &[u8]) -> PvfPrepData {
    PvfPrepData::from_code(code.to_vec(), params.to_vec(), CpuDuration::from_secs(5))
}

#[test]
fn accepted_blob_is_compiled_with_the_params() {
    let r = prepare_artifact(
        &pvf(&[1, 2, 3], &[9, 9]),
        |code: &Vec<u8>| -> Result<Vec<u8>, String> { Ok(code.iter().rev().cloned().collect()) },
        |blob: Vec<u8>, params: &Vec<u8>| -> Result<Vec<u8>, String> {
            let mut out = blob;
            out.extend_from_slice(params);
            Ok(out)
        },
    );
    assert_eq!(r, Ok(CompiledArtifact::new(vec![3, 2, 1, 9, 9])));
}

#[test]
fn rejected_blob_is_never_compiled() {
    let compiled = Cell::new(false);
    let r = prepare_artifact(
        &pvf(&[0], &[]),
        |_code: &Vec<u8>| -> Result<(), String> { Err("bad header".to_string()) },
        |_blob: (), _params: &Vec<u8>| -> Result<Vec<u8>, String> {
            compiled.set(true);
            Ok(vec![])
        },
    );
    assert_eq!(r, Err(PrepareError::Prevalidation("bad header".to_string())));
    assert!(!compiled.get());
}

#[test]
fn compiler_failure_is_a_preparation_error() {
    let r = prepare_artifact(
        &pvf(&[0], &[]),
        |_code: &Vec<u8>| -> Result<(), String> { Ok(()) },
        |_blob: (), _params: &Vec<u8>| -> Result<Vec<u8>, String> {
            Err("type mismatch".to_string())
        },
    );
    assert_eq!(r, Err(PrepareError::Preparation("type mismatch".to_string())));
}

#[test]
fn conclusions_from_plain_results() {
    assert_eq!(conclude_prevalidation(Ok::<u8, String>(4)), Ok(4));
    assert_eq!(
        conclude_prevalidation(Err::<u8, String>("x".to_string())),
        Err(PrepareError::Prevalidation("x".to_string()))
    );
    assert_eq!(conclude_compilation(Ok(vec![1])), Ok(CompiledArtifact::new(vec![1])));
    assert_eq!(
        conclude_compilation(Err("y".to_string())),
        Err(PrepareError::Preparation("y".to_string()))
    );
}

#[test]
fn panic_payloads_are_read_as_far_as_possible() {
    assert_eq!(stringify_panic_payload(PanicPayload::StaticMessage("boom")), "boom");
    assert_eq!(
        stringify_panic_payload(PanicPayload::Message("boom 2".to_string())),
        "boom 2"
    );
    assert_eq!(stringify_panic_payload(PanicPayload::Other), "unknown panic payload");
    assert_eq!(
        panic_to_error(PanicPayload::StaticMessage("boom")),
        PrepareError::Panic("boom".to_string())
    );
}

#[test]
fn artifact_keeps_its_bytes() {
    let artifact = CompiledArtifact::new(vec![4, 5, 6]);
    assert_eq!(artifact.as_bytes(), &vec![4, 5, 6]);
    assert_eq!(artifact.into_bytes(), vec![4, 5, 6]);
}

#[test]
fn request_keeps_its_parts() {
    let request = PvfPrepData::from_code(vec![1], vec![2, 3], CpuDuration::from_millis(200));
    assert_eq!(request.code(), &vec![1]);
    assert_eq!(request.executor_params(), &vec![2, 3]);
    assert_eq!(request.prep_timeout(), CpuDuration::from_millis(200));
}

#[test]
fn kinds_tags_and_terminal_errors() {
    let errors = [
        (PrepareError::Prevalidation(String::new()), OutcomeKind::Prevalidation, 1u8, false),
        (PrepareError::Preparation(String::new()), OutcomeKind::Preparation, 2, false),
        (PrepareError::Panic(String::new()), OutcomeKind::Panic, 3, false),
        (PrepareError::TimedOut, OutcomeKind::TimedOut, 4, false),
        (PrepareError::IoErr(String::new()), OutcomeKind::Io, 5, true),
    ];
    for (error, kind, tag, terminal) in errors {
        assert_eq!(error.kind(), kind);
        assert_eq!(kind.tag(), tag);
        assert_eq!(OutcomeKind::from_tag(tag), Some(kind));
        assert_eq!(error.is_terminal(), terminal);
    }
    assert_eq!(OutcomeKind::Prepared.tag(), 0);
    assert_eq!(OutcomeKind::from_tag(0), Some(OutcomeKind::Prepared));
    assert_eq!(OutcomeKind::from_tag(6), None);
    assert_eq!(OutcomeKind::from_tag(255), None);
}

#[test]
fn paths_must_be_utf8() {
    assert_eq!(bytes_to_path(b"/tmp/artifact-1"), Some("/tmp/artifact-1".to_string()));
    assert_eq!(bytes_to_path("/tmp/ärtefakt".as_bytes()), Some("/tmp/ärtefakt".to_string()));
    assert_eq!(bytes_to_path(b""), Some(String::new()));
    assert_eq!(bytes_to_path(&[b'/', 0xff, b'a']), None);
    assert_eq!(bytes_to_path(&[0xc3]), None);
    assert_eq!(bytes_to_path(&[0xed, 0xa0, 0x80]), None);
}
