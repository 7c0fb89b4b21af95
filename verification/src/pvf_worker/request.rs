//! What the host hands over for one preparation, and what compilation yields.

use crate::pvf_worker::duration::CpuDuration;
use vstd::prelude::*;

verus! {

/// One preparation request: the blob to compile, the parameters that are
/// forwarded to the compiler unread, and the CPU budget. Built once and never
/// changed.
#[derive(Debug, Clone, PartialEq, Eq)]
pub struct PvfPrepData {
    code: Vec<u8>,
    executor_params: Vec<u8>,
    prep_timeout: CpuDuration,
}

/// A request as plain values.
pub struct PvfPrepDataView {
    pub code: Seq<u8>,
    pub executor_params: Seq<u8>,
    pub prep_timeout: CpuDuration,
}

impl View for PvfPrepData {
    type V = PvfPrepDataView;

    closed spec fn view(&self) -> PvfPrepDataView {
        PvfPrepDataView {
            code: self.code@,
            executor_params: self.executor_params@,
            prep_timeout: self.prep_timeout,
        }
    }
}

impl PvfPrepData {
    /// A request for `code`, to be compiled with `executor_params` within
    /// `prep_timeout` of CPU time.
    pub fn from_code(code: Vec<u8>, executor_params: Vec<u8>, prep_timeout: CpuDuration) -> (pvf:
        PvfPrepData)
        ensures
            pvf@.code == code@,
            pvf@.executor_params == executor_params@,
            pvf@.prep_timeout == prep_timeout,
    {
        PvfPrepData { code, executor_params, prep_timeout }
    }

    /// The blob as the vector that holds it.
    pub closed spec fn spec_code(&self) -> &Vec<u8> {
        &self.code
    }

    /// The executor parameters as the vector that holds them.
    pub closed spec fn spec_executor_params(&self) -> &Vec<u8> {
        &self.executor_params
    }

    /// The two vectors hold what the view shows.
    pub proof fn lemma_parts(&self)
        ensures
            self.spec_code()@ == self@.code,
            self.spec_executor_params()@ == self@.executor_params,
    {
    }

    /// The blob to compile.
    pub fn code(&self) -> (code: &Vec<u8>)
        ensures
            code == self.spec_code(),
            code@ == self@.code,
    {
        &self.code
    }

    /// The parameters for the compiler.
    pub fn executor_params(&self) -> (params: &Vec<u8>)
        ensures
            params == self.spec_executor_params(),
            params@ == self@.executor_params,
    {
        &self.executor_params
    }

    /// The CPU budget of the preparation.
    pub fn prep_timeout(&self) -> (timeout: CpuDuration)
        ensures
            timeout == self@.prep_timeout,
    {
        self.prep_timeout
    }
}

/// The bytes that compilation produced. The worker hands them on unread.
#[derive(Debug, Clone, PartialEq, Eq)]
pub struct CompiledArtifact(Vec<u8>);

impl View for CompiledArtifact {
    type V = Seq<u8>;

    closed spec fn view(&self) -> Seq<u8> {
        self.0@
    }
}

impl CompiledArtifact {
    /// An artifact of the given bytes.
    pub fn new(code: Vec<u8>) -> (artifact: CompiledArtifact)
        ensures
            artifact@ == code@,
    {
        CompiledArtifact(code)
    }

    /// The bytes of the artifact.
    pub fn as_bytes(&self) -> (bytes: &Vec<u8>)
        ensures
            bytes@ == self@,
    {
        &self.0
    }

    /// The bytes of the artifact, by value.
    pub fn into_bytes(self) -> (bytes: Vec<u8>)
        ensures
            bytes@ == self@,
    {
        self.0
    }
}

} // verus!
