//! The closed set of failures that a preparation can end in.

use vstd::prelude::*;

verus! {

/// Why a preparation failed. Every variant but `TimedOut` carries a detail
/// for the host's log; the host never parses it.
#[derive(Debug, Clone, PartialEq, Eq)]
pub enum PrepareError {
    /// The blob was rejected before compilation.
    Prevalidation(String),
    /// The compiler rejected the blob.
    Preparation(String),
    /// The compile task panicked.
    Panic(String),
    /// The CPU budget ran out before the compile task had a result.
    TimedOut,
    /// The worker could not do its own part: the artifact could not be
    /// written, or the CPU monitor was lost.
    IoErr(String),
}

/// A `PrepareError` with its detail as a sequence of characters.
pub enum PrepareErrorView {
    Prevalidation(Seq<char>),
    Preparation(Seq<char>),
    Panic(Seq<char>),
    TimedOut,
    IoErr(Seq<char>),
}

/// The kind of an outcome, without its payload: what the host tells apart.
#[derive(Debug, Clone, Copy, PartialEq, Eq, Structural)]
pub enum OutcomeKind {
    Prepared,
    Prevalidation,
    Preparation,
    Panic,
    TimedOut,
    Io,
}

impl View for PrepareError {
    type V = PrepareErrorView;

    open spec fn view(&self) -> PrepareErrorView {
        match self {
            PrepareError::Prevalidation(detail) => PrepareErrorView::Prevalidation(detail@),
            PrepareError::Preparation(detail) => PrepareErrorView::Preparation(detail@),
            PrepareError::Panic(detail) => PrepareErrorView::Panic(detail@),
            PrepareError::TimedOut => PrepareErrorView::TimedOut,
            PrepareError::IoErr(detail) => PrepareErrorView::IoErr(detail@),
        }
    }
}

impl PrepareErrorView {
    /// The kind of this failure.
    pub open spec fn kind(self) -> OutcomeKind {
        match self {
            PrepareErrorView::Prevalidation(_) => OutcomeKind::Prevalidation,
            PrepareErrorView::Preparation(_) => OutcomeKind::Preparation,
            PrepareErrorView::Panic(_) => OutcomeKind::Panic,
            PrepareErrorView::TimedOut => OutcomeKind::TimedOut,
            PrepareErrorView::IoErr(_) => OutcomeKind::Io,
        }
    }

    /// The detail of this failure; `TimedOut` has none.
    pub open spec fn detail(self) -> Option<Seq<char>> {
        match self {
            PrepareErrorView::Prevalidation(detail) => Some(detail),
            PrepareErrorView::Preparation(detail) => Some(detail),
            PrepareErrorView::Panic(detail) => Some(detail),
            PrepareErrorView::TimedOut => None,
            PrepareErrorView::IoErr(detail) => Some(detail),
        }
    }
}

impl PrepareError {
    /// The kind of this failure.
    pub fn kind(&self) -> (kind: OutcomeKind)
        ensures
            kind == self@.kind(),
            kind != OutcomeKind::Prepared,
    {
        match self {
            PrepareError::Prevalidation(_) => OutcomeKind::Prevalidation,
            PrepareError::Preparation(_) => OutcomeKind::Preparation,
            PrepareError::Panic(_) => OutcomeKind::Panic,
            PrepareError::TimedOut => OutcomeKind::TimedOut,
            PrepareError::IoErr(_) => OutcomeKind::Io,
        }
    }

    /// Whether the worker stops serving after it has reported this failure.
    /// Only a failure of the worker's own part is terminal; a failure of the
    /// blob or of the budget concerns one request.
    pub fn is_terminal(&self) -> (terminal: bool)
        ensures
            terminal <==> self@.kind() == OutcomeKind::Io,
    {
        match self {
            PrepareError::IoErr(_) => true,
            _ => false,
        }
    }
}

impl OutcomeKind {
    /// The byte that announces an outcome of this kind on the wire.
    pub open spec fn spec_tag(self) -> u8 {
        match self {
            OutcomeKind::Prepared => 0,
            OutcomeKind::Prevalidation => 1,
            OutcomeKind::Preparation => 2,
            OutcomeKind::Panic => 3,
            OutcomeKind::TimedOut => 4,
            OutcomeKind::Io => 5,
        }
    }

    /// The byte that announces an outcome of this kind on the wire.
    pub fn tag(&self) -> (tag: u8)
        ensures
            tag == self.spec_tag(),
    {
        match self {
            OutcomeKind::Prepared => 0,
            OutcomeKind::Prevalidation => 1,
            OutcomeKind::Preparation => 2,
            OutcomeKind::Panic => 3,
            OutcomeKind::TimedOut => 4,
            OutcomeKind::Io => 5,
        }
    }

    /// The kind that a tag byte announces, if it announces one.
    pub fn from_tag(tag: u8) -> (kind: Option<OutcomeKind>)
        ensures
            kind is Some <==> tag <= 5,
            kind matches Some(k) ==> k.spec_tag() == tag,
    {
        match tag {
            0 => Some(OutcomeKind::Prepared),
            1 => Some(OutcomeKind::Prevalidation),
            2 => Some(OutcomeKind::Preparation),
            3 => Some(OutcomeKind::Panic),
            4 => Some(OutcomeKind::TimedOut),
            5 => Some(OutcomeKind::Io),
            _ => None,
        }
    }

    /// No two kinds share a tag.
    pub proof fn lemma_tag_injective(self, other: OutcomeKind)
        requires
            self.spec_tag() == other.spec_tag(),
        ensures
            self == other,
    {
    }
}

} // verus!
