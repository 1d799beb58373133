//! The two loggers of the bridge and the calls they make.
//!
//! A module's logger turns each logging operation into a call of one of
//! the four boundary functions; the host's entry points turn each such
//! call into a call of the back-end. Both are decisions only: what is
//! returned says which call to make and with what, and the caller makes
//! it.

use vstd::prelude::*;
use crate::event::{EventMetadata, EventModel, LogEvent, MetadataModel};
use crate::gate::{gate_next, gate_runs, InitGate};
use crate::level::LogLevel;
use crate::wire::{
    decode_event, decode_metadata, encode_event, encode_metadata, lemma_event_round_trip,
    ExternCMetadata, ExternCRecord, WireMetadataModel, WireModel,
};

verus! {

/// The four functions that cross the boundary.
#[derive(Clone, Copy, Debug, PartialEq, Eq, Structural)]
pub enum BoundarySymbol {
    Initialize,
    Enabled,
    Log,
    Flush,
}

impl BoundarySymbol {
    /// The name under which the function is exported.
    pub fn name(self) -> (name: &'static str)
        ensures
            name@ == match self {
                BoundarySymbol::Initialize => "my_cdylib_log_init"@,
                BoundarySymbol::Enabled => "rust_log_enabled"@,
                BoundarySymbol::Log => "rust_log_log"@,
                BoundarySymbol::Flush => "rust_log_flush"@,
            },
    {
        match self {
            BoundarySymbol::Initialize => "my_cdylib_log_init",
            BoundarySymbol::Enabled => "rust_log_enabled",
            BoundarySymbol::Log => "rust_log_log",
            BoundarySymbol::Flush => "rust_log_flush",
        }
    }
}

/// Which of the four boundary functions were found by name.
#[derive(Clone, Copy, Debug)]
pub struct ResolvedSymbols {
    pub initialize: bool,
    pub enabled: bool,
    pub log: bool,
    pub flush: bool,
}

impl ResolvedSymbols {
    /// The first function that is missing, in the order `Initialize`,
    /// `Enabled`, `Log`, `Flush`; `None` where all four were found.
    pub open spec fn first_missing(self) -> Option<BoundarySymbol> {
        if !self.initialize {
            Some(BoundarySymbol::Initialize)
        } else if !self.enabled {
            Some(BoundarySymbol::Enabled)
        } else if !self.log {
            Some(BoundarySymbol::Log)
        } else if !self.flush {
            Some(BoundarySymbol::Flush)
        } else {
            None
        }
    }

    /// Accepts a table only if it is complete: with any function missing
    /// the load fails, and the error names the first one that is.
    pub fn check(self) -> (r: Result<(), BoundarySymbol>)
        ensures
            r is Ok <==> self.initialize && self.enabled && self.log && self.flush,
            r == match self.first_missing() {
                None => Ok::<(), BoundarySymbol>(()),
                Some(missing) => Err(missing),
            },
    {
        if !self.initialize {
            Err(BoundarySymbol::Initialize)
        } else if !self.enabled {
            Err(BoundarySymbol::Enabled)
        } else if !self.log {
            Err(BoundarySymbol::Log)
        } else if !self.flush {
            Err(BoundarySymbol::Flush)
        } else {
            Ok(())
        }
    }
}

/// A call of a boundary function, with its argument in boundary form.
#[derive(Debug)]
pub enum BoundaryCall<'a> {
    Enabled(ExternCMetadata<'a>),
    Log(ExternCRecord<'a>),
    Flush,
}

/// What a `BoundaryCall` denotes.
pub enum BoundaryModel {
    Enabled(WireMetadataModel),
    Log(WireModel),
    Flush,
}

impl<'a> View for BoundaryCall<'a> {
    type V = BoundaryModel;

    open spec fn view(&self) -> BoundaryModel {
        match *self {
            BoundaryCall::Enabled(wire) => BoundaryModel::Enabled(wire@),
            BoundaryCall::Log(wire) => BoundaryModel::Log(wire@),
            BoundaryCall::Flush => BoundaryModel::Flush,
        }
    }
}

/// A call of the back-end, with its argument in native form.
#[derive(Clone, Copy, Debug)]
pub enum SinkCall<'a> {
    Enabled(EventMetadata<'a>),
    Log(LogEvent<'a>),
    Flush,
}

/// What a `SinkCall` denotes.
pub enum SinkModel {
    Enabled(MetadataModel),
    Log(EventModel),
    Flush,
}

impl<'a> View for SinkCall<'a> {
    type V = SinkModel;

    open spec fn view(&self) -> SinkModel {
        match *self {
            SinkCall::Enabled(m) => SinkModel::Enabled(m@),
            SinkCall::Log(event) => SinkModel::Log(event@),
            SinkCall::Flush => SinkModel::Flush,
        }
    }
}

/// What an optional `SinkCall` denotes.
pub open spec fn opt_sink(sink: Option<SinkCall>) -> Option<SinkModel> {
    match sink {
        None => None,
        Some(call) => Some(call@),
    }
}

/// The back-end call that answers a boundary call: the call of the same
/// kind with its argument in native form, and none where the argument has
/// a null target. Nothing else decides: an event is delivered whatever its
/// level, and whatever was asked or answered before.
pub open spec fn delivered(call: BoundaryModel) -> Option<SinkModel> {
    match call {
        BoundaryModel::Enabled(wire) => if wire.target is Some {
            Some(SinkModel::Enabled(decode_metadata(wire)))
        } else {
            None
        },
        BoundaryModel::Log(wire) => if wire.target is Some {
            Some(SinkModel::Log(decode_event(wire)))
        } else {
            None
        },
        BoundaryModel::Flush => Some(SinkModel::Flush),
    }
}

/// One step of a side's initialisation body.
#[derive(Clone, Copy, Debug, PartialEq, Eq, Structural)]
pub enum InitStep {
    /// Call the host's `Initialize` function.
    InitializeHost,
    /// Let every event up to this level through to the installed logger.
    SetMaxLevel(LogLevel),
    /// Install the logger that forwards over the boundary.
    InstallBoundaryLogger,
    /// Install the back-end that the host has chosen.
    InstallBackend,
}

/// The body of a module's initialisation: the host first, then no filter
/// at all on the module's side, since the host decides what is logged,
/// then the forwarding logger.
pub open spec fn module_init_steps() -> Seq<InitStep> {
    seq![
        InitStep::InitializeHost,
        InitStep::SetMaxLevel(LogLevel::Trace),
        InitStep::InstallBoundaryLogger,
    ]
}

/// The body of the host's initialisation: the back-end, then the widest
/// level.
pub open spec fn host_init_steps() -> Seq<InitStep> {
    seq![InitStep::InstallBackend, InitStep::SetMaxLevel(LogLevel::Trace)]
}

/// The logger that a module installs. It keeps no state and thinks
/// nothing of an event: each operation becomes the boundary call of the
/// same name.
#[derive(Clone, Copy, Debug)]
pub struct ExternCLog;

impl ExternCLog {
    /// The steps that make this logger the module's sink, in order.
    pub fn init() -> (steps: Vec<InitStep>)
        ensures
            steps@ == module_init_steps(),
    {
        let mut steps: Vec<InitStep> = Vec::new();
        steps.push(InitStep::InitializeHost);
        steps.push(InitStep::SetMaxLevel(LogLevel::Trace));
        steps.push(InitStep::InstallBoundaryLogger);
        assert(steps@ =~= module_init_steps());
        steps
    }

    /// The question whether an event with this metadata would be
    /// processed, as a boundary call. The answer is the host's.
    pub fn enabled<'a>(&self, metadata: &EventMetadata<'a>) -> (call: BoundaryCall<'a>)
        ensures
            call@ == BoundaryModel::Enabled(encode_metadata(metadata@)),
    {
        BoundaryCall::Enabled(ExternCMetadata::from(metadata))
    }

    /// An event as a boundary call. Every event is forwarded, whatever
    /// `enabled` was answered before: the call owns the message, and so
    /// does whoever takes the call over.
    pub fn log<'a>(&self, record: &LogEvent<'a>) -> (call: BoundaryCall<'a>)
        ensures
            call@ == BoundaryModel::Log(encode_event(record@)),
    {
        BoundaryCall::Log(ExternCRecord::from(record))
    }

    /// The request to make all accepted events durable, as a boundary
    /// call.
    pub fn flush(&self) -> (call: BoundaryCall<'static>)
        ensures
            call@ == BoundaryModel::Flush,
    {
        BoundaryCall::Flush
    }
}

/// The host's `Enabled` function: the question goes to the back-end with
/// the metadata in native form. The target must not be null.
pub fn rust_log_enabled<'a>(metadata: ExternCMetadata<'a>) -> (call: SinkCall<'a>)
    requires
        metadata@.target is Some,
    ensures
        call@ == SinkModel::Enabled(decode_metadata(metadata@)),
{
    SinkCall::Enabled(metadata.as_metadata())
}

/// The host's `Log` function: the event goes to the back-end in native
/// form, with no filter in between. The target must not be null.
pub fn rust_log_log<'b, 'a>(record: &'b ExternCRecord<'a>) -> (call: SinkCall<'b>)
    requires
        record@.target is Some,
    ensures
        call@ == SinkModel::Log(decode_event(record@)),
{
    SinkCall::Log(record.as_record())
}

/// The host's `Flush` function: the request goes to the back-end.
pub fn rust_log_flush() -> (call: SinkCall<'static>)
    ensures
        call@ == SinkModel::Flush,
{
    SinkCall::Flush
}

/// The host's entry for any boundary call: the back-end call of the same
/// kind, with the argument read back to native form. A call whose target
/// is null has no native form and is refused.
pub fn dispatch<'b, 'a>(call: &'b BoundaryCall<'a>) -> (sink: Option<SinkCall<'b>>)
    ensures
        opt_sink(sink) == delivered(call@),
{
    match call {
        BoundaryCall::Enabled(wire) => {
            if wire.target.is_null() {
                None
            } else {
                Some(rust_log_enabled(*wire))
            }
        },
        BoundaryCall::Log(wire) => {
            if wire.metadata.target.is_null() {
                None
            } else {
                Some(rust_log_log(wire))
            }
        },
        BoundaryCall::Flush => Some(rust_log_flush()),
    }
}

/// A module's idempotent initialisation. The first call on a gate passes
/// it and returns the module's body for the caller to run; every later
/// call returns no step.
pub fn lib_init(gate: &mut InitGate) -> (steps: Vec<InitStep>)
    ensures
        final(gate)@ == gate_next(old(gate)@),
        steps@ == if gate_runs(old(gate)@) {
            module_init_steps()
        } else {
            Seq::<InitStep>::empty()
        },
{
    if gate.initialize() {
        ExternCLog::init()
    } else {
        Vec::new()
    }
}

/// The host's idempotent initialisation, the boundary function
/// `Initialize`. The first call on a gate passes it and returns the host's
/// body for the caller to run; every later call returns no step.
pub fn my_cdylib_log_init(gate: &mut InitGate) -> (steps: Vec<InitStep>)
    ensures
        final(gate)@ == gate_next(old(gate)@),
        steps@ == if gate_runs(old(gate)@) {
            host_init_steps()
        } else {
            Seq::<InitStep>::empty()
        },
{
    if gate.initialize() {
        let mut steps: Vec<InitStep> = Vec::new();
        steps.push(InitStep::InstallBackend);
        steps.push(InitStep::SetMaxLevel(LogLevel::Trace));
        assert(steps@ =~= host_init_steps());
        steps
    } else {
        Vec::new()
    }
}

/// What a module's logger sends is what the host's back-end gets: an
/// event arrives as a `Log` call with the same level, target, message,
/// module, file and line, absent fields still absent; a question arrives
/// as an `Enabled` call with the same level and target; a flush arrives as
/// a flush. No event is dropped on the way.
pub proof fn lemma_forwarded_calls_arrive(e: EventModel, m: MetadataModel)
    ensures
        delivered(BoundaryModel::Log(encode_event(e))) == Some(SinkModel::Log(e)),
        delivered(BoundaryModel::Enabled(encode_metadata(m))) == Some(SinkModel::Enabled(m)),
        delivered(BoundaryModel::Flush) == Some(SinkModel::Flush),
{
    lemma_event_round_trip(e);
}

} // verus!
