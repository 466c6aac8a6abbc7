//! The decisions of the ingestion pump, which reads the input line by line
//! and forwards what decodes into a record. A line that does not decode is
//! skipped and reading goes on; the end of the input and a failed read both
//! end the pump.

use crate::record::{decoded, decodes, failure_message, parse_line, ParseFailure, Record};
use vstd::prelude::*;

verus! {

/// What reading the input gave.
#[derive(Debug)]
pub enum SourceEvent {
    Line(String),
    EndOfStream,
    ReadFailed,
}

/// What the pump does next.
#[derive(Debug)]
pub enum PumpStep {
    /// Put the record on the queue and read on.
    Forward(Record),
    /// Drop the line and read on.
    Skip(ParseFailure),
    /// The input is exhausted: stop, with nothing amiss.
    Finish,
    /// Reading failed: stop and hand the failure on.
    Fail,
}

impl PumpStep {
    /// Whether the pump reads another line after this step.
    pub open spec fn reads_on(self) -> bool {
        self is Forward || self is Skip
    }

    pub fn goes_on(&self) -> (more: bool)
        ensures
            more == self.reads_on(),
    {
        match self {
            PumpStep::Forward(_) => true,
            PumpStep::Skip(_) => true,
            PumpStep::Finish => false,
            PumpStep::Fail => false,
        }
    }
}

/// The step that follows a decoded, or undecodable, line.
pub fn after_line(outcome: Result<Record, ParseFailure>) -> (step: PumpStep)
    ensures
        match outcome {
            Ok(record) => step == PumpStep::Forward(record),
            Err(failure) => step == PumpStep::Skip(failure),
        },
{
    match outcome {
        Ok(record) => PumpStep::Forward(record),
        Err(failure) => PumpStep::Skip(failure),
    }
}

/// The step that follows a read: a line is decoded and forwarded, or
/// skipped where it does not decode; anything else ends the pump.
pub fn pump_step(event: SourceEvent) -> (step: PumpStep)
    ensures
        match event {
            SourceEvent::Line(line) => match decoded(line@) {
                Ok(record) => step == PumpStep::Forward(record),
                Err(error) => step matches PumpStep::Skip(failure) && failure.message@
                    == failure_message(error),
            },
            SourceEvent::EndOfStream => step == PumpStep::Finish,
            SourceEvent::ReadFailed => step == PumpStep::Fail,
        },
        step.reads_on() <==> event is Line,
        step is Forward <==> (event matches SourceEvent::Line(line) && decodes(line@)),
{
    match event {
        SourceEvent::Line(line) => after_line(parse_line(line.as_str())),
        SourceEvent::EndOfStream => PumpStep::Finish,
        SourceEvent::ReadFailed => PumpStep::Fail,
    }
}

} // verus!
