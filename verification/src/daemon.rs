//! The decision core of the ingestion daemon.
//!
//! The daemon runs three concurrent loops — periodic refresh, stream
//! ingestion, periodic cleanup — against one writer, all watching one
//! cancellation signal. What each loop does on each wake is decided here;
//! the waiting, the timers and the channel plumbing live with the runtime
//! around the library. On cancellation every decision is to exit, so each
//! loop ends at its very next wake.

use vstd::prelude::*;

use crate::schema::CacheRow;
use crate::store::rows_view;
use crate::stream::{stream_message_to_cache_rows, stream_rows, StreamEventData};

verus! {

/// The life of the daemon: it starts idle, runs its loops, shuts them
/// down on cancellation, and stops when all three have exited.
#[derive(Debug, Clone, Copy, PartialEq, Eq)]
pub enum DaemonPhase {
    Idle,
    Running,
    ShuttingDown,
    Stopped,
}

/// The one step forward the daemon's life can take from each phase.
pub fn advance_phase(phase: &DaemonPhase) -> (r: DaemonPhase)
    ensures
        phase is Idle ==> r is Running,
        phase is Running ==> r is ShuttingDown,
        phase is ShuttingDown ==> r is Stopped,
        phase is Stopped ==> r is Stopped,
{
    match phase {
        DaemonPhase::Idle => DaemonPhase::Running,
        DaemonPhase::Running => DaemonPhase::ShuttingDown,
        DaemonPhase::ShuttingDown => DaemonPhase::Stopped,
        DaemonPhase::Stopped => DaemonPhase::Stopped,
    }
}

/// What woke a timer-driven loop: its interval elapsed, or cancellation.
pub enum TimerWake {
    Tick,
    Cancelled,
}

/// What a timer-driven loop does on a wake.
#[derive(Debug, PartialEq, Eq)]
pub enum CycleDecision {
    RunCycle,
    Exit,
}

/// The refresh and cleanup loops run one cycle per tick and exit the
/// moment cancellation wakes them — never the other way around.
pub fn timer_step(wake: &TimerWake) -> (r: CycleDecision)
    ensures
        wake is Tick ==> r is RunCycle,
        wake is Cancelled ==> r is Exit,
{
    match wake {
        TimerWake::Tick => CycleDecision::RunCycle,
        TimerWake::Cancelled => CycleDecision::Exit,
    }
}

/// What woke the stream loop: an event arrived, the receiver fell behind
/// and skipped some events, the channel closed, or cancellation.
pub enum StreamWake<'a> {
    Message(&'a StreamEventData),
    Lagged(u64),
    Closed,
    Cancelled,
}

/// What the stream loop does on a wake.
pub enum StreamDecision {
    WriteRows(Vec<CacheRow>),
    NoteLag(u64),
    Exit,
}

/// The stream loop converts each event into its rows and writes them as
/// one batch; a lagging receiver is noted and tolerated, never fatal; the
/// loop exits both when the channel closes and on cancellation.
pub fn stream_step(wake: StreamWake<'_>, ttl_seconds: u64) -> (r: StreamDecision)
    ensures
        wake matches StreamWake::Message(e) ==> r matches StreamDecision::WriteRows(rows)
            && exists|now: Seq<char>, expires_at: Seq<char>|
            rows_view(rows@) == #[trigger] stream_rows(*e, now, expires_at),
        wake matches StreamWake::Lagged(n) ==> r == StreamDecision::NoteLag(n),
        wake is Closed ==> r is Exit,
        wake is Cancelled ==> r is Exit,
{
    match wake {
        StreamWake::Message(event) => StreamDecision::WriteRows(
            stream_message_to_cache_rows(event, ttl_seconds),
        ),
        StreamWake::Lagged(n) => StreamDecision::NoteLag(n),
        StreamWake::Closed => StreamDecision::Exit,
        StreamWake::Cancelled => StreamDecision::Exit,
    }
}

} // verus!
