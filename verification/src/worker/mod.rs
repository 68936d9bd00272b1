//! The background worker's decisions: what to do after each attempt to claim a job, and
//! the deterministic seeds behind the placeholder media of mock mode.

pub mod image;
pub mod swap;
pub mod video;

use vstd::prelude::*;
use vstd::utf8::encode_utf8;
use vstd::wrapping::u64_specs;

verus! {

/// What an attempt to claim the oldest queued job came to.
#[derive(Clone, Copy, Debug, PartialEq, Eq, Structural)]
pub enum ClaimOutcome {
    /// A job was claimed (and is now running).
    Claimed,
    /// No job was queued.
    Empty,
    /// The database could not be polled.
    Failed,
}

/// What the worker does next.
#[derive(Clone, Copy, Debug, PartialEq, Eq, Structural)]
pub enum WorkerAction {
    /// Run the claimed job to completion (recording its failure if it fails).
    Process,
    /// Sleep this many milliseconds before polling again.
    SleepMillis(u64),
}

/// The worker runs a claimed job at once, waits 800 ms when the queue is empty and two
/// seconds after a failed poll.
pub open spec fn spec_after_claim(outcome: ClaimOutcome) -> WorkerAction {
    match outcome {
        ClaimOutcome::Claimed => WorkerAction::Process,
        ClaimOutcome::Empty => WorkerAction::SleepMillis(800),
        ClaimOutcome::Failed => WorkerAction::SleepMillis(2000),
    }
}

/// The worker's next step after an attempt to claim a job.
pub fn after_claim(outcome: ClaimOutcome) -> (r: WorkerAction)
    ensures
        r == spec_after_claim(outcome),
{
    match outcome {
        ClaimOutcome::Claimed => WorkerAction::Process,
        ClaimOutcome::Empty => WorkerAction::SleepMillis(800),
        ClaimOutcome::Failed => WorkerAction::SleepMillis(2000),
    }
}

/// Whether the worker is polling for a job or running the one it claimed.
#[derive(Clone, Copy, Debug, PartialEq, Eq, Structural)]
pub enum WorkerPhase {
    Polling,
    Running,
}

/// What the worker loop learns from the outside.
#[derive(Clone, Copy, Debug, PartialEq, Eq, Structural)]
pub enum WorkerEvent {
    /// An attempt to claim the oldest queued job came to this.
    ClaimAttempt(ClaimOutcome),
    /// The running job's processing ended; `true` when it failed.
    JobEnded(bool),
}

/// What the worker loop does next.
#[derive(Clone, Copy, Debug, PartialEq, Eq, Structural)]
pub enum WorkerStep {
    /// Run the claimed job.
    Process,
    /// Sleep this many milliseconds, then try to claim a job.
    SleepMillis(u64),
    /// Mark the job failed with its error, then try to claim the next job.
    RecordFailure,
    /// Try to claim the next job.
    ClaimNext,
}

/// Claim attempts are made while polling; a job's end is reported while it runs.
pub open spec fn spec_event_fits(phase: WorkerPhase, event: WorkerEvent) -> bool {
    match event {
        WorkerEvent::ClaimAttempt(_) => phase == WorkerPhase::Polling,
        WorkerEvent::JobEnded(_) => phase == WorkerPhase::Running,
    }
}

/// The phase after an event: a claimed job runs until it ends.
pub open spec fn spec_next_phase(phase: WorkerPhase, event: WorkerEvent) -> WorkerPhase {
    match event {
        WorkerEvent::ClaimAttempt(ClaimOutcome::Claimed) => WorkerPhase::Running,
        WorkerEvent::ClaimAttempt(_) => WorkerPhase::Polling,
        WorkerEvent::JobEnded(_) => WorkerPhase::Polling,
    }
}

/// The step after an event: after a claim attempt, as `after_claim` decides; after a job
/// ends, record its failure if it failed, and go on claiming.
pub open spec fn spec_next_step(event: WorkerEvent) -> WorkerStep {
    match event {
        WorkerEvent::ClaimAttempt(outcome) => match spec_after_claim(outcome) {
            WorkerAction::Process => WorkerStep::Process,
            WorkerAction::SleepMillis(ms) => WorkerStep::SleepMillis(ms),
        },
        WorkerEvent::JobEnded(failed) => if failed {
            WorkerStep::RecordFailure
        } else {
            WorkerStep::ClaimNext
        },
    }
}

/// Whether the event is one the worker can meet in this phase.
pub fn event_fits(phase: WorkerPhase, event: WorkerEvent) -> (r: bool)
    ensures
        r == spec_event_fits(phase, event),
{
    match event {
        WorkerEvent::ClaimAttempt(_) => phase == WorkerPhase::Polling,
        WorkerEvent::JobEnded(_) => phase == WorkerPhase::Running,
    }
}

/// One turn of the worker loop: the next phase and what to do.
pub fn worker_step(phase: WorkerPhase, event: WorkerEvent) -> (r: (WorkerPhase, WorkerStep))
    requires
        spec_event_fits(phase, event),
    ensures
        r.0 == spec_next_phase(phase, event),
        r.1 == spec_next_step(event),
{
    match event {
        WorkerEvent::ClaimAttempt(outcome) => {
            let next = match outcome {
                ClaimOutcome::Claimed => WorkerPhase::Running,
                _ => WorkerPhase::Polling,
            };
            let step = match after_claim(outcome) {
                WorkerAction::Process => WorkerStep::Process,
                WorkerAction::SleepMillis(ms) => WorkerStep::SleepMillis(ms),
            };
            (next, step)
        },
        WorkerEvent::JobEnded(failed) => {
            if failed {
                (WorkerPhase::Polling, WorkerStep::RecordFailure)
            } else {
                (WorkerPhase::Polling, WorkerStep::ClaimNext)
            }
        },
    }
}

/// The phase a run of events ends in, or nothing if some event does not fit its phase.
pub open spec fn run_phases(start: WorkerPhase, events: Seq<WorkerEvent>) -> Option<WorkerPhase>
    decreases events.len(),
{
    if events.len() == 0 {
        Some(start)
    } else if !spec_event_fits(start, events[0]) {
        None
    } else {
        run_phases(spec_next_phase(start, events[0]), events.drop_first())
    }
}

/// How many claim attempts in a run of events claimed a job.
pub open spec fn jobs_claimed(events: Seq<WorkerEvent>) -> int
    decreases events.len(),
{
    if events.len() == 0 {
        0
    } else {
        (if events[0] == WorkerEvent::ClaimAttempt(ClaimOutcome::Claimed) { 1int } else { 0int })
            + jobs_claimed(events.drop_first())
    }
}

/// How many jobs ended in a run of events.
pub open spec fn jobs_ended(events: Seq<WorkerEvent>) -> int
    decreases events.len(),
{
    if events.len() == 0 {
        0
    } else {
        (if events[0] is JobEnded { 1int } else { 0int }) + jobs_ended(events.drop_first())
    }
}

/// How many jobs run in a phase.
pub open spec fn running_count(phase: WorkerPhase) -> int {
    if phase == WorkerPhase::Running {
        1
    } else {
        0
    }
}

proof fn lemma_run_counts(start: WorkerPhase, events: Seq<WorkerEvent>)
    requires
        run_phases(start, events) is Some,
    ensures
        jobs_claimed(events) - jobs_ended(events) == running_count(run_phases(start, events)->0)
            - running_count(start),
    decreases events.len(),
{
    if events.len() > 0 {
        lemma_run_counts(spec_next_phase(start, events[0]), events.drop_first());
    }
}

/// Jobs run one at a time: in any run of the worker loop from polling, every job but the
/// one running now has ended before the next was claimed, so the jobs claimed outnumber
/// the jobs ended by one while a job runs and by none otherwise.
pub proof fn lemma_jobs_run_one_at_a_time(events: Seq<WorkerEvent>)
    requires
        run_phases(WorkerPhase::Polling, events) is Some,
    ensures
        jobs_claimed(events) - jobs_ended(events) == running_count(
            run_phases(WorkerPhase::Polling, events)->0,
        ),
        forall|k: int|
            0 <= k <= events.len() ==> {
                &&& run_phases(WorkerPhase::Polling, #[trigger] events.take(k)) is Some
                &&& 0 <= jobs_claimed(events.take(k)) - jobs_ended(events.take(k)) <= 1
            },
{
    lemma_run_counts(WorkerPhase::Polling, events);
    assert forall|k: int| 0 <= k <= events.len() implies {
        &&& run_phases(WorkerPhase::Polling, #[trigger] events.take(k)) is Some
        &&& 0 <= jobs_claimed(events.take(k)) - jobs_ended(events.take(k)) <= 1
    } by {
        lemma_run_prefix(WorkerPhase::Polling, events, k);
        lemma_run_counts(WorkerPhase::Polling, events.take(k));
    }
}

proof fn lemma_run_prefix(start: WorkerPhase, events: Seq<WorkerEvent>, k: int)
    requires
        run_phases(start, events) is Some,
        0 <= k <= events.len(),
    ensures
        run_phases(start, events.take(k)) is Some,
    decreases k,
{
    if k > 0 {
        assert(events.take(k).drop_first() =~= events.drop_first().take(k - 1));
        assert(events.take(k)[0] == events[0]);
        lemma_run_prefix(spec_next_phase(start, events[0]), events.drop_first(), k - 1);
    }
}

/// The FNV-1a offset basis (64-bit).
pub const FNV_OFFSET: u64 = 0xcbf29ce484222325;

/// The FNV-1a prime (64-bit).
pub const FNV_PRIME: u64 = 0x100000001b3;

/// 64-bit FNV-1a hash of a byte string.
pub open spec fn fnv1a(bytes: Seq<u8>) -> u64
    decreases bytes.len(),
{
    if bytes.len() == 0 {
        FNV_OFFSET
    } else {
        u64_specs::wrapping_mul(fnv1a(bytes.drop_last()) ^ (bytes.last() as u64), FNV_PRIME)
    }
}

/// 64-bit FNV-1a hash of the UTF-8 bytes of a text: the seed of a placeholder image.
pub fn fnv1a_64(text: &str) -> (h: u64)
    ensures
        h == fnv1a(encode_utf8(text@)),
{
    let bytes = text.as_bytes();
    let n = bytes.len();
    let mut hash: u64 = FNV_OFFSET;
    let mut i: usize = 0;
    while i < n
        invariant
            n == bytes@.len(),
            bytes@ == encode_utf8(text@),
            i <= n,
            hash == fnv1a(bytes@.take(i as int)),
        decreases n - i,
    {
        assert(bytes@.take(i + 1).drop_last() =~= bytes@.take(i as int));
        hash = hash ^ (bytes[i] as u64);
        hash = hash.wrapping_mul(FNV_PRIME);
        i = i + 1;
    }
    assert(bytes@.take(n as int) =~= bytes@);
    hash
}

/// The base colour of the placeholder PNG: the low three bytes of the seed text's hash,
/// as red, green and blue.
pub open spec fn spec_png_base_rgb(h: u64) -> (u8, u8, u8) {
    ((h & 0xff) as u8, ((h >> 8) & 0xff) as u8, ((h >> 16) & 0xff) as u8)
}

/// The base colour of the placeholder PNG for a seed text.
pub fn placeholder_png_base(seed_text: &str) -> (r: (u8, u8, u8))
    ensures
        r == spec_png_base_rgb(fnv1a(encode_utf8(seed_text@))),
{
    let h = fnv1a_64(seed_text);
    ((h & 0xff) as u8, ((h >> 8) & 0xff) as u8, ((h >> 16) & 0xff) as u8)
}

/// The base red level of the placeholder GIF for a seed text: the fourth byte of the
/// seed text's hash.
pub fn placeholder_gif_base(seed_text: &str) -> (r: u8)
    ensures
        r == ((fnv1a(encode_utf8(seed_text@)) >> 24) & 0xff) as u8,
{
    let h = fnv1a_64(seed_text);
    ((h >> 24) & 0xff) as u8
}

} // verus!
