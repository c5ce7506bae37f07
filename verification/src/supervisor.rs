use vstd::prelude::*;

use vstd::string::StringExecFns;

verus! {

// The foreground supervisor runs both services attached, multiplexes their
// output and coordinates one clean shutdown on an external interrupt.  The
// concurrency plumbing lives with the caller; what is decided here: when the
// shutdown sequence fires (exactly once), what a relayed line looks like,
// and how long to keep polling for the log-rotation helper.

/// A single-fire shutdown trigger.  The first request wins; later requests
/// are ignored, not queued.
pub struct ShutdownLatch {
    pub fired: bool,
}

/// The answers of `n` consecutive shutdown requests against a latch whose
/// flag starts at `fired`: the first request against an unfired latch is
/// granted, every later one is refused.
pub open spec fn spec_latch_answers(fired: bool, n: nat) -> Seq<bool>
    decreases n,
{
    if n == 0 {
        Seq::empty()
    } else {
        seq![!fired] + spec_latch_answers(true, (n - 1) as nat)
    }
}

/// How many requests were granted.
pub open spec fn spec_granted(answers: Seq<bool>) -> nat
    decreases answers.len(),
{
    if answers.len() == 0 {
        0
    } else {
        (if answers.first() {
            1nat
        } else {
            0nat
        }) + spec_granted(answers.drop_first())
    }
}

impl ShutdownLatch {
    pub fn new() -> (r: Self)
        ensures
            !r.fired,
    {
        ShutdownLatch { fired: false }
    }

    /// Request the shutdown sequence.  Grants the request exactly when no
    /// earlier request was granted; the caller runs the sequence only on a
    /// granted request.
    pub fn request_shutdown(&mut self) -> (r: bool)
        ensures
            final(self).fired,
            r == !old(self).fired,
    {
        let granted = !self.fired;
        self.fired = true;
        granted
    }
}

proof fn lemma_fired_latch_grants_nothing(n: nat)
    ensures
        spec_granted(spec_latch_answers(true, n)) == 0,
    decreases n,
{
    if n == 0 {
    } else {
        lemma_fired_latch_grants_nothing((n - 1) as nat);
        let rest = spec_latch_answers(true, (n - 1) as nat);
        assert((seq![false] + rest).drop_first() =~= rest);
        assert(!(seq![false] + rest).first());
    }
}

/// However many interrupts arrive, a fresh latch grants exactly one shutdown
/// request: one interrupt triggers exactly one shutdown sequence.
pub proof fn lemma_one_interrupt_one_shutdown(n: nat)
    requires
        n >= 1,
    ensures
        spec_granted(spec_latch_answers(false, n)) == 1,
{
    let rest = spec_latch_answers(true, (n - 1) as nat);
    lemma_fired_latch_grants_nothing((n - 1) as nat);
    assert((seq![true] + rest).drop_first() =~= rest);
    assert((seq![true] + rest).first());
}

/// One line as it is written to the console: unchanged but for a prefix
/// naming the service and stream it came from.
pub fn labeled_line(label: &str, line: &str) -> (r: String)
    ensures
        r@ == label@ + ": "@ + line@,
{
    let mut out = label.to_owned();
    out.append(": ");
    out.append(line);
    out
}

/// What the bounded wait for the container to report `running` does next.
#[derive(Debug, Clone, Copy, Eq, PartialEq, Structural)]
pub enum RotatePoll {
    /// The container is running: start the log-rotation helper now.
    Start,
    /// Not running and the window has passed: skip log rotation.  This is
    /// non-fatal, the container itself may still be healthy.
    GiveUp,
    /// Not running, still inside the window: ask again.
    Wait,
}

/// Decide one round of the bounded (about three seconds) poll that precedes
/// starting the log-rotation helper.
pub fn logrotate_poll(running: bool, elapsed_secs: u64) -> (r: RotatePoll)
    ensures
        running ==> r == RotatePoll::Start,
        !running && elapsed_secs > 3 ==> r == RotatePoll::GiveUp,
        !running && elapsed_secs <= 3 ==> r == RotatePoll::Wait,
{
    if running {
        RotatePoll::Start
    } else if elapsed_secs > 3 {
        RotatePoll::GiveUp
    } else {
        RotatePoll::Wait
    }
}

} // verus!
