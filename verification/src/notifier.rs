//! The Notifier: the single consumer of the redemption-signal channel.
//!
//! It performs one health check at startup, waits for the Router's
//! handshake token, then serially drains signals, running one toggle
//! cycle per signal, fully, before accepting the next.  The blocking
//! receives and the cycle's REST calls belong to the surrounding
//! program; this module decides what each received value means and
//! whether the serving loop goes on.

use vstd::prelude::*;
use vstd::string::StringExecFns;

use crate::config::Config;
use crate::log::StatusLog;
use crate::toggle::ToggleError;
use crate::toggle::UserAccess;
use crate::toggle::resolve_channel_id;
use crate::toggle::some_user_matches;

verus! {

/// One unit of work on the Notifier's channel.
#[derive(Clone, Copy, Debug)]
pub enum Signal {
    /// The Router's startup handshake token.
    Handshake,
    /// One redemption to serve with one toggle cycle.
    Redemption,
}

/// What a failed toggle cycle does to the serving loop.
#[derive(Clone, Copy, Debug)]
pub enum ToggleErrorPolicy {
    /// Log the failure and await the next signal.
    Continue,
    /// Log the failure and stop serving.
    Terminate,
}

/// Where the Notifier stands in its life.
#[derive(Clone, Copy, Debug)]
pub enum NotifierPhase {
    /// Not yet serving: the startup health check is outstanding.
    StartupCheck,
    /// Healthy; waiting for the Router's handshake token.
    AwaitHandshake,
    /// Draining signals, one cycle per signal.
    Serving,
    /// Out of service; nothing will be served any more.
    Stopped,
}

/// What the Notifier asks its caller to do with the value it received.
#[derive(Clone, Copy, Debug)]
pub enum NotifierAction {
    /// Run one toggle cycle to completion, then report its outcome.
    RunCycle,
    /// Stop the serving loop.
    Stop,
}

/// The Notifier's state: its phase, and the configured answer to a
/// failed toggle cycle.
#[derive(Clone, Copy, Debug)]
pub struct Notifier {
    pub phase: NotifierPhase,
    pub policy: ToggleErrorPolicy,
}

/// The health outcome owed for a given user listing: healthy exactly
/// when the streamer's channel resolves from it.
pub open spec fn health_outcome(entries: Seq<UserAccess>, streamer: Seq<char>) -> Result<
    (),
    ToggleError,
> {
    if some_user_matches(entries, streamer) {
        Ok(())
    } else {
        Err(ToggleError::ChannelNotFound)
    }
}

/// The startup health probe against the command-toggle API: a pure
/// read of the fetched user listing, healthy exactly when the
/// streamer's channel resolves.
pub fn health_check(entries: &Vec<UserAccess>, streamer: &String) -> (r: Result<(), ToggleError>)
    ensures
        r == health_outcome(entries@, streamer@),
{
    match resolve_channel_id(entries, streamer) {
        Ok(_) => Ok(()),
        Err(_) => Err(ToggleError::ChannelNotFound),
    }
}

/// Law (health-check idempotence): the probe is a function of the
/// listing alone and touches nothing, so asking it twice against the
/// same listing yields the very same outcome both times.
pub fn health_check_twice(entries: &Vec<UserAccess>, streamer: &String) -> (r: (
    Result<(), ToggleError>,
    Result<(), ToggleError>,
))
    ensures
        r.0 == health_outcome(entries@, streamer@),
        r.1 == r.0,
{
    (health_check(entries, streamer), health_check(entries, streamer))
}

/// The line written when a receive finds the channel closed.
pub open spec fn channel_closed_text() -> Seq<char> {
    "redemption channel closed"@
}

/// The line written when a failed cycle is absorbed and serving goes on.
pub open spec fn continue_error_text(e: ToggleError) -> Seq<char> {
    "Error updating command: "@ + e.message_spec() + "\nAttempting to continue..."@
}

impl Notifier {
    /// A Notifier whose health check is still outstanding.
    pub fn new(policy: ToggleErrorPolicy) -> (n: Notifier)
        ensures
            n.phase is StartupCheck,
            n.policy == policy,
    {
        Notifier { phase: NotifierPhase::StartupCheck, policy }
    }

    /// Startup: the single health check.  A healthy listing admits the
    /// Notifier to the handshake; an unhealthy one is logged and stops
    /// it before it ever serves.
    pub fn on_health(&mut self, entries: &Vec<UserAccess>, config: &Config, output: &mut StatusLog)
        requires
            old(self).phase is StartupCheck,
        ensures
            final(self).policy == old(self).policy,
            some_user_matches(entries@, config.streamer@) ==> final(self).phase is AwaitHandshake
                && final(output)@ == old(output)@,
            !some_user_matches(entries@, config.streamer@) ==> final(self).phase is Stopped
                && final(output)@ == old(output)@.push(
                (ToggleError::ChannelNotFound).message_spec(),
            ),
    {
        match health_check(entries, &config.streamer) {
            Ok(_) => {
                self.phase = NotifierPhase::AwaitHandshake;
            },
            Err(e) => {
                let line = e.message();
                output.append(line);
                self.phase = NotifierPhase::Stopped;
            },
        }
    }

    /// The blocking wait for the Router's handshake token.  Any token
    /// admits the Notifier to serving; a closed channel stops it.
    pub fn on_handshake(&mut self, received: Option<Signal>, output: &mut StatusLog)
        requires
            old(self).phase is AwaitHandshake,
        ensures
            final(self).policy == old(self).policy,
            received is Some ==> final(self).phase is Serving && final(output)@ == old(output)@,
            received is None ==> final(self).phase is Stopped && final(output)@ == old(
                output,
            )@.push(channel_closed_text()),
    {
        match received {
            Some(_) => {
                self.phase = NotifierPhase::Serving;
            },
            None => {
                output.append("redemption channel closed".to_owned());
                self.phase = NotifierPhase::Stopped;
            },
        }
    }

    /// One blocking receive while serving: every delivered signal is
    /// served with exactly one toggle cycle; a closed channel stops
    /// the loop.
    pub fn on_signal(&mut self, received: Option<Signal>, output: &mut StatusLog) -> (a:
        NotifierAction)
        requires
            old(self).phase is Serving,
        ensures
            final(self).policy == old(self).policy,
            received is Some ==> a is RunCycle && final(self).phase is Serving && final(output)@
                == old(output)@,
            received is None ==> a is Stop && final(self).phase is Stopped && final(output)@ == old(
                output,
            )@.push(channel_closed_text()),
    {
        match received {
            Some(_) => NotifierAction::RunCycle,
            None => {
                output.append("redemption channel closed".to_owned());
                self.phase = NotifierPhase::Stopped;
                NotifierAction::Stop
            },
        }
    }

    /// Absorbs the outcome of the cycle just run.  A success passes in
    /// silence.  A failure is logged; under the continue policy the
    /// loop then awaits the next signal, under the terminate policy it
    /// stops.
    pub fn on_cycle_outcome(&mut self, outcome: Result<(), ToggleError>, output: &mut StatusLog)
        requires
            old(self).phase is Serving,
        ensures
            final(self).policy == old(self).policy,
            outcome is Ok ==> final(self).phase is Serving && final(output)@ == old(output)@,
            outcome matches Err(e) ==> ({
                &&& old(self).policy is Continue ==> final(self).phase is Serving
                    && final(output)@ == old(output)@.push(continue_error_text(e))
                &&& old(self).policy is Terminate ==> final(self).phase is Stopped
                    && final(output)@ == old(output)@.push(e.message_spec())
            }),
    {
        match outcome {
            Ok(_) => {},
            Err(e) => {
                match self.policy {
                    ToggleErrorPolicy::Continue => {
                        let mut line = "Error updating command: ".to_owned();
                        let detail = e.message();
                        line.append(detail.as_str());
                        line.append("\nAttempting to continue...");
                        output.append(line);
                    },
                    ToggleErrorPolicy::Terminate => {
                        let line = e.message();
                        output.append(line);
                        self.phase = NotifierPhase::Stopped;
                    },
                }
            },
        }
    }
}

/// What absorbing one cycle outcome does to the Notifier's state,
/// mirroring [`Notifier::on_cycle_outcome`].
pub open spec fn outcome_transition(n: Notifier, outcome: Result<(), ToggleError>) -> Notifier {
    if outcome is Ok {
        n
    } else if n.policy is Continue {
        n
    } else {
        Notifier { phase: NotifierPhase::Stopped, policy: n.policy }
    }
}

/// How many toggle cycles run when signals keep arriving at a Notifier
/// and the k-th cycle ends with `outcomes[k]`: one cycle per delivered
/// signal for as long as the Notifier serves; a failure under the
/// terminate policy ends the run early.
pub open spec fn cycles_run(n: Notifier, outcomes: Seq<Result<(), ToggleError>>) -> nat
    decreases outcomes.len(),
{
    if !(n.phase is Serving) || outcomes.len() == 0 {
        0
    } else {
        1 + cycles_run(outcome_transition(n, outcomes[0]), outcomes.skip(1))
    }
}

/// Law: while the Notifier lives under the continue-on-error policy,
/// every delivered signal is served with exactly one toggle cycle — a
/// failed cycle is logged and does not stop the serving loop, so none
/// of the following signals is dropped.
pub proof fn lemma_one_cycle_per_signal(n: Notifier, outcomes: Seq<Result<(), ToggleError>>)
    requires
        n.phase is Serving,
        n.policy is Continue,
    ensures
        cycles_run(n, outcomes) == outcomes.len(),
    decreases outcomes.len(),
{
    if outcomes.len() == 0 {
    } else {
        let stepped = outcome_transition(n, outcomes[0]);
        assert(stepped.phase is Serving && stepped.policy is Continue);
        lemma_one_cycle_per_signal(stepped, outcomes.skip(1));
    }
}

/// Law (end to end): while both workers live under the continue
/// policy, a run over any event sequence executes exactly one toggle
/// cycle per `Notification` event.  The Router forwards one signal per
/// notification, the unbounded channel delivers every one of them, and
/// the Notifier serves each delivered signal with one cycle, whatever
/// each cycle's outcome.
pub proof fn lemma_one_cycle_per_notification(
    s: crate::router::RouterView,
    events: Seq<crate::router::EventView>,
    n: Notifier,
    outcomes: Seq<Result<(), ToggleError>>,
)
    requires
        n.phase is Serving,
        n.policy is Continue,
        outcomes.len() == crate::router::count_forwarded(crate::router::router_run(s, events).1),
    ensures
        cycles_run(n, outcomes) == crate::router::count_notifications(events),
{
    crate::router::lemma_one_signal_per_notification(s, events);
    lemma_one_cycle_per_signal(n, outcomes);
}

/// The transcript of a whole serving run: the cycles' transcripts, one
/// after another.  The Notifier finishes each cycle before taking the
/// next signal, so the full transcript is exactly this concatenation.
pub open spec fn concat_transcripts(cycles: Seq<Seq<Seq<char>>>) -> Seq<Seq<char>>
    decreases cycles.len(),
{
    if cycles.len() == 0 {
        Seq::empty()
    } else {
        cycles[0] + concat_transcripts(cycles.skip(1))
    }
}

/// Where cycle `i`'s transcript begins within the whole serving
/// transcript.
pub open spec fn transcript_offset(cycles: Seq<Seq<Seq<char>>>, i: int) -> int {
    concat_transcripts(cycles.take(i)).len() as int
}

/// Concatenating one more cycle transcript appends its lines unchanged.
proof fn lemma_concat_push(cycles: Seq<Seq<Seq<char>>>, more: Seq<Seq<char>>)
    ensures
        concat_transcripts(cycles.push(more)) == concat_transcripts(cycles) + more,
    decreases cycles.len(),
{
    if cycles.len() == 0 {
        assert(cycles.push(more).len() == 1);
        assert(cycles.push(more)[0] == more);
        assert(cycles.push(more).skip(1) =~= Seq::<Seq<Seq<char>>>::empty());
        assert(concat_transcripts(Seq::<Seq<Seq<char>>>::empty()) == Seq::<Seq<char>>::empty());
        assert(concat_transcripts(cycles.push(more)) == more + Seq::<Seq<char>>::empty());
        assert(more + Seq::<Seq<char>>::empty() =~= Seq::<Seq<char>>::empty() + more);
        assert(concat_transcripts(cycles) == Seq::<Seq<char>>::empty());
    } else {
        assert(cycles.push(more).skip(1) =~= cycles.skip(1).push(more));
        lemma_concat_push(cycles.skip(1), more);
        assert(concat_transcripts(cycles.push(more)) == cycles[0] + (concat_transcripts(
            cycles.skip(1),
        ) + more));
        assert(cycles[0] + (concat_transcripts(cycles.skip(1)) + more) =~= (cycles[0]
            + concat_transcripts(cycles.skip(1))) + more);
    }
}

/// Each cycle's transcript begins right where the previous one ends.
pub proof fn lemma_offset_next(cycles: Seq<Seq<Seq<char>>>, i: int)
    requires
        0 <= i < cycles.len(),
    ensures
        transcript_offset(cycles, i + 1) == transcript_offset(cycles, i) + cycles[i].len(),
{
    assert(cycles.take(i + 1) =~= cycles.take(i).push(cycles[i]));
    lemma_concat_push(cycles.take(i), cycles[i]);
}

/// An earlier cycle's transcript ends at or before a later one's start.
pub proof fn lemma_offsets_ordered(cycles: Seq<Seq<Seq<char>>>, i: int, j: int)
    requires
        0 <= i < j <= cycles.len(),
    ensures
        transcript_offset(cycles, i) + cycles[i].len() <= transcript_offset(cycles, j),
    decreases j - i,
{
    lemma_offset_next(cycles, i);
    if i + 1 < j {
        lemma_offsets_ordered(cycles, i + 1, j);
    }
}

/// Each line of each cycle stands unbroken at the cycle's offset.
pub proof fn lemma_transcript_position(cycles: Seq<Seq<Seq<char>>>, i: int, p: int)
    requires
        0 <= i < cycles.len(),
        0 <= p < cycles[i].len(),
    ensures
        0 <= transcript_offset(cycles, i) + p < concat_transcripts(cycles).len(),
        concat_transcripts(cycles)[transcript_offset(cycles, i) + p] == cycles[i][p],
    decreases i,
{
    if i == 0 {
        assert(cycles.take(0) =~= Seq::<Seq<Seq<char>>>::empty());
        assert(concat_transcripts(cycles) == cycles[0] + concat_transcripts(cycles.skip(1)));
    } else {
        lemma_transcript_position(cycles.skip(1), i - 1, p);
        lemma_offset_next(cycles, 0);
        assert(cycles.take(1) =~= seq![cycles[0]]);
        assert(concat_transcripts(seq![cycles[0]]) == cycles[0] + concat_transcripts(Seq::<
            Seq<Seq<char>>,
        >::empty()));
        assert(concat_transcripts(seq![cycles[0]]) =~= cycles[0]);
        lemma_offset_shift(cycles, i);
        assert(concat_transcripts(cycles) == cycles[0] + concat_transcripts(cycles.skip(1)));
    }
}

/// Offsets within the tail shift by the head's length.
proof fn lemma_offset_shift(cycles: Seq<Seq<Seq<char>>>, i: int)
    requires
        1 <= i <= cycles.len(),
    ensures
        transcript_offset(cycles, i) == cycles[0].len() + transcript_offset(cycles.skip(1), i - 1),
{
    assert(cycles.take(i)[0] == cycles[0]);
    assert(cycles.take(i).skip(1) =~= cycles.skip(1).take(i - 1));
    assert(concat_transcripts(cycles.take(i)) == cycles[0] + concat_transcripts(
        cycles.skip(1).take(i - 1),
    ));
}

/// Law (cycles are serial, never overlapping): in the transcript of a
/// whole serving run, every line of an earlier cycle stands strictly
/// before every line of a later cycle.  In particular a later cycle's
/// "enabled" line appears only after an earlier cycle's "disabled"
/// line.
pub proof fn lemma_cycles_never_interleave(cycles: Seq<Seq<Seq<char>>>, i: int, j: int, p: int, q: int)
    requires
        0 <= i < j < cycles.len(),
        0 <= p < cycles[i].len(),
        0 <= q < cycles[j].len(),
    ensures
        transcript_offset(cycles, i) + p < transcript_offset(cycles, j) + q,
        concat_transcripts(cycles)[transcript_offset(cycles, i) + p] == cycles[i][p],
        concat_transcripts(cycles)[transcript_offset(cycles, j) + q] == cycles[j][q],
{
    lemma_offsets_ordered(cycles, i, j);
    lemma_transcript_position(cycles, i, p);
    lemma_transcript_position(cycles, j, q);
}

} // verus!
