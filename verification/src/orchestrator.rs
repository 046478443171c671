//! The watch orchestrator: the run-loop state machine, the cancellation
//! handshake and the graceful-shutdown protocol with its bounded-time push.
//!
//! The orchestrator decides; its collaborators act. Each step takes what
//! the outside world observed — a polled event, the cancellation flag, the
//! push task's completion signal — and returns the backend calls to make.
//! The caller drives the loop: while the machine is running it polls the
//! event stream with a short bounded wait and hands the outcome to
//! [`Watch::handle_poll`]; once shutdown begins it performs the final flush
//! of [`Watch::shutdown_flush`]; and when a push was requested it waits,
//! for at most the configured timeout, before reporting back through
//! [`Watch::finish_push`].

use vstd::prelude::*;

use crate::auth::AuthenticationMethod;
use crate::clock::now_utc_string;
use crate::config::WatchConfig;
use crate::event::exited_message;
use crate::event::spec_translate;
use crate::event::translate;
use crate::event::build_exited_message;
use crate::event::FsEvent;

verus! {

/// Where the orchestrator stands in its life cycle.
#[derive(Clone, Copy, Debug, PartialEq, Eq, Structural)]
pub enum RunState {
    /// Watching: polling the event stream and committing translated events.
    Running,
    /// Cancellation observed; the final flush has not been issued yet.
    ShuttingDown,
    /// The shutdown push sub-phase: the flush is done and a push task runs;
    /// the orchestrator waits for its signal, at most the configured
    /// timeout.
    Pushing,
    /// Nothing more will be done.
    Terminated,
}

/// What one bounded wait on the event stream observed.
pub enum PollOutcome {
    /// The stream delivered a notification.
    Event(FsEvent),
    /// The bounded wait elapsed with nothing to deliver.
    TimedOut,
    /// The event source closed; degraded but alive, only cancellation ends
    /// the run.
    Disconnected,
}

/// How the wait for the push task ended.
#[derive(Clone, Copy, Debug, PartialEq, Eq, Structural)]
pub enum PushOutcome {
    /// The push task signalled completion in time, successfully or not.
    Signalled { succeeded: bool },
    /// The wait timed out; the push task is abandoned, not cancelled.
    TimedOut,
}

/// One call the orchestrator instructs its repository backend collaborator
/// to make.
#[derive(Debug)]
pub enum Action {
    /// Mark this path's current content for the next commit.
    Stage { path: String },
    /// Mark the whole tree's current content for the next commit.
    StageAll,
    /// Record the staged content as a commit with this message.
    Commit { message: String },
    /// Hand the backend to a concurrent task that pushes with this
    /// strategy, then wait for its signal, at most the configured timeout.
    StartPush { auth: AuthenticationMethod },
}

/// What a poll step emits for one delivered event: the stage and the
/// commit of the translated change, in that order, or nothing where the
/// translator drops the event.
pub open spec fn acts_for_event(acts: Seq<Action>, e: FsEvent, ts: Seq<char>) -> bool {
    match spec_translate(e, ts) {
        Some(pm) => {
            &&& acts.len() == 2
            &&& acts[0] matches Action::Stage { path } && path@ == pm.0
            &&& acts[1] matches Action::Commit { message } && message@ == pm.1
        },
        None => acts.len() == 0,
    }
}

/// What a poll step emits: translation of a delivered event; nothing on a
/// quiet timeout; and nothing on a disconnected stream, which is logged by
/// the caller but never ends the run.
pub open spec fn acts_for_poll(acts: Seq<Action>, poll: PollOutcome, ts: Seq<char>) -> bool {
    match poll {
        PollOutcome::Event(e) => acts_for_event(acts, e, ts),
        PollOutcome::TimedOut => acts.len() == 0,
        PollOutcome::Disconnected => acts.len() == 0,
    }
}

/// What the final flush emits: exactly one stage-all and exactly one
/// commit of the exit snapshot, then — only when a push at exit was
/// configured — the handoff to the push task.
pub open spec fn acts_for_flush(acts: Seq<Action>, config: WatchConfig, ts: Seq<char>) -> bool {
    if config.push_on_exit {
        &&& acts.len() == 3
        &&& acts[0] is StageAll
        &&& acts[1] matches Action::Commit { message } && message@ == exited_message(ts)
        &&& acts[2] matches Action::StartPush { auth } && Some(auth) == config.auth_method
    } else {
        &&& acts.len() == 2
        &&& acts[0] is StageAll
        &&& acts[1] matches Action::Commit { message } && message@ == exited_message(ts)
    }
}

/// The watch orchestrator: the configuration it was created with, immutable
/// thereafter, and where it stands in its life cycle.
pub struct Watch {
    /// The merged configuration of this run.
    pub config: WatchConfig,
    /// The current phase of the run.
    pub state: RunState,
}

impl Watch {
    /// The orchestrator's invariant: its configuration is well formed.
    pub open spec fn wf(self) -> bool {
        self.config.wf()
    }

    /// Set up an orchestrator over a well-formed configuration; it starts
    /// running.
    pub fn new(config: WatchConfig) -> (w: Watch)
        requires
            config.wf(),
        ensures
            w.config == config,
            w.state is Running,
            w.wf(),
    {
        Watch { config, state: RunState::Running }
    }

    /// Whether the run loop should keep polling.
    pub fn is_running(&self) -> (r: bool)
        ensures
            r == (self.state is Running),
    {
        matches!(self.state, RunState::Running)
    }

    /// One turn of the run loop, with the commit timestamp supplied by the
    /// caller. If cancellation was observed, ignore the poll and begin
    /// shutting down, emitting nothing. Otherwise stay running and emit
    /// exactly the stage-and-commit pair of a translated event; a quiet
    /// timeout and a disconnected stream emit nothing.
    pub fn handle_poll_at(
        &mut self,
        cancelled: bool,
        poll: PollOutcome,
        timestamp: &str,
    ) -> (acts: Vec<Action>)
        requires
            old(self).state is Running,
            old(self).wf(),
        ensures
            final(self).config == old(self).config,
            final(self).wf(),
            cancelled ==> final(self).state is ShuttingDown && acts@.len() == 0,
            !cancelled ==> final(self).state is Running && acts_for_poll(
                acts@,
                poll,
                timestamp@,
            ),
            next(
                *old(self),
                StepLabel::Poll { cancelled, poll, ts: timestamp@ },
                *final(self),
                acts@,
            ),
    {
        if cancelled {
            self.state = RunState::ShuttingDown;
            return Vec::new();
        }
        match poll {
            PollOutcome::Event(e) => {
                match translate(&e, timestamp) {
                    Some(req) => {
                        let mut acts: Vec<Action> = Vec::new();
                        acts.push(Action::Stage { path: req.path });
                        acts.push(Action::Commit { message: req.message });
                        acts
                    },
                    None => Vec::new(),
                }
            },
            PollOutcome::TimedOut => Vec::new(),
            PollOutcome::Disconnected => Vec::new(),
        }
    }

    /// One turn of the run loop, stamping any commit message with the
    /// clock read at translation time.
    pub fn handle_poll(&mut self, cancelled: bool, poll: PollOutcome) -> (acts: Vec<Action>)
        requires
            old(self).state is Running,
            old(self).wf(),
        ensures
            final(self).config == old(self).config,
            final(self).wf(),
            cancelled ==> final(self).state is ShuttingDown && acts@.len() == 0,
            !cancelled ==> final(self).state is Running && (exists|ts: Seq<char>|
                ts.len() > 0 && #[trigger] acts_for_poll(acts@, poll, ts)),
            exists|ts: Seq<char>|
                ts.len() > 0 && #[trigger] next(
                    *old(self),
                    StepLabel::Poll { cancelled, poll, ts },
                    *final(self),
                    acts@,
                ),
    {
        let ghost p = poll;
        let ts = now_utc_string();
        let acts = self.handle_poll_at(cancelled, poll, ts.as_str());
        proof {
            if !cancelled {
                assert(ts@.len() > 0 && acts_for_poll(acts@, p, ts@));
            }
            assert(ts@.len() > 0 && next(
                *old(self),
                StepLabel::Poll { cancelled, poll: p, ts: ts@ },
                *self,
                acts@,
            ));
        }
        acts
    }

    /// The final flush of the shutdown protocol, with the commit timestamp
    /// supplied by the caller: exactly one stage-all and one exit-snapshot
    /// commit, unconditionally; then either the handoff to the push task,
    /// when a push at exit was configured, or termination.
    pub fn shutdown_flush_at(&mut self, timestamp: &str) -> (acts: Vec<Action>)
        requires
            old(self).state is ShuttingDown,
            old(self).wf(),
        ensures
            final(self).config == old(self).config,
            final(self).wf(),
            acts_for_flush(acts@, old(self).config, timestamp@),
            final(self).state == (if old(self).config.push_on_exit {
                RunState::Pushing
            } else {
                RunState::Terminated
            }),
            next(*old(self), StepLabel::Flush { ts: timestamp@ }, *final(self), acts@),
    {
        let mut acts: Vec<Action> = Vec::new();
        acts.push(Action::StageAll);
        acts.push(Action::Commit { message: build_exited_message(timestamp) });
        if self.config.push_on_exit {
            match &self.config.auth_method {
                Some(auth) => {
                    acts.push(Action::StartPush { auth: auth.clone() });
                },
                None => {
                    proof {
                        assert(false);
                    }
                },
            }
            self.state = RunState::Pushing;
        } else {
            self.state = RunState::Terminated;
        }
        acts
    }

    /// The final flush of the shutdown protocol, stamping the exit
    /// snapshot with the clock.
    pub fn shutdown_flush(&mut self) -> (acts: Vec<Action>)
        requires
            old(self).state is ShuttingDown,
            old(self).wf(),
        ensures
            final(self).config == old(self).config,
            final(self).wf(),
            exists|ts: Seq<char>|
                ts.len() > 0 && #[trigger] acts_for_flush(acts@, old(self).config, ts),
            final(self).state == (if old(self).config.push_on_exit {
                RunState::Pushing
            } else {
                RunState::Terminated
            }),
            exists|ts: Seq<char>|
                ts.len() > 0 && #[trigger] next(
                    *old(self),
                    StepLabel::Flush { ts },
                    *final(self),
                    acts@,
                ),
    {
        let ts = now_utc_string();
        let acts = self.shutdown_flush_at(ts.as_str());
        proof {
            assert(ts@.len() > 0 && acts_for_flush(acts@, old(self).config, ts@));
            assert(ts@.len() > 0 && next(*old(self), StepLabel::Flush { ts: ts@ }, *self, acts@));
        }
        acts
    }

    /// End the push sub-phase. Whatever the wait observed — a completion
    /// signal, successful or not, or the timeout — the run terminates; a
    /// hung push never prevents shutdown, it is abandoned to process exit.
    pub fn finish_push(&mut self, outcome: PushOutcome) -> (timed_out: bool)
        requires
            old(self).state is Pushing,
            old(self).wf(),
        ensures
            final(self).config == old(self).config,
            final(self).wf(),
            final(self).state is Terminated,
            timed_out == (outcome is TimedOut),
            next(
                *old(self),
                StepLabel::FinishPush { outcome },
                *final(self),
                Seq::<Action>::empty(),
            ),
    {
        self.state = RunState::Terminated;
        matches!(outcome, PushOutcome::TimedOut)
    }
}

/// What one step of the orchestrator was given: the observations of each
/// of its three entry points.
pub enum StepLabel {
    /// A turn of the run loop: the cancellation flag, the poll outcome and
    /// the timestamp the clock gave.
    Poll { cancelled: bool, poll: PollOutcome, ts: Seq<char> },
    /// The final flush, with the timestamp the clock gave.
    Flush { ts: Seq<char> },
    /// The end of the push sub-phase.
    FinishPush { outcome: PushOutcome },
}

/// The orchestrator's transition relation: exactly what each step function
/// ensures, gathered in one place so that whole runs can be reasoned
/// about.
pub open spec fn next(pre: Watch, label: StepLabel, post: Watch, acts: Seq<Action>) -> bool {
    &&& post.config == pre.config
    &&& match label {
        StepLabel::Poll { cancelled, poll, ts } => {
            &&& pre.state is Running
            &&& if cancelled {
                post.state is ShuttingDown && acts.len() == 0
            } else {
                post.state is Running && acts_for_poll(acts, poll, ts)
            }
        },
        StepLabel::Flush { ts } => {
            &&& pre.state is ShuttingDown
            &&& acts_for_flush(acts, pre.config, ts)
            &&& post.state == (if pre.config.push_on_exit {
                RunState::Pushing
            } else {
                RunState::Terminated
            })
        },
        StepLabel::FinishPush { outcome } => {
            &&& pre.state is Pushing
            &&& post.state is Terminated
            &&& acts.len() == 0
        },
    }
}

/// A whole run: `states` records the orchestrator before and after each
/// step, `actss` what each step emitted.
pub open spec fn run_from(
    init: Watch,
    labels: Seq<StepLabel>,
    states: Seq<Watch>,
    actss: Seq<Seq<Action>>,
) -> bool {
    &&& states.len() == labels.len() + 1
    &&& actss.len() == labels.len()
    &&& states[0] == init
    &&& forall|i: int|
        0 <= i < labels.len() ==> #[trigger] next(states[i], labels[i], states[i + 1], actss[i])
}

/// How many stage-all calls one step's actions hold.
pub open spec fn count_stage_all(acts: Seq<Action>) -> nat
    decreases acts.len(),
{
    if acts.len() == 0 {
        0
    } else {
        count_stage_all(acts.drop_last()) + (if acts.last() is StageAll {
            1nat
        } else {
            0nat
        })
    }
}

/// How many commit calls one step's actions hold.
pub open spec fn count_commits(acts: Seq<Action>) -> nat
    decreases acts.len(),
{
    if acts.len() == 0 {
        0
    } else {
        count_commits(acts.drop_last()) + (if acts.last() is Commit {
            1nat
        } else {
            0nat
        })
    }
}

/// How many stage-all calls a whole run makes.
pub open spec fn total_stage_all(actss: Seq<Seq<Action>>) -> nat
    decreases actss.len(),
{
    if actss.len() == 0 {
        0
    } else {
        total_stage_all(actss.drop_last()) + count_stage_all(actss.last())
    }
}

/// How many commit calls the shutdown protocol of a run makes: those of
/// its flush and push steps, leaving the event-driven commits of the poll
/// steps aside.
pub open spec fn shutdown_commits(labels: Seq<StepLabel>, actss: Seq<Seq<Action>>) -> nat
    decreases labels.len(),
{
    if labels.len() == 0 || actss.len() != labels.len() {
        0
    } else {
        shutdown_commits(labels.drop_last(), actss.drop_last()) + (if labels.last() is Poll {
            0nat
        } else {
            count_commits(actss.last())
        })
    }
}

/// How many stage-all calls have been made by the time the orchestrator
/// stands in a given phase: none until the flush, one from then on.
pub open spec fn flushes_so_far(s: RunState) -> nat {
    match s {
        RunState::Running => 0,
        RunState::ShuttingDown => 0,
        RunState::Pushing => 1,
        RunState::Terminated => 1,
    }
}

/// Each step's books balance: what it emits is exactly the difference the
/// phase records — poll steps emit no stage-all and no shutdown commit,
/// the flush emits one of each, the push end emits nothing.
proof fn lemma_step_counts(pre: Watch, label: StepLabel, post: Watch, acts: Seq<Action>)
    requires
        next(pre, label, post, acts),
    ensures
        flushes_so_far(pre.state) + count_stage_all(acts) == flushes_so_far(post.state),
        flushes_so_far(pre.state) + (if label is Poll {
            0nat
        } else {
            count_commits(acts)
        }) == flushes_so_far(post.state),
{
    reveal_with_fuel(count_stage_all, 4);
    reveal_with_fuel(count_commits, 4);
    match label {
        StepLabel::Poll { cancelled, poll, ts } => {
            if !cancelled {
                match poll {
                    PollOutcome::Event(e) => {
                        if spec_translate(e, ts) is Some {
                            assert(acts.drop_last().drop_last() =~= Seq::<Action>::empty());
                        } else {
                            assert(acts =~= Seq::<Action>::empty());
                        }
                    },
                    _ => {
                        assert(acts =~= Seq::<Action>::empty());
                    },
                }
            } else {
                assert(acts =~= Seq::<Action>::empty());
            }
        },
        StepLabel::Flush { ts } => {
            if pre.config.push_on_exit {
                assert(acts.drop_last().drop_last().drop_last() =~= Seq::<Action>::empty());
            } else {
                assert(acts.drop_last().drop_last() =~= Seq::<Action>::empty());
            }
        },
        StepLabel::FinishPush { outcome } => {
            assert(acts =~= Seq::<Action>::empty());
        },
    }
}

/// Over a whole run the books balance: the stage-all calls made, and the
/// shutdown commits made, each equal the difference between the final and
/// the initial phase.
proof fn lemma_run_counts(
    init: Watch,
    labels: Seq<StepLabel>,
    states: Seq<Watch>,
    actss: Seq<Seq<Action>>,
)
    requires
        run_from(init, labels, states, actss),
    ensures
        flushes_so_far(init.state) + total_stage_all(actss) == flushes_so_far(states.last().state),
        flushes_so_far(init.state) + shutdown_commits(labels, actss) == flushes_so_far(
            states.last().state,
        ),
    decreases labels.len(),
{
    if labels.len() == 0 {
        assert(states.last() == init);
    } else {
        let n = labels.len() as int;
        assert(run_from(init, labels.drop_last(), states.drop_last(), actss.drop_last())) by {
            assert forall|i: int| 0 <= i < n - 1 implies #[trigger] next(
                states.drop_last()[i],
                labels.drop_last()[i],
                states.drop_last()[i + 1],
                actss.drop_last()[i],
            ) by {
                assert(next(states[i], labels[i], states[i + 1], actss[i]));
            }
        }
        lemma_run_counts(init, labels.drop_last(), states.drop_last(), actss.drop_last());
        assert(next(states[n - 1], labels[n - 1], states[n], actss[n - 1]));
        lemma_step_counts(states[n - 1], labels[n - 1], states[n], actss[n - 1]);
        assert(states.drop_last().last() == states[n - 1]);
    }
}

/// The shutdown protocol runs exactly once: however many event-driven
/// commits a run made, once cancellation has taken it from running to
/// terminated it has made exactly one stage-all call, and exactly one
/// commit outside the poll steps — the flush's exit snapshot.
pub proof fn lemma_single_final_flush(
    init: Watch,
    labels: Seq<StepLabel>,
    states: Seq<Watch>,
    actss: Seq<Seq<Action>>,
)
    requires
        run_from(init, labels, states, actss),
        init.state is Running,
        states.last().state is Terminated,
    ensures
        total_stage_all(actss) == 1,
        shutdown_commits(labels, actss) == 1,
{
    lemma_run_counts(init, labels, states, actss);
}

/// Once the push sub-phase has begun, any step ends the run: whether the
/// push task signalled completion or the wait timed out, the next state is
/// terminated. The caller's wait is itself bounded, so termination is
/// never blocked on a hung push.
pub proof fn lemma_push_phase_always_ends(
    pre: Watch,
    label: StepLabel,
    post: Watch,
    acts: Seq<Action>,
)
    requires
        next(pre, label, post, acts),
        pre.state is Pushing,
    ensures
        post.state is Terminated,
{
}

/// Termination is final: no step leaves a terminated orchestrator.
pub proof fn lemma_terminated_is_final(
    pre: Watch,
    label: StepLabel,
    post: Watch,
    acts: Seq<Action>,
)
    requires
        next(pre, label, post, acts),
    ensures
        !(pre.state is Terminated),
{
}

} // verus!
