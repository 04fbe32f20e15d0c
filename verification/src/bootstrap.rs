//! Bringing the agent up: probe it, start it once if it does not answer, and
//! probe again until it answers or the probes run out.

use vstd::prelude::*;
use crate::client::Ngrok;
use crate::error::ClientError;
use crate::tunnel::Tunnels;

verus! {

/// How often the agent is probed before the bootstrap gives up.
pub const MAX_PROBES: u8 = 7;

/// How long to wait before each probe but the first, in milliseconds.
pub const PROBE_DELAY_MILLIS: u64 = 10;

/// Where a bootstrap stands.
#[derive(Clone, Copy, Debug, PartialEq, Eq, Structural)]
pub enum Phase {
    /// A probe is under way.
    Probing,
    /// The agent is being started.
    Launching,
    /// The agent answered; the bootstrap is over.
    Converged,
    /// The probes ran out; the bootstrap is over.
    Failed,
}

/// A bootstrap in progress. `H` is the handle of a started process.
#[derive(Debug)]
pub struct Bootstrap<H> {
    pub phase: Phase,
    /// How many probes were asked for so far.
    pub probes: u8,
    /// Whether this bootstrap has asked for the agent to be started.
    pub launch_tried: bool,
    /// The process that this bootstrap started, where it started one.
    pub child: Option<H>,
}

/// What the caller reports back after carrying out an [`Action`].
#[derive(Debug)]
pub enum Event<H> {
    /// The probe ended, with the tunnels of the agent or with a failure.
    Probed(Result<Tunnels, ClientError>),
    /// The start of the agent ended, with its process or without one.
    Launched(Option<H>),
}

/// What a bootstrap asks its caller to do next.
#[derive(Debug)]
pub enum Action<H> {
    /// Wait for the given time, then ask the agent for its tunnels.
    Probe { delay_millis: u64 },
    /// Start the agent.
    Launch,
    /// Stop: the bootstrap is over, with this result.
    Finish(Result<(Tunnels, Option<H>), ClientError>),
    /// Nothing: the event did not answer what was asked for, and was dropped.
    Rejected,
}

/// A bootstrap at its beginning: the first probe is under way.
pub open spec fn initial<H>() -> Bootstrap<H> {
    Bootstrap { phase: Phase::Probing, probes: 1, launch_tried: false, child: None }
}

/// What follows a probe that failed once the agent has been started, or the
/// attempt to start it: another probe while any is left, else the end.
pub open spec fn retry<H>(state: Bootstrap<H>) -> (Bootstrap<H>, Action<H>) {
    if state.probes < MAX_PROBES {
        (
            Bootstrap {
                phase: Phase::Probing,
                probes: (state.probes + 1) as u8,
                launch_tried: state.launch_tried,
                child: state.child,
            },
            Action::Probe { delay_millis: PROBE_DELAY_MILLIS },
        )
    } else {
        (
            Bootstrap {
                phase: Phase::Failed,
                probes: state.probes,
                launch_tried: state.launch_tried,
                child: None,
            },
            Action::Finish(Err(ClientError::BootstrapExhausted)),
        )
    }
}

/// The state that an event leads to, and what is to be done next.
///
/// - A probe that succeeds ends the bootstrap with the tunnels and with the
///   process that the bootstrap started, if it started one.
/// - The first probe that fails has the agent started; later ones do not.
/// - After the start, and after every later failure, the agent is probed
///   again until [`MAX_PROBES`] probes have been made.
/// - An event that does not answer what was asked for changes nothing.
pub open spec fn after<H>(state: Bootstrap<H>, event: Event<H>) -> (Bootstrap<H>, Action<H>) {
    match (state.phase, event) {
        (Phase::Probing, Event::Probed(Ok(tunnels))) => (
            Bootstrap {
                phase: Phase::Converged,
                probes: state.probes,
                launch_tried: state.launch_tried,
                child: None,
            },
            Action::Finish(Ok((tunnels, state.child))),
        ),
        (Phase::Probing, Event::Probed(Err(_))) => if !state.launch_tried {
            (
                Bootstrap {
                    phase: Phase::Launching,
                    probes: state.probes,
                    launch_tried: true,
                    child: state.child,
                },
                Action::Launch,
            )
        } else {
            retry(state)
        },
        (Phase::Launching, Event::Launched(child)) => retry(
            Bootstrap {
                phase: state.phase,
                probes: state.probes,
                launch_tried: state.launch_tried,
                child,
            },
        ),
        _ => (state, Action::Rejected),
    }
}

/// The actions that a run of events draws from a bootstrap, in order.
pub open spec fn actions<H>(state: Bootstrap<H>, events: Seq<Event<H>>) -> Seq<Action<H>>
    decreases events.len(),
{
    if events.len() == 0 {
        Seq::empty()
    } else {
        let (next, action) = after(state, events[0]);
        seq![action] + actions(next, events.drop_first())
    }
}

/// How often a list of actions asks for the agent to be started.
pub open spec fn launches<H>(list: Seq<Action<H>>) -> nat
    decreases list.len(),
{
    if list.len() == 0 {
        0
    } else if list[0] is Launch {
        1 + launches(list.drop_first())
    } else {
        launches(list.drop_first())
    }
}

/// How often a list of actions asks for a probe.
pub open spec fn probes<H>(list: Seq<Action<H>>) -> nat
    decreases list.len(),
{
    if list.len() == 0 {
        0
    } else if list[0] is Probe {
        1 + probes(list.drop_first())
    } else {
        probes(list.drop_first())
    }
}

/// From any state, a run of events asks for the agent to be started at most
/// once, and not at all once it has been asked for.
pub proof fn lemma_launches_from<H>(state: Bootstrap<H>, events: Seq<Event<H>>)
    ensures
        launches(actions(state, events)) <= if state.launch_tried {
            0nat
        } else {
            1nat
        },
    decreases events.len(),
{
    if events.len() > 0 {
        let (next, action) = after(state, events[0]);
        let rest = actions(next, events.drop_first());
        lemma_launches_from(next, events.drop_first());
        assert((seq![action] + rest).drop_first() =~= rest);
    }
}

/// A bootstrap asks for the agent to be started at most once, however many
/// probes fail and whatever comes of the start.
pub proof fn lemma_single_launch<H>(events: Seq<Event<H>>)
    ensures
        launches(actions(initial::<H>(), events)) <= 1,
{
    lemma_launches_from(initial::<H>(), events);
}

/// From any state, a run of events asks for no more probes than are left.
pub proof fn lemma_probes_from<H>(state: Bootstrap<H>, events: Seq<Event<H>>)
    ensures
        probes(actions(state, events)) <= if state.probes < MAX_PROBES {
            MAX_PROBES - state.probes
        } else {
            0
        },
    decreases events.len(),
{
    if events.len() > 0 {
        let (next, action) = after(state, events[0]);
        let rest = actions(next, events.drop_first());
        lemma_probes_from(next, events.drop_first());
        assert((seq![action] + rest).drop_first() =~= rest);
    }
}

/// A bootstrap probes the agent at most [`MAX_PROBES`] times, the first probe
/// counted in.
pub proof fn lemma_bounded_probes<H>(events: Seq<Event<H>>)
    ensures
        1 + probes(actions(initial::<H>(), events)) <= MAX_PROBES,
{
    lemma_probes_from(initial::<H>(), events);
}

impl Ngrok {
    /// Begins a bootstrap: hands out its first state, and the first probe to
    /// make.
    pub fn start<H>(&self) -> (r: (Bootstrap<H>, Action<H>))
        ensures
            r.0 == initial::<H>(),
            r.1 == (Action::<H>::Probe { delay_millis: 0 }),
    {
        (
            Bootstrap { phase: Phase::Probing, probes: 1, launch_tried: false, child: None },
            Action::Probe { delay_millis: 0 },
        )
    }
}

impl<H> Bootstrap<H> {
    /// Another probe while any is left, else the end of the bootstrap.
    fn retry(self) -> (r: (Bootstrap<H>, Action<H>))
        ensures
            r == retry(self),
    {
        if self.probes < MAX_PROBES {
            (
                Bootstrap {
                    phase: Phase::Probing,
                    probes: self.probes + 1,
                    launch_tried: self.launch_tried,
                    child: self.child,
                },
                Action::Probe { delay_millis: PROBE_DELAY_MILLIS },
            )
        } else {
            (
                Bootstrap {
                    phase: Phase::Failed,
                    probes: self.probes,
                    launch_tried: self.launch_tried,
                    child: None,
                },
                Action::Finish(Err(ClientError::BootstrapExhausted)),
            )
        }
    }

    /// Takes in what came of the last action and says what to do next.
    pub fn step(self, event: Event<H>) -> (r: (Bootstrap<H>, Action<H>))
        ensures
            r == after(self, event),
    {
        match (self.phase, event) {
            (Phase::Probing, Event::Probed(Ok(tunnels))) => (
                Bootstrap {
                    phase: Phase::Converged,
                    probes: self.probes,
                    launch_tried: self.launch_tried,
                    child: None,
                },
                Action::Finish(Ok((tunnels, self.child))),
            ),
            (Phase::Probing, Event::Probed(Err(_))) => {
                if !self.launch_tried {
                    (
                        Bootstrap {
                            phase: Phase::Launching,
                            probes: self.probes,
                            launch_tried: true,
                            child: self.child,
                        },
                        Action::Launch,
                    )
                } else {
                    self.retry()
                }
            },
            (Phase::Launching, Event::Launched(child)) => {
                let state = Bootstrap {
                    phase: self.phase,
                    probes: self.probes,
                    launch_tried: self.launch_tried,
                    child,
                };
                state.retry()
            },
            _ => (self, Action::Rejected),
        }
    }
}

} // verus!
