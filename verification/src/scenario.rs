//! Scenario descriptors and the state machine that runs one.
//!
//! A run is a conversation. The machine issues an `Action`; whoever drives it
//! performs the action (sets topics up, starts a task, sleeps, waits on the
//! bus) and answers with the `Event` that ended it. The machine never blocks
//! and never looks at a clock: the seconds it counts are those of the sleeps
//! that were reported as served.

use vstd::prelude::*;
use serde_yaml::Mapping;
use tokio::sync::broadcast::{Receiver, Sender};
use crate::bus;
use crate::faker;

verus! {

/// Seconds between two launches when the scenario names none.
pub const DEFAULT_FAKER_LAUNCH_TEMPO: u64 = 1;

/// Seconds of grace after a termination message when the scenario names none.
pub const DEFAULT_TERMINATION_TEMPO: u64 = 3;

/// Topics to delete and recreate before anything is launched.
#[derive(Debug, PartialEq)]
pub struct KafkaInit {
    pub brokers: String,
    pub topics: Vec<String>,
}

/// What has to happen before the first faker starts.
#[derive(Debug, PartialEq)]
pub struct Setup {
    pub kafka_init: Option<KafkaInit>,
}

/// One faker to launch: the registered name and the parameters handed to it.
#[derive(Debug, PartialEq)]
pub struct Faker {
    pub name: String,
    pub params: Mapping,
}

/// What happens after the run. Nothing, so far.
#[derive(Debug, PartialEq)]
pub struct Teardown {
}

/// The two tempos of a run, in seconds. A missing one takes its default.
#[derive(Debug, PartialEq)]
pub struct Options {
    pub faker_launch_tempo: Option<u64>,
    pub termination_tempo: Option<u64>,
}

/// A scenario: the fakers to launch, in launch order, and what surrounds them.
#[derive(Debug, PartialEq)]
pub struct Scenario {
    pub name: String,
    pub setup: Option<Setup>,
    pub fakers: Vec<Faker>,
    pub teardown: Option<Teardown>,
    pub options: Option<Options>,
}

impl Default for Options {
    /// Options that name no tempo.
    fn default() -> (options: Self)
        ensures
            options.faker_launch_tempo is None,
            options.termination_tempo is None,
    {
        Options { faker_launch_tempo: None, termination_tempo: None }
    }
}

impl Default for Scenario {
    /// A scenario without a name, without setup and without fakers.
    fn default() -> (scenario: Self)
        ensures
            scenario.name@.len() == 0,
            scenario.setup is None,
            scenario.fakers@.len() == 0,
            scenario.teardown is None,
            scenario.options is None,
    {
        Scenario {
            name: String::new(),
            setup: None,
            fakers: Vec::new(),
            teardown: None,
            options: None,
        }
    }
}

/// Where a run stands.
#[derive(Debug, Clone, Copy, PartialEq, Eq, Structural)]
pub enum Phase {
    Idle,
    SettingUp,
    Launching,
    Running,
    Terminating,
    Done,
}

/// How the action that the machine issued last has ended.
#[derive(Debug, Clone, Copy, PartialEq, Eq, Structural)]
pub enum Event {
    /// The run was asked to start.
    Begin,
    /// The setup steps all succeeded.
    SetupSucceeded,
    /// A setup step failed.
    SetupFailed,
    /// The faker's parameters were valid and its task was started.
    FakerStarted,
    /// The faker refused its parameters; no task was started.
    FakerRejected,
    /// The sleep that was asked for is over.
    TempoElapsed,
    /// An external interrupt arrived while waiting.
    Interrupted,
    /// The runner's cursor on the termination bus yielded, whoever published.
    TerminationPublished,
}

/// Why a run ended without having run.
#[derive(Debug, Clone, Copy, PartialEq, Eq, Structural)]
pub enum RunError {
    SetupFailed,
}

/// What the driver has to do next.
#[derive(Debug, Clone, Copy, PartialEq, Eq, Structural)]
pub enum Action {
    /// Perform the scenario's setup steps, one after the other.
    Setup,
    /// Validate entry `entry` and start it as a detached task, with the
    /// plugin registered at position `plugin` and a link to the bus.
    Spawn { entry: usize, plugin: usize },
    /// Sleep for `secs` seconds.
    Sleep { secs: u64 },
    /// Wait for an interrupt or for the termination bus, whichever is first.
    AwaitStop,
    /// Return success. Tasks still running are left alone.
    Finish,
    /// Return the error. No faker was started.
    Abort(RunError),
}

/// What became of an entry of the scenario.
#[derive(Debug, Clone, Copy, PartialEq, Eq, Structural)]
pub enum Launch {
    /// No plugin is registered under its name.
    Skipped,
    /// Its task was started.
    Started,
    /// Its plugin refused the parameters.
    Rejected,
}

/// A run as mathematics.
pub struct RunnerView {
    /// For each entry, the position of its plugin in the registry, if any.
    pub plan: Seq<Option<usize>>,
    pub has_setup: bool,
    pub launch_tempo: u64,
    pub termination_tempo: u64,
    pub phase: Phase,
    /// The action issued last, which the next event answers.
    pub pending: Option<Action>,
    /// What became of the entries dealt with so far, in order.
    pub outcomes: Seq<Launch>,
    /// Seconds of sleep served so far.
    pub slept: nat,
}

impl RunnerView {
    /// The events that can answer the pending action.
    pub open spec fn accepts(self, event: Event) -> bool {
        match self.pending {
            None => event is Begin,
            Some(Action::Setup) => event is SetupSucceeded || event is SetupFailed,
            Some(Action::Spawn { .. }) => event is FakerStarted || event is FakerRejected,
            Some(Action::Sleep { .. }) => event is TempoElapsed,
            Some(Action::AwaitStop) => event is Interrupted || event is TerminationPublished,
            Some(Action::Finish) => false,
            Some(Action::Abort(_)) => false,
        }
    }

    /// Moves to `phase` and issues `action`.
    pub open spec fn issue(self, phase: Phase, action: Action) -> (RunnerView, Action) {
        (RunnerView { phase, pending: Some(action), ..self }, action)
    }

    /// Notes what became of the entry at hand.
    pub open spec fn record(self, launch: Launch) -> RunnerView {
        RunnerView { outcomes: self.outcomes.push(launch), ..self }
    }

    /// Turns to the first entry not yet dealt with: spawn it if its plugin is
    /// registered, skip it and stagger if not; wait once none is left.
    pub open spec fn launch_next(self) -> (RunnerView, Action) {
        let entry = self.outcomes.len();
        if entry >= self.plan.len() {
            self.issue(Phase::Running, Action::AwaitStop)
        } else {
            match self.plan[entry as int] {
                Some(plugin) => self.issue(
                    Phase::Launching,
                    Action::Spawn { entry: entry as usize, plugin },
                ),
                None => self.record(Launch::Skipped).issue(
                    Phase::Launching,
                    Action::Sleep { secs: self.launch_tempo },
                ),
            }
        }
    }

    /// The seconds of the sleep that is pending, 0 if none is.
    pub open spec fn pending_secs(self) -> nat {
        match self.pending {
            Some(Action::Sleep { secs }) => secs as nat,
            _ => 0,
        }
    }

    /// The transition: the state and the action that follow `event`, or
    /// nothing where the event does not answer the pending action.
    pub open spec fn next(self, event: Event) -> Option<(RunnerView, Action)> {
        if !self.accepts(event) {
            None
        } else {
            Some(
                match event {
                    Event::Begin => if self.has_setup {
                        self.issue(Phase::SettingUp, Action::Setup)
                    } else {
                        self.launch_next()
                    },
                    Event::SetupSucceeded => self.launch_next(),
                    Event::SetupFailed => self.issue(Phase::Done, Action::Abort(RunError::SetupFailed)),
                    Event::FakerStarted => self.record(Launch::Started).issue(
                        Phase::Launching,
                        Action::Sleep { secs: self.launch_tempo },
                    ),
                    Event::FakerRejected => self.record(Launch::Rejected).issue(
                        Phase::Launching,
                        Action::Sleep { secs: self.launch_tempo },
                    ),
                    Event::TempoElapsed => {
                        let rested = RunnerView { slept: self.slept + self.pending_secs(), ..self };
                        if self.phase is Terminating {
                            rested.issue(Phase::Done, Action::Finish)
                        } else {
                            rested.launch_next()
                        }
                    },
                    Event::Interrupted => self.issue(Phase::Done, Action::Finish),
                    Event::TerminationPublished => self.issue(
                        Phase::Terminating,
                        Action::Sleep { secs: self.termination_tempo },
                    ),
                },
            )
        }
    }

    /// What holds of every state that a run can be in.
    pub open spec fn inv(self) -> bool {
        let n = self.plan.len();
        let dealt = self.outcomes.len();
        let stagger = self.launch_tempo as nat;
        &&& n <= usize::MAX
        &&& dealt <= n
        &&& forall|i: int|
            0 <= i < dealt ==> (#[trigger] self.outcomes[i] is Skipped <==> self.plan[i] is None)
        &&& match self.pending {
            None => self.phase is Idle && dealt == 0 && self.slept == 0,
            Some(Action::Setup) => {
                &&& self.phase is SettingUp
                &&& self.has_setup
                &&& dealt == 0
                &&& self.slept == 0
            },
            Some(Action::Spawn { entry, plugin }) => {
                &&& self.phase is Launching
                &&& entry == dealt
                &&& dealt < n
                &&& self.plan[dealt as int] == Some(plugin)
                &&& self.slept == dealt * stagger
            },
            Some(Action::Sleep { secs }) => if self.phase is Terminating {
                &&& secs == self.termination_tempo
                &&& dealt == n
                &&& self.slept == n * stagger
            } else {
                &&& self.phase is Launching
                &&& secs == self.launch_tempo
                &&& dealt >= 1
                &&& self.slept == (dealt - 1) * stagger
            },
            Some(Action::AwaitStop) => {
                &&& self.phase is Running
                &&& dealt == n
                &&& self.slept == n * stagger
            },
            Some(Action::Finish) => {
                &&& self.phase is Done
                &&& dealt == n
                &&& (self.slept == n * stagger || self.slept == n * stagger
                    + self.termination_tempo)
            },
            Some(Action::Abort(_)) => {
                &&& self.phase is Done
                &&& self.has_setup
                &&& dealt == 0
                &&& self.slept == 0
            },
        }
    }
}

/// A run in progress. It owns the publishing half of the termination bus.
pub struct Runner {
    plan: Vec<Option<usize>>,
    has_setup: bool,
    launch_tempo: u64,
    termination_tempo: u64,
    phase: Phase,
    pending: Option<Action>,
    outcomes: Vec<Launch>,
    slept: u128,
    tx: Sender<bool>,
}

impl View for Runner {
    type V = RunnerView;

    closed spec fn view(&self) -> RunnerView {
        RunnerView {
            plan: self.plan@,
            has_setup: self.has_setup,
            launch_tempo: self.launch_tempo,
            termination_tempo: self.termination_tempo,
            phase: self.phase,
            pending: self.pending,
            outcomes: self.outcomes@,
            slept: self.slept as nat,
        }
    }
}

/// The product of an entry count and a tempo fits in 128 bits with room for
/// one more tempo.
proof fn delay_fits(count: nat, tempo: u64, grace: u64)
    requires
        count <= usize::MAX,
    ensures
        count * (tempo as nat) + grace <= u128::MAX,
{
    assert(count * (tempo as nat) <= 0xffff_ffff_ffff_ffff * 0xffff_ffff_ffff_ffff) by (nonlinear_arith)
        requires
            count <= 0xffff_ffff_ffff_ffff,
            tempo <= 0xffff_ffff_ffff_ffff,
    ;
}

impl Runner {
    #[verifier::type_invariant]
    closed spec fn well_formed(&self) -> bool {
        self@.inv()
    }

    /// The termination bus that the run owns the sender of.
    pub closed spec fn bus(&self) -> int {
        bus::sender_bus(self.tx)
    }

    /// Turns to the first entry not yet dealt with, `slept` seconds into the run.
    fn launch_next(self, slept: u128) -> (out: (Runner, Option<Action>))
        requires
            (RunnerView { slept: slept as nat, ..self@ }).launch_next().0.inv(),
        ensures
            (out.0@, out.1->Some_0) == (RunnerView { slept: slept as nat, ..self@ }).launch_next(),
            out.1 is Some,
            out.0.bus() == self.bus(),
    {
        let entry = self.outcomes.len();
        if entry >= self.plan.len() {
            let action = Action::AwaitStop;
            (Runner { phase: Phase::Running, pending: Some(action), slept, ..self }, Some(action))
        } else {
            match self.plan[entry] {
                Some(plugin) => {
                    let action = Action::Spawn { entry, plugin };
                    (
                        Runner { phase: Phase::Launching, pending: Some(action), slept, ..self },
                        Some(action),
                    )
                },
                None => {
                    let action = Action::Sleep { secs: self.launch_tempo };
                    let mut outcomes = self.outcomes;
                    outcomes.push(Launch::Skipped);
                    (
                        Runner {
                            phase: Phase::Launching,
                            pending: Some(action),
                            slept,
                            outcomes,
                            plan: self.plan,
                            has_setup: self.has_setup,
                            launch_tempo: self.launch_tempo,
                            termination_tempo: self.termination_tempo,
                            tx: self.tx,
                        },
                        Some(action),
                    )
                },
            }
        }
    }

    /// Notes what became of the entry that was to be spawned, and staggers.
    fn stagger(self, launch: Launch) -> (out: (Runner, Option<Action>))
        requires
            self@.pending matches Some(Action::Spawn { .. }),
            !(launch is Skipped),
        ensures
            (out.0@, out.1->Some_0) == self@.record(launch).issue(
                Phase::Launching,
                Action::Sleep { secs: self@.launch_tempo },
            ),
            out.1 is Some,
            out.0.bus() == self.bus(),
    {
        proof {
            use_type_invariant(&self);
        }
        let action = Action::Sleep { secs: self.launch_tempo };
        let mut outcomes = self.outcomes;
        outcomes.push(launch);
        (
            Runner {
                phase: Phase::Launching,
                pending: Some(action),
                outcomes,
                plan: self.plan,
                has_setup: self.has_setup,
                launch_tempo: self.launch_tempo,
                termination_tempo: self.termination_tempo,
                slept: self.slept,
                tx: self.tx,
            },
            Some(action),
        )
    }

    /// Feeds the machine the event that ended its last action and returns the
    /// state that follows with the next action. An event that does not answer
    /// the pending action changes nothing and yields no action.
    pub fn step(self, event: Event) -> (out: (Runner, Option<Action>))
        ensures
            match self@.next(event) {
                Some((state, action)) => out.0@ == state && out.1 == Some(action),
                None => out.0@ == self@ && out.1 is None,
            },
            out.0@.inv(),
            out.0.bus() == self.bus(),
    {
        proof {
            use_type_invariant(&self);
            next_is_sound(self@, event);
            let stagger = self.launch_tempo as nat;
            let dealt = self@.outcomes.len();
            assert(dealt == 0 ==> dealt * stagger == 0) by (nonlinear_arith);
        }
        match self.pending {
            None => match event {
                Event::Begin => if self.has_setup {
                    let action = Action::Setup;
                    (Runner { phase: Phase::SettingUp, pending: Some(action), ..self }, Some(action))
                } else {
                    let slept = self.slept;
                    self.launch_next(slept)
                },
                _ => (self, None),
            },
            Some(Action::Setup) => match event {
                Event::SetupSucceeded => {
                    let slept = self.slept;
                    self.launch_next(slept)
                },
                Event::SetupFailed => {
                    let action = Action::Abort(RunError::SetupFailed);
                    (Runner { phase: Phase::Done, pending: Some(action), ..self }, Some(action))
                },
                _ => (self, None),
            },
            Some(Action::Spawn { .. }) => match event {
                Event::FakerStarted => self.stagger(Launch::Started),
                Event::FakerRejected => self.stagger(Launch::Rejected),
                _ => (self, None),
            },
            Some(Action::Sleep { secs }) => match event {
                Event::TempoElapsed => {
                    proof {
                        delay_fits(self@.plan.len(), self.launch_tempo, self.termination_tempo);
                        let stagger = self.launch_tempo as nat;
                        let dealt = self@.outcomes.len();
                        assert(dealt >= 1 ==> (dealt - 1) * stagger + stagger == dealt * stagger)
                            by (nonlinear_arith);
                        assert(dealt <= self@.plan.len() ==> dealt * stagger <= self@.plan.len()
                            * stagger) by (nonlinear_arith);
                    }
                    let slept = self.slept + secs as u128;
                    match self.phase {
                        Phase::Terminating => {
                            let action = Action::Finish;
                            (
                                Runner { phase: Phase::Done, pending: Some(action), slept, ..self },
                                Some(action),
                            )
                        },
                        _ => self.launch_next(slept),
                    }
                },
                _ => (self, None),
            },
            Some(Action::AwaitStop) => match event {
                Event::Interrupted => {
                    let action = Action::Finish;
                    (Runner { phase: Phase::Done, pending: Some(action), ..self }, Some(action))
                },
                Event::TerminationPublished => {
                    let action = Action::Sleep { secs: self.termination_tempo };
                    (
                        Runner { phase: Phase::Terminating, pending: Some(action), ..self },
                        Some(action),
                    )
                },
                _ => (self, None),
            },
            Some(Action::Finish) => (self, None),
            Some(Action::Abort(_)) => (self, None),
        }
    }

    /// Where the run stands.
    pub fn phase(&self) -> (phase: Phase)
        ensures
            phase == self@.phase,
    {
        self.phase
    }

    /// The action issued last, which the next event has to answer.
    pub fn pending(&self) -> (pending: Option<Action>)
        ensures
            pending == self@.pending,
    {
        self.pending
    }

    /// What became of the entries dealt with so far, in declaration order.
    pub fn outcomes(&self) -> (outcomes: &Vec<Launch>)
        ensures
            outcomes@ == self@.outcomes,
    {
        &self.outcomes
    }

    /// Seconds of sleep served so far.
    pub fn slept(&self) -> (slept: u128)
        ensures
            slept == self@.slept,
    {
        self.slept
    }

    /// A link to the run's termination bus for the faker about to be
    /// spawned: a clone of the sender and a cursor created now. Nothing,
    /// unless a spawn is pending.
    pub fn link(&self) -> (link: Option<bus::Link>)
        ensures
            link is Some <==> self@.pending matches Some(Action::Spawn { .. }),
            link matches Some(handed) ==> {
                &&& bus::sender_bus(handed.tx) == self.bus()
                &&& bus::cursor_bus(handed.rx) == self.bus()
            },
    {
        match self.pending {
            Some(Action::Spawn { .. }) => Some(bus::link(&self.tx)),
            _ => None,
        }
    }
}

impl Scenario {
    /// Seconds to sleep after each entry, launched or not.
    pub open spec fn spec_launch_tempo(&self) -> u64 {
        match self.options {
            Some(Options { faker_launch_tempo: Some(secs), .. }) => secs,
            _ => DEFAULT_FAKER_LAUNCH_TEMPO,
        }
    }

    /// Seconds to go on after a termination message.
    pub open spec fn spec_termination_tempo(&self) -> u64 {
        match self.options {
            Some(Options { termination_tempo: Some(secs), .. }) => secs,
            _ => DEFAULT_TERMINATION_TEMPO,
        }
    }

    /// Whether there is anything to set up.
    pub open spec fn has_setup(&self) -> bool {
        self.setup matches Some(setup) && setup.kafka_init is Some
    }

    /// The state in which a run of this scenario starts, given the names of
    /// the registered fakers.
    pub open spec fn start(&self, registered: Seq<Seq<char>>) -> RunnerView {
        RunnerView {
            plan: Seq::new(
                self.fakers@.len(),
                |i: int| faker::resolve(registered, self.fakers@[i].name@),
            ),
            has_setup: self.has_setup(),
            launch_tempo: self.spec_launch_tempo(),
            termination_tempo: self.spec_termination_tempo(),
            phase: Phase::Idle,
            pending: None,
            outcomes: Seq::empty(),
            slept: 0,
        }
    }

    #[verifier::when_used_as_spec(spec_launch_tempo)]
    pub fn launch_tempo(&self) -> (secs: u64)
        ensures
            secs == self.spec_launch_tempo(),
    {
        match &self.options {
            Some(options) => match options.faker_launch_tempo {
                Some(secs) => secs,
                None => DEFAULT_FAKER_LAUNCH_TEMPO,
            },
            None => DEFAULT_FAKER_LAUNCH_TEMPO,
        }
    }

    #[verifier::when_used_as_spec(spec_termination_tempo)]
    pub fn termination_tempo(&self) -> (secs: u64)
        ensures
            secs == self.spec_termination_tempo(),
    {
        match &self.options {
            Some(options) => match options.termination_tempo {
                Some(secs) => secs,
                None => DEFAULT_TERMINATION_TEMPO,
            },
            None => DEFAULT_TERMINATION_TEMPO,
        }
    }

    /// Prepares a run: opens the termination bus, resolves every entry
    /// against the table of registered fakers, and returns the machine in
    /// `Idle` together with the runner's own cursor on the bus. The cursor
    /// exists before any faker can be spawned, so it misses no message.
    pub fn run<F>(&self, fakers: &Vec<faker::Faker<F>>) -> (out: (Runner, Receiver<bool>))
        ensures
            out.0@ == self.start(faker::names(fakers@)),
            out.0@.inv(),
            bus::cursor_bus(out.1) == out.0.bus(),
            bus::bus_slots(out.0.bus()) == bus::TERMINATION_BUS_CAPACITY,
    {
        let (tx, rx) = bus::open();
        let mut plan: Vec<Option<usize>> = Vec::new();
        let mut i: usize = 0;
        while i < self.fakers.len()
            invariant
                i <= self.fakers.len(),
                plan@.len() == i,
                forall|k: int|
                    0 <= k < i ==> plan@[k] == faker::resolve(
                        faker::names(fakers@),
                        #[trigger] self.fakers@[k].name@,
                    ),
            decreases self.fakers.len() - i,
        {
            plan.push(faker::find_faker(fakers, self.fakers[i].name.as_str()));
            i = i + 1;
        }
        let has_setup = match &self.setup {
            Some(setup) => setup.kafka_init.is_some(),
            None => false,
        };
        let runner = Runner {
            plan,
            has_setup,
            launch_tempo: self.launch_tempo(),
            termination_tempo: self.termination_tempo(),
            phase: Phase::Idle,
            pending: None,
            outcomes: Vec::new(),
            slept: 0,
            tx,
        };
        assert(runner@.plan =~= self.start(faker::names(fakers@)).plan);
        (runner, rx)
    }
}

/// A run starts in a state that satisfies the invariant.
pub proof fn start_is_sound(scenario: Scenario, registered: Seq<Seq<char>>)
    ensures
        scenario.start(registered).inv(),
{
    assert(scenario.fakers@.len() == scenario.fakers.len());
}

/// Every transition keeps the invariant.
pub proof fn next_is_sound(run: RunnerView, event: Event)
    requires
        run.inv(),
    ensures
        run.next(event) matches Some((after, _)) ==> after.inv(),
{
    let stagger = run.launch_tempo as nat;
    let dealt = run.outcomes.len();
    assert(dealt == 0 ==> dealt * stagger == 0) by (nonlinear_arith);
    assert(dealt >= 1 ==> (dealt - 1) * stagger + stagger == dealt * stagger) by (nonlinear_arith);
}

/// The stagger comes first: a run that waits for its end has served one
/// launch tempo of sleep for each entry of the scenario, launched or not. So
/// with N entries and a tempo of T seconds it is not in `Running` before
/// (N - 1) * T seconds of sleep were reported to it.
pub proof fn running_follows_stagger(run: RunnerView)
    requires
        run.inv(),
        run.phase is Running,
    ensures
        run.slept == run.plan.len() * run.launch_tempo,
        run.slept >= (run.plan.len() - 1) * run.launch_tempo,
{
    let n = run.plan.len();
    let stagger = run.launch_tempo as nat;
    assert(n * stagger >= (n - 1) * stagger) by (nonlinear_arith);
}

/// Waiting has two ways out: while in `Running`, an event is accepted if and
/// only if it is an interrupt or a message on the termination bus. Whatever
/// else arrives, the run stays where it is.
pub proof fn running_waits(run: RunnerView, event: Event)
    requires
        run.inv(),
        run.phase is Running,
    ensures
        run.next(event) is Some <==> (event is Interrupted || event is TerminationPublished),
{
}

/// After a termination message the run lasts exactly one termination tempo
/// more: it asks for that sleep, accepts nothing but its end, and is then
/// done. The message does not say who published it.
pub proof fn termination_grace(run: RunnerView)
    requires
        run.inv(),
        run.phase is Running,
    ensures
        ({
            &&& run.next(Event::TerminationPublished) matches Some((winding_down, asked))
            &&& asked == Action::Sleep { secs: run.termination_tempo }
            &&& winding_down.phase is Terminating
            &&& forall|other: Event|
                !(other is TempoElapsed) ==> #[trigger] winding_down.next(other) is None
            &&& winding_down.next(Event::TempoElapsed) matches Some((end, last))
            &&& last == Action::Finish
            &&& end.phase is Done
            &&& end.slept == run.slept + run.termination_tempo
        }),
{
}

/// An entry whose name is not registered costs its stagger and nothing else:
/// no transition aborts a run but a failed setup; a spawn is only ever issued
/// for the first entry not yet dealt with, and with the plugin that its name
/// resolves to.
pub proof fn launches_in_declared_order(run: RunnerView, event: Event)
    requires
        run.inv(),
        run.next(event) is Some,
    ensures
        ({
            let (after, action) = run.next(event)->Some_0;
            &&& action is Abort <==> event is SetupFailed
            &&& action matches Action::Spawn { entry, plugin } ==> {
                &&& entry == after.outcomes.len()
                &&& entry < after.plan.len()
                &&& after.plan[entry as int] == Some(plugin)
            }
            &&& after.plan == run.plan
            &&& run.outcomes.is_prefix_of(after.outcomes)
        }),
{
    let (after, action) = run.next(event)->Some_0;
    assert(run.outcomes.is_prefix_of(run.outcomes.push(Launch::Skipped)));
    assert(run.outcomes.is_prefix_of(run.outcomes.push(Launch::Started)));
    assert(run.outcomes.is_prefix_of(run.outcomes.push(Launch::Rejected)));
}

/// Once a run waits for its end, every entry has been dealt with: those whose
/// name is registered were handed to be spawned, in declaration order, and
/// exactly the others were skipped.
pub proof fn every_entry_is_dealt_with(run: RunnerView)
    requires
        run.inv(),
        run.phase is Running || run.phase is Terminating,
    ensures
        run.outcomes.len() == run.plan.len(),
        forall|i: int|
            0 <= i < run.plan.len() ==> (#[trigger] run.outcomes[i] is Skipped
                <==> run.plan[i] is None),
{
}

/// A faker that refuses its parameters stops nobody else: the run goes on
/// exactly as if the faker had started, with the same stagger, and differs
/// only in what it notes for that entry.
pub proof fn rejection_is_local(run: RunnerView)
    requires
        run.inv(),
        run.pending matches Some(Action::Spawn { .. }),
    ensures
        ({
            &&& run.next(Event::FakerRejected) matches Some((rejected, after_rejection))
            &&& run.next(Event::FakerStarted) matches Some((started, after_start))
            &&& after_rejection == after_start
            &&& after_rejection == Action::Sleep { secs: run.launch_tempo }
            &&& rejected.phase is Launching
            &&& rejected == RunnerView {
                outcomes: run.outcomes.push(Launch::Rejected),
                ..started
            }
        }),
{
}

/// A failed setup ends the run before any launch: the run aborts, no entry
/// has been dealt with, and no event is accepted any more.
pub proof fn setup_failure_launches_nothing(run: RunnerView)
    requires
        run.inv(),
        run.phase is SettingUp,
    ensures
        ({
            &&& run.next(Event::SetupFailed) matches Some((end, action))
            &&& action == Action::Abort(RunError::SetupFailed)
            &&& end.phase is Done
            &&& end.outcomes.len() == 0
            &&& forall|event: Event| #[trigger] end.next(event) is None
        }),
{
}

/// An interrupt while waiting ends the run at once, whatever the termination
/// tempo: the next action is to return, and no sleep is asked for.
pub proof fn interrupt_returns_at_once(run: RunnerView)
    requires
        run.inv(),
        run.phase is Running,
    ensures
        ({
            &&& run.next(Event::Interrupted) matches Some((end, action))
            &&& action == Action::Finish
            &&& end.phase is Done
            &&& end.slept == run.slept
        }),
{
}

/// The place of a phase in the order in which a run goes through them.
pub open spec fn rank(phase: Phase) -> nat {
    match phase {
        Phase::Idle => 0,
        Phase::SettingUp => 1,
        Phase::Launching => 2,
        Phase::Running => 3,
        Phase::Terminating => 4,
        Phase::Done => 5,
    }
}

/// A run never goes back: no transition leads to an earlier phase, and the
/// only phase that a transition can stay in is `Launching`.
pub proof fn phases_only_advance(run: RunnerView, event: Event)
    requires
        run.inv(),
        run.next(event) is Some,
    ensures
        ({
            let after = run.next(event)->Some_0.0;
            &&& rank(run.phase) <= rank(after.phase)
            &&& rank(run.phase) == rank(after.phase) ==> run.phase is Launching
        }),
{
}

/// `Done` is final: a run that is done accepts no event.
pub proof fn done_is_final(run: RunnerView, event: Event)
    requires
        run.inv(),
        run.phase is Done,
    ensures
        run.next(event) is None,
{
}

} // verus!
