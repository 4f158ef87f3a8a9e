use serde_yaml::Mapping;
use test_faker::bus::{link, open, publish, reception, BusError, TERMINATION_BUS_CAPACITY};
use tokio::sync::broadcast::error::{SendError, TryRecvError};
use test_faker::faker::{register, Faker as Plugin};
use test_faker::scenario::{
    Action, Event, Faker, Launch, Options, Phase, RunError, Runner, Scenario, Setup, KafkaInit,
};

fn entry(name: &str) -> Faker {
    Faker { name: name.to_string(), params: Mapping::new() }
}

fn scenario(names: &[&str], launch: Option<u64>, grace: Option<u64>) -> Scenario {
    Scenario {
        name: "scenario1".to_string(),
        setup: None,
        fakers: names.iter().map(|n| entry(n)).collect(),
        teardown: None,
        options: Some(Options { faker_launch_tempo: launch, termination_tempo: grace }),
    }
}

fn table() -> Vec<Plugin<u8>> {
    let mut table = Vec::new();
    register(&mut table, "kafka-producer", 0u8);
    register(&mut table, "kafka-consumer", 1u8);
    register(&mut table, "http-server", 2u8);
    table
}

fn feed(runner: Runner, event: Event) -> (Runner, Action) {
    let (runner, action) = runner.step(event);
    (runner, action.expect("the event answers the pending action"))
}

#[test]
fn two_fakers_second_publishes_after_three_seconds() {
    // Simulated clock: the second plugin publishes 3 s after it starts.
    let s = scenario(&["kafka-consumer", "kafka-producer"], Some(1), Some(2));
    let (mut runner, _rx) = s.run(&table());
    let mut now: u64 = 0;
    let mut publish_at: Option<u64> = None;
    let mut event = Event::Begin;
    let mut spawned = Vec::new();
    loop {
        let (next, action) = feed(runner, event);
        runner = next;
        event = match action {
            Action::Setup => unreachable!(),
            Action::Spawn { entry, plugin } => {
                spawned.push((entry, plugin, now));
                if entry == 1 {
                    publish_at = Some(now + 3);
                }
                Event::FakerStarted
            }
            Action::Sleep { secs } => {
                now += secs;
                Event::TempoElapsed
            }
            Action::AwaitStop => {
                now = now.max(publish_at.unwrap());
                Event::TerminationPublished
            }
            Action::Finish => break,
            Action::Abort(_) => unreachable!(),
        };
    }
    assert_eq!(spawned, vec![(0, 1, 0), (1, 0, 1)]);
    assert_eq!(now, 6);
    assert_eq!(runner.slept(), 4);
    assert_eq!(runner.phase(), Phase::Done);
}

#[test]
fn setup_failure_aborts_before_any_launch() {
    let mut s = scenario(&["kafka-producer"], None, None);
    s.setup = Some(Setup {
        kafka_init: Some(KafkaInit { brokers: "localhost:9092".to_string(), topics: vec![] }),
    });
    let (runner, _rx) = s.run(&table());
    let (runner, action) = feed(runner, Event::Begin);
    assert_eq!(action, Action::Setup);
    assert_eq!(runner.phase(), Phase::SettingUp);
    let (runner, action) = feed(runner, Event::SetupFailed);
    assert_eq!(action, Action::Abort(RunError::SetupFailed));
    assert_eq!(runner.phase(), Phase::Done);
    assert!(runner.outcomes().is_empty());
    let (runner, action) = runner.step(Event::Begin);
    assert_eq!(action, None);
    assert_eq!(runner.outcomes(), &Vec::<Launch>::new());
}

fn drain(s: &Scenario, answer_spawn: Event, stop: Event) -> (Runner, Vec<Action>) {
    let (mut runner, _rx) = s.run(&table());
    let mut seen = Vec::new();
    let mut event = Event::Begin;
    loop {
        let (next, action) = feed(runner, event);
        runner = next;
        seen.push(action);
        event = match action {
            Action::Setup => Event::SetupSucceeded,
            Action::Spawn { .. } => answer_spawn,
            Action::Sleep { .. } => Event::TempoElapsed,
            Action::AwaitStop => stop,
            Action::Finish | Action::Abort(_) => return (runner, seen),
        };
    }
}

#[test]
fn tempos_default_to_one_and_three_seconds() {
    let mut s = scenario(&[], None, None);
    assert_eq!(s.launch_tempo(), 1);
    assert_eq!(s.termination_tempo(), 3);
    s.options = None;
    assert_eq!(s.launch_tempo(), 1);
    assert_eq!(s.termination_tempo(), 3);
    s.options = Some(Options { faker_launch_tempo: Some(7), termination_tempo: Some(0) });
    assert_eq!(s.launch_tempo(), 7);
    assert_eq!(s.termination_tempo(), 0);
}

#[test]
fn running_is_entered_after_one_stagger_per_entry() {
    let s = scenario(&["http-server", "kafka-producer", "kafka-consumer"], Some(5), Some(2));
    let (mut runner, _rx) = s.run(&table());
    let mut event = Event::Begin;
    loop {
        let (next, action) = feed(runner, event);
        runner = next;
        event = match action {
            Action::Spawn { .. } => Event::FakerStarted,
            Action::Sleep { secs } => {
                assert_eq!(secs, 5);
                assert_eq!(runner.phase(), Phase::Launching);
                Event::TempoElapsed
            }
            Action::AwaitStop => break,
            other => panic!("unexpected {:?}", other),
        };
    }
    assert_eq!(runner.phase(), Phase::Running);
    assert_eq!(runner.slept(), 15);
    assert!(runner.slept() >= (3 - 1) * 5);
}

#[test]
fn an_empty_scenario_waits_at_once() {
    let s = scenario(&[], Some(9), None);
    let (runner, _rx) = s.run(&table());
    assert_eq!(runner.phase(), Phase::Idle);
    assert_eq!(runner.pending(), None);
    let (runner, action) = feed(runner, Event::Begin);
    assert_eq!(action, Action::AwaitStop);
    assert_eq!(runner.phase(), Phase::Running);
    assert_eq!(runner.slept(), 0);
}

#[test]
fn running_ignores_everything_but_interrupt_and_termination() {
    let s = scenario(&[], None, None);
    let (runner, _rx) = s.run(&table());
    let (mut runner, _) = feed(runner, Event::Begin);
    for event in [
        Event::Begin,
        Event::SetupSucceeded,
        Event::SetupFailed,
        Event::FakerStarted,
        Event::FakerRejected,
        Event::TempoElapsed,
    ] {
        let (next, action) = runner.step(event);
        assert_eq!(action, None);
        assert_eq!(next.phase(), Phase::Running);
        assert_eq!(next.pending(), Some(Action::AwaitStop));
        runner = next;
    }
}

#[test]
fn termination_is_followed_by_the_grace_period() {
    let s = scenario(&["kafka-producer"], Some(2), Some(11));
    let (runner, seen) = drain(&s, Event::FakerStarted, Event::TerminationPublished);
    assert_eq!(
        seen,
        vec![
            Action::Spawn { entry: 0, plugin: 0 },
            Action::Sleep { secs: 2 },
            Action::AwaitStop,
            Action::Sleep { secs: 11 },
            Action::Finish,
        ]
    );
    assert_eq!(runner.slept(), 13);
    assert_eq!(runner.phase(), Phase::Done);
}

#[test]
fn the_grace_period_cannot_be_interrupted() {
    let s = scenario(&[], None, Some(4));
    let (runner, _rx) = s.run(&table());
    let (runner, _) = feed(runner, Event::Begin);
    let (runner, action) = feed(runner, Event::TerminationPublished);
    assert_eq!(action, Action::Sleep { secs: 4 });
    assert_eq!(runner.phase(), Phase::Terminating);
    let (runner, action) = runner.step(Event::Interrupted);
    assert_eq!(action, None);
    assert_eq!(runner.phase(), Phase::Terminating);
}

#[test]
fn interrupt_returns_without_grace() {
    let s = scenario(&["kafka-producer"], Some(2), Some(1000));
    let (runner, seen) = drain(&s, Event::FakerStarted, Event::Interrupted);
    assert_eq!(
        seen,
        vec![
            Action::Spawn { entry: 0, plugin: 0 },
            Action::Sleep { secs: 2 },
            Action::AwaitStop,
            Action::Finish,
        ]
    );
    assert_eq!(runner.slept(), 2);
}

#[test]
fn unregistered_fakers_are_skipped_and_the_rest_launch_in_order() {
    let s = scenario(&["nope", "http-server", "Kafka-Producer", "kafka-producer"], Some(1), None);
    let (runner, seen) = drain(&s, Event::FakerStarted, Event::Interrupted);
    assert_eq!(
        seen,
        vec![
            Action::Sleep { secs: 1 },
            Action::Spawn { entry: 1, plugin: 2 },
            Action::Sleep { secs: 1 },
            Action::Sleep { secs: 1 },
            Action::Spawn { entry: 3, plugin: 0 },
            Action::Sleep { secs: 1 },
            Action::AwaitStop,
            Action::Finish,
        ]
    );
    assert_eq!(
        runner.outcomes(),
        &vec![Launch::Skipped, Launch::Started, Launch::Skipped, Launch::Started]
    );
    assert_eq!(runner.slept(), 4);
}

#[test]
fn a_rejected_faker_does_not_stop_the_others() {
    let s = scenario(&["kafka-producer", "http-server"], Some(3), None);
    let (runner, _rx) = s.run(&table());
    let (runner, action) = feed(runner, Event::Begin);
    assert_eq!(action, Action::Spawn { entry: 0, plugin: 0 });
    let (runner, action) = feed(runner, Event::FakerRejected);
    assert_eq!(action, Action::Sleep { secs: 3 });
    let (runner, action) = feed(runner, Event::TempoElapsed);
    assert_eq!(action, Action::Spawn { entry: 1, plugin: 2 });
    let (runner, _) = feed(runner, Event::FakerStarted);
    let (runner, action) = feed(runner, Event::TempoElapsed);
    assert_eq!(action, Action::AwaitStop);
    assert_eq!(runner.outcomes(), &vec![Launch::Rejected, Launch::Started]);
    assert_eq!(runner.slept(), 6);
}

#[test]
fn setup_runs_before_the_first_launch() {
    let mut s = scenario(&["kafka-producer"], None, None);
    s.setup = Some(Setup {
        kafka_init: Some(KafkaInit {
            brokers: "localhost:9092".to_string(),
            topics: vec!["scenario_topic1".to_string()],
        }),
    });
    let (_, seen) = drain(&s, Event::FakerStarted, Event::Interrupted);
    assert_eq!(seen[0], Action::Setup);
    assert_eq!(seen[1], Action::Spawn { entry: 0, plugin: 0 });
    // A setup section without steps asks for nothing.
    s.setup = Some(Setup { kafka_init: None });
    let (_, seen) = drain(&s, Event::FakerStarted, Event::Interrupted);
    assert_eq!(seen[0], Action::Spawn { entry: 0, plugin: 0 });
}

#[test]
fn a_link_is_handed_out_only_for_a_pending_spawn() {
    let s = scenario(&["kafka-producer"], None, None);
    let (runner, mut rx) = s.run(&table());
    assert!(runner.link().is_none());
    let (runner, _) = feed(runner, Event::Begin);
    let link = runner.link().expect("a spawn is pending");
    // The runner's cursor predates the faker's and sees what the faker publishes.
    let mut faker_rx = link.rx;
    assert_eq!(link.tx.send(true).unwrap(), 2);
    assert_eq!(rx.try_recv().unwrap(), true);
    assert_eq!(faker_rx.try_recv().unwrap(), true);
    let (runner, _) = feed(runner, Event::FakerStarted);
    assert!(runner.link().is_none());
}

#[test]
fn the_bus_drops_the_oldest_messages_of_a_lagging_subscriber() {
    assert_eq!(TERMINATION_BUS_CAPACITY, 16);
    let (tx, mut rx) = open();
    let other = link(&tx);
    for _ in 0..TERMINATION_BUS_CAPACITY + 3 {
        other.tx.send(true).unwrap();
    }
    assert_eq!(rx.try_recv(), Err(TryRecvError::Lagged(3)));
    assert_eq!(rx.try_recv(), Ok(true));
}

#[test]
fn default_scenario_is_empty() {
    let s = Scenario::default();
    assert_eq!(s.name, "");
    assert!(s.fakers.is_empty());
    assert_eq!(s.setup, None);
    assert_eq!(s.options, None);
    let o = Options::default();
    assert_eq!(o, Options { faker_launch_tempo: None, termination_tempo: None });
}

#[test]
fn publishing_reaches_every_cursor_or_fails_without_one() {
    let (tx, rx) = open();
    assert_eq!(publish(&tx), Ok(1));
    let first = link(&tx);
    let second = link(&first.tx);
    assert_eq!(publish(&second.tx), Ok(3));
    drop(rx);
    drop(first.rx);
    drop(second.rx);
    assert_eq!(publish(&tx), Err(BusError::NoSubscriber));
}

#[test]
fn a_link_is_on_the_bus_it_was_asked_of() {
    let (tx, rx) = open();
    let (elsewhere, mut deaf) = open();
    let first = link(&tx);
    let second = link(&first.tx);
    assert!(first.tx.same_channel(&tx));
    assert!(second.tx.same_channel(&tx));
    assert!(first.rx.same_channel(&rx));
    assert!(second.rx.same_channel(&rx));
    assert!(!second.tx.same_channel(&elsewhere));
    assert!(!second.rx.same_channel(&deaf));
    assert_eq!(publish(&second.tx), Ok(3));
    assert_eq!(deaf.try_recv(), Err(TryRecvError::Empty));
}

#[test]
fn the_runner_and_its_links_share_one_bus() {
    let s = scenario(&["kafka-producer", "http-server"], Some(0), None);
    let (runner, rx) = s.run(&table());
    let (runner, _) = feed(runner, Event::Begin);
    let first = runner.link().unwrap();
    let (runner, _) = feed(runner, Event::FakerStarted);
    let (runner, _) = feed(runner, Event::TempoElapsed);
    let second = runner.link().unwrap();
    assert!(first.rx.same_channel(&rx));
    assert!(second.rx.same_channel(&rx));
    assert!(second.tx.same_channel(&first.tx));
}

#[test]
fn what_a_send_came_to() {
    assert_eq!(reception(Ok(1)), Ok(1));
    assert_eq!(reception(Ok(7)), Ok(7));
    assert_eq!(reception(Err(SendError(true))), Err(BusError::NoSubscriber));
}
