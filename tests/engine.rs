use std::time::Duration;

use backon::{BackoffBuilder, ExponentialBuilder};
use cups2mqtt::cache::PublishCache;
use cups2mqtt::config::{Cups, HomeAssistant, Mqtt, Settings};
use cups2mqtt::engine::{
    after_attempt, failure_cooldown, wait_after_tick, ApplicationError, AttemptStep, BackoffPolicy, CyclePlan,
    SupplyRound, SyncEngine, FAILURE_COOLDOWN_SECS,
};
use cups2mqtt::messages::BusMessage;
use cups2mqtt::queues::{CupsError, IppPrintQueueState, PrinterState};
use cups2mqtt::schedule::{Delay, TimeSchedule};

fn settings(discovery: bool, supply: bool) -> Settings {
    Settings {
        polling_schedule: TimeSchedule::Interval(Delay { secs: 10, nanos: 0 }),
        mqtt: Mqtt {
            host: "localhost".to_string(),
            port: 1883,
            secure: false,
            ignore_tls_errors: false,
            username: String::new(),
            password: String::new(),
            client_id: "cups2mqtt".to_string(),
            root_topic: "cups2mqtt".to_string(),
            ha: HomeAssistant {
                enable_discovery: discovery,
                discovery_topic_prefix: "homeassistant".to_string(),
                component_id: "cups2mqtt".to_string(),
            },
        },
        cups: Cups {
            uri: "https://localhost:631/".to_string(),
            ignore_tls_errors: true,
            username: String::new(),
            password: String::new(),
            report_supply_levels_schedule: if supply {
                Some(TimeSchedule::Interval(Delay { secs: 3600, nanos: 0 }))
            } else {
                None
            },
        },
        sentry_dsn: None,
    }
}

fn queue(name: &str) -> IppPrintQueueState {
    IppPrintQueueState {
        queue_name: name.to_string(),
        description: name.to_uppercase(),
        printer_make: "Generic".to_string(),
        state: PrinterState::Idle,
        job_count: 0,
        state_message: String::new(),
        state_reason: "none".to_string(),
        cups_version: "2.4.7".to_string(),
        markers: vec![],
    }
}

/// Publishes a plan as the report loop does and counts the bus calls.
fn bus_calls(engine: &mut SyncEngine, plan: &CyclePlan) -> usize {
    let mut calls = 0;
    for m in &plan.messages {
        if engine.publish(m) {
            calls += 1;
        }
    }
    calls
}

fn topics(messages: &[BusMessage]) -> Vec<&str> {
    messages.iter().map(|m| m.topic.as_str()).collect()
}

#[test]
fn two_queues_without_discovery_make_three_bus_calls() {
    let s = settings(false, false);
    let mut engine = SyncEngine::new();
    let poll = Ok(vec![queue("office"), queue("lobby")]);
    let plan = engine.plan_cycle(&s, "0.1.0", &poll);
    assert_eq!(topics(&plan.messages), vec!["cups2mqtt/cups_server", "cups2mqtt/office", "cups2mqtt/lobby"]);
    assert_eq!(plan.outcome, Ok(()));
    assert_eq!(bus_calls(&mut engine, &plan), 3);
}

#[test]
fn identical_second_poll_makes_no_bus_calls() {
    let s = settings(true, false);
    let mut engine = SyncEngine::new();
    let poll = Ok(vec![queue("office"), queue("lobby")]);
    let first = engine.plan_cycle(&s, "0.1.0", &poll);
    assert_eq!(bus_calls(&mut engine, &first), 3 + 2 * 7);
    let second = engine.plan_cycle(&s, "0.1.0", &poll);
    assert_eq!(second.messages, first.messages);
    assert_eq!(bus_calls(&mut engine, &second), 0);
}

#[test]
fn changed_queue_is_published_again() {
    let s = settings(false, false);
    let mut engine = SyncEngine::new();
    let first = engine.plan_cycle(&s, "0.1.0", &Ok(vec![queue("office")]));
    assert_eq!(bus_calls(&mut engine, &first), 2);
    let mut busy = queue("office");
    busy.job_count = 4;
    let second = engine.plan_cycle(&s, "0.1.0", &Ok(vec![busy]));
    assert_eq!(bus_calls(&mut engine, &second), 1);
}

#[test]
fn retries_absorb_two_failures() {
    let policy = BackoffPolicy::report_cycle();
    assert_eq!(policy.factor, 4);
    let mut backoff = ExponentialBuilder::default()
        .with_min_delay(Duration::from_secs(policy.min_delay.secs))
        .with_max_delay(Duration::from_secs(policy.max_delay.secs))
        .with_max_times(policy.max_times)
        .with_factor(policy.factor as f32)
        .build();
    let mut next = || backoff.next().map(|d| Delay { secs: d.as_secs(), nanos: d.subsec_nanos() });
    // The protocol client fails twice, then succeeds.
    let outcomes = [false, false, true];
    let mut steps = Vec::new();
    for ok in outcomes {
        let step = after_attempt(ok, if ok { None } else { next() });
        steps.push(step);
        if step == AttemptStep::Finished {
            break;
        }
    }
    assert_eq!(
        steps,
        vec![
            AttemptStep::RetryAfter(Delay { secs: 1, nanos: 0 }),
            AttemptStep::RetryAfter(Delay { secs: 4, nanos: 0 }),
            AttemptStep::Finished,
        ]
    );
    let schedule = TimeSchedule::Interval(Delay { secs: 10, nanos: 0 });
    assert_eq!(wait_after_tick(true, &schedule, 0), Ok(Delay { secs: 10, nanos: 0 }));
}

#[test]
fn exhausted_retries_lead_to_the_cooldown() {
    assert_eq!(after_attempt(false, None), AttemptStep::GiveUp);
    let schedule = TimeSchedule::Interval(Delay { secs: 10, nanos: 0 });
    assert_eq!(wait_after_tick(false, &schedule, 0), Ok(Delay { secs: 30, nanos: 0 }));
    assert_eq!(failure_cooldown(), Delay { secs: FAILURE_COOLDOWN_SECS, nanos: 0 });
}

#[test]
fn failed_poll_publishes_server_status_only() {
    let s = settings(false, true);
    let mut engine = SyncEngine::new();
    let poll = Err(CupsError::Request("connection refused".to_string()));
    let plan = engine.plan_cycle(&s, "0.1.0", &poll);
    assert_eq!(topics(&plan.messages), vec!["cups2mqtt/cups_server"]);
    assert_eq!(
        plan.messages[0].payload,
        "{\"is_reachable\":false,\"cups_version\":null,\"cups2mqtt_version\":\"0.1.0\"}"
    );
    assert_eq!(plan.outcome, Err(ApplicationError::Cups(CupsError::Request("connection refused".to_string()))));
    assert!(plan.queue_names.is_none());
    assert!(!plan.start_supply_loop);
    assert!(engine.known_queue_names().is_none());
}

#[test]
fn discovery_adds_server_and_queue_sensors() {
    let s = settings(true, false);
    let mut engine = SyncEngine::new();
    let plan = engine.plan_cycle(&s, "0.1.0", &Ok(vec![queue("office")]));
    assert_eq!(
        topics(&plan.messages),
        vec![
            "cups2mqtt/cups_server",
            "homeassistant/sensor/cups2mqtt_cups_server/cups_version/config",
            "homeassistant/sensor/cups2mqtt_cups_server/cups2mqtt_version/config",
            "cups2mqtt/office",
            "homeassistant/sensor/cups2mqtt_office/name/config",
            "homeassistant/sensor/cups2mqtt_office/description/config",
            "homeassistant/sensor/cups2mqtt_office/state/config",
            "homeassistant/sensor/cups2mqtt_office/job_count/config",
            "homeassistant/sensor/cups2mqtt_office/state_message/config",
            "homeassistant/sensor/cups2mqtt_office/state_reason/config",
        ]
    );
}

#[test]
fn server_without_host_fails_after_status() {
    let mut s = settings(true, false);
    s.cups.uri = "unix:/run/cups/cups.sock".to_string();
    let mut engine = SyncEngine::new();
    let plan = engine.plan_cycle(&s, "0.1.0", &Ok(vec![queue("office")]));
    assert_eq!(topics(&plan.messages), vec!["cups2mqtt/cups_server"]);
    assert_eq!(plan.outcome, Err(ApplicationError::InvalidServerAddress));
}

#[test]
fn supply_loop_starts_once_after_names_are_known() {
    let s = settings(false, true);
    let mut engine = SyncEngine::new();
    let failed = engine.plan_cycle(&s, "0.1.0", &Err(CupsError::Request("down".to_string())));
    assert!(!failed.start_supply_loop);
    let first = engine.plan_cycle(&s, "0.1.0", &Ok(vec![queue("office"), queue("lobby")]));
    assert!(first.start_supply_loop);
    assert_eq!(first.queue_names, Some(vec!["office".to_string(), "lobby".to_string()]));
    let second = engine.plan_cycle(&s, "0.1.0", &Ok(vec![queue("lobby")]));
    assert!(!second.start_supply_loop);
    assert_eq!(second.queue_names, Some(vec!["lobby".to_string()]));
    assert_eq!(engine.known_queue_names(), Some(vec!["lobby".to_string()]));
}

#[test]
fn without_supply_schedule_names_are_not_handed_on() {
    let s = settings(false, false);
    let mut engine = SyncEngine::new();
    let plan = engine.plan_cycle(&s, "0.1.0", &Ok(vec![queue("office")]));
    assert!(plan.queue_names.is_none());
    assert!(!plan.start_supply_loop);
}

#[test]
fn supply_round_goes_on_after_a_failure() {
    let s = settings(false, true);
    let names = vec!["office".to_string(), "lobby".to_string(), "hall".to_string()];
    let mut round = SupplyRound::new(&s.cups, &names);
    let mut handed = Vec::new();
    let mut last: Option<Result<(), CupsError>> = None;
    while let Some(url) = round.advance(&last) {
        // The command for the first queue fails, the others succeed.
        last = Some(if handed.is_empty() { Err(CupsError::Request("busy".to_string())) } else { Ok(()) });
        handed.push(url);
    }
    assert_eq!(
        handed,
        vec![
            "https://localhost:631/printers/office".to_string(),
            "https://localhost:631/printers/lobby".to_string(),
            "https://localhost:631/printers/hall".to_string(),
        ]
    );
    assert_eq!(round.failure_count(), 1);
}

#[test]
fn cache_suppresses_repeated_payloads() {
    let mut cache = PublishCache::new();
    assert!(cache.publish("t", "P"));
    assert!(!cache.publish("t", "P"));
    assert!(cache.publish("t", "Q"));
    assert!(cache.publish("u", "Q"));
    assert_eq!(cache.last_payload("t"), Some("Q".to_string()));
    assert_eq!(cache.last_payload("v"), None);
}
