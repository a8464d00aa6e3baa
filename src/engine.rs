//! The decisions of the report loop and of the supply-level loop.
//!
//! The program around the library runs both loops: it polls the print server,
//! hands each poll to [`SyncEngine::plan_cycle`], publishes the planned messages
//! that [`SyncEngine::publish`] lets through, sleeps for the waits decided here,
//! and sends the supply-level commands that a [`SupplyRound`] hands out.

use vstd::prelude::*;

use crate::cache::PublishCache;
use crate::config::{Cups, Mqtt, Settings};
use crate::cups_url::{build_cups_url, cups_url, server_display, server_display_address};
use crate::messages::{message_views, string_views, BusMessage, MqttCupsPrintQueueStatus};
use crate::queues::{CupsError, IppPrintQueueState};
use crate::schedule::{Delay, ScheduleError, TimeSchedule};
use crate::reports::{
    bridge_sensor_payload, bridge_sensor_topic, ha_bridge_discovery_message, ha_sensor_discovery_message,
    poll_cups_version, queue_sensor_payload, queue_sensor_topic, queue_status_payload, server_status,
    server_status_payload,
};

verus! {

/// The seconds that the report loop waits after a tick whose retries ran out.
pub const FAILURE_COOLDOWN_SECS: u64 = 30;

/// The text of the job that asks a queue to report its supply levels.
pub const LEVEL_REPORT_COMMAND: &'static str = "#CUPS-COMMAND\nReportLevels";

/// The title of the job that asks a queue to report its supply levels.
pub const LEVEL_REPORT_JOB_TITLE: &'static str = "CUPS2MQTT update supply levels";

/// Why a report cycle failed.
#[derive(Debug, Clone, PartialEq, Eq)]
pub enum ApplicationError {
    /// The print server could not be queried, or its answer not read.
    Cups(CupsError),
    /// The bus did not take a message; the text says why.
    Publish(String),
    /// The server address has no host to name the server's device by.
    InvalidServerAddress,
}

/// A message on the topic of one queue's status.
pub open spec fn queue_status_message(mqtt: Mqtt, q: IppPrintQueueState) -> (Seq<char>, Seq<char>) {
    (mqtt.root_topic@ + "/"@ + q.queue_name@, queue_status_payload(q))
}

/// The discovery message of a queue's sensor for one attribute.
pub open spec fn queue_sensor_message(mqtt: Mqtt, q: IppPrintQueueState, attribute: Seq<char>) -> (Seq<char>, Seq<char>) {
    (queue_sensor_topic(mqtt.ha, q.queue_name@, attribute), queue_sensor_payload(mqtt, q, attribute))
}

/// The messages for one queue: its status, then with discovery a sensor for each
/// of name, description, state, job count, state message and state reason.
pub open spec fn queue_messages(mqtt: Mqtt, q: IppPrintQueueState) -> Seq<(Seq<char>, Seq<char>)> {
    if mqtt.ha.enable_discovery {
        seq![
            queue_status_message(mqtt, q),
            queue_sensor_message(mqtt, q, "name"@),
            queue_sensor_message(mqtt, q, "description"@),
            queue_sensor_message(mqtt, q, "state"@),
            queue_sensor_message(mqtt, q, "job_count"@),
            queue_sensor_message(mqtt, q, "state_message"@),
            queue_sensor_message(mqtt, q, "state_reason"@),
        ]
    } else {
        seq![queue_status_message(mqtt, q)]
    }
}

/// The messages for the queues of a poll, queue after queue.
pub open spec fn queues_messages(mqtt: Mqtt, queues: Seq<IppPrintQueueState>) -> Seq<(Seq<char>, Seq<char>)>
    decreases queues.len(),
{
    if queues.len() == 0 {
        Seq::empty()
    } else {
        queues_messages(mqtt, queues.drop_last()) + queue_messages(mqtt, queues.last())
    }
}

/// The message with the server status after a poll.
pub open spec fn server_status_message(
    mqtt: Mqtt,
    version: Seq<char>,
    poll: Result<Vec<IppPrintQueueState>, CupsError>,
) -> (Seq<char>, Seq<char>) {
    (mqtt.root_topic@ + "/cups_server"@, server_status_payload(poll, version))
}

/// The messages about the server: its status, then with discovery its two
/// sensors (the print server's version and the bridge's). `None` when discovery
/// needs the server's host and the address gives none.
pub open spec fn server_messages(
    mqtt: Mqtt,
    uri: Seq<char>,
    version: Seq<char>,
    poll: Result<Vec<IppPrintQueueState>, CupsError>,
) -> Option<Seq<(Seq<char>, Seq<char>)>> {
    if mqtt.ha.enable_discovery {
        match server_display(uri) {
            None => None,
            Some(display) => Some(
                seq![
                    server_status_message(mqtt, version, poll),
                    (
                        bridge_sensor_topic(mqtt.ha, "cups_version"@),
                        bridge_sensor_payload(mqtt, display, "cups_version"@, "CUPS version"@, poll_cups_version(poll)),
                    ),
                    (
                        bridge_sensor_topic(mqtt.ha, "cups2mqtt_version"@),
                        bridge_sensor_payload(
                            mqtt,
                            display,
                            "cups2mqtt_version"@,
                            "CUPS2MQTT version"@,
                            poll_cups_version(poll),
                        ),
                    ),
                ],
            ),
        }
    } else {
        Some(seq![server_status_message(mqtt, version, poll)])
    }
}

/// The messages of a report cycle, in the order they are published: those
/// about the server, then, when the poll succeeded, those for each queue. When
/// the server's sensors cannot be made, only the server status goes out.
pub open spec fn cycle_messages(
    settings: Settings,
    version: Seq<char>,
    poll: Result<Vec<IppPrintQueueState>, CupsError>,
) -> Seq<(Seq<char>, Seq<char>)> {
    match server_messages(settings.mqtt, settings.cups.uri@, version, poll) {
        None => seq![server_status_message(settings.mqtt, version, poll)],
        Some(server) => match poll {
            Ok(queues) => server + queues_messages(settings.mqtt, queues@),
            Err(_) => server,
        },
    }
}

/// How a report cycle ends once its messages are out: it fails when the server's
/// sensors cannot be made, or else when the poll failed.
pub open spec fn cycle_outcome(
    settings: Settings,
    version: Seq<char>,
    poll: Result<Vec<IppPrintQueueState>, CupsError>,
) -> Result<(), ApplicationError> {
    match server_messages(settings.mqtt, settings.cups.uri@, version, poll) {
        None => Err(ApplicationError::InvalidServerAddress),
        Some(_) => match poll {
            Ok(_) => Ok(()),
            Err(e) => Err(ApplicationError::Cups(e)),
        },
    }
}

/// The names of the queues of a poll, in order.
pub open spec fn queue_names(queues: Seq<IppPrintQueueState>) -> Seq<Seq<char>> {
    queues.map_values(|q: IppPrintQueueState| q.queue_name@)
}

/// What a report cycle does after its poll.
#[derive(Debug)]
pub struct CyclePlan {
    /// The new contents of the known queue names, when they change.
    pub queue_names: Option<Vec<String>>,
    /// Whether the supply-level loop starts now.
    pub start_supply_loop: bool,
    /// The messages to publish, in order; the cycle stops at the first that fails.
    pub messages: Vec<BusMessage>,
    /// The cycle's result once all messages are out.
    pub outcome: Result<(), ApplicationError>,
}

fn push_message(out: &mut Vec<BusMessage>, m: BusMessage)
    ensures
        message_views(final(out)@) == message_views(old(out)@).push(m@),
{
    let ghost v = m@;
    out.push(m);
    assert(message_views(out@) =~= message_views(old(out)@).push(v));
}

/// Appends the messages for one queue.
fn push_queue_messages(out: &mut Vec<BusMessage>, mqtt: &Mqtt, q: &IppPrintQueueState)
    ensures
        message_views(final(out)@) == message_views(old(out)@) + queue_messages(*mqtt, *q),
{
    let mut topic = mqtt.root_topic.clone();
    topic.append("/");
    topic.append(q.queue_name.as_str());
    let payload = MqttCupsPrintQueueStatus::from_queue_state(q).to_json();
    push_message(out, BusMessage { topic, payload });
    if mqtt.ha.enable_discovery {
        push_message(out, ha_sensor_discovery_message(mqtt, q, "name"));
        push_message(out, ha_sensor_discovery_message(mqtt, q, "description"));
        push_message(out, ha_sensor_discovery_message(mqtt, q, "state"));
        push_message(out, ha_sensor_discovery_message(mqtt, q, "job_count"));
        push_message(out, ha_sensor_discovery_message(mqtt, q, "state_message"));
        push_message(out, ha_sensor_discovery_message(mqtt, q, "state_reason"));
    }
    assert(message_views(out@) =~= message_views(old(out)@) + queue_messages(*mqtt, *q));
}

/// The messages for the queues of a poll, queue after queue.
pub fn queue_status_messages(mqtt: &Mqtt, queues: &Vec<IppPrintQueueState>) -> (r: Vec<BusMessage>)
    ensures
        message_views(r@) == queues_messages(*mqtt, queues@),
{
    let mut out: Vec<BusMessage> = Vec::new();
    let mut i: usize = 0;
    while i < queues.len()
        invariant
            i <= queues@.len(),
            message_views(out@) == queues_messages(*mqtt, queues@.subrange(0, i as int)),
        decreases queues@.len() - i,
    {
        proof {
            assert(queues@.subrange(0, i + 1).drop_last() =~= queues@.subrange(0, i as int));
        }
        push_queue_messages(&mut out, mqtt, &queues[i]);
        i = i + 1;
    }
    assert(queues@.subrange(0, queues@.len() as int) =~= queues@);
    out
}

/// The messages about the server after a poll, or `None` when discovery needs
/// the server's host and its address gives none.
pub fn server_status_messages(
    mqtt: &Mqtt,
    uri: &str,
    engine_version: &str,
    poll: &Result<Vec<IppPrintQueueState>, CupsError>,
) -> (r: (BusMessage, Option<Vec<BusMessage>>))
    ensures
        r.0@ == server_status_message(*mqtt, engine_version@, *poll),
        match r.1 {
            Some(v) => server_messages(*mqtt, uri@, engine_version@, *poll) == Some(message_views(v@)),
            None => server_messages(*mqtt, uri@, engine_version@, *poll).is_none(),
        },
{
    let status = server_status(poll, engine_version);
    let mut topic = mqtt.root_topic.clone();
    topic.append("/cups_server");
    let status_message = BusMessage { topic, payload: status.to_json() };
    let mut out: Vec<BusMessage> = Vec::new();
    push_message(&mut out, status_message.duplicate());
    if mqtt.ha.enable_discovery {
        let display = match server_display_address(uri) {
            Some(d) => d,
            None => return (status_message, None),
        };
        push_message(
            &mut out,
            ha_bridge_discovery_message(mqtt, display.as_str(), &status.cups_version, "cups_version", "CUPS version"),
        );
        push_message(
            &mut out,
            ha_bridge_discovery_message(
                mqtt,
                display.as_str(),
                &status.cups_version,
                "cups2mqtt_version",
                "CUPS2MQTT version",
            ),
        );
        assert(message_views(out@) =~= server_messages(*mqtt, uri@, engine_version@, *poll).unwrap());
    } else {
        assert(message_views(out@) =~= server_messages(*mqtt, uri@, engine_version@, *poll).unwrap());
    }
    (status_message, Some(out))
}

/// The state that the report loop keeps between cycles.
pub struct SyncEngine {
    known_queues: Option<Vec<String>>,
    supply_loop_started: bool,
    cache: PublishCache,
}

impl SyncEngine {
    /// The queue names that the last successful poll handed on, once there was one.
    pub closed spec fn known_queues(&self) -> Option<Seq<Seq<char>>> {
        match self.known_queues {
            Some(v) => Some(string_views(v@)),
            None => None,
        }
    }

    /// Whether the supply-level loop was started.
    pub closed spec fn supply_loop_started(&self) -> bool {
        self.supply_loop_started
    }

    /// The topics and the payloads last submitted on them.
    pub closed spec fn published(&self) -> Map<Seq<char>, Seq<char>> {
        self.cache.entries()
    }

    /// The supply-level loop runs only once the queue names are known.
    pub closed spec fn wf(&self) -> bool {
        self.supply_loop_started ==> self.known_queues.is_some()
    }

    /// An engine before its first cycle: nothing known, nothing published, no
    /// supply-level loop.
    pub fn new() -> (r: SyncEngine)
        ensures
            r.wf(),
            r.known_queues().is_none(),
            !r.supply_loop_started(),
            r.published() == Map::<Seq<char>, Seq<char>>::empty(),
    {
        SyncEngine { known_queues: None, supply_loop_started: false, cache: PublishCache::new() }
    }

    /// The queue names that the last successful poll handed on.
    pub fn known_queue_names(&self) -> (r: Option<Vec<String>>)
        ensures
            match r {
                Some(v) => self.known_queues() == Some(string_views(v@)),
                None => self.known_queues().is_none(),
            },
    {
        match &self.known_queues {
            Some(v) => {
                let c = v.clone();
                assert(string_views(c@) =~= string_views(v@));
                Some(c)
            },
            None => None,
        }
    }

    /// Plans a report cycle from the result of its poll.
    ///
    /// When a supply-level schedule is set and the poll succeeded, the names of
    /// the polled queues replace the known ones, and the supply-level loop starts
    /// if this is the first time. The messages are those of the server and, after
    /// a successful poll, those of each queue; the outcome is the poll's failure,
    /// if any.
    pub fn plan_cycle(
        &mut self,
        settings: &Settings,
        engine_version: &str,
        poll: &Result<Vec<IppPrintQueueState>, CupsError>,
    ) -> (r: CyclePlan)
        requires
            old(self).wf(),
        ensures
            final(self).wf(),
            match r.queue_names {
                Some(v) => {
                    &&& settings.cups.report_supply_levels_schedule.is_some()
                    &&& poll is Ok
                    &&& string_views(v@) == queue_names(poll->Ok_0@)
                    &&& final(self).known_queues() == Some(string_views(v@))
                },
                None => {
                    &&& !(settings.cups.report_supply_levels_schedule.is_some() && poll is Ok)
                    &&& final(self).known_queues() == old(self).known_queues()
                },
            },
            r.start_supply_loop == (r.queue_names.is_some() && !old(self).supply_loop_started()),
            final(self).supply_loop_started() == (old(self).supply_loop_started() || r.queue_names.is_some()),
            r.start_supply_loop ==> final(self).known_queues().is_some(),
            final(self).published() == old(self).published(),
            message_views(r.messages@) == cycle_messages(*settings, engine_version@, *poll),
            r.outcome == cycle_outcome(*settings, engine_version@, *poll),
    {
        let mut handed_on: Option<Vec<String>> = None;
        if settings.cups.report_supply_levels_schedule.is_some() {
            match poll {
                Ok(queues) => {
                    let mut names: Vec<String> = Vec::new();
                    let mut i: usize = 0;
                    while i < queues.len()
                        invariant
                            i <= queues@.len(),
                            string_views(names@) == queue_names(queues@.subrange(0, i as int)),
                        decreases queues@.len() - i,
                    {
                        proof {
                            assert(queues@.subrange(0, i + 1) =~= queues@.subrange(0, i as int).push(queues@[i as int]));
                        }
                        let ghost before = names@;
                        let name = queues[i].queue_name.clone();
                        names.push(name);
                        proof {
                            assert(names@ == before.push(name));
                            assert(string_views(names@) =~= string_views(before).push(name@));
                            assert(queue_names(queues@.subrange(0, i + 1)) =~= queue_names(
                                queues@.subrange(0, i as int),
                            ).push(queues@[i as int].queue_name@));
                        }
                        i = i + 1;
                    }
                    assert(queues@.subrange(0, queues@.len() as int) =~= queues@);
                    handed_on = Some(names);
                },
                Err(_) => {},
            }
        }
        let start_supply_loop = handed_on.is_some() && !self.supply_loop_started;
        match &handed_on {
            Some(names) => {
                let kept = names.clone();
                assert(string_views(kept@) =~= string_views(names@));
                self.known_queues = Some(kept);
                self.supply_loop_started = true;
            },
            None => {},
        }

        let (status_message, server) = server_status_messages(
            &settings.mqtt,
            settings.cups.uri.as_str(),
            engine_version,
            poll,
        );
        let (messages, outcome) = match server {
            None => {
                let mut only_status: Vec<BusMessage> = Vec::new();
                push_message(&mut only_status, status_message);
                assert(message_views(only_status@) =~= seq![
                    server_status_message(settings.mqtt, engine_version@, *poll),
                ]);
                (only_status, Err(ApplicationError::InvalidServerAddress))
            },
            Some(mut server_part) => match poll {
                Ok(queues) => {
                    let ghost head = message_views(server_part@);
                    let mut rest = queue_status_messages(&settings.mqtt, queues);
                    let ghost tail = message_views(rest@);
                    server_part.append(&mut rest);
                    assert(message_views(server_part@) =~= head + tail);
                    (server_part, Ok(()))
                },
                Err(e) => (server_part, Err(ApplicationError::Cups(e.duplicate()))),
            },
        };
        CyclePlan { queue_names: handed_on, start_supply_loop, messages, outcome }
    }

    /// Records a message and says whether it must go to the bus: true when its
    /// topic had no payload yet or a different one.
    pub fn publish(&mut self, message: &BusMessage) -> (r: bool)
        requires
            old(self).wf(),
        ensures
            final(self).wf(),
            r == crate::cache::is_news(old(self).published(), message.topic@, message.payload@),
            final(self).published() == old(self).published().insert(message.topic@, message.payload@),
            final(self).known_queues() == old(self).known_queues(),
            final(self).supply_loop_started() == old(self).supply_loop_started(),
    {
        self.cache.publish(message.topic.as_str(), message.payload.as_str())
    }
}

/// The exponential backoff that retries a failed report cycle within its tick:
/// the first retry waits `min_delay`, each later one `factor` times the one
/// before, at most `max_delay`; after `max_times` retries the tick gives up.
#[derive(Debug, Clone, Copy, PartialEq, Eq, Structural)]
pub struct BackoffPolicy {
    pub min_delay: Delay,
    pub factor: u32,
    pub max_delay: Delay,
    pub max_times: usize,
}

impl BackoffPolicy {
    /// The backoff of the report cycle: one second at first, four times longer
    /// each retry, at most a minute, three retries.
    pub fn report_cycle() -> (r: BackoffPolicy)
        ensures
            r.min_delay == (Delay { secs: 1, nanos: 0 }),
            r.factor == 4,
            r.max_delay == (Delay { secs: 60, nanos: 0 }),
            r.max_times == 3,
    {
        BackoffPolicy { min_delay: Delay::from_secs(1), factor: 4, max_delay: Delay::from_secs(60), max_times: 3 }
    }
}

/// What the report loop does after one attempt at a cycle.
#[derive(Debug, Clone, Copy, PartialEq, Eq, Structural)]
pub enum AttemptStep {
    /// The cycle succeeded: the tick is over.
    Finished,
    /// The cycle failed: wait, then attempt it again.
    RetryAfter(Delay),
    /// The cycle failed and the backoff has no retry left: the tick failed.
    GiveUp,
}

/// The step after an attempt. `next_backoff` is the backoff's next wait, which
/// it gives only while retries are left.
pub fn after_attempt(succeeded: bool, next_backoff: Option<Delay>) -> (r: AttemptStep)
    ensures
        succeeded ==> r == AttemptStep::Finished,
        !succeeded ==> r == match next_backoff {
            Some(d) => AttemptStep::RetryAfter(d),
            None => AttemptStep::GiveUp,
        },
{
    if succeeded {
        AttemptStep::Finished
    } else {
        match next_backoff {
            Some(d) => AttemptStep::RetryAfter(d),
            None => AttemptStep::GiveUp,
        }
    }
}

/// The wait after a failed tick, before scheduling resumes.
pub fn failure_cooldown() -> (r: Delay)
    ensures
        r == (Delay { secs: FAILURE_COOLDOWN_SECS, nanos: 0 }),
{
    Delay::from_secs(FAILURE_COOLDOWN_SECS)
}

/// The wait before the next tick of a loop: after a successful tick the
/// schedule's wait from `now_millis`, after a failed one the fixed cooldown.
pub fn wait_after_tick(tick_succeeded: bool, schedule: &TimeSchedule, now_millis: i64) -> (r: Result<
    Delay,
    ScheduleError,
>)
    ensures
        !tick_succeeded ==> r == Ok::<Delay, ScheduleError>(Delay { secs: FAILURE_COOLDOWN_SECS, nanos: 0 }),
        tick_succeeded ==> match schedule {
            TimeSchedule::Interval(d) => r == Ok::<Delay, ScheduleError>(*d),
            TimeSchedule::Cron(_) => match r {
                Ok(d) => d.wf() && d.total_nanos() > 0,
                Err(e) => e == ScheduleError::UnresolvableSchedule,
            },
        },
{
    if tick_succeeded {
        schedule.next_wait(now_millis)
    } else {
        Ok(failure_cooldown())
    }
}

/// The addresses that a supply-level round commands: one for each queue whose
/// address can be made, in the order of the queues.
pub open spec fn supply_targets(
    uri: Seq<char>,
    username: Seq<char>,
    password: Seq<char>,
    queues: Seq<Seq<char>>,
) -> Seq<Seq<char>>
    decreases queues.len(),
{
    if queues.len() == 0 {
        Seq::empty()
    } else {
        let earlier = supply_targets(uri, username, password, queues.drop_last());
        match cups_url(uri, username, password, Some(queues.last())) {
            Some(u) => earlier.push(u),
            None => earlier,
        }
    }
}

/// One run of the supply-level loop over a snapshot of the known queues: it
/// hands out each queue's address in turn, whatever became of the ones before.
pub struct SupplyRound {
    targets: Vec<String>,
    next: usize,
    failures: usize,
}

impl SupplyRound {
    /// The addresses of the round, in order.
    pub closed spec fn targets(&self) -> Seq<Seq<char>> {
        string_views(self.targets@)
    }

    /// How many addresses were handed out.
    pub closed spec fn handed_out(&self) -> nat {
        self.next as nat
    }

    /// How many commands were reported failed.
    pub closed spec fn failures(&self) -> nat {
        self.failures as nat
    }

    pub closed spec fn wf(&self) -> bool {
        &&& self.next <= self.targets@.len() <= usize::MAX
        &&& self.failures <= self.next
    }

    /// One step of the round: note how the last command went, then hand out the
    /// next address, if any is left. The address does not depend on `last`.
    pub closed spec fn step(self, last: Option<Result<(), CupsError>>) -> (SupplyRound, Option<Seq<char>>) {
        let failures = if last matches Some(Err(_)) && self.failures < self.next {
            (self.failures + 1) as usize
        } else {
            self.failures
        };
        if self.next < self.targets@.len() {
            (
                SupplyRound { targets: self.targets, next: (self.next + 1) as usize, failures },
                Some(self.targets@[self.next as int]@),
            )
        } else {
            (SupplyRound { targets: self.targets, next: self.next, failures }, None)
        }
    }

    /// A round over the queues of a snapshot; a queue whose address cannot be
    /// made is left out.
    pub fn new(cups: &Cups, queues: &Vec<String>) -> (r: SupplyRound)
        ensures
            r.wf(),
            r.targets() == supply_targets(cups.uri@, cups.username@, cups.password@, string_views(queues@)),
            r.handed_out() == 0,
            r.failures() == 0,
    {
        let mut targets: Vec<String> = Vec::new();
        let mut i: usize = 0;
        while i < queues.len()
            invariant
                i <= queues@.len(),
                targets@.len() <= i,
                string_views(targets@) == supply_targets(
                    cups.uri@,
                    cups.username@,
                    cups.password@,
                    string_views(queues@.subrange(0, i as int)),
                ),
            decreases queues@.len() - i,
        {
            proof {
                assert(string_views(queues@.subrange(0, i + 1)).drop_last() =~= string_views(
                    queues@.subrange(0, i as int),
                ));
                assert(string_views(queues@.subrange(0, i + 1)).last() == queues@[i as int]@);
            }
            let ghost before = targets@;
            match build_cups_url(cups, Some(&queues[i])) {
                Ok(u) => {
                    targets.push(u);
                    assert(string_views(targets@) =~= string_views(before).push(u@));
                },
                Err(_) => {},
            }
            i = i + 1;
        }
        assert(queues@.subrange(0, queues@.len() as int) =~= queues@);
        SupplyRound { targets, next: 0, failures: 0 }
    }

    /// Notes how the last command went and hands out the next address, if any is
    /// left. The address does not depend on `last`: a failed command does not
    /// stop the round.
    pub fn advance(&mut self, last: &Option<Result<(), CupsError>>) -> (r: Option<String>)
        requires
            old(self).wf(),
        ensures
            final(self).wf(),
            *final(self) == old(self).step(*last).0,
            crate::cups_url::opt_view(r) == old(self).step(*last).1,
            final(self).targets() == old(self).targets(),
            old(self).handed_out() < old(self).targets().len() ==> {
                &&& r is Some
                &&& r.unwrap()@ == old(self).targets()[old(self).handed_out() as int]
                &&& final(self).handed_out() == old(self).handed_out() + 1
            },
            old(self).handed_out() >= old(self).targets().len() ==> r is None && final(self).handed_out()
                == old(self).handed_out(),
    {
        if let Some(Err(_)) = last {
            if self.failures < self.next {
                self.failures = self.failures + 1;
            }
        }
        if self.next < self.targets.len() {
            let target = self.targets[self.next].clone();
            self.next = self.next + 1;
            Some(target)
        } else {
            None
        }
    }

    /// How many commands of the round were reported failed.
    pub fn failure_count(&self) -> (r: usize)
        ensures
            r == self.failures(),
    {
        self.failures
    }
}

/// The addresses that a round hands out over a run of steps, each step told how
/// the command before it went.
pub open spec fn run_round(round: SupplyRound, outcomes: Seq<Option<Result<(), CupsError>>>) -> Seq<Seq<char>>
    decreases outcomes.len(),
{
    if outcomes.len() == 0 {
        Seq::empty()
    } else {
        let (after, handed) = round.step(outcomes[0]);
        match handed {
            Some(a) => seq![a] + run_round(after, outcomes.drop_first()),
            None => run_round(after, outcomes.drop_first()),
        }
    }
}

/// Whatever becomes of each command, a round hands out the address of every
/// queue left in it, in order: a failed command stops none of those after it.
pub proof fn lemma_round_reaches_every_queue(round: SupplyRound, outcomes: Seq<Option<Result<(), CupsError>>>)
    requires
        round.wf(),
        outcomes.len() == round.targets().len() - round.handed_out(),
    ensures
        run_round(round, outcomes) == round.targets().subrange(
            round.handed_out() as int,
            round.targets().len() as int,
        ),
    decreases outcomes.len(),
{
    if outcomes.len() == 0 {
        assert(round.targets().subrange(round.handed_out() as int, round.targets().len() as int) =~= Seq::<
            Seq<char>,
        >::empty());
    } else {
        let (after, handed) = round.step(outcomes[0]);
        assert(after.wf());
        assert(after.targets() == round.targets());
        assert(after.handed_out() == round.handed_out() + 1);
        lemma_round_reaches_every_queue(after, outcomes.drop_first());
        assert(handed == Some(round.targets()[round.handed_out() as int]));
        assert(round.targets().subrange(round.handed_out() as int, round.targets().len() as int) =~= seq![
            round.targets()[round.handed_out() as int],
        ] + round.targets().subrange(after.handed_out() as int, round.targets().len() as int));
    }
}

} // verus!
