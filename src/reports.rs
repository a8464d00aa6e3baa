//! From queue records to bus messages and discovery payloads.

use vstd::prelude::*;

use convert_case::{pattern, Converter};

use crate::config::{HomeAssistant, Mqtt};
use crate::cups_url::opt_view;
use crate::json::{json_string_text, int_text, opt_text_json};
use crate::messages::{
    comma_joined, device_json, level_json, markers_json, sensor_json, string_views,
    BusMessage, HomeAssistantDevice, HomeAssistantDiscoverySensorPayload, MqttCupsPrintQueueStatus,
    MqttCupsPrinterMarker, MqttCupsPrinterState, MqttCupsServerStatus,
};
use crate::queues::{CupsError, IppPrintQueueState, PrinterMarker, PrinterState};

verus! {

/// An identifier such as `job_count` as convert_case writes it as a sentence: `Job count`.
pub uninterp spec fn sentence_case(s: Seq<char>) -> Seq<char>;

/// Relies on convert_case's `Converter::convert`, set to the sentence pattern with
/// a space between words: an identifier written as a capitalised sentence.
#[verifier::external_body]
fn to_sentence_case(s: &str) -> (r: String)
    ensures
        r@ == sentence_case(s@),
{
    Converter::new().set_pattern(pattern::sentence).set_delim(" ").convert(s)
}

/// A supply's color on the bus: `none` stands for no color.
pub open spec fn marker_color(color: Seq<char>) -> Option<Seq<char>> {
    if color == "none"@ {
        None
    } else {
        Some(color)
    }
}

/// A queue state on the bus.
pub open spec fn bus_state(s: PrinterState) -> MqttCupsPrinterState {
    match s {
        PrinterState::Idle => MqttCupsPrinterState::Idle,
        PrinterState::Processing => MqttCupsPrinterState::Processing,
        PrinterState::Stopped => MqttCupsPrinterState::Stopped,
    }
}

/// The JSON that a supply becomes on the bus.
pub open spec fn marker_payload(m: PrinterMarker) -> Seq<char> {
    "{\"type\":"@ + json_string_text(m.marker_type@) + ",\"color\":"@ + opt_text_json(marker_color(m.color@))
        + ",\"name\":"@ + json_string_text(m.name@) + ",\"level\":"@ + level_json(m.level) + "}"@
}

/// The JSON that a queue record becomes on the bus.
pub open spec fn queue_status_payload(q: IppPrintQueueState) -> Seq<char> {
    "{\"name\":"@ + json_string_text(q.queue_name@) + ",\"description\":"@ + json_string_text(q.description@)
        + ",\"printer_make\":"@ + json_string_text(q.printer_make@) + ",\"state\":"@ + bus_state(q.state).json()
        + ",\"job_count\":"@ + int_text(q.job_count as int) + ",\"state_message\":"@ + json_string_text(
        q.state_message@,
    ) + ",\"state_reason\":"@ + json_string_text(q.state_reason@) + ",\"markers\":["@ + comma_joined(
        q.markers@.map_values(|m: PrinterMarker| marker_payload(m)),
    ) + "]}"@
}

impl MqttCupsPrinterMarker {
    /// A supply as the bus shows it; a color of `none` becomes no color.
    pub fn from_marker(m: &PrinterMarker) -> (r: Self)
        ensures
            r.marker_type@ == m.marker_type@,
            opt_view(r.color) == marker_color(m.color@),
            r.name@ == m.name@,
            r.level == m.level,
            r.json() == marker_payload(*m),
    {
        let no_color = String::from_str("none");
        let color = if m.color == no_color {
            None
        } else {
            Some(m.color.clone())
        };
        MqttCupsPrinterMarker { marker_type: m.marker_type.clone(), color, name: m.name.clone(), level: m.level }
    }
}

impl MqttCupsPrinterState {
    /// A queue state as the bus shows it.
    pub fn from_printer_state(s: PrinterState) -> (r: Self)
        ensures
            r == bus_state(s),
    {
        match s {
            PrinterState::Idle => MqttCupsPrinterState::Idle,
            PrinterState::Processing => MqttCupsPrinterState::Processing,
            PrinterState::Stopped => MqttCupsPrinterState::Stopped,
        }
    }
}

impl MqttCupsPrintQueueStatus {
    /// A queue record as the bus shows it: the same fields, the state by name,
    /// each supply as the bus shows it.
    pub fn from_queue_state(q: &IppPrintQueueState) -> (r: Self)
        ensures
            r.name@ == q.queue_name@,
            r.description@ == q.description@,
            r.printer_make@ == q.printer_make@,
            r.state == bus_state(q.state),
            r.job_count == q.job_count,
            r.state_message@ == q.state_message@,
            r.state_reason@ == q.state_reason@,
            r.markers@.len() == q.markers@.len(),
            forall|i: int|
                0 <= i < r.markers@.len() ==> opt_view(#[trigger] r.markers@[i].color) == marker_color(
                    q.markers@[i].color@,
                ),
            r.json() == queue_status_payload(*q),
    {
        let mut markers: Vec<MqttCupsPrinterMarker> = Vec::new();
        let mut i: usize = 0;
        while i < q.markers.len()
            invariant
                i <= q.markers@.len(),
                markers@.len() == i,
                forall|j: int| 0 <= j < i ==> opt_view(#[trigger] markers@[j].color) == marker_color(q.markers@[j].color@),
                forall|j: int| 0 <= j < i ==> (#[trigger] markers@[j]).json() == marker_payload(q.markers@[j]),
            decreases q.markers@.len() - i,
        {
            markers.push(MqttCupsPrinterMarker::from_marker(&q.markers[i]));
            i = i + 1;
        }
        let r = MqttCupsPrintQueueStatus {
            name: q.queue_name.clone(),
            description: q.description.clone(),
            printer_make: q.printer_make.clone(),
            state: MqttCupsPrinterState::from_printer_state(q.state),
            job_count: q.job_count,
            state_message: q.state_message.clone(),
            state_reason: q.state_reason.clone(),
            markers,
        };
        assert(markers_json(r.markers@) =~= q.markers@.map_values(|m: PrinterMarker| marker_payload(m)));
        r
    }
}

/// The version of the print server that a poll shows: that of its first queue.
pub open spec fn poll_cups_version(poll: Result<Vec<IppPrintQueueState>, CupsError>) -> Option<Seq<char>> {
    match poll {
        Ok(v) => if v@.len() > 0 {
            Some(v@[0].cups_version@)
        } else {
            None
        },
        Err(_) => None,
    }
}

/// The JSON of the server status after a poll.
pub open spec fn server_status_payload(poll: Result<Vec<IppPrintQueueState>, CupsError>, version: Seq<char>) -> Seq<char> {
    "{\"is_reachable\":"@ + crate::json::bool_json(poll is Ok) + ",\"cups_version\":"@ + opt_text_json(
        poll_cups_version(poll),
    ) + ",\"cups2mqtt_version\":"@ + json_string_text(version) + "}"@
}

/// The server status after a poll: reachable when the poll succeeded, with the
/// version of its first queue, and the bridge's own version.
pub fn server_status(poll: &Result<Vec<IppPrintQueueState>, CupsError>, engine_version: &str) -> (r: MqttCupsServerStatus)
    ensures
        r.is_reachable == poll is Ok,
        opt_view(r.cups_version) == poll_cups_version(*poll),
        r.cups2mqtt_version@ == engine_version@,
        r.json() == server_status_payload(*poll, engine_version@),
{
    let cups_version = match poll {
        Ok(queues) => if queues.len() > 0 {
            Some(queues[0].cups_version.clone())
        } else {
            None
        },
        Err(_) => None,
    };
    MqttCupsServerStatus {
        is_reachable: poll.is_ok(),
        cups_version,
        cups2mqtt_version: String::from_str(engine_version),
    }
}

/// The template that picks an attribute out of a state payload.
pub open spec fn value_template(attribute: Seq<char>) -> Seq<char> {
    "{{ value_json."@ + attribute + " }}"@
}

/// The identifier of the print server's device.
pub open spec fn server_device_id(ha: HomeAssistant) -> Seq<char> {
    ha.component_id@ + "_cups_server"@
}

/// The discovery topic of a queue's sensor for one attribute.
pub open spec fn queue_sensor_topic(ha: HomeAssistant, queue_name: Seq<char>, attribute: Seq<char>) -> Seq<char> {
    ha.discovery_topic_prefix@ + "/sensor/"@ + ha.component_id@ + "_"@ + queue_name + "/"@ + attribute + "/config"@
}

/// The discovery payload of a queue's sensor for one attribute.
pub open spec fn queue_sensor_payload(mqtt: Mqtt, q: IppPrintQueueState, attribute: Seq<char>) -> Seq<char> {
    sensor_json(
        sentence_case(attribute),
        mqtt.root_topic@ + "/"@ + q.queue_name@,
        q.queue_name@ + "_"@ + attribute + "_"@ + mqtt.ha.component_id@,
        device_json(
            seq![mqtt.ha.component_id@ + "_"@ + q.queue_name@],
            q.printer_make@,
            q.description@,
            None,
            Some(server_device_id(mqtt.ha)),
        ),
        value_template(attribute),
    )
}

/// The discovery message of a queue's sensor for one attribute: the queue is a
/// device reached through the print server's device.
pub fn ha_sensor_discovery_message(mqtt: &Mqtt, queue: &IppPrintQueueState, attribute: &str) -> (r: BusMessage)
    ensures
        r.topic@ == queue_sensor_topic(mqtt.ha, queue.queue_name@, attribute@),
        r.payload@ == queue_sensor_payload(*mqtt, *queue, attribute@),
{
    let ha = &mqtt.ha;
    let mut topic = ha.discovery_topic_prefix.clone();
    topic.append("/sensor/");
    topic.append(ha.component_id.as_str());
    topic.append("_");
    topic.append(queue.queue_name.as_str());
    topic.append("/");
    topic.append(attribute);
    topic.append("/config");

    let mut state_topic = mqtt.root_topic.clone();
    state_topic.append("/");
    state_topic.append(queue.queue_name.as_str());

    let mut unique_id = queue.queue_name.clone();
    unique_id.append("_");
    unique_id.append(attribute);
    unique_id.append("_");
    unique_id.append(ha.component_id.as_str());

    let mut template = String::from_str("{{ value_json.");
    template.append(attribute);
    template.append(" }}");

    let mut device_id = ha.component_id.clone();
    device_id.append("_");
    device_id.append(queue.queue_name.as_str());

    let mut via = ha.component_id.clone();
    via.append("_cups_server");

    let identifiers = vec![device_id];
    assert(string_views(identifiers@) =~= seq![mqtt.ha.component_id@ + "_"@ + queue.queue_name@]);
    let payload = HomeAssistantDiscoverySensorPayload {
        name: to_sentence_case(attribute),
        state_topic,
        unique_id,
        device: HomeAssistantDevice {
            identifiers,
            model: queue.printer_make.clone(),
            name: queue.description.clone(),
            sw_version: None,
            via_device: Some(via),
        },
        value_template: template,
    };
    BusMessage { topic, payload: payload.to_json() }
}

/// The discovery topic of one of the print server's sensors.
pub open spec fn bridge_sensor_topic(ha: HomeAssistant, integration: Seq<char>) -> Seq<char> {
    ha.discovery_topic_prefix@ + "/sensor/"@ + ha.component_id@ + "_cups_server/"@ + integration + "/config"@
}

/// The discovery payload of one of the print server's sensors; `display` is the
/// server's `host:port`.
pub open spec fn bridge_sensor_payload(
    mqtt: Mqtt,
    display: Seq<char>,
    integration: Seq<char>,
    sensor_name: Seq<char>,
    cups_version: Option<Seq<char>>,
) -> Seq<char> {
    sensor_json(
        sensor_name,
        mqtt.root_topic@ + "/cups_server"@,
        "cups_server_"@ + integration + "_"@ + mqtt.ha.component_id@,
        device_json(
            seq![server_device_id(mqtt.ha)],
            "CUPS print server"@,
            "CUPS @ "@ + display,
            cups_version,
            None,
        ),
        value_template(integration),
    )
}

/// The discovery message of one of the print server's sensors; the server's
/// device is the root device, reached through no other.
pub fn ha_bridge_discovery_message(
    mqtt: &Mqtt,
    display: &str,
    cups_version: &Option<String>,
    integration: &str,
    sensor_name: &str,
) -> (r: BusMessage)
    ensures
        r.topic@ == bridge_sensor_topic(mqtt.ha, integration@),
        r.payload@ == bridge_sensor_payload(*mqtt, display@, integration@, sensor_name@, opt_view(*cups_version)),
{
    let ha = &mqtt.ha;
    let mut topic = ha.discovery_topic_prefix.clone();
    topic.append("/sensor/");
    topic.append(ha.component_id.as_str());
    topic.append("_cups_server/");
    topic.append(integration);
    topic.append("/config");

    let mut state_topic = mqtt.root_topic.clone();
    state_topic.append("/cups_server");

    let mut unique_id = String::from_str("cups_server_");
    unique_id.append(integration);
    unique_id.append("_");
    unique_id.append(ha.component_id.as_str());

    let mut template = String::from_str("{{ value_json.");
    template.append(integration);
    template.append(" }}");

    let mut device_id = ha.component_id.clone();
    device_id.append("_cups_server");

    let mut device_name = String::from_str("CUPS @ ");
    device_name.append(display);

    let identifiers = vec![device_id];
    assert(string_views(identifiers@) =~= seq![server_device_id(mqtt.ha)]);
    let payload = HomeAssistantDiscoverySensorPayload {
        name: String::from_str(sensor_name),
        state_topic,
        unique_id,
        device: HomeAssistantDevice {
            identifiers,
            model: String::from_str("CUPS print server"),
            name: device_name,
            sw_version: cups_version.clone(),
            via_device: None,
        },
        value_template: template,
    };
    BusMessage { topic, payload: payload.to_json() }
}

} // verus!
