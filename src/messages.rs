//! The messages that the bridge publishes, and the JSON text of each.
//!
//! Each payload is framed here, field by field in a fixed order; the string
//! literals inside it, with their escapes, come from serde_json.

use vstd::prelude::*;

use crate::cups_url::opt_view;
use crate::json::{
    bool_json, decimal_text, int_text, json_string_text, opt_text_json, push_bool, push_decimal,
    push_int, push_json_string, push_opt_json_string,
};

verus! {

/// Texts joined by commas, as the items of a JSON array.
pub open spec fn comma_joined(items: Seq<Seq<char>>) -> Seq<char>
    decreases items.len(),
{
    if items.len() == 0 {
        Seq::empty()
    } else if items.len() == 1 {
        items[0]
    } else {
        comma_joined(items.drop_last()) + ","@ + items.last()
    }
}

/// Joining one more item adds a comma, unless it is the first.
pub proof fn lemma_comma_joined_push(items: Seq<Seq<char>>, item: Seq<char>)
    ensures
        comma_joined(items.push(item)) == if items.len() == 0 {
            item
        } else {
            comma_joined(items) + ","@ + item
        },
{
    assert(items.push(item).drop_last() =~= items);
}

/// The state of a queue on the bus.
#[derive(Debug, Clone, Copy, PartialEq, Eq, Structural)]
pub enum MqttCupsPrinterState {
    Idle,
    Processing,
    Stopped,
}

impl MqttCupsPrinterState {
    /// The state's JSON: its name as a string.
    pub open spec fn json(self) -> Seq<char> {
        match self {
            MqttCupsPrinterState::Idle => "\"Idle\""@,
            MqttCupsPrinterState::Processing => "\"Processing\""@,
            MqttCupsPrinterState::Stopped => "\"Stopped\""@,
        }
    }

    /// Appends the state's JSON to `out`.
    pub fn push_json(&self, out: &mut String)
        ensures
            final(out)@ == old(out)@ + self.json(),
    {
        match self {
            MqttCupsPrinterState::Idle => out.append("\"Idle\""),
            MqttCupsPrinterState::Processing => out.append("\"Processing\""),
            MqttCupsPrinterState::Stopped => out.append("\"Stopped\""),
        }
    }
}

/// A supply level as JSON: the number, or `null`.
pub open spec fn level_json(level: Option<u32>) -> Seq<char> {
    match level {
        Some(l) => decimal_text(l as nat),
        None => "null"@,
    }
}

/// A supply of a queue on the bus.
#[derive(Debug, Clone, PartialEq, Eq)]
pub struct MqttCupsPrinterMarker {
    pub marker_type: String,
    pub color: Option<String>,
    pub name: String,
    pub level: Option<u32>,
}

impl MqttCupsPrinterMarker {
    /// `{"type":…,"color":…,"name":…,"level":…}`
    pub open spec fn json(self) -> Seq<char> {
        "{\"type\":"@ + json_string_text(self.marker_type@) + ",\"color\":"@ + opt_text_json(
            opt_view(self.color),
        ) + ",\"name\":"@ + json_string_text(self.name@) + ",\"level\":"@ + level_json(self.level)
            + "}"@
    }

    /// Appends the supply's JSON to `out`.
    pub fn push_json(&self, out: &mut String)
        ensures
            final(out)@ == old(out)@ + self.json(),
    {
        out.append("{\"type\":");
        push_json_string(out, self.marker_type.as_str());
        out.append(",\"color\":");
        push_opt_json_string(out, &self.color);
        out.append(",\"name\":");
        push_json_string(out, self.name.as_str());
        out.append(",\"level\":");
        match self.level {
            Some(l) => push_decimal(out, l as u64),
            None => out.append("null"),
        }
        out.append("}");
    }
}

/// The JSON of each supply, in order.
pub open spec fn markers_json(markers: Seq<MqttCupsPrinterMarker>) -> Seq<Seq<char>> {
    markers.map_values(|m: MqttCupsPrinterMarker| m.json())
}

/// The status of one queue on the bus.
#[derive(Debug, Clone, PartialEq, Eq)]
pub struct MqttCupsPrintQueueStatus {
    pub name: String,
    pub description: String,
    pub printer_make: String,
    pub state: MqttCupsPrinterState,
    pub job_count: i32,
    pub state_message: String,
    pub state_reason: String,
    pub markers: Vec<MqttCupsPrinterMarker>,
}

impl MqttCupsPrintQueueStatus {
    /// `{"name":…,"description":…,"printer_make":…,"state":…,"job_count":…,
    /// "state_message":…,"state_reason":…,"markers":[…]}`
    pub open spec fn json(self) -> Seq<char> {
        "{\"name\":"@ + json_string_text(self.name@) + ",\"description\":"@ + json_string_text(
            self.description@,
        ) + ",\"printer_make\":"@ + json_string_text(self.printer_make@) + ",\"state\":"@
            + self.state.json() + ",\"job_count\":"@ + int_text(self.job_count as int)
            + ",\"state_message\":"@ + json_string_text(self.state_message@) + ",\"state_reason\":"@
            + json_string_text(self.state_reason@) + ",\"markers\":["@ + comma_joined(
            markers_json(self.markers@),
        ) + "]}"@
    }

    /// The status as JSON.
    pub fn to_json(&self) -> (r: String)
        ensures
            r@ == self.json(),
    {
        let mut out = String::new();
        out.append("{\"name\":");
        push_json_string(&mut out, self.name.as_str());
        out.append(",\"description\":");
        push_json_string(&mut out, self.description.as_str());
        out.append(",\"printer_make\":");
        push_json_string(&mut out, self.printer_make.as_str());
        out.append(",\"state\":");
        self.state.push_json(&mut out);
        out.append(",\"job_count\":");
        push_int(&mut out, self.job_count as i64);
        out.append(",\"state_message\":");
        push_json_string(&mut out, self.state_message.as_str());
        out.append(",\"state_reason\":");
        push_json_string(&mut out, self.state_reason.as_str());
        out.append(",\"markers\":[");
        let ghost head = out@;
        let mut i: usize = 0;
        while i < self.markers.len()
            invariant
                i <= self.markers@.len(),
                out@ == head + comma_joined(markers_json(self.markers@.subrange(0, i as int))),
            decreases self.markers@.len() - i,
        {
            let ghost before = out@;
            proof {
                assert(self.markers@.subrange(0, i + 1) =~= self.markers@.subrange(0, i as int).push(
                    self.markers@[i as int],
                ));
                assert(markers_json(self.markers@.subrange(0, i + 1)) =~= markers_json(
                    self.markers@.subrange(0, i as int),
                ).push(self.markers@[i as int].json()));
                lemma_comma_joined_push(
                    markers_json(self.markers@.subrange(0, i as int)),
                    self.markers@[i as int].json(),
                );
            }
            if i > 0 {
                out.append(",");
            }
            self.markers[i].push_json(&mut out);
            proof {
                if i == 0 {
                    assert(markers_json(self.markers@.subrange(0, 0)) =~= Seq::<Seq<char>>::empty());
                    assert(out@ =~= head + comma_joined(markers_json(self.markers@.subrange(0, 1))));
                } else {
                    assert(out@ =~= head + comma_joined(markers_json(self.markers@.subrange(0, i + 1))));
                }
            }
            i = i + 1;
        }
        assert(self.markers@.subrange(0, self.markers@.len() as int) =~= self.markers@);
        out.append("]}");
        out
    }
}

/// The status of the print server on the bus.
#[derive(Debug, Clone, PartialEq, Eq)]
pub struct MqttCupsServerStatus {
    pub is_reachable: bool,
    pub cups_version: Option<String>,
    pub cups2mqtt_version: String,
}

impl MqttCupsServerStatus {
    /// `{"is_reachable":…,"cups_version":…,"cups2mqtt_version":…}`
    pub open spec fn json(self) -> Seq<char> {
        "{\"is_reachable\":"@ + bool_json(self.is_reachable) + ",\"cups_version\":"@ + opt_text_json(
            opt_view(self.cups_version),
        ) + ",\"cups2mqtt_version\":"@ + json_string_text(self.cups2mqtt_version@) + "}"@
    }

    /// The status as JSON.
    pub fn to_json(&self) -> (r: String)
        ensures
            r@ == self.json(),
    {
        let mut out = String::new();
        out.append("{\"is_reachable\":");
        push_bool(&mut out, self.is_reachable);
        out.append(",\"cups_version\":");
        push_opt_json_string(&mut out, &self.cups_version);
        out.append(",\"cups2mqtt_version\":");
        push_json_string(&mut out, self.cups2mqtt_version.as_str());
        out.append("}");
        out
    }
}

/// A device of the home-automation platform; absent optional fields are left out.
#[derive(Debug, Clone, PartialEq, Eq)]
pub struct HomeAssistantDevice {
    pub identifiers: Vec<String>,
    pub model: String,
    pub name: String,
    pub sw_version: Option<String>,
    pub via_device: Option<String>,
}

/// The JSON of an optional field that is left out when absent: `,"key":"value"`.
pub open spec fn optional_field_json(key: Seq<char>, value: Option<Seq<char>>) -> Seq<char> {
    match value {
        Some(v) => key + json_string_text(v),
        None => Seq::empty(),
    }
}

/// Each text as a JSON string, in order.
pub open spec fn texts_json(texts: Seq<Seq<char>>) -> Seq<Seq<char>> {
    texts.map_values(|t: Seq<char>| json_string_text(t))
}

/// The texts that a list of strings holds.
pub open spec fn string_views(texts: Seq<String>) -> Seq<Seq<char>> {
    texts.map_values(|t: String| t@)
}

/// A device's JSON from its fields:
/// `{"identifiers":[…],"model":…,"name":…[,"sw_version":…][,"via_device":…]}`
pub open spec fn device_json(
    identifiers: Seq<Seq<char>>,
    model: Seq<char>,
    name: Seq<char>,
    sw_version: Option<Seq<char>>,
    via_device: Option<Seq<char>>,
) -> Seq<char> {
    "{\"identifiers\":["@ + comma_joined(texts_json(identifiers)) + "],\"model\":"@ + json_string_text(model)
        + ",\"name\":"@ + json_string_text(name) + optional_field_json(",\"sw_version\":"@, sw_version)
        + optional_field_json(",\"via_device\":"@, via_device) + "}"@
}

/// A discovery sensor's JSON from its fields, the device's JSON among them:
/// `{"name":…,"state_topic":…,"unique_id":…,"device":{…},"value_template":…}`
pub open spec fn sensor_json(
    name: Seq<char>,
    state_topic: Seq<char>,
    unique_id: Seq<char>,
    device: Seq<char>,
    value_template: Seq<char>,
) -> Seq<char> {
    "{\"name\":"@ + json_string_text(name) + ",\"state_topic\":"@ + json_string_text(state_topic)
        + ",\"unique_id\":"@ + json_string_text(unique_id) + ",\"device\":"@ + device + ",\"value_template\":"@
        + json_string_text(value_template) + "}"@
}

impl HomeAssistantDevice {
    /// The device's JSON.
    pub open spec fn json(self) -> Seq<char> {
        device_json(
            string_views(self.identifiers@),
            self.model@,
            self.name@,
            opt_view(self.sw_version),
            opt_view(self.via_device),
        )
    }

    /// Appends the device's JSON to `out`.
    pub fn push_json(&self, out: &mut String)
        ensures
            final(out)@ == old(out)@ + self.json(),
    {
        let ghost start = out@;
        out.append("{\"identifiers\":[");
        let ghost head = out@;
        let mut i: usize = 0;
        while i < self.identifiers.len()
            invariant
                i <= self.identifiers@.len(),
                out@ == head + comma_joined(texts_json(string_views(self.identifiers@.subrange(0, i as int)))),
            decreases self.identifiers@.len() - i,
        {
            proof {
                assert(texts_json(string_views(self.identifiers@.subrange(0, i + 1))) =~= texts_json(
                    string_views(self.identifiers@.subrange(0, i as int)),
                ).push(json_string_text(self.identifiers@[i as int]@)));
                lemma_comma_joined_push(
                    texts_json(string_views(self.identifiers@.subrange(0, i as int))),
                    json_string_text(self.identifiers@[i as int]@),
                );
            }
            if i > 0 {
                out.append(",");
            }
            push_json_string(out, self.identifiers[i].as_str());
            proof {
                if i == 0 {
                    assert(texts_json(string_views(self.identifiers@.subrange(0, 0))) =~= Seq::<Seq<char>>::empty());
                }
                assert(out@ =~= head + comma_joined(texts_json(string_views(self.identifiers@.subrange(0, i + 1)))));
            }
            i = i + 1;
        }
        assert(self.identifiers@.subrange(0, self.identifiers@.len() as int) =~= self.identifiers@);
        out.append("],\"model\":");
        push_json_string(out, self.model.as_str());
        out.append(",\"name\":");
        push_json_string(out, self.name.as_str());
        let ghost before_sw = out@;
        match &self.sw_version {
            Some(v) => {
                out.append(",\"sw_version\":");
                push_json_string(out, v.as_str());
            },
            None => {},
        }
        assert(out@ =~= before_sw + optional_field_json(",\"sw_version\":"@, opt_view(self.sw_version)));
        let ghost before_via = out@;
        match &self.via_device {
            Some(v) => {
                out.append(",\"via_device\":");
                push_json_string(out, v.as_str());
            },
            None => {},
        }
        assert(out@ =~= before_via + optional_field_json(",\"via_device\":"@, opt_view(self.via_device)));
        out.append("}");
        assert(out@ =~= start + self.json());
    }
}

/// A sensor for the home-automation platform's discovery.
#[derive(Debug, Clone, PartialEq, Eq)]
pub struct HomeAssistantDiscoverySensorPayload {
    pub name: String,
    pub state_topic: String,
    pub unique_id: String,
    pub device: HomeAssistantDevice,
    pub value_template: String,
}

impl HomeAssistantDiscoverySensorPayload {
    /// The sensor's JSON.
    pub open spec fn json(self) -> Seq<char> {
        sensor_json(self.name@, self.state_topic@, self.unique_id@, self.device.json(), self.value_template@)
    }

    /// The sensor as JSON.
    pub fn to_json(&self) -> (r: String)
        ensures
            r@ == self.json(),
    {
        let mut out = String::new();
        out.append("{\"name\":");
        push_json_string(&mut out, self.name.as_str());
        out.append(",\"state_topic\":");
        push_json_string(&mut out, self.state_topic.as_str());
        out.append(",\"unique_id\":");
        push_json_string(&mut out, self.unique_id.as_str());
        out.append(",\"device\":");
        self.device.push_json(&mut out);
        out.append(",\"value_template\":");
        push_json_string(&mut out, self.value_template.as_str());
        out.append("}");
        out
    }
}

/// A device trigger for the home-automation platform's discovery.
#[derive(Debug, Clone, PartialEq, Eq)]
pub struct HomeAssistantDiscoveryDeviceTriggerPayload {
    pub automation_type: String,
    pub payload: String,
    pub topic: String,
    pub type_: String,
    pub subtype: String,
    pub device: HomeAssistantDevice,
}

} // verus!

verus! {

/// A message for the bus: a topic and the payload to publish on it.
#[derive(Debug, Clone, PartialEq, Eq)]
pub struct BusMessage {
    pub topic: String,
    pub payload: String,
}

impl View for BusMessage {
    type V = (Seq<char>, Seq<char>);

    open spec fn view(&self) -> (Seq<char>, Seq<char>) {
        (self.topic@, self.payload@)
    }
}

impl BusMessage {
    /// A copy of the message.
    pub fn duplicate(&self) -> (r: BusMessage)
        ensures
            r == *self,
    {
        BusMessage { topic: self.topic.clone(), payload: self.payload.clone() }
    }
}

/// The topic and payload of each message, in order.
pub open spec fn message_views(messages: Seq<BusMessage>) -> Seq<(Seq<char>, Seq<char>)> {
    messages.map_values(|m: BusMessage| m@)
}

} // verus!
