use cups2mqtt::config::{Cups, HomeAssistant, Mqtt};
use cups2mqtt::cups_url::{build_cups_url, server_display_address};
use cups2mqtt::json::push_json_string;
use cups2mqtt::messages::{HomeAssistantDevice, MqttCupsPrintQueueStatus, MqttCupsPrinterMarker, MqttCupsPrinterState};
use cups2mqtt::queues::{
    queue_state_from_attributes, queue_states_from_groups, CupsError, IppPrintQueueState, PrinterAttributes,
    PrinterMarker, PrinterState,
};
use cups2mqtt::reports::{ha_bridge_discovery_message, ha_sensor_discovery_message, server_status};

fn mqtt(discovery: bool) -> Mqtt {
    Mqtt {
        host: "localhost".to_string(),
        port: 1883,
        secure: false,
        ignore_tls_errors: false,
        username: String::new(),
        password: String::new(),
        client_id: "cups2mqtt".to_string(),
        root_topic: "cups2mqtt".to_string(),
        ha: HomeAssistant {
            enable_discovery: discovery,
            discovery_topic_prefix: "homeassistant".to_string(),
            component_id: "c2m".to_string(),
        },
    }
}

fn cups(uri: &str, user: &str, pass: &str) -> Cups {
    Cups {
        uri: uri.to_string(),
        ignore_tls_errors: true,
        username: user.to_string(),
        password: pass.to_string(),
        report_supply_levels_schedule: None,
    }
}

fn queue(name: &str, state: PrinterState, markers: Vec<PrinterMarker>) -> IppPrintQueueState {
    IppPrintQueueState {
        queue_name: name.to_string(),
        description: format!("{} printer", name),
        printer_make: "HP LaserJet".to_string(),
        state,
        job_count: 2,
        state_message: "ready".to_string(),
        state_reason: "none".to_string(),
        cups_version: "2.4.7".to_string(),
        markers,
    }
}

fn attributes() -> PrinterAttributes {
    PrinterAttributes {
        state: Some(3),
        job_count: Some(0),
        queue_name: "office".to_string(),
        description: "Office".to_string(),
        printer_make: "Brother".to_string(),
        state_message: String::new(),
        state_reason: "none".to_string(),
        cups_version: "2.4.7".to_string(),
        marker_types: Some(vec!["toner".to_string(), "drum".to_string()]),
        marker_colors: Some(vec!["#000000".to_string(), "none".to_string()]),
        marker_names: Some(vec!["Black Toner".to_string(), "Drum".to_string()]),
        marker_levels: Some(vec![80, -1]),
    }
}

#[test]
fn idle_state_is_published_by_name() {
    let q = queue("office", PrinterState::Idle, vec![]);
    let status = MqttCupsPrintQueueStatus::from_queue_state(&q);
    assert_eq!(status.state, MqttCupsPrinterState::Idle);
    assert!(status.to_json().contains("\"state\":\"Idle\""));
    let q = queue("office", PrinterState::Stopped, vec![]);
    assert!(MqttCupsPrintQueueStatus::from_queue_state(&q).to_json().contains("\"state\":\"Stopped\""));
}

#[test]
fn empty_marker_list_is_an_empty_array() {
    let q = queue("office", PrinterState::Processing, vec![]);
    let json = MqttCupsPrintQueueStatus::from_queue_state(&q).to_json();
    assert!(json.ends_with("\"markers\":[]}"));
}

#[test]
fn color_none_is_null() {
    let m = PrinterMarker {
        marker_type: "drum".to_string(),
        color: "none".to_string(),
        name: "Drum".to_string(),
        level: None,
    };
    let t = MqttCupsPrinterMarker::from_marker(&m);
    assert_eq!(t.color, None);
    let mut json = String::new();
    t.push_json(&mut json);
    assert_eq!(json, "{\"type\":\"drum\",\"color\":null,\"name\":\"Drum\",\"level\":null}");
    let m = PrinterMarker { color: "#00FFFF".to_string(), level: Some(55), ..m };
    let mut json = String::new();
    MqttCupsPrinterMarker::from_marker(&m).push_json(&mut json);
    assert_eq!(json, "{\"type\":\"drum\",\"color\":\"#00FFFF\",\"name\":\"Drum\",\"level\":55}");
}

#[test]
fn queue_status_json_is_exact() {
    let markers = vec![
        PrinterMarker { marker_type: "toner".to_string(), color: "#000000".to_string(), name: "Black".to_string(), level: Some(80) },
        PrinterMarker { marker_type: "drum".to_string(), color: "none".to_string(), name: "Drum".to_string(), level: None },
    ];
    let q = queue("office", PrinterState::Idle, markers);
    let json = MqttCupsPrintQueueStatus::from_queue_state(&q).to_json();
    assert_eq!(
        json,
        "{\"name\":\"office\",\"description\":\"office printer\",\"printer_make\":\"HP LaserJet\",\"state\":\"Idle\",\"job_count\":2,\"state_message\":\"ready\",\"state_reason\":\"none\",\"markers\":[{\"type\":\"toner\",\"color\":\"#000000\",\"name\":\"Black\",\"level\":80},{\"type\":\"drum\",\"color\":null,\"name\":\"Drum\",\"level\":null}]}"
    );
    let parsed: serde_json::Value = serde_json::from_str(&json).unwrap();
    assert_eq!(parsed["markers"][1]["color"], serde_json::Value::Null);
}

#[test]
fn strings_are_escaped_as_json() {
    let mut out = String::new();
    push_json_string(&mut out, "say \"hi\"\n");
    assert_eq!(out, "\"say \\\"hi\\\"\\n\"");
}

#[test]
fn server_status_after_success_and_failure() {
    let ok: Result<Vec<IppPrintQueueState>, CupsError> = Ok(vec![queue("office", PrinterState::Idle, vec![])]);
    assert_eq!(
        server_status(&ok, "1.2.3").to_json(),
        "{\"is_reachable\":true,\"cups_version\":\"2.4.7\",\"cups2mqtt_version\":\"1.2.3\"}"
    );
    let empty: Result<Vec<IppPrintQueueState>, CupsError> = Ok(vec![]);
    assert_eq!(
        server_status(&empty, "1.2.3").to_json(),
        "{\"is_reachable\":true,\"cups_version\":null,\"cups2mqtt_version\":\"1.2.3\"}"
    );
    let failed: Result<Vec<IppPrintQueueState>, CupsError> = Err(CupsError::Request("down".to_string()));
    assert_eq!(
        server_status(&failed, "1.2.3").to_json(),
        "{\"is_reachable\":false,\"cups_version\":null,\"cups2mqtt_version\":\"1.2.3\"}"
    );
}

#[test]
fn queue_sensor_discovery_message() {
    let q = queue("office", PrinterState::Idle, vec![]);
    let m = ha_sensor_discovery_message(&mqtt(true), &q, "job_count");
    assert_eq!(m.topic, "homeassistant/sensor/c2m_office/job_count/config");
    assert_eq!(
        m.payload,
        "{\"name\":\"Job count\",\"state_topic\":\"cups2mqtt/office\",\"unique_id\":\"office_job_count_c2m\",\"device\":{\"identifiers\":[\"c2m_office\"],\"model\":\"HP LaserJet\",\"name\":\"office printer\",\"via_device\":\"c2m_cups_server\"},\"value_template\":\"{{ value_json.job_count }}\"}"
    );
}

#[test]
fn bridge_discovery_message() {
    let m = ha_bridge_discovery_message(&mqtt(true), "localhost:631", &Some("2.4.7".to_string()), "cups_version", "CUPS version");
    assert_eq!(m.topic, "homeassistant/sensor/c2m_cups_server/cups_version/config");
    assert_eq!(
        m.payload,
        "{\"name\":\"CUPS version\",\"state_topic\":\"cups2mqtt/cups_server\",\"unique_id\":\"cups_server_cups_version_c2m\",\"device\":{\"identifiers\":[\"c2m_cups_server\"],\"model\":\"CUPS print server\",\"name\":\"CUPS @ localhost:631\",\"sw_version\":\"2.4.7\"},\"value_template\":\"{{ value_json.cups_version }}\"}"
    );
    let m = ha_bridge_discovery_message(&mqtt(true), "h:1", &None, "cups2mqtt_version", "CUPS2MQTT version");
    assert!(m.payload.contains("\"device\":{\"identifiers\":[\"c2m_cups_server\"],\"model\":\"CUPS print server\",\"name\":\"CUPS @ h:1\"}"));
}

#[test]
fn device_leaves_out_absent_fields() {
    let d = HomeAssistantDevice {
        identifiers: vec!["a".to_string(), "b".to_string()],
        model: "m".to_string(),
        name: "n".to_string(),
        sw_version: None,
        via_device: None,
    };
    let mut out = String::new();
    d.push_json(&mut out);
    assert_eq!(out, "{\"identifiers\":[\"a\",\"b\"],\"model\":\"m\",\"name\":\"n\"}");
}

#[test]
fn server_url_and_queue_urls() {
    let c = cups("https://localhost:631/", "", "");
    assert_eq!(build_cups_url(&c, None), Ok("https://localhost:631/".to_string()));
    assert_eq!(
        build_cups_url(&c, Some(&"office".to_string())),
        Ok("https://localhost:631/printers/office".to_string())
    );
    let c = cups("https://localhost:631", "alice", "pw");
    assert_eq!(
        build_cups_url(&c, Some(&"lobby".to_string())),
        Ok("https://alice:pw@localhost:631/printers/lobby".to_string())
    );
    let c = cups("https://localhost:631/", "alice", "");
    assert_eq!(build_cups_url(&c, None), Ok("https://localhost:631/".to_string()));
}

#[test]
fn invalid_server_url_is_an_error() {
    let c = cups("not a url", "", "");
    assert_eq!(build_cups_url(&c, None), Err(CupsError::InvalidUri));
    assert_eq!(build_cups_url(&c, Some(&"office".to_string())), Err(CupsError::InvalidUri));
}

#[test]
fn server_display_address_defaults_port() {
    assert_eq!(server_display_address("https://localhost:631/"), Some("localhost:631".to_string()));
    assert_eq!(server_display_address("ipp://printserver/"), Some("printserver:631".to_string()));
    assert_eq!(server_display_address("https://cups.example:8443"), Some("cups.example:8443".to_string()));
    assert_eq!(server_display_address("not a url"), None);
}

#[test]
fn attributes_make_a_queue_record() {
    let q = queue_state_from_attributes(&attributes()).unwrap();
    assert_eq!(q.state, PrinterState::Idle);
    assert_eq!(q.queue_name, "office");
    assert_eq!(q.job_count, 0);
    assert_eq!(q.markers.len(), 2);
    assert_eq!(q.markers[0].level, Some(80));
    assert_eq!(q.markers[1].level, None);
    assert_eq!(q.markers[1].color, "none");
    assert_eq!(q.markers[1].name, "Drum");
}

#[test]
fn attribute_errors() {
    let a = PrinterAttributes { state: None, ..attributes() };
    assert_eq!(queue_state_from_attributes(&a).unwrap_err(), CupsError::MissingPrinterState);
    let a = PrinterAttributes { state: Some(7), ..attributes() };
    assert_eq!(queue_state_from_attributes(&a).unwrap_err(), CupsError::UnknownPrinterState(7));
    let a = PrinterAttributes { job_count: None, ..attributes() };
    assert_eq!(queue_state_from_attributes(&a).unwrap_err(), CupsError::MissingJobCount);
}

#[test]
fn incomplete_marker_lists_give_no_markers() {
    let a = PrinterAttributes { marker_levels: None, ..attributes() };
    assert!(queue_state_from_attributes(&a).unwrap().markers.is_empty());
    let a = PrinterAttributes { marker_names: Some(vec!["Black".to_string()]), ..attributes() };
    assert!(queue_state_from_attributes(&a).unwrap().markers.is_empty());
}

#[test]
fn first_bad_group_decides_the_error() {
    let groups = vec![
        attributes(),
        PrinterAttributes { job_count: None, ..attributes() },
        PrinterAttributes { state: None, ..attributes() },
    ];
    assert_eq!(queue_states_from_groups(&groups).unwrap_err(), CupsError::MissingJobCount);
    let groups = vec![attributes(), PrinterAttributes { queue_name: "lobby".to_string(), state: Some(5), ..attributes() }];
    let qs = queue_states_from_groups(&groups).unwrap();
    assert_eq!(qs.len(), 2);
    assert_eq!(qs[1].queue_name, "lobby");
    assert_eq!(qs[1].state, PrinterState::Stopped);
    assert!(queue_states_from_groups(&vec![]).unwrap().is_empty());
}
