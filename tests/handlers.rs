use motorshop::config::{bucket_from, ConfigError, PublishConfig};
use motorshop::document::{file_name, render, FONT_SIZE_PT, PAGE_HEIGHT_MM, PAGE_WIDTH_MM};
use motorshop::intake::{failed_items, plan_uploads};
use motorshop::message::{frame_message, json_string, prospect_message};
use motorshop::prospect::{Item, Prospect};
use motorshop::publish::{publish_handler, PublishOutcome};
use motorshop::reply::order_handler;
use std::collections::HashMap;

fn prospect(name: &str, model: &str) -> Prospect {
    Prospect { name: name.to_string(), model: model.to_string() }
}

fn parse_error(text: &str) -> String {
    serde_json::from_str::<serde_json::Value>(text).unwrap_err().to_string()
}

#[test]
fn examples_1() {
    let prospect = Prospect { name: "SuperBike".to_string(), model: "2022".to_string() };
    let doc = render(&prospect);
    assert_eq!(doc.identifier, "SuperBike-2022");
    assert_eq!(doc.title, "PROSPECT: SuperBike");
    assert_eq!(doc.lines.len(), 4);
}

#[test]
fn render_layout_is_fixed() {
    let doc = render(&prospect("Duffy", "Supra"));
    assert_eq!(doc.width_mm, 247);
    assert_eq!(doc.height_mm, 210);
    assert_eq!((PAGE_WIDTH_MM, PAGE_HEIGHT_MM, FONT_SIZE_PT), (247, 210, 24));
    assert_eq!(doc.font_size_pt, 24);
    assert_eq!(doc.layer, "INTRO");
    let texts: Vec<&str> = doc.lines.iter().map(|l| l.text.as_str()).collect();
    assert_eq!(
        texts,
        vec![
            "PROSPECT",
            "------------------------------------------------",
            "BIKE:         Duffy",
            "MODEL:    Supra",
        ]
    );
    let heights: Vec<u32> = doc.lines.iter().map(|l| l.y_mm).collect();
    assert_eq!(heights, vec![70, 60, 30, 20]);
    assert!(doc.lines.iter().all(|l| l.x_mm == 20));
}

#[test]
fn duffy_supra_identifier_and_key() {
    let p = prospect("Duffy", "Supra");
    assert_eq!(render(&p).identifier, "Duffy-Supra");
    assert_eq!(p.identifier(), "Duffy-Supra");
    assert_eq!(p.storage_key(), "prospect/Duffy-Supra.pdf");
    assert_eq!(file_name(&p), "Duffy-Supra.pdf");
}

#[test]
fn empty_fields_still_render() {
    let p = prospect("", "");
    let doc = render(&p);
    assert_eq!(doc.identifier, "-");
    assert_eq!(doc.lines.len(), 4);
    assert_eq!(p.storage_key(), "prospect/-.pdf");
}

#[test]
fn order_falcon_uppercased() {
    let r = order_handler(Ok(Item { name: "falcon".to_string() }));
    assert_eq!(r.status, 200);
    assert_eq!(r.content_type, "text/html");
    assert_eq!(r.body, "FALCON");
}

#[test]
fn order_uppercase_follows_unicode() {
    let r = order_handler(Ok(Item { name: "straße".to_string() }));
    assert_eq!(r.body, "STRASSE");
}

#[test]
fn order_malformed_is_bad_request() {
    let message = parse_error("{\"nom\":");
    let r = order_handler(Err(message.clone()));
    assert_eq!(r.status, 400);
    assert_eq!(r.content_type, "text/html");
    assert_eq!(r.body, message);
}

#[test]
fn publish_not_json_rejected() {
    let message = parse_error("not-json");
    assert!(!message.is_empty());
    match publish_handler(Err(message.clone()), "prospects") {
        PublishOutcome::Rejected { rejection } => {
            assert_eq!(rejection.status, 400);
            assert_eq!(rejection.body, message);
        }
        _ => panic!("a malformed body must be rejected"),
    }
}

#[test]
fn publish_valid_prospect_delivers() {
    match publish_handler(Ok(prospect("Duffy", "Supra")), "prospects") {
        PublishOutcome::Delivered { record, message, reply } => {
            assert_eq!(record.table_key, "catalog");
            assert_eq!(record.data_key, "Duffy");
            assert_eq!(record.name, "Duffy");
            assert_eq!(record.model, "Supra");
            assert_eq!(message, "{\"name\":\"Duffy\",\"model\":\"Supra\"}");
            let parsed: serde_json::Value = serde_json::from_str(&message).unwrap();
            assert_eq!(parsed["name"], "Duffy");
            assert_eq!(parsed["model"], "Supra");
            assert_eq!(reply.status, 200);
            assert_eq!(reply.body, "Message put in prospects");
        }
        _ => panic!("a prospect must be delivered"),
    }
}

#[test]
fn publish_message_escapes_fields() {
    let p = prospect("Du\"ffy", "Su\\pra");
    let message = prospect_message(&p);
    assert_eq!(message, "{\"name\":\"Du\\\"ffy\",\"model\":\"Su\\\\pra\"}");
    let parsed: serde_json::Value = serde_json::from_str(&message).unwrap();
    assert_eq!(parsed["name"], "Du\"ffy");
    assert_eq!(parsed["model"], "Su\\pra");
}

#[test]
fn frame_message_joins_members() {
    assert_eq!(frame_message("\"a\"", "\"b\""), "{\"name\":\"a\",\"model\":\"b\"}");
}

#[test]
fn publish_twice_keeps_one_record() {
    let mut table: HashMap<(String, String), (String, String)> = HashMap::new();
    let mut published: Vec<String> = Vec::new();
    for _ in 0..2 {
        match publish_handler(Ok(prospect("Duffy", "Supra")), "prospects") {
            PublishOutcome::Delivered { record, message, .. } => {
                table.insert((record.table_key, record.data_key), (record.name, record.model));
                published.push(message);
            }
            _ => panic!("a prospect must be delivered"),
        }
    }
    assert_eq!(table.len(), 1);
    assert_eq!(published.len(), 2);
    assert_eq!(published[0], published[1]);
}

#[test]
fn same_name_overwrites_previous_model() {
    let mut table: HashMap<(String, String), (String, String)> = HashMap::new();
    for model in ["Supra", "Celica"] {
        if let PublishOutcome::Delivered { record, .. } =
            publish_handler(Ok(prospect("Duffy", model)), "t")
        {
            table.insert((record.table_key, record.data_key), (record.name, record.model));
        }
    }
    assert_eq!(table.len(), 1);
    let stored = &table[&("catalog".to_string(), "Duffy".to_string())];
    assert_eq!(stored.1, "Celica");
}

#[test]
fn publish_config_reports_first_missing() {
    let s = |v: &str| Some(v.to_string());
    assert_eq!(
        PublishConfig::from_values(None, s("n"), s("t")).err(),
        Some(ConfigError::MissingTopicArn)
    );
    assert_eq!(
        PublishConfig::from_values(s("a"), None, None).err(),
        Some(ConfigError::MissingTopicName)
    );
    assert_eq!(
        PublishConfig::from_values(s("a"), s("n"), None).err(),
        Some(ConfigError::MissingTable)
    );
    let c = PublishConfig::from_values(s("a"), s("n"), s("t")).ok().unwrap();
    assert_eq!((c.topic_arn.as_str(), c.topic_name.as_str(), c.table.as_str()), ("a", "n", "t"));
    assert_eq!(ConfigError::MissingTable.variable(), "DYNAMO_TABLE");
}

#[test]
fn bucket_is_required() {
    assert_eq!(bucket_from(None), Err(ConfigError::MissingBucket));
    assert_eq!(ConfigError::MissingBucket.variable(), "BUCKET_NAME");
    assert_eq!(bucket_from(Some("docs".to_string())), Ok("docs".to_string()));
}

#[test]
fn every_record_of_a_batch_is_planned() {
    let batch = vec![prospect("Duffy", "Supra"), prospect("Ann", "Vespa")];
    let jobs = plan_uploads(&batch);
    assert_eq!(jobs.len(), 2);
    assert_eq!(jobs[0].key, "prospect/Duffy-Supra.pdf");
    assert_eq!(jobs[1].key, "prospect/Ann-Vespa.pdf");
    assert_eq!(jobs[1].document.identifier, "Ann-Vespa");
    assert!(plan_uploads(&Vec::new()).is_empty());
}

#[test]
fn only_failed_records_are_reported() {
    let ids = vec!["m1".to_string(), "m2".to_string(), "m3".to_string()];
    assert_eq!(failed_items(&ids, &vec![true, false, false]), vec!["m2", "m3"]);
    assert!(failed_items(&ids, &vec![true, true, true]).is_empty());
    assert!(failed_items(&Vec::new(), &Vec::new()).is_empty());
}

#[test]
fn json_string_escapes_control_characters() {
    assert_eq!(json_string("plain é"), "\"plain é\"");
    assert_eq!(json_string("a\u{1}b\n\t\u{8}\u{c}\r\u{1f}"), "\"a\\u0001b\\n\\t\\b\\f\\r\\u001f\"");
    assert_eq!(json_string(""), "\"\"");
}

#[test]
fn escaped_payload_reads_back() {
    let p = prospect("Ann\nB", "V\u{2}");
    let parsed: serde_json::Value = serde_json::from_str(&prospect_message(&p)).unwrap();
    assert_eq!(parsed["name"], "Ann\nB");
    assert_eq!(parsed["model"], "V\u{2}");
}
