use nexia_relay::status::{get_ecosystem_status, render_status};

fn parse(body: &str) -> serde_json::Value {
    serde_json::from_str(body).unwrap()
}

fn services_of(v: &serde_json::Value) -> Vec<String> {
    v.get("services")
        .unwrap()
        .as_array()
        .unwrap()
        .iter()
        .map(|s| s.as_str().unwrap().to_string())
        .collect()
}

#[test]
fn render_is_exact_for_a_plain_timestamp() {
    let s = render_status("2024-01-01T00:00:00+00:00");
    assert_eq!(
        s,
        "{\"services\":[\"KREACH\",\"OnlyOneAPI\",\"NEXTGEN\",\"KVIBE\"],\
         \"health\":\"All systems operational\",\
         \"timestamp\":\"2024-01-01T00:00:00+00:00\"}"
    );
}

#[test]
fn render_escapes_special_characters() {
    let s = render_status("a\"b\\c\nd");
    assert_eq!(
        s,
        "{\"services\":[\"KREACH\",\"OnlyOneAPI\",\"NEXTGEN\",\"KVIBE\"],\
         \"health\":\"All systems operational\",\
         \"timestamp\":\"a\\\"b\\\\c\\u000ad\"}"
    );
    let v = parse(&s);
    assert_eq!(v.get("timestamp").unwrap().as_str().unwrap(), "a\"b\\c\nd");
}

#[test]
fn render_output_parses_as_json_with_the_fixed_fields() {
    let v = parse(&render_status("2024-06-30T12:34:56.789+00:00"));
    assert_eq!(
        services_of(&v),
        vec![
            "KREACH".to_string(),
            "OnlyOneAPI".to_string(),
            "NEXTGEN".to_string(),
            "KVIBE".to_string()
        ]
    );
    assert_eq!(
        v.get("health").unwrap().as_str().unwrap(),
        "All systems operational"
    );
    assert_eq!(
        v.get("timestamp").unwrap().as_str().unwrap(),
        "2024-06-30T12:34:56.789+00:00"
    );
}

#[test]
fn status_succeeds_with_fixed_services_and_fresh_timestamp() {
    let before = chrono::Utc::now();
    let body = get_ecosystem_status().expect("status query must succeed");
    let after = chrono::Utc::now();

    let v = parse(&body);
    assert_eq!(
        services_of(&v),
        vec![
            "KREACH".to_string(),
            "OnlyOneAPI".to_string(),
            "NEXTGEN".to_string(),
            "KVIBE".to_string()
        ]
    );
    assert_eq!(
        v.get("health").unwrap().as_str().unwrap(),
        "All systems operational"
    );

    let ts = v.get("timestamp").unwrap().as_str().unwrap();
    let parsed = chrono::DateTime::parse_from_rfc3339(ts)
        .expect("timestamp must be valid RFC 3339")
        .with_timezone(&chrono::Utc);
    let slack = chrono::Duration::seconds(5);
    assert!(parsed >= before - slack);
    assert!(parsed <= after + slack);
}

#[test]
fn status_timestamp_is_nonempty_rfc3339_text() {
    let body = get_ecosystem_status().unwrap();
    let v = parse(&body);
    let ts = v.get("timestamp").unwrap().as_str().unwrap();
    assert!(!ts.is_empty());
    assert!(ts
        .chars()
        .all(|c| c.is_ascii_digit() || matches!(c, '-' | '+' | ':' | '.' | 'T')));
}

#[test]
fn status_fields_are_identical_across_calls() {
    let first = parse(&get_ecosystem_status().unwrap());
    let second = parse(&get_ecosystem_status().unwrap());
    assert_eq!(services_of(&first), services_of(&second));
    assert_eq!(first.get("health").unwrap(), second.get("health").unwrap());
}
