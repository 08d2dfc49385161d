//! Tests for the response decoders.

use onionoo::client::ClientError;
use onionoo::decode::{
    decode_bandwidth, decode_clients, decode_details, decode_summary, decode_uptime,
    decode_weights,
};

fn meta(relays: &str, bridges: &str) -> String {
    let mut s = String::from(
        "{\"version\":\"8.0\",\"relays_published\":\"2024-01-01 00:00:00\",\
         \"bridges_published\":\"2024-01-01 01:00:00\",\"relays\":",
    );
    s.push_str(relays);
    s.push_str(",\"bridges\":");
    s.push_str(bridges);
    s.push('}');
    s
}

#[test]
fn test_summary_document() {
    let body = meta(
        r#"[{"n":"moria1","f":"9695DFC35FFEB861329B9F1AB04C46397020CE31","a":["128.31.0.34"],"r":true}]"#,
        r#"[{"n":"bob","h":"0011223344556677889900112233445566778899","r":false}]"#,
    );
    let doc = decode_summary(&body).unwrap();
    assert_eq!(doc.version, "8.0");
    assert_eq!(doc.relays_published, "2024-01-01 00:00:00");
    assert_eq!(doc.bridges_published, "2024-01-01 01:00:00");
    assert_eq!(doc.relays.len(), 1);
    assert_eq!(doc.relays[0].n, "moria1");
    assert_eq!(doc.relays[0].f, "9695DFC35FFEB861329B9F1AB04C46397020CE31");
    assert_eq!(doc.relays[0].a, vec!["128.31.0.34".to_string()]);
    assert!(doc.relays[0].r);
    assert_eq!(doc.bridges.len(), 1);
    assert_eq!(doc.bridges[0].n, "bob");
    assert_eq!(doc.bridges[0].h, "0011223344556677889900112233445566778899");
    assert!(!doc.bridges[0].r);
    assert!(doc.next_major_version_scheduled.is_none());
    assert!(doc.relays_skipped.is_none());
    assert!(doc.relays_truncated.is_none());
}

#[test]
fn test_weights_document_bridges_empty() {
    let body = meta(
        r#"[{"fingerprint":"9695DFC35FFEB861329B9F1AB04C46397020CE31"}]"#,
        "[]",
    );
    let doc = decode_weights(&body).unwrap();
    assert_eq!(doc.relays.len(), 1);
    assert_eq!(doc.bridges.len(), 0);
}

#[test]
fn test_clients_document_relays_empty() {
    let body = meta(
        "[]",
        r#"[{"fingerprint":"0011223344556677889900112233445566778899"}]"#,
    );
    let doc = decode_clients(&body).unwrap();
    assert_eq!(doc.relays.len(), 0);
    assert_eq!(doc.bridges.len(), 1);
    assert_eq!(
        doc.bridges[0].fingerprint,
        "0011223344556677889900112233445566778899"
    );
    assert!(doc.bridges[0].average_clients.is_none());
}

#[test]
fn test_details_missing_optionals() {
    let entry = r#"[{"nickname":"moria1","fingerprint":"9695DFC35FFEB861329B9F1AB04C46397020CE31",
        "or_addresses":["128.31.0.34:9101"],"last_seen":"2024-01-01 00:00:00",
        "last_changed_address_or_port":"2023-05-01 00:00:00","first_seen":"2010-01-01 00:00:00",
        "running":true,"consensus_weight":20}]"#;
    let body = meta(entry, "[]");
    let doc = decode_details(&body).unwrap();
    let d = &doc.relays[0];
    assert_eq!(d.nickname, "moria1");
    assert_eq!(d.fingerprint, "9695DFC35FFEB861329B9F1AB04C46397020CE31");
    assert_eq!(d.or_addresses, vec!["128.31.0.34:9101".to_string()]);
    assert_eq!(d.last_seen, "2024-01-01 00:00:00");
    assert_eq!(d.first_seen, "2010-01-01 00:00:00");
    assert!(d.running);
    assert_eq!(d.consensus_weight, 20);
    assert!(d.exit_addresses.is_none());
    assert!(d.dir_address.is_none());
    assert!(d.hibernating.is_none());
    assert!(d.flags.is_none());
    assert!(d.country.is_none());
    assert!(d.country_name.is_none());
    assert!(d.latitude.is_none());
    assert!(d.longitude.is_none());
    assert!(d.as_number.is_none());
    assert!(d.as_name.is_none());
    assert!(d.contact.is_none());
    assert!(d.platform.is_none());
    assert!(d.version.is_none());
    assert!(d.recommended_version.is_none());
    assert!(d.effective_family.is_none());
    assert!(d.guard_probability.is_none());
    assert!(d.exit_probability.is_none());
    assert!(d.measured.is_none());
    assert!(d.exit_policy.is_none());
    assert!(d.exit_policy_summary.is_none());
}

#[test]
fn test_guard_probability_present_exit_absent() {
    let entry = r#"[{"nickname":"moria1","fingerprint":"9695DFC35FFEB861329B9F1AB04C46397020CE31",
        "or_addresses":["128.31.0.34:9101"],"last_seen":"2024-01-01 00:00:00",
        "last_changed_address_or_port":"2023-05-01 00:00:00","first_seen":"2010-01-01 00:00:00",
        "running":true,"consensus_weight":20,"guard_probability":0.05}]"#;
    let body = meta(entry, "[]");
    let doc = decode_details(&body).unwrap();
    let d = &doc.relays[0];
    let g = d.guard_probability.as_ref().unwrap();
    assert_eq!(g.as_text(), "0.05");
    assert_eq!(g.as_text().parse::<f64>().unwrap(), 0.05);
    assert!(d.exit_probability.is_none());
}

#[test]
fn test_details_full_relay_entry() {
    let entry = r#"[{"nickname":"moria1","fingerprint":"9695DFC35FFEB861329B9F1AB04C46397020CE31",
        "or_addresses":["128.31.0.34:9101"],"exit_addresses":["128.31.0.34"],
        "dir_address":"128.31.0.34:9131","last_seen":"2024-01-01 00:00:00",
        "last_changed_address_or_port":"2023-05-01 00:00:00","first_seen":"2010-01-01 00:00:00",
        "running":true,"hibernating":false,"flags":["Fast","Guard","Running"],
        "country":"us","country_name":"United States","latitude":42.3605,"longitude":-71.0596,
        "as":"AS3","as_name":"MIT","consensus_weight":20,
        "bandwidth_rate":2000000,"observed_bandwidth":7500000,
        "exit_policy":["reject *:*"],"exit_policy_summary":{"reject":["1-65535"]},
        "contact":"admin","platform":"Tor on Linux","version":"0.4.8.10",
        "recommended_version":true,"version_status":"recommended",
        "effective_family":["$9695DFC35FFEB861329B9F1AB04C46397020CE31"],
        "consensus_weight_fraction":0.001,"measured":true}]"#;
    let body = meta(entry, "[]");
    let doc = decode_details(&body).unwrap();
    let d = &doc.relays[0];
    assert_eq!(d.exit_addresses.as_ref().unwrap(), &vec!["128.31.0.34".to_string()]);
    assert_eq!(d.dir_address.as_deref(), Some("128.31.0.34:9131"));
    assert_eq!(d.hibernating, Some(false));
    assert_eq!(
        d.flags.as_ref().unwrap(),
        &vec!["Fast".to_string(), "Guard".to_string(), "Running".to_string()]
    );
    assert_eq!(d.country.as_deref(), Some("us"));
    assert_eq!(d.latitude.as_ref().unwrap().as_text(), "42.3605");
    assert_eq!(d.longitude.as_ref().unwrap().as_text(), "-71.0596");
    assert_eq!(d.as_number.as_deref(), Some("AS3"));
    assert_eq!(d.bandwidth_rate, Some(2000000));
    assert_eq!(d.observed_bandwidth, Some(7500000));
    assert_eq!(d.exit_policy.as_ref().unwrap(), &vec!["reject *:*".to_string()]);
    let eps = d.exit_policy_summary.as_ref().unwrap();
    assert!(eps.accept.is_none());
    assert_eq!(eps.reject.as_ref().unwrap(), &vec!["1-65535".to_string()]);
    assert_eq!(d.version.as_deref(), Some("0.4.8.10"));
    assert_eq!(d.recommended_version, Some(true));
    assert_eq!(d.consensus_weight_fraction.as_ref().unwrap().as_text(), "0.001");
    assert_eq!(d.measured, Some(true));
}

#[test]
fn test_bridge_details_entry() {
    let entry = r#"[{"nickname":"ilovetor","hashed_fingerprint":"0011223344556677889900112233445566778899",
        "or_addresses":["10.0.0.1:443"],"last_seen":"2024-01-01 00:00:00",
        "first_seen":"2020-01-01 00:00:00","running":true,
        "transports":["obfs4"],"blocklist":["ru"],"bridgedb_distributor":"moat"}]"#;
    let body = meta("[]", entry);
    let doc = decode_details(&body).unwrap();
    let b = &doc.bridges[0];
    assert_eq!(b.nickname, "ilovetor");
    assert_eq!(b.hashed_fingerprint, "0011223344556677889900112233445566778899");
    assert!(b.running);
    assert_eq!(b.transports.as_ref().unwrap(), &vec!["obfs4".to_string()]);
    assert_eq!(b.blocklist.as_ref().unwrap(), &vec!["ru".to_string()]);
    assert_eq!(b.bridgedb_distributor.as_deref(), Some("moat"));
    assert!(b.contact.is_none());
}

#[test]
fn test_bandwidth_history_scenario() {
    let entry = r#"[{"fingerprint":"9695DFC35FFEB861329B9F1AB04C46397020CE31",
        "write_history":{"1_month":{"first":"2024-01-01 00:00:00","last":"2024-01-31 00:00:00",
        "interval":86400,"factor":1.234,"values":[500,null,600]}}}]"#;
    let body = meta(entry, "[]");
    let doc = decode_bandwidth(&body).unwrap();
    let d = &doc.relays[0];
    let h = d.write_history.as_ref().unwrap();
    let g = h.one_month.as_ref().unwrap();
    assert_eq!(g.first, "2024-01-01 00:00:00");
    assert_eq!(g.last, "2024-01-31 00:00:00");
    assert_eq!(g.interval, 86400);
    assert_eq!(g.factor.as_text(), "1.234");
    assert_eq!(g.values.len(), 3);
    assert_eq!(g.values[0].as_ref().unwrap().as_text(), "500");
    assert!(g.values[1].is_none());
    assert_eq!(g.values[2].as_ref().unwrap().as_text(), "600");
    let factor = g.factor.as_text().parse::<f64>().unwrap();
    let raw = g.values[0].as_ref().unwrap().as_text().parse::<f64>().unwrap();
    assert!((raw * factor - 617.0).abs() < 1e-9);
    assert!(h.six_months.is_none());
    assert!(h.one_year.is_none());
    assert!(h.five_years.is_none());
    assert!(d.read_history.is_none());
    assert!(d.overload_ratelimits.is_none());
    assert!(d.overload_fd_exhausted.is_none());
}

#[test]
fn test_overload_indicators() {
    let entry = r#"[{"fingerprint":"9695DFC35FFEB861329B9F1AB04C46397020CE31",
        "overload_ratelimits":{"timestamp":1700000000000,"rate-limit":1000,"burst-limit":2000,
        "read-overload-count":3,"write-overload-count":4},
        "overload_fd_exhausted":{"timestamp":1700000000000}}]"#;
    let body = meta(entry, "[]");
    let doc = decode_bandwidth(&body).unwrap();
    let d = &doc.relays[0];
    let o = d.overload_ratelimits.as_ref().unwrap();
    assert_eq!(o.timestamp, Some(1700000000000));
    assert_eq!(o.rate_limit, Some(1000));
    assert_eq!(o.burst_limit, Some(2000));
    assert_eq!(o.read_overload_count, Some(3));
    assert_eq!(o.write_overload_count, Some(4));
    let fd = d.overload_fd_exhausted.as_ref().unwrap();
    assert_eq!(fd.timestamp, Some(1700000000000));
}

#[test]
fn test_weights_entry_histories() {
    let entry = r#"[{"fingerprint":"9695DFC35FFEB861329B9F1AB04C46397020CE31",
        "guard_probability":{"1_year":{"first":"2023-01-01 00:00:00","last":"2024-01-01 00:00:00",
        "interval":345600,"factor":2.0E-4,"count":2,"values":[10,20]}}}]"#;
    let body = meta(entry, "[]");
    let doc = decode_weights(&body).unwrap();
    let d = &doc.relays[0];
    let h = d.guard_probability.as_ref().unwrap();
    let g = h.one_year.as_ref().unwrap();
    assert_eq!(g.count, Some(2));
    assert_eq!(g.factor.as_text().parse::<f64>().unwrap(), 2.0e-4);
    assert!(d.consensus_weight_fraction.is_none());
    assert!(d.middle_probability.is_none());
    assert!(d.exit_probability.is_none());
    assert!(d.consensus_weight.is_none());
}

#[test]
fn test_uptime_document_with_flags() {
    let entry = r#"[{"fingerprint":"9695DFC35FFEB861329B9F1AB04C46397020CE31",
        "uptime":{"1_month":{"first":"2024-01-01 00:00:00","last":"2024-01-31 00:00:00",
        "interval":3600,"factor":0.001,"values":[999,998]}},
        "flags":{"Guard":{"1_month":{"first":"2024-01-01 00:00:00","last":"2024-01-31 00:00:00",
        "interval":3600,"factor":0.001,"values":[999]}},
        "SomeNewFlag":{"5_years":{"first":"2020-01-01 00:00:00","last":"2024-01-01 00:00:00",
        "interval":432000,"factor":0.001,"values":[null,500]}}}}]"#;
    let bridge = r#"[{"fingerprint":"0011223344556677889900112233445566778899",
        "uptime":{"1_month":{"first":"2024-01-01 00:00:00","last":"2024-01-31 00:00:00",
        "interval":3600,"factor":0.001,"values":[997]}}}]"#;
    let body = meta(entry, bridge);
    let doc = decode_uptime(&body).unwrap();
    let d = &doc.relays[0];
    assert!(d.uptime.is_some());
    let flags = d.flags.as_ref().unwrap();
    assert_eq!(flags.flags.len(), 2);
    let names: Vec<&str> = flags.flags.iter().map(|e| e.0.as_str()).collect();
    assert!(names.contains(&"Guard"));
    assert!(names.contains(&"SomeNewFlag"));
    let b = &doc.bridges[0];
    let g = b.uptime.as_ref().unwrap().one_month.as_ref().unwrap();
    assert_eq!(g.values[0].as_ref().unwrap().as_text(), "997");
}

#[test]
fn test_unknown_top_level_field_ignored() {
    let body = r#"{"version":"8.0","relays_published":"2024-01-01 00:00:00",
        "bridges_published":"2024-01-01 01:00:00","relays":[],"bridges":[],
        "brand_new_field":{"anything":[1,2,3]}}"#;
    let doc = decode_summary(body).unwrap();
    assert_eq!(doc.version, "8.0");
    assert!(doc.relays.is_empty());
}

#[test]
fn test_unknown_nested_field_ignored() {
    let entry = r#"[{"n":"moria1","f":"9695DFC35FFEB861329B9F1AB04C46397020CE31",
        "a":["128.31.0.34"],"r":true,"future_field":"surprise"}]"#;
    let body = meta(entry, "[]");
    let doc = decode_summary(&body).unwrap();
    assert_eq!(doc.relays[0].n, "moria1");
}

#[test]
fn test_optional_null_is_absent() {
    let body = r#"{"version":"8.0","next_major_version_scheduled":null,
        "build_revision":null,"relays_published":"2024-01-01 00:00:00",
        "bridges_published":"2024-01-01 01:00:00","relays":[],"bridges":[]}"#;
    let doc = decode_summary(body).unwrap();
    assert!(doc.next_major_version_scheduled.is_none());
    assert!(doc.build_revision.is_none());
}

#[test]
fn test_meta_counters_decoded() {
    let body = r#"{"version":"8.0","next_major_version_scheduled":"2024-06-01",
        "build_revision":"abc123","relays_published":"2024-01-01 00:00:00",
        "relays_skipped":5,"relays":[],"relays_truncated":7,
        "bridges_published":"2024-01-01 01:00:00","bridges_skipped":1,"bridges":[],
        "bridges_truncated":2}"#;
    let doc = decode_summary(body).unwrap();
    assert_eq!(doc.next_major_version_scheduled.as_deref(), Some("2024-06-01"));
    assert_eq!(doc.build_revision.as_deref(), Some("abc123"));
    assert_eq!(doc.relays_skipped, Some(5));
    assert_eq!(doc.relays_truncated, Some(7));
    assert_eq!(doc.bridges_skipped, Some(1));
    assert_eq!(doc.bridges_truncated, Some(2));
}

#[test]
fn test_malformed_json_is_deserialization_error() {
    let r = decode_summary("{not json");
    assert!(matches!(r, Err(ClientError::Deserialization(_))));
}

#[test]
fn test_non_object_document_is_deserialization_error() {
    let r = decode_summary("[1,2,3]");
    assert!(matches!(r, Err(ClientError::Deserialization(_))));
}

#[test]
fn test_missing_required_field_is_error() {
    // No `version`.
    let body = r#"{"relays_published":"2024-01-01 00:00:00",
        "bridges_published":"2024-01-01 01:00:00","relays":[],"bridges":[]}"#;
    let r = decode_summary(body);
    assert!(matches!(r, Err(ClientError::Deserialization(_))));
}

#[test]
fn test_wrong_typed_field_is_error() {
    // `running` is a string, not a boolean.
    let entry = r#"[{"n":"moria1","f":"9695DFC35FFEB861329B9F1AB04C46397020CE31",
        "a":["128.31.0.34"],"r":"yes"}]"#;
    let body = meta(entry, "[]");
    let r = decode_summary(&body);
    assert!(matches!(r, Err(ClientError::Deserialization(_))));
}

#[test]
fn test_wrong_typed_optional_is_error() {
    // An optional field that is present must still be well typed.
    let body = r#"{"version":"8.0","build_revision":17,
        "relays_published":"2024-01-01 00:00:00",
        "bridges_published":"2024-01-01 01:00:00","relays":[],"bridges":[]}"#;
    let r = decode_summary(body);
    assert!(matches!(r, Err(ClientError::Deserialization(_))));
}

#[test]
fn test_weights_rejects_non_null_bridge_entry() {
    // The unused side of a Weights document decodes from nulls alone.
    let body = meta("[]", r#"[{"fingerprint":"x"}]"#);
    let r = decode_weights(&body);
    assert!(matches!(r, Err(ClientError::Deserialization(_))));
}

#[test]
fn test_consensus_weight_too_large_is_error() {
    // One past u64::MAX: not representable, so the entry is rejected.
    let entry = r#"[{"nickname":"big","fingerprint":"9695DFC35FFEB861329B9F1AB04C46397020CE31",
        "or_addresses":[],"last_seen":"2024-01-01 00:00:00",
        "last_changed_address_or_port":"2023-05-01 00:00:00","first_seen":"2010-01-01 00:00:00",
        "running":true,"consensus_weight":18446744073709551616}]"#;
    let body = meta(entry, "[]");
    let r = decode_details(&body);
    assert!(matches!(r, Err(ClientError::Deserialization(_))));
}

#[test]
fn test_negative_unsigned_field_is_error() {
    let entry = r#"[{"fingerprint":"9695DFC35FFEB861329B9F1AB04C46397020CE31",
        "write_history":{"1_month":{"first":"2024-01-01 00:00:00","last":"2024-01-31 00:00:00",
        "interval":-5,"factor":1.0,"values":[]}}}]"#;
    let body = meta(entry, "[]");
    let r = decode_bandwidth(&body);
    assert!(matches!(r, Err(ClientError::Deserialization(_))));
}

#[test]
fn test_large_consensus_weight() {
    let entry = r#"[{"nickname":"big","fingerprint":"9695DFC35FFEB861329B9F1AB04C46397020CE31",
        "or_addresses":[],"last_seen":"2024-01-01 00:00:00",
        "last_changed_address_or_port":"2023-05-01 00:00:00","first_seen":"2010-01-01 00:00:00",
        "running":true,"consensus_weight":18446744073709551615}]"#;
    let body = meta(entry, "[]");
    let doc = decode_details(&body).unwrap();
    assert_eq!(doc.relays[0].consensus_weight, u64::MAX);
}
