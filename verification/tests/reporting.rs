use vanity_address::address::BitcoinAddress;
use vanity_address::address::Couple;
use vanity_address::records::couple_record;
use vanity_address::records::found_record;
use vanity_address::records::log_message;
use vanity_address::records::search_record;
use vanity_address::text::u64_to_string;

fn stub_address(address: &str) -> BitcoinAddress {
    BitcoinAddress {
        private_key: format!("priv-{}", address),
        public_key: format!("pub-{}", address),
        address: address.to_string(),
    }
}

fn stub_couple(compressed: &str, uncompressed: &str) -> Couple {
    Couple {
        compressed: stub_address(compressed),
        uncompressed: stub_address(uncompressed),
    }
}

#[test]
fn decimal_rendering_is_exact() {
    assert_eq!(u64_to_string(0), "0");
    assert_eq!(u64_to_string(7), "7");
    assert_eq!(u64_to_string(105), "105");
    assert_eq!(u64_to_string(u64::MAX), "18446744073709551615");
}

#[test]
fn found_record_has_the_exact_shape() {
    let a = BitcoinAddress {
        private_key: "KWIF".to_string(),
        public_key: "02AB".to_string(),
        address: "1Best".to_string(),
    };

    let record = found_record(&a, 42);

    assert_eq!(
        record,
        "{\"address\":\"1Best\",\"attempts\":42,\"private_key\":\"KWIF\",\"public_key\":\"02AB\"}"
    );
}

#[test]
fn search_record_round_trips_through_a_json_parser() {
    let a = stub_address("1Candidate");
    let record = search_record(&a, 12, 3456);

    let value: serde_json::Value = serde_json::from_str(&record).unwrap();

    assert_eq!(value["address"], "1Candidate");
    assert_eq!(value["private_key"], "priv-1Candidate");
    assert_eq!(value["public_key"], "pub-1Candidate");
    assert_eq!(value["seconds"], 12);
    assert_eq!(value["iterations"], 3456);
}

#[test]
fn couple_record_round_trips_through_a_json_parser() {
    let a = stub_address("1Paired");
    let record = couple_record(&a, true, 9, 500);

    let value: serde_json::Value = serde_json::from_str(&record).unwrap();

    assert_eq!(value["address"], "1Paired");
    assert_eq!(value["compressed"], true);
    assert_eq!(value["creation_time"]["secs"], 9);
    assert_eq!(value["creation_time"]["nanos"], 500);
}

#[test]
fn record_escaping_survives_a_json_parser() {
    let a = BitcoinAddress {
        private_key: "quote\"backslash\\tab\tnewline\ncontrol\u{1}".to_string(),
        public_key: "plain".to_string(),
        address: "addr".to_string(),
    };

    let record = found_record(&a, 1);
    let value: serde_json::Value = serde_json::from_str(&record).unwrap();

    assert_eq!(value["private_key"], "quote\"backslash\\tab\tnewline\ncontrol\u{1}");
}

#[test]
fn log_message_has_the_exact_shape() {
    assert_eq!(log_message(3, 7), "3 addresses found in 7 minutes.");
}

#[test]
fn reporter_writes_one_record_per_sink() {
    let mut reporter = vanity_address::output::Output::new(0);
    reporter.add_output_stream();
    reporter.add_output_stream();
    let a = stub_address("1Winner");

    let writes = reporter.write(&a, 0, 10, 99);

    assert_eq!(writes.records.len(), 2);
    assert_eq!(writes.records[0], writes.records[1]);
    assert!(writes.records[0].ends_with('\n'));
    let value: serde_json::Value = serde_json::from_str(writes.records[0].trim_end()).unwrap();
    assert_eq!(value["address"], "1Winner");
    assert_eq!(value["iterations"], 99);
    assert_eq!(value["seconds"], 10);
}

#[test]
fn log_sink_is_throttled_by_time() {
    let mut reporter = vanity_address::output::Output::new(0);
    reporter.add_output_stream();
    reporter.set_log_stream(true);
    let a = stub_address("1Winner");

    // Under five minutes: the result is counted, nothing is logged.
    let early = reporter.write(&a, 60_000, 1, 1);
    assert!(early.log_line.is_none());

    // Five minutes since the last flush: the summary is emitted and the
    // counters reset.
    let due = reporter.write(&a, 300_000, 2, 2);
    assert_eq!(due.log_line.unwrap(), "1 addresses found in 5 minutes.");

    let after = reporter.write(&a, 300_000, 3, 3);
    assert!(after.log_line.is_none());
}

#[test]
fn log_sink_is_throttled_by_result_count() {
    let mut reporter = vanity_address::output::Output::new(0);
    reporter.set_log_stream(true);
    let a = stub_address("1Winner");

    let mut logged = 0;
    for _ in 0..100 {
        if reporter.write(&a, 0, 0, 0).log_line.is_some() {
            logged += 1;
        }
    }
    assert_eq!(logged, 0);

    // The hundredth unlogged result makes the next report flush.
    let flushed = reporter.write(&a, 0, 0, 0);
    assert_eq!(flushed.log_line.unwrap(), "100 addresses found in 0 minutes.");
}

#[test]
fn no_log_sink_means_no_log_lines() {
    let mut reporter = vanity_address::output::Output::new(0);
    reporter.add_output_stream();
    let a = stub_address("1Winner");

    for _ in 0..200 {
        assert!(reporter.write(&a, 600_000, 0, 0).log_line.is_none());
    }
}

#[test]
fn multi_target_reporter_emits_only_matched_targets() {
    let mut reporter = vanity_address::print_result::Output::new(0);
    reporter.add_output_stream();
    let couple = stub_couple("1Amatch", "1Cother");
    let addresses = vec!["1A".to_string(), "1B".to_string()];

    let writes = reporter.write_from_multiple_addresses(&couple, 0, 4, 0, addresses, true);

    assert_eq!(writes.len(), 1);
    let value: serde_json::Value =
        serde_json::from_str(writes[0].records[0].trim_end()).unwrap();
    assert_eq!(value["address"], "1Amatch");
    assert_eq!(value["compressed"], true);
}

#[test]
fn multi_target_reporter_picks_the_satisfying_member() {
    let mut reporter = vanity_address::print_result::Output::new(0);
    reporter.add_output_stream();
    let couple = stub_couple("1Xmiss", "1Amatch");
    let addresses = vec!["1A".to_string()];

    let writes = reporter.write_from_multiple_addresses(&couple, 0, 4, 0, addresses, true);

    assert_eq!(writes.len(), 1);
    let value: serde_json::Value =
        serde_json::from_str(writes[0].records[0].trim_end()).unwrap();
    assert_eq!(value["address"], "1Amatch");
    assert_eq!(value["compressed"], false);
}

#[test]
fn couple_reporter_writes_the_chosen_member() {
    let mut reporter = vanity_address::print_result::Output::new(0);
    reporter.add_output_stream();
    let couple = stub_couple("1Amatch", "1Cother");

    let writes = reporter.write(&couple, 0, 6, 250, "1A", true);

    assert_eq!(writes.records.len(), 1);
    let value: serde_json::Value =
        serde_json::from_str(writes.records[0].trim_end()).unwrap();
    assert_eq!(value["address"], "1Amatch");
    assert_eq!(value["compressed"], true);
    assert_eq!(value["creation_time"]["secs"], 6);
    assert_eq!(value["creation_time"]["nanos"], 250);
}
