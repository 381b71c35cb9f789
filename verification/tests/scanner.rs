use kinton_agent::modules::yeelight::scanner::{multicast_group, probe, Endpoint, Scanner, Step, DEFAULT_MX};

#[test]
fn the_probe_is_the_search_request() {
    let datagram = probe(multicast_group(), DEFAULT_MX);
    assert_eq!(
        String::from_utf8(datagram).unwrap(),
        "M-SEARCH * HTTP/1.1\r\nHOST: 239.255.255.250:1982\r\nST: wifi_bulb\r\nMAN: \"ssdp:discover\"\r\nMX: 5\r\n\n\n"
    );
}

#[test]
fn the_probe_names_its_endpoint_and_its_wait() {
    let datagram = probe(Endpoint { address: (10, 0, 0, 7), port: 65535 }, 120);
    assert_eq!(
        String::from_utf8(datagram).unwrap(),
        "M-SEARCH * HTTP/1.1\r\nHOST: 10.0.0.7:65535\r\nST: wifi_bulb\r\nMAN: \"ssdp:discover\"\r\nMX: 120\r\n\n\n"
    );
}

#[test]
fn the_group_is_fixed() {
    assert_eq!(multicast_group(), Endpoint { address: (239, 255, 255, 250), port: 1982 });
    assert_eq!(DEFAULT_MX, 5);
}

#[test]
fn the_first_probe_leaves_at_once() {
    let mut scanner = Scanner::new(2000);
    assert_eq!(scanner.interval_ms(), 2000);
    assert_eq!(scanner.last_probe_ms(), None);
    match scanner.poll(123_456) {
        Step::Probe { datagram, reply_within_secs } => {
            assert_eq!(datagram, probe(multicast_group(), 5));
            assert_eq!(reply_within_secs, 5);
        },
        other => panic!("{:?}", other),
    }
    assert_eq!(scanner.last_probe_ms(), Some(123_456));
}

#[test]
fn no_probe_leaves_before_the_interval_is_over() {
    let mut scanner = Scanner::new(2000);
    let mut now: u64 = 0;
    let mut sent: Vec<u64> = Vec::new();
    for _ in 0..10 {
        loop {
            match scanner.poll(now) {
                Step::Probe { .. } => {
                    sent.push(now);
                    now += 1800;
                    break;
                },
                Step::Wait { millis } => {
                    now += millis;
                },
                Step::Stop => panic!("nobody cancelled"),
            }
        }
    }
    assert_eq!(sent, vec![0, 2000, 4000, 6000, 8000, 10000, 12000, 14000, 16000, 18000]);
    for pair in sent.windows(2) {
        assert!(pair[1] - pair[0] >= 2000);
    }
}

#[test]
fn a_slow_turn_does_not_bring_the_next_probe_forward() {
    let mut scanner = Scanner::new(2000);
    assert!(matches!(scanner.poll(1000), Step::Probe { .. }));
    assert_eq!(scanner.poll(2800), Step::Wait { millis: 200 });
    assert_eq!(scanner.poll(2999), Step::Wait { millis: 1 });
    assert!(matches!(scanner.poll(3000), Step::Probe { .. }));
    assert!(matches!(scanner.poll(9000), Step::Probe { .. }));
    assert_eq!(scanner.poll(9001), Step::Wait { millis: 1999 });
    assert_eq!(scanner.last_probe_ms(), Some(9000));
}

#[test]
fn a_clock_that_runs_backwards_sends_nothing() {
    let mut scanner = Scanner::new(2000);
    assert!(matches!(scanner.poll(5000), Step::Probe { .. }));
    assert_eq!(scanner.poll(4000), Step::Wait { millis: 3000 });
    assert_eq!(scanner.last_probe_ms(), Some(5000));
    let mut scanner = Scanner::new(u64::MAX);
    assert!(matches!(scanner.poll(10), Step::Probe { .. }));
    assert_eq!(scanner.poll(9), Step::Wait { millis: u64::MAX });
    assert_eq!(scanner.poll(u64::MAX), Step::Wait { millis: 10 });
}

#[test]
fn an_interval_of_nothing_always_probes() {
    let mut scanner = Scanner::new(0);
    assert!(matches!(scanner.poll(7), Step::Probe { .. }));
    assert!(matches!(scanner.poll(7), Step::Probe { .. }));
}

#[test]
fn a_cancelled_scanner_stops() {
    let mut scanner = Scanner::new(2000);
    assert!(matches!(scanner.poll(0), Step::Probe { .. }));
    scanner.cancel();
    assert_eq!(scanner.poll(1000), Step::Stop);
    assert_eq!(scanner.poll(5000), Step::Stop);
    assert_eq!(scanner.last_probe_ms(), Some(0));
}
