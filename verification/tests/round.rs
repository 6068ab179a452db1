use cloudflareddns::cloudflare::DnsRecord;
use cloudflareddns::monitor::{Action, Cycle, Event, PairOutcome, Stage};

fn strings(items: &[&str]) -> Vec<String> {
    items.iter().map(|s| s.to_string()).collect()
}

fn record(id: &str, content: &str) -> DnsRecord {
    DnsRecord { id: Some(id.to_string()), content: Some(content.to_string()) }
}

fn step(c: &mut Cycle, e: Event) -> Action {
    assert!(c.accepts(&e));
    c.step(e)
}

#[test]
fn round_without_ipv4_makes_no_request() {
    let mut c = Cycle::new(strings(&["www"]), strings(&["a.com"]), false, true);
    match step(&mut c, Event::Start) {
        Action::Finish(Err(e)) => assert_eq!(e, "IPv4 is unused"),
        _ => panic!("expected the round to end"),
    }
    assert_eq!(c.stage(), Stage::Finished);
    assert!(!c.accepts(&Event::Reported));
}

#[test]
fn round_creates_updates_and_keeps() {
    let mut c = Cycle::new(strings(&["www", "mail", "ftp"]), strings(&["a.com", "b.com", "c.com"]), true, false);
    assert!(matches!(step(&mut c, Event::Start), Action::FetchIpv4));
    match step(&mut c, Event::AddressFetched(Ok("1.2.3.4".to_string()))) {
        Action::LookupZone { zone, url } => {
            assert_eq!(zone, "a.com");
            assert_eq!(url, "https://api.cloudflare.com/client/v4/zones?name=a.com");
        }
        _ => panic!("expected a zone lookup"),
    }
    assert_eq!(c.address_v6(), "IPv6 is unused");
    match step(&mut c, Event::ZoneFound(Ok("za".to_string()))) {
        Action::ListRecords { url } => assert_eq!(
            url,
            "https://api.cloudflare.com/client/v4/zones/za/dns_records?name=www.a.com&type=A"
        ),
        _ => panic!("expected a listing"),
    }
    match step(&mut c, Event::RecordsListed(Ok(vec![]))) {
        Action::CreateRecord { url, body } => {
            assert_eq!(url, "https://api.cloudflare.com/client/v4/zones/za/dns_records");
            assert_eq!(body.name, "www.a.com");
            assert_eq!(body.content, "1.2.3.4");
            assert_eq!(body.record_type, "A");
        }
        _ => panic!("expected a create"),
    }
    match step(&mut c, Event::RecordWritten(Ok(()))) {
        Action::Report { host, zone, outcome } => {
            assert_eq!((host.as_str(), zone.as_str()), ("www", "a.com"));
            assert!(matches!(outcome, PairOutcome::Created));
        }
        _ => panic!("expected a report"),
    }
    assert!(matches!(step(&mut c, Event::Reported), Action::LookupZone { .. }));
    assert!(matches!(step(&mut c, Event::ZoneFound(Ok("zb".to_string()))), Action::ListRecords { .. }));
    match step(&mut c, Event::RecordsListed(Ok(vec![record("r7", "5.6.7.8")]))) {
        Action::UpdateRecord { url, body } => {
            assert_eq!(url, "https://api.cloudflare.com/client/v4/zones/zb/dns_records/r7");
            assert_eq!(body.name, "mail.b.com");
            assert_eq!(body.content, "1.2.3.4");
        }
        _ => panic!("expected an update"),
    }
    match step(&mut c, Event::RecordWritten(Ok(()))) {
        Action::Report { outcome, .. } => assert!(matches!(outcome, PairOutcome::Updated)),
        _ => panic!("expected a report"),
    }
    assert!(matches!(step(&mut c, Event::Reported), Action::LookupZone { .. }));
    assert!(matches!(step(&mut c, Event::ZoneFound(Ok("zc".to_string()))), Action::ListRecords { .. }));
    match step(&mut c, Event::RecordsListed(Ok(vec![record("r1", "1.2.3.4")]))) {
        Action::Report { host, outcome, .. } => {
            assert_eq!(host, "ftp");
            assert!(matches!(outcome, PairOutcome::Unchanged));
        }
        _ => panic!("expected a report"),
    }
    assert!(matches!(step(&mut c, Event::Reported), Action::Finish(Ok(()))));
    assert_eq!(c.stage(), Stage::Finished);
}

#[test]
fn round_fetches_ipv6_when_asked() {
    let mut c = Cycle::new(strings(&["www"]), strings(&["a.com"]), true, true);
    step(&mut c, Event::Start);
    assert!(matches!(step(&mut c, Event::AddressFetched(Ok("1.2.3.4".to_string()))), Action::FetchIpv6));
    assert!(matches!(
        step(&mut c, Event::AddressFetched(Ok("2001:db8::1".to_string()))),
        Action::LookupZone { .. }
    ));
    assert_eq!(c.address_v4(), "1.2.3.4");
    assert_eq!(c.address_v6(), "2001:db8::1");
}

#[test]
fn round_ends_on_address_failure() {
    let mut c = Cycle::new(strings(&["www"]), strings(&["a.com"]), true, true);
    step(&mut c, Event::Start);
    step(&mut c, Event::AddressFetched(Ok("1.2.3.4".to_string())));
    match step(&mut c, Event::AddressFetched(Err("no route".to_string()))) {
        Action::Finish(Err(e)) => assert_eq!(e, "no route"),
        _ => panic!("expected the round to end"),
    }
}

#[test]
fn round_ends_on_zone_failure() {
    let mut c = Cycle::new(strings(&["www", "mail"]), strings(&["a.com", "b.com"]), true, false);
    step(&mut c, Event::Start);
    step(&mut c, Event::AddressFetched(Ok("1.2.3.4".to_string())));
    match step(&mut c, Event::ZoneFound(Err("403 Forbidden".to_string()))) {
        Action::Finish(Err(e)) => assert_eq!(e, "403 Forbidden"),
        _ => panic!("expected the round to end"),
    }
}

#[test]
fn round_goes_on_after_record_failure() {
    let mut c = Cycle::new(strings(&["www", "mail"]), strings(&["a.com", "b.com"]), true, false);
    step(&mut c, Event::Start);
    step(&mut c, Event::AddressFetched(Ok("1.2.3.4".to_string())));
    step(&mut c, Event::ZoneFound(Ok("za".to_string())));
    match step(&mut c, Event::RecordsListed(Err("500".to_string()))) {
        Action::Report { outcome: PairOutcome::Failed(e), .. } => assert_eq!(e, "500"),
        _ => panic!("expected a failure report"),
    }
    match step(&mut c, Event::Reported) {
        Action::LookupZone { zone, .. } => assert_eq!(zone, "b.com"),
        _ => panic!("expected the next pair"),
    }
    step(&mut c, Event::ZoneFound(Ok("zb".to_string())));
    step(&mut c, Event::RecordsListed(Ok(vec![])));
    match step(&mut c, Event::RecordWritten(Err("400".to_string()))) {
        Action::Report { outcome: PairOutcome::Failed(e), .. } => assert_eq!(e, "400"),
        _ => panic!("expected a failure report"),
    }
    assert!(matches!(step(&mut c, Event::Reported), Action::Finish(Ok(()))));
}

#[test]
fn round_pairs_stop_with_shorter_list() {
    let mut c = Cycle::new(strings(&["www", "mail"]), strings(&["a.com"]), true, false);
    step(&mut c, Event::Start);
    step(&mut c, Event::AddressFetched(Ok("1.2.3.4".to_string())));
    step(&mut c, Event::ZoneFound(Ok("za".to_string())));
    step(&mut c, Event::RecordsListed(Ok(vec![record("r", "1.2.3.4")])));
    assert!(matches!(step(&mut c, Event::Reported), Action::Finish(Ok(()))));
}

#[test]
fn round_refuses_listing_without_needed_id() {
    let mut c = Cycle::new(strings(&["www"]), strings(&["a.com"]), true, false);
    step(&mut c, Event::Start);
    step(&mut c, Event::AddressFetched(Ok("1.2.3.4".to_string())));
    step(&mut c, Event::ZoneFound(Ok("za".to_string())));
    let listing = Event::RecordsListed(Ok(vec![DnsRecord { id: None, content: Some("9.9.9.9".to_string()) }]));
    assert!(!c.accepts(&listing));
    assert!(!c.accepts(&Event::Reported));
}
