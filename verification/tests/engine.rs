use cfdns::cloudflare::{
    from_api, plan_record_write, select_ip_records, try_update_record_dry_run,
    zone_id_from_results, ApiFailure, DnsContent, DnsRecord, RecordWrite, UpdateError, ZoneError,
};
use cfdns::config::TypeOptions;
use cfdns::ip::{IpAddress, V4Addr, V6Addr};
use cfdns::networking::NetworkError;
use cfdns::networking::CandidateAddress;
use cfdns::update::{
    decide_record, decide_record_dry_run, BatchState, DesiredV4, Outcome, RecordProcessor,
    UiRecordContext,
};

fn a4(o3: u8) -> V4Addr {
    V4Addr { o0: 203, o1: 0, o2: 113, o3 }
}

fn a6(s7: u16) -> V6Addr {
    V6Addr { s0: 0x2a00, s1: 0, s2: 0, s3: 0, s4: 0, s5: 0, s6: 0, s7 }
}

fn rec(id: &str, content: DnsContent) -> DnsRecord {
    DnsRecord { id: id.to_owned(), name: "host.example.com".to_owned(), content }
}

#[test]
fn both_kind_with_nothing_existing_yields_two_creates() {
    let d = decide_record(&TypeOptions::Both, Some(a4(7)), Some(a6(7)), &None, &None).unwrap();
    assert_eq!(d.v4_outcome, Outcome::Updated(IpAddress::V4(a4(7))));
    assert_eq!(d.v6_outcome, Outcome::Updated(IpAddress::V6(a6(7))));
    assert_eq!(d.v4_write, Some(RecordWrite::Create));
    assert_eq!(d.v6_write, Some(RecordWrite::Create));
}

#[test]
fn matching_a_record_yields_unchanged_and_no_write() {
    let existing = Some(rec("r1", DnsContent::A(a4(7))));
    let d = decide_record(&TypeOptions::A, Some(a4(7)), None, &existing, &None).unwrap();
    assert_eq!(d.v4_outcome, Outcome::NoChange(IpAddress::V4(a4(7))));
    assert_eq!(d.v4_write, None);
    assert_eq!(d.v6_outcome, Outcome::NotApplicable);
    assert_eq!(d.v6_write, None);
}

#[test]
fn differing_address_yields_update_in_place() {
    let existing = Some(rec("r1", DnsContent::A(a4(1))));
    let d = decide_record(&TypeOptions::A, Some(a4(2)), None, &existing, &None).unwrap();
    assert_eq!(d.v4_outcome, Outcome::Updated(IpAddress::V4(a4(2))));
    assert_eq!(d.v4_write, Some(RecordWrite::Update));
}

#[test]
fn missing_desired_address_skips_the_family() {
    let d = decide_record(&TypeOptions::Both, None, Some(a6(9)), &None, &None).unwrap();
    assert_eq!(d.v4_outcome, Outcome::Skipped);
    assert_eq!(d.v4_write, None);
    assert_eq!(d.v6_outcome, Outcome::Updated(IpAddress::V6(a6(9))));
}

#[test]
fn conflicting_record_is_a_hard_error() {
    let existing = Some(rec("r1", DnsContent::Other));
    let r = decide_record(&TypeOptions::A, Some(a4(7)), None, &existing, &None);
    assert_eq!(r, Err(UpdateError::NotAnIpRecord));
    let r = decide_record_dry_run(&TypeOptions::A, Some(a4(7)), None, &existing, &None);
    assert_eq!(r, Err(UpdateError::NotAnIpRecord));
}

#[test]
fn dry_run_classifies_exactly_as_live() {
    let existings: Vec<Option<DnsRecord>> = vec![
        None,
        Some(rec("r1", DnsContent::A(a4(7)))),
        Some(rec("r2", DnsContent::A(a4(1)))),
        Some(rec("r3", DnsContent::Other)),
    ];
    let kinds = vec![TypeOptions::A, TypeOptions::AAAA, TypeOptions::Both];
    let desired4s = vec![None, Some(a4(7))];
    for kind in &kinds {
        for e4 in &existings {
            for d4 in &desired4s {
                let live = decide_record(kind, *d4, Some(a6(3)), e4, &None);
                let dry = decide_record_dry_run(kind, *d4, Some(a6(3)), e4, &None);
                match (live, dry) {
                    (Ok(l), Ok(d)) => {
                        assert_eq!(l.v4_outcome, d.0);
                        assert_eq!(l.v6_outcome, d.1);
                    }
                    (Err(le), Err(de)) => assert_eq!(le, de),
                    (l, d) => panic!("live {:?} and dry {:?} diverge", l, d),
                }
            }
        }
    }
}

#[test]
fn dry_run_record_test_matches_write_plan() {
    let ip = IpAddress::V4(a4(5));
    assert_eq!(try_update_record_dry_run("d", &None, ip), Ok(Some(())));
    let same = Some(rec("r", DnsContent::A(a4(5))));
    assert_eq!(try_update_record_dry_run("d", &same, ip), Ok(None));
    let other = Some(rec("r", DnsContent::A(a4(6))));
    assert_eq!(try_update_record_dry_run("d", &other, ip), Ok(Some(())));
    let alias = Some(rec("r", DnsContent::Other));
    assert_eq!(try_update_record_dry_run("d", &alias, ip), Err(UpdateError::NotAnIpRecord));

    assert_eq!(plan_record_write(&None, ip), Ok(RecordWrite::Create));
    assert_eq!(plan_record_write(&same, ip), Ok(RecordWrite::Noop));
    assert_eq!(plan_record_write(&other, ip), Ok(RecordWrite::Update));
    assert_eq!(plan_record_write(&alias, ip), Err(UpdateError::NotAnIpRecord));
}

#[test]
fn batch_never_exceeds_its_bound() {
    let total: usize = 9;
    let bound: usize = 3;
    let mut batch = BatchState::new(total, bound);
    let mut outstanding_calls: usize = 0; // the call-counting double
    let mut max_outstanding: usize = 0;
    let mut step: usize = 0;
    while batch.in_flight() > 0 || batch.can_start() {
        if batch.can_start() {
            batch.start();
            outstanding_calls += 1;
            if outstanding_calls > max_outstanding {
                max_outstanding = outstanding_calls;
            }
        } else {
            batch.finish(true);
            outstanding_calls -= 1;
        }
        assert!(batch.in_flight() <= bound);
        assert_eq!(batch.in_flight(), outstanding_calls);
        step += 1;
        assert!(step <= 2 * total);
    }
    assert_eq!(max_outstanding, bound);
    assert!(!batch.batch_failed());
}

#[test]
fn batch_reports_failure_after_all_tasks_finish() {
    let mut batch = BatchState::new(3, 8);
    batch.start();
    batch.start();
    batch.start();
    batch.finish(true);
    // one record fails; its siblings still run to completion
    batch.finish(false);
    batch.finish(true);
    assert!(batch.batch_failed());
}

#[test]
fn absent_interface_fails_before_any_record() {
    let r = RecordProcessor::new("wan0", None);
    assert!(matches!(r, Err(NetworkError::InvalidInterface(name)) if name == "wan0"));
}

#[test]
fn processor_selects_addresses_once() {
    let candidates = vec![
        CandidateAddress { address: IpAddress::V4(a4(9)), permanent: false },
        CandidateAddress { address: IpAddress::V6(a6(9)), permanent: true },
    ];
    let p = RecordProcessor::new("eth0", Some(candidates)).unwrap();
    assert_eq!(p.ipv4, Some(a4(9)));
    assert_eq!(p.ipv6, Some(a6(9)));
    assert!(p.web_v4.is_none());
    assert!(p.web_v6.is_none());
}

#[test]
fn web_memo_commits_once_per_run() {
    let mut p = RecordProcessor::new(
        "eth0",
        Some(vec![CandidateAddress { address: IpAddress::V4(a4(9)), permanent: false }]),
    )
    .unwrap();
    // a record without web lookup uses the local address directly
    assert_eq!(p.desired_v4_step(false), DesiredV4::Ready(Some(a4(9))));
    // the first web-lookup record owes the probe, from the local address
    assert_eq!(p.desired_v4_step(true), DesiredV4::NeedLookup(a4(9)));
    p.commit_web_v4(a4(77));
    // every later caller observes the committed value
    assert_eq!(p.desired_v4_step(true), DesiredV4::Ready(Some(a4(77))));
    // a racing duplicate is discarded, not committed
    p.commit_web_v4(a4(78));
    assert_eq!(p.desired_v4_step(true), DesiredV4::Ready(Some(a4(77))));
}

#[test]
fn reporter_renders_from_tags_alone() {
    let mut ctx = UiRecordContext::new();
    assert_eq!(ctx.ipv4, Outcome::NotApplicable);
    assert_eq!(ctx.ipv6, Outcome::NotApplicable);
    ctx.ipv4_result(Some(a4(1)), true);
    ctx.ipv6_result(None, false);
    assert_eq!(ctx.ipv4, Outcome::Updated(IpAddress::V4(a4(1))));
    assert_eq!(ctx.ipv6, Outcome::Skipped);
    ctx.ipv4_result(Some(a4(1)), false);
    assert_eq!(ctx.ipv4, Outcome::NoChange(IpAddress::V4(a4(1))));
}

#[test]
fn api_failures_classify_by_status() {
    assert_eq!(
        from_api("z.org".to_owned(), ApiFailure::Status(404)),
        ZoneError::NotFound("z.org".to_owned())
    );
    assert_eq!(
        from_api("z.org".to_owned(), ApiFailure::Status(403)),
        ZoneError::AccessDenied("z.org".to_owned())
    );
    assert_eq!(
        from_api("z.org".to_owned(), ApiFailure::Status(429)),
        ZoneError::Api("z.org".to_owned(), 429)
    );
    assert_eq!(
        from_api("z.org".to_owned(), ApiFailure::Transport("boom".to_owned())),
        ZoneError::Invalid("z.org".to_owned(), "boom".to_owned())
    );
}

#[test]
fn empty_zone_list_is_not_found() {
    assert_eq!(
        zone_id_from_results("z.org", Vec::new()),
        Err(ZoneError::NotFound("z.org".to_owned()))
    );
    assert_eq!(
        zone_id_from_results("z.org", vec!["id1".to_owned(), "id2".to_owned()]),
        Ok("id1".to_owned())
    );
}

#[test]
fn record_query_keeps_last_of_each_family() {
    let records = vec![
        rec("a1", DnsContent::A(a4(1))),
        rec("x", DnsContent::Other),
        rec("q1", DnsContent::Aaaa(a6(1))),
        rec("a2", DnsContent::A(a4(2))),
    ];
    let (v4, v6) = select_ip_records(records);
    assert_eq!(v4.unwrap().id, "a2");
    assert_eq!(v6.unwrap().id, "q1");

    let (v4, v6) = select_ip_records(vec![rec("x", DnsContent::Other)]);
    assert!(v4.is_none());
    assert!(v6.is_none());
}
