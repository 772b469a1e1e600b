use sled_metrics::admin::{check_probe_registration, AdminServer, ProbeRegistration, StartError};
use sled_metrics::error::{kstat_result, unsupported, Error};
use sled_metrics::hostname::{hostname_from_buffer, hostname_prefix, HOSTNAME_BUFFER_LEN};
use sled_metrics::identity::Baseboard;
use sled_metrics::manager::{MetricsManager, SamplerStart};
use sled_metrics::tracker::{LinkTracker, TargetId};
use uuid::Uuid;

const UNSUPPORTED: &str = "kstat metrics are not supported on this platform";

fn u1() -> Uuid {
    Uuid::from_u128(1)
}

fn u2() -> Uuid {
    Uuid::from_u128(2)
}

fn supported_manager() -> MetricsManager {
    MetricsManager::new(u1(), u2(), Baseboard::Unknown, SamplerStart::Registered).unwrap()
}

fn unsupported_manager() -> MetricsManager {
    MetricsManager::new(u1(), u2(), Baseboard::Unknown, SamplerStart::Unsupported).unwrap()
}

fn track(m: &mut MetricsManager, name: &str, id: u64) -> Option<TargetId> {
    let link = m.track_physical_link(name, Ok(String::from("sled0"))).unwrap();
    assert_eq!(link.link_name, name);
    m.record_physical_link(name, Ok(TargetId(id))).unwrap()
}

#[test]
fn tracking_second_link_keeps_first() {
    let mut m = supported_manager();
    assert_eq!(track(&mut m, "net0", 7), None);
    assert_eq!(track(&mut m, "net1", 8), None);
    assert_eq!(m.tracked_link("net0"), Some(TargetId(7)));
    assert_eq!(m.tracked_link("net1"), Some(TargetId(8)));
}

#[test]
fn tracking_same_link_twice_overwrites() {
    let mut m = supported_manager();
    assert_eq!(track(&mut m, "net0", 7), None);
    assert_eq!(track(&mut m, "net0", 9), Some(TargetId(7)));
    assert_eq!(m.tracked_link("net0"), Some(TargetId(9)));
    assert_eq!(m.stop_tracking_link("net0"), Ok(Some(TargetId(9))));
    assert_eq!(m.stop_tracking_link("net0"), Ok(None));
}

#[test]
fn stop_untracked_link_succeeds() {
    let mut m = supported_manager();
    assert_eq!(m.stop_tracking_link("never"), Ok(None));
    assert!(!m.is_tracking("never"));
}

#[test]
fn stop_then_track_again_gives_fresh_handle() {
    let mut m = supported_manager();
    track(&mut m, "net0", 1);
    assert_eq!(m.stop_tracking_link("net0"), Ok(Some(TargetId(1))));
    assert_eq!(track(&mut m, "net0", 2), None);
    assert_eq!(m.tracked_link("net0"), Some(TargetId(2)));
}

#[test]
fn unsupported_platform_fails_every_operation() {
    let mut m = unsupported_manager();
    assert!(!m.is_supported());
    assert!(!m.registry().kstat_registered);
    let e = Error::Kstat(String::from(UNSUPPORTED));
    assert_eq!(m.track_physical_link("net0", Ok(String::from("h"))).unwrap_err(), e);
    assert_eq!(m.record_physical_link("net0", Ok(TargetId(1))), Err(e.clone()));
    assert_eq!(m.stop_tracking_link("net0"), Err(e.clone()));
    assert_eq!(m.track_virtual_link("vnic0", "guest").unwrap_err(), e);
    assert!(!m.is_tracking("net0"));
    assert_eq!(unsupported(), e);
}

#[test]
fn serial_number_of_each_baseboard() {
    let g = Baseboard::Gimlet {
        identifier: String::from("BRM42"),
        model: String::from("913-0000019"),
        revision: 6,
    };
    let p = Baseboard::Pc { identifier: String::from("pc-1"), model: String::from("x86") };
    assert_eq!(g.serial_number(), "BRM42");
    assert_eq!(p.serial_number(), "pc-1");
    assert_eq!(Baseboard::Unknown.serial_number(), "unknown");
    let m = MetricsManager::new(u1(), u2(), g, SamplerStart::Registered).unwrap();
    assert_eq!(m.serial_number(), "BRM42");
    let link = m.track_physical_link("net0", Ok(String::from("host"))).unwrap();
    assert_eq!(link.serial, "BRM42");
    assert_eq!(link.hostname, "host");
    assert_eq!(link.sled_id, u1());
    assert_eq!(link.rack_id, u2());
}

#[test]
fn many_distinct_links_all_tracked() {
    let mut m = supported_manager();
    let n: u64 = 64;
    for i in 0..n {
        assert_eq!(track(&mut m, &format!("net{}", i), 100 + i), None);
    }
    for i in 0..n {
        assert_eq!(m.tracked_link(&format!("net{}", i)), Some(TargetId(100 + i)));
    }
    for i in (0..n).step_by(2) {
        assert_eq!(m.stop_tracking_link(&format!("net{}", i)), Ok(Some(TargetId(100 + i))));
    }
    for i in 0..n {
        assert_eq!(m.is_tracking(&format!("net{}", i)), i % 2 == 1);
    }
}

#[test]
fn end_to_end_track_and_stop() {
    let mut m = supported_manager();
    assert_eq!(m.registry().producer_id, u1());
    assert!(m.registry().kstat_registered);
    assert_eq!(track(&mut m, "net0", 10), None);
    assert!(m.is_tracking("net0"));
    assert_eq!(m.stop_tracking_link("net0"), Ok(Some(TargetId(10))));
    assert!(!m.is_tracking("net0"));
    assert_eq!(m.stop_tracking_link("net0"), Ok(None));
}

#[test]
fn construction_failures() {
    let r = MetricsManager::new(u1(), u2(), Baseboard::Unknown, SamplerStart::Failed(String::from("no kstat")));
    assert_eq!(r.err(), Some(Error::Kstat(String::from("no kstat"))));
    let r = MetricsManager::new(u1(), u2(), Baseboard::Unknown, SamplerStart::Rejected(String::from("dup")));
    assert_eq!(r.err(), Some(Error::Registry(String::from("dup"))));
}

#[test]
fn hostname_failure_is_passed_on() {
    let m = supported_manager();
    let r = m.track_physical_link("net0", Err(Error::Hostname(String::from("EFAULT"))));
    assert_eq!(r.unwrap_err(), Error::Hostname(String::from("EFAULT")));
}

#[test]
fn sampler_refusal_leaves_links_unchanged() {
    let mut m = supported_manager();
    track(&mut m, "net0", 3);
    let r = m.record_physical_link("net1", Err(String::from("no such link")));
    assert_eq!(r, Err(Error::Kstat(String::from("no such link"))));
    assert!(!m.is_tracking("net1"));
    assert_eq!(m.tracked_link("net0"), Some(TargetId(3)));
}

#[test]
fn virtual_link_is_not_recorded() {
    let mut m = supported_manager();
    let link = m.track_virtual_link("vnic0", "guest-host").unwrap();
    assert_eq!(link.hostname, "guest-host");
    assert_eq!(link.link_name, "vnic0");
    assert_eq!(link.serial, "unknown");
    assert!(!m.is_tracking("vnic0"));
    assert_eq!(m.stop_tracking_link("vnic0"), Ok(None));
}

#[test]
fn kstat_result_maps_failure() {
    assert_eq!(kstat_result(Ok(())), Ok(()));
    assert_eq!(kstat_result(Err(String::from("gone"))), Err(Error::Kstat(String::from("gone"))));
}

#[test]
fn hostname_from_full_buffer() {
    let mut buf = vec![0u8; HOSTNAME_BUFFER_LEN];
    buf[..5].copy_from_slice(b"sled7");
    assert_eq!(hostname_from_buffer(&buf), Ok(String::from("sled7")));
    assert_eq!(hostname_prefix(&buf), Some(b"sled7".to_vec()));
}

#[test]
fn hostname_stops_at_first_nul() {
    let buf = b"ab\0cd\0".to_vec();
    assert_eq!(hostname_from_buffer(&buf), Ok(String::from("ab")));
    assert_eq!(hostname_from_buffer(b"\0rest"), Ok(String::new()));
}

#[test]
fn hostname_without_nul() {
    assert_eq!(hostname_from_buffer(b"abc"), Err(Error::HostnameMissingNull));
    assert_eq!(hostname_from_buffer(b""), Err(Error::HostnameMissingNull));
    assert_eq!(hostname_prefix(b"abc"), None);
}

#[test]
fn hostname_not_utf8() {
    assert_eq!(hostname_from_buffer(&[0xff, 0xfe, 0]), Err(Error::NonUtf8Hostname));
    assert_eq!(hostname_from_buffer(&[0xff, 0, b'a']), Err(Error::NonUtf8Hostname));
}

#[test]
fn hostname_multibyte_utf8() {
    let mut buf = "h\u{e9}te".as_bytes().to_vec();
    buf.push(0);
    assert_eq!(hostname_from_buffer(&buf), Ok(String::from("h\u{e9}te")));
}

#[test]
fn tracker_insert_and_remove() {
    let mut t = LinkTracker::new();
    assert_eq!(t.insert(String::from("a"), TargetId(1)), None);
    assert_eq!(t.insert(String::from("b"), TargetId(2)), None);
    assert_eq!(t.insert(String::from("a"), TargetId(3)), Some(TargetId(1)));
    assert_eq!(t.get("a"), Some(TargetId(3)));
    assert_eq!(t.remove("a"), Some(TargetId(3)));
    assert_eq!(t.remove("a"), None);
    assert!(t.contains("b"));
    assert!(!t.contains("a"));
}

#[test]
fn admin_log_names() {
    assert_eq!(AdminServer::Server.log_name(), "clickhouse-admin-server");
    assert_eq!(AdminServer::Keeper.log_name(), "clickhouse-admin-keeper");
}

#[test]
fn probe_registration_outcomes() {
    assert_eq!(check_probe_registration(ProbeRegistration::Success), Ok(()));
    assert_eq!(
        check_probe_registration(ProbeRegistration::Failed(String::from("no dtrace"))),
        Err(StartError::RegisterDtraceProbes(String::from("no dtrace")))
    );
}
