use upnp_controller::controllers::port_mapping_ctrl::{
    after_add, after_cleanup, reconcile_apply, reconcile_cleanup, ActiveMappings, AddOutcome,
    ApplyPlan, Established, ReconcileError,
};
use upnp_controller::crds::port_mapping::{PortMappingSpec, PortMappingStatus, Protocol};
use upnp_controller::time::Timestamp;
use upnp_controller::upnp::port_mapping::UpnpError;

fn at(secs: i64) -> Timestamp {
    Timestamp::new(secs, 0).unwrap()
}

fn spec() -> PortMappingSpec {
    PortMappingSpec {
        external_port: 8080,
        internal_host: "192.168.1.50".to_string(),
        internal_port: 80,
        protocol: Protocol::Udp,
        description: None,
    }
}

fn active_until(expiry: Option<Timestamp>) -> Option<PortMappingStatus> {
    Some(PortMappingStatus { active: true, lease_expiry: expiry, ..Default::default() })
}

#[test]
fn test_lease_expiry_calculation() {
    let now = at(1_700_000_000);
    let lease_secs: u32 = 3600;
    let established = match after_add(Ok(lease_secs), now) {
        AddOutcome::Established(e) => e,
        AddOutcome::Failed(status) => panic!("{:?}", status),
    };
    assert_eq!(established.lease_expiry, Some(now.plus_seconds(lease_secs)));
    let renewal_buffer: u64 = 30;
    let requeue_secs = established.requeue_after(now);
    assert!(requeue_secs > 0);
    assert!(requeue_secs < lease_secs as u64);
    assert_eq!(requeue_secs, lease_secs as u64 - renewal_buffer);
}

#[test]
fn test_requeue_timing_with_expired_lease() {
    let now = at(1_700_000_000);
    let past = at(1_700_000_000 - 10);
    let established = Established { renewed: past, lease_expiry: Some(past) };
    assert_eq!(past.seconds_since(&now) - 30, -40);
    // Should requeue immediately (clamped to min 10)
    assert_eq!(established.requeue_after(now), 10);
}

#[test]
fn a_new_mapping_is_added() {
    match reconcile_apply("game", &spec(), &None, at(100), false) {
        ApplyPlan::Add(add) => {
            assert_eq!(add.external_port, 8080);
            assert_eq!(add.internal_host, "192.168.1.50");
            assert_eq!(add.internal_port, 80);
            assert_eq!(add.protocol, "UDP");
            assert_eq!(add.description, "game");
            assert_eq!(add.lease_secs, 3600);
        }
        plan => panic!("{:?}", plan),
    }
    let mut described = spec();
    described.description = Some("test service".to_string());
    match reconcile_apply("game", &described, &None, at(100), false) {
        ApplyPlan::Add(add) => assert_eq!(add.description, "test service"),
        plan => panic!("{:?}", plan),
    }
}

#[test]
fn a_fresh_lease_is_waited_for_and_renewed_in_time() {
    let status = active_until(Some(at(3700)));
    let now = at(100);
    let wait = match reconcile_apply("game", &spec(), &status, now, false) {
        ApplyPlan::Wait(secs) => secs,
        plan => panic!("{:?}", plan),
    };
    assert_eq!(wait, 3570);
    let then = now.plus_seconds(wait as u32);
    assert_eq!(at(3700).seconds_since(&then), 30);
    assert!(matches!(
        reconcile_apply("game", &spec(), &status, then, false),
        ApplyPlan::Add(_)
    ));
    let just_before = at(3700 - 31);
    assert!(matches!(
        reconcile_apply("game", &spec(), &status, just_before, false),
        ApplyPlan::Wait(1)
    ));
}

#[test]
fn a_part_of_a_second_is_dropped() {
    let status = active_until(Some(Timestamp::new(131, 0).unwrap()));
    let now = Timestamp::new(100, 1).unwrap();
    assert!(matches!(reconcile_apply("game", &spec(), &status, now, false), ApplyPlan::Add(_)));
}

#[test]
fn what_is_not_active_or_has_no_lease_is_added() {
    let mut inactive = active_until(Some(at(3700)));
    inactive.as_mut().unwrap().active = false;
    assert!(matches!(
        reconcile_apply("game", &spec(), &inactive, at(100), false),
        ApplyPlan::Add(_)
    ));
    assert!(matches!(
        reconcile_apply("game", &spec(), &active_until(None), at(100), false),
        ApplyPlan::Add(_)
    ));
}

#[test]
fn nothing_is_added_during_a_shutdown() {
    assert!(matches!(reconcile_apply("game", &spec(), &None, at(100), true), ApplyPlan::Leave));
    let fresh = active_until(Some(at(3700)));
    assert!(matches!(
        reconcile_apply("game", &spec(), &fresh, at(100), true),
        ApplyPlan::Wait(3570)
    ));
}

#[test]
fn an_established_mapping_has_its_status() {
    let now = Timestamp::new(100, 5).unwrap();
    let e = match after_add(Ok(3600), now) {
        AddOutcome::Established(e) => e,
        AddOutcome::Failed(status) => panic!("{:?}", status),
    };
    let status = e.status(Some("75.169.255.229".to_string()));
    assert!(status.active);
    assert_eq!(status.external_ip.as_deref(), Some("75.169.255.229"));
    assert_eq!(status.lease_expiry, Timestamp::new(3700, 5));
    assert_eq!(status.last_renewal, Some(now));
    assert_eq!(status.conditions.len(), 1);
    let c = &status.conditions[0];
    assert_eq!(c.type_, "Active");
    assert_eq!(c.status, "True");
    assert_eq!(c.reason, "MappingEstablished");
    assert_eq!(c.message, None);
    assert_eq!(c.last_transition_time, Some(now));
}

#[test]
fn a_permanent_mapping_has_no_expiry() {
    match after_add(Ok(0), at(100)) {
        AddOutcome::Established(e) => {
            assert_eq!(e.lease_expiry, None);
            assert_eq!(e.requeue_after(at(100)), 3600);
        }
        AddOutcome::Failed(status) => panic!("{:?}", status),
    }
}

#[test]
fn a_failure_is_said_in_the_status() {
    let error = UpnpError::Soap { status: "500 Internal Server Error".into(), text: "no".into() };
    let outcome = after_add(Err(error), at(100));
    assert_eq!(outcome.requeue_after(at(100)), 60);
    assert_eq!(after_add(Ok(3600), at(100)).requeue_after(at(110)), 3560);
    match outcome {
        AddOutcome::Failed(status) => {
            assert!(!status.active);
            assert!(status.external_ip.is_none() && status.lease_expiry.is_none());
            assert!(status.last_renewal.is_none());
            assert_eq!(status.conditions.len(), 1);
            let c = &status.conditions[0];
            assert_eq!(c.type_, "Active");
            assert_eq!(c.status, "False");
            assert_eq!(c.reason, "AddFailed");
            assert_eq!(
                c.message.as_deref(),
                Some("SOAP error 500 Internal Server Error: no")
            );
            assert_eq!(c.last_transition_time, Some(at(100)));
        }
        AddOutcome::Established(e) => panic!("{:?}", e),
    }
}

#[test]
fn cleanup_deletes_the_mapping() {
    let delete = reconcile_cleanup(&spec());
    assert_eq!(delete.external_port, 8080);
    assert_eq!(delete.protocol, "UDP");
}

#[test]
fn a_deleted_mapping_is_counted_no_longer() {
    let mut active = ActiveMappings::new();
    active.observe("ns", "a", true);
    active.observe("ns", "b", true);
    let refused = after_cleanup(&Err(UpnpError::NotSent));
    assert!(refused.may_go && refused.still_counted);
    active.cleaned_up("ns", "a", refused);
    assert_eq!(active.count(), 2);
    let deleted = after_cleanup(&Ok(()));
    assert!(deleted.may_go && !deleted.still_counted);
    active.cleaned_up("ns", "a", deleted);
    assert_eq!(active.count(), 1);
}

#[test]
fn errors_have_messages() {
    assert_eq!(ReconcileError::Kube("x".into()).message(), "Kube error: x");
    assert_eq!(ReconcileError::Upnp("x".into()).message(), "UPnP error: x");
    assert_eq!(ReconcileError::Other("x".into()).message(), "x");
}

#[test]
fn active_mappings_are_counted_once() {
    let mut active = ActiveMappings::new();
    assert_eq!(active.count(), 0);
    active.observe("ns", "a", true);
    active.observe("ns", "a", true);
    active.observe("ns", "b", true);
    active.observe("other", "a", true);
    assert_eq!(active.count(), 3);
    active.observe("ns", "a", false);
    active.observe("ns", "a", false);
    active.observe("ns", "unknown", false);
    assert_eq!(active.count(), 2);
}
