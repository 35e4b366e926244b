use hulios::engine::{flush, restart, start, stop, Alert, EngineError, Host};
use hulios::iptables::{Action, FwState, Policy, Rule, Selector};
use hulios::resolver::{resolv_replacement, FsState};

const RELAY_UID: u32 = 105;

fn open_fw() -> FwState {
    FwState {
        v4_policy_out: Policy::Accept,
        v4_policy_in: Policy::Accept,
        v4_policy_fwd: Policy::Accept,
        v6_policy_out: Policy::Accept,
        v6_policy_in: Policy::Accept,
        v6_policy_fwd: Policy::Accept,
        v4_nat_out: Vec::new(),
        v4_filter_out: Vec::new(),
        v4_filter_in: Vec::new(),
        v6_nat_out: Vec::new(),
        v6_filter_out: Vec::new(),
        v6_filter_in: Vec::new(),
        legacy4_nat_out: Vec::new(),
        legacy4_filter_out: Vec::new(),
        legacy6_nat_out: Vec::new(),
        legacy6_filter_out: Vec::new(),
    }
}

/// A host as engage finds it: open firewall, a resolution config that is
/// the usual link onto the generated one, nothing saved, no relay.
fn fresh_host() -> Host {
    Host {
        fw: open_fw(),
        fs: FsState {
            resolv: Some(String::from("nameserver 10.0.0.1\n")),
            resolv_immutable: false,
            backup: None,
            cand_systemd: Some(String::from("nameserver 10.0.0.1\n")),
            cand_nm: None,
            stub: Some(String::from("nameserver 127.0.0.53\n")),
            pid_marker: None,
        },
        resolver_masked: false,
        relay_running: false,
        route_localnet: false,
        torrc_written: false,
        monitor_active: false,
        alerts: Vec::new(),
    }
}

#[test]
fn engage_reaches_the_enforced_state() {
    let mut h = fresh_host();
    let r = start(&mut h, 0, RELAY_UID, Some(4321), true);
    assert_eq!(r, Ok(()));
    // The resolution config now pins every query to loopback.
    let resolv = h.fs.resolv.clone().unwrap();
    assert!(resolv.contains("nameserver 127.0.0.1"));
    assert_eq!(resolv, resolv_replacement());
    assert!(h.fs.resolv_immutable);
    // Default deny, with an accept exception for the relay's identity.
    assert_eq!(h.fw.v4_policy_out, Policy::Drop);
    assert!(h
        .fw
        .v4_filter_out
        .contains(&Rule { selector: Selector::OwnerUid(RELAY_UID), action: Action::Accept }));
    // The identifier marker carries the live process id.
    assert_eq!(h.fs.pid_marker, Some(4321));
    assert!(h.relay_running);
    assert!(h.monitor_active);
    assert_eq!(h.alerts, vec![Alert::Engaged]);
}

#[test]
fn disengage_inverts_every_side_effect() {
    let mut h = fresh_host();
    assert_eq!(start(&mut h, 0, RELAY_UID, Some(4321), true), Ok(()));
    assert_eq!(stop(&mut h, 0), Ok(()));
    // Firewall back to accept-all with empty chains.
    assert_eq!(h.fw.v4_policy_out, Policy::Accept);
    assert_eq!(h.fw.v6_policy_out, Policy::Accept);
    assert!(h.fw.v4_nat_out.is_empty());
    assert!(h.fw.v4_filter_out.is_empty());
    // Resolution config restored byte for byte, save consumed.
    assert_eq!(h.fs.resolv, Some(String::from("nameserver 10.0.0.1\n")));
    assert!(!h.fs.resolv_immutable);
    assert_eq!(h.fs.backup, None);
    // Native resolver back, relay gone, its monitor stopped, marker gone.
    assert!(!h.resolver_masked);
    assert!(!h.relay_running);
    assert!(!h.monitor_active);
    assert_eq!(h.fs.pid_marker, None);
    assert_eq!(h.alerts, vec![Alert::Engaged, Alert::Disengaged]);
}

#[test]
fn engage_aborts_when_the_relay_dies_in_bootstrap() {
    let mut h = fresh_host();
    let r = start(&mut h, 0, RELAY_UID, Some(4321), false);
    assert_eq!(r, Err(EngineError::RelayDied));
    // No firewall change, no DNS ownership taken.
    assert_eq!(h.fw.v4_policy_out, Policy::Accept);
    assert!(h.fw.v4_nat_out.is_empty());
    assert_eq!(h.fs.resolv, Some(String::from("nameserver 10.0.0.1\n")));
    assert_eq!(h.fs.backup, None);
    assert!(!h.relay_running);
    // Exactly one critical alert.
    assert_eq!(h.alerts, vec![Alert::RelayFailed]);
}

#[test]
fn engage_aborts_when_the_spawn_fails() {
    let mut h = fresh_host();
    let r = start(&mut h, 0, RELAY_UID, None, true);
    assert_eq!(r, Err(EngineError::SpawnFailed));
    assert_eq!(h.fw.v4_policy_out, Policy::Accept);
    assert_eq!(h.fs.resolv, Some(String::from("nameserver 10.0.0.1\n")));
    assert_eq!(h.alerts, Vec::new());
}

#[test]
fn every_transition_requires_the_superuser() {
    let mut h = fresh_host();
    assert_eq!(start(&mut h, 1000, RELAY_UID, Some(4321), true), Err(EngineError::NotRoot));
    assert_eq!(stop(&mut h, 1000), Err(EngineError::NotRoot));
    assert_eq!(restart(&mut h, 1000, RELAY_UID, Some(4321), true), Err(EngineError::NotRoot));
    assert_eq!(flush(&mut h, 1000), Err(EngineError::NotRoot));
    // Nothing happened.
    assert_eq!(h.fw.v4_policy_out, Policy::Accept);
    assert_eq!(h.fs.resolv, Some(String::from("nameserver 10.0.0.1\n")));
    assert!(!h.resolver_masked);
    assert_eq!(h.alerts, Vec::new());
}

#[test]
fn reengage_emits_one_final_distinct_alert() {
    let mut h = fresh_host();
    assert_eq!(start(&mut h, 0, RELAY_UID, Some(4321), true), Ok(()));
    assert_eq!(restart(&mut h, 0, RELAY_UID, Some(5678), true), Ok(()));
    // The internal engage step raised its own alert, but the last word is
    // the reengage alert, and only one of those was raised.
    assert_eq!(h.alerts.last(), Some(&Alert::Reengaged));
    let reengage_alerts = h.alerts.iter().filter(|a| **a == Alert::Reengaged).count();
    assert_eq!(reengage_alerts, 1);
    assert_eq!(
        h.alerts,
        vec![Alert::Engaged, Alert::Engaged, Alert::Reengaged]
    );
    assert_eq!(h.fs.pid_marker, Some(5678));
}

#[test]
fn reengage_propagates_an_engage_failure_without_its_alert() {
    let mut h = fresh_host();
    assert_eq!(start(&mut h, 0, RELAY_UID, Some(4321), true), Ok(()));
    let r = restart(&mut h, 0, RELAY_UID, Some(5678), false);
    assert_eq!(r, Err(EngineError::RelayDied));
    assert_eq!(h.alerts, vec![Alert::Engaged, Alert::RelayFailed]);
}

#[test]
fn flush_clears_rules_without_touching_the_relay() {
    let mut h = fresh_host();
    assert_eq!(start(&mut h, 0, RELAY_UID, Some(4321), true), Ok(()));
    assert_eq!(flush(&mut h, 0), Ok(()));
    assert_eq!(h.fw.v4_policy_out, Policy::Accept);
    assert!(h.fw.v4_nat_out.is_empty());
    // DNS restored, and the marker dropped with the teardown.
    assert_eq!(h.fs.resolv, Some(String::from("nameserver 10.0.0.1\n")));
    assert_eq!(h.fs.pid_marker, None);
    assert!(!h.resolver_masked);
    // The relay process itself was left alone, but its monitor was stopped.
    assert!(h.relay_running);
    assert!(!h.monitor_active);
    assert_eq!(h.alerts, vec![Alert::Engaged, Alert::Flushed]);
}
