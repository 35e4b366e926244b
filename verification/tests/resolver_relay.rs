use hulios::relay::{
    is_tor_running, monitor_step, parse_pid, stop_relay_plan, torrc_content, MonitorAction,
};
use hulios::resolver::{
    neutralize_plan, resolv_replacement, restore_dns, restore_plan, take_dns_ownership, FsState,
    SvcAction,
};

fn bare_fs() -> FsState {
    FsState {
        resolv: None,
        resolv_immutable: false,
        backup: None,
        cand_systemd: None,
        cand_nm: None,
        stub: None,
        pid_marker: None,
    }
}

#[test]
fn takeover_saves_the_original_once() {
    let mut fs = bare_fs();
    fs.resolv = Some(String::from("nameserver 192.0.2.53\n"));
    take_dns_ownership(&mut fs);
    assert_eq!(fs.backup, Some(String::from("nameserver 192.0.2.53\n")));
    assert_eq!(fs.resolv, Some(resolv_replacement()));
    assert!(fs.resolv_immutable);
    // A second takeover without a restore must not overwrite the save.
    take_dns_ownership(&mut fs);
    assert_eq!(fs.backup, Some(String::from("nameserver 192.0.2.53\n")));
}

#[test]
fn takeover_prefers_the_generated_config() {
    let mut fs = bare_fs();
    fs.resolv = Some(String::from("nameserver 127.0.0.53\n"));
    fs.cand_systemd = Some(String::from("nameserver 10.0.0.1\n"));
    fs.cand_nm = Some(String::from("nameserver 10.0.0.2\n"));
    take_dns_ownership(&mut fs);
    assert_eq!(fs.backup, Some(String::from("nameserver 10.0.0.1\n")));
}

#[test]
fn restore_consumes_the_backup() {
    let mut fs = bare_fs();
    fs.resolv = Some(String::from("nameserver 192.0.2.53\n"));
    fs.pid_marker = Some(4321);
    take_dns_ownership(&mut fs);
    restore_dns(&mut fs);
    assert_eq!(fs.resolv, Some(String::from("nameserver 192.0.2.53\n")));
    assert_eq!(fs.backup, None);
    assert!(!fs.resolv_immutable);
    assert_eq!(fs.pid_marker, None);
}

#[test]
fn restore_without_backup_falls_back_to_the_stub() {
    let mut fs = bare_fs();
    fs.resolv = Some(resolv_replacement());
    fs.stub = Some(String::from("nameserver 127.0.0.53\n"));
    restore_dns(&mut fs);
    assert_eq!(fs.resolv, Some(String::from("nameserver 127.0.0.53\n")));
    assert_eq!(fs.backup, None);
}

#[test]
fn restore_without_backup_or_stub_leaves_no_config() {
    let mut fs = bare_fs();
    fs.resolv = Some(resolv_replacement());
    restore_dns(&mut fs);
    assert_eq!(fs.resolv, None);
}

#[test]
fn restore_twice_changes_nothing() {
    let mut fs = bare_fs();
    fs.resolv = Some(String::from("nameserver 192.0.2.53\n"));
    fs.stub = Some(String::from("nameserver 127.0.0.53\n"));
    take_dns_ownership(&mut fs);
    restore_dns(&mut fs);
    assert_eq!(fs.resolv, Some(String::from("nameserver 192.0.2.53\n")));
    // The save is consumed, but a repeat must not swap the restored
    // config for the stub.
    restore_dns(&mut fs);
    assert_eq!(fs.resolv, Some(String::from("nameserver 192.0.2.53\n")));
    assert_eq!(fs.backup, None);
}

#[test]
fn restore_leaves_a_config_it_never_took_over() {
    let mut fs = bare_fs();
    fs.resolv = Some(String::from("nameserver 192.0.2.53\n"));
    fs.stub = Some(String::from("nameserver 127.0.0.53\n"));
    restore_dns(&mut fs);
    assert_eq!(fs.resolv, Some(String::from("nameserver 192.0.2.53\n")));
}

#[test]
fn replacement_pins_dns_to_loopback() {
    let r = resolv_replacement();
    assert!(r.contains("nameserver 127.0.0.1"));
    assert!(r.contains("options edns0 trust-ad ndots:0"));
    assert!(r.starts_with("# "));
}

#[test]
fn torrc_lists_every_required_key() {
    let t = torrc_content();
    assert_eq!(
        t,
        String::from(
            "RunAsDaemon 1\nUser tor\nDataDirectory /tmp/hulios_tor_data\nLog notice file /tmp/tor_debug.log\nSOCKSPort 9050\nTransPort 9051\nDNSPort 9061\nVirtualAddrNetwork 10.66.0.0/255.255.0.0\nAutomapHostsOnResolve 1\n"
        )
    );
}

#[test]
fn parse_pid_exact_values() {
    assert_eq!(parse_pid(b"1234"), Some(1234));
    assert_eq!(parse_pid(b" 42\n"), Some(42));
    assert_eq!(parse_pid(b"007"), Some(7));
    assert_eq!(parse_pid(b"0"), Some(0));
    assert_eq!(parse_pid(b"2147483647"), Some(2147483647));
}

#[test]
fn parse_pid_rejects_bad_markers() {
    assert_eq!(parse_pid(b""), None);
    assert_eq!(parse_pid(b"   \n"), None);
    assert_eq!(parse_pid(b"12a4"), None);
    assert_eq!(parse_pid(b"-5"), None);
    assert_eq!(parse_pid(b"12 34"), None);
    assert_eq!(parse_pid(b"2147483648"), None);
    assert_eq!(parse_pid(b"99999999999999999999"), None);
}

#[test]
fn neutralize_masks_before_stopping_and_restore_inverts_it() {
    let n = neutralize_plan();
    assert_eq!(
        n,
        vec![
            (SvcAction::Mask, "systemd-resolved"),
            (SvcAction::Stop, "systemd-resolved"),
            (SvcAction::KillByName, "systemd-resolved"),
            (SvcAction::Stop, "NetworkManager-dispatcher"),
            (SvcAction::Stop, "dnsmasq"),
            (SvcAction::Mask, "dnsmasq"),
        ]
    );
    let r = restore_plan();
    assert_eq!(
        r,
        vec![
            (SvcAction::Unmask, "systemd-resolved"),
            (SvcAction::Unmask, "dnsmasq"),
            (SvcAction::Start, "systemd-resolved"),
            (SvcAction::Start, "NetworkManager-dispatcher"),
        ]
    );
    // Everything masked by neutralize is unmasked by restore.
    for (action, unit) in &n {
        if *action == SvcAction::Mask {
            assert!(r.contains(&(SvcAction::Unmask, unit)));
        }
    }
}

#[test]
fn relay_stop_sweeps_by_name_after_the_service_stop() {
    assert_eq!(
        stop_relay_plan(),
        vec![(SvcAction::Stop, "tor"), (SvcAction::KillByName, "tor")]
    );
}

#[test]
fn liveness_false_without_marker_or_named_process() {
    assert!(!is_tor_running(&None, None, false));
    assert!(!is_tor_running(&None, Some(true), false));
}

#[test]
fn liveness_false_on_stale_identifier() {
    let marker = Some(b"999999".to_vec());
    assert!(!is_tor_running(&marker, Some(false), false));
}

#[test]
fn liveness_name_lookup_outweighs_a_stale_identifier() {
    // A stale marker with a relay plainly in the process table: alive.
    let marker = Some(b"999999".to_vec());
    assert!(is_tor_running(&marker, Some(false), true));
}

#[test]
fn monitor_keeps_watching_until_a_death_is_observed() {
    assert_eq!(monitor_step(true), MonitorAction::KeepWatching);
    assert_eq!(monitor_step(false), MonitorAction::AlertAndStop);
}

#[test]
fn liveness_true_when_either_check_succeeds() {
    let marker = Some(b" 1234\n".to_vec());
    assert!(is_tor_running(&marker, Some(true), false));
    // No marker, but a process of the expected name stands in the table.
    assert!(is_tor_running(&None, None, true));
    // Unreadable marker falls back to the name lookup.
    let garbage = Some(b"not a pid".to_vec());
    assert!(is_tor_running(&garbage, None, true));
    // The signal probe erring falls back to the name lookup too.
    assert!(is_tor_running(&marker, None, true));
}
