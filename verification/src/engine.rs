//! Enforcement orchestrator: the state machine tying the firewall
//! controller, the resolver controller and the relay supervisor together
//! for the four user-facing transitions.
//!
//! `Host` mirrors every observable side effect a transition has; the
//! binary carries each mutation out against the real system, in the same
//! order, and feeds in the two facts only the outside world knows: whether
//! the relay process could be spawned, and whether it still reported alive
//! after the fixed bootstrap wait. Every transition also takes the calling
//! identity and refuses to act for anyone but the superuser.

use vstd::prelude::*;

use crate::iptables;
use crate::iptables::{engaged_model, flushed_model, FwModel, FwState};
use crate::resolver;
use crate::resolver::{backup_source, restore_dns_model, take_dns_model, FsModel, FsState};

verus! {

/// One message handed to the notification sink.
#[derive(Clone, Copy, PartialEq, Eq, Structural, Debug)]
pub enum Alert {
    /// Enforcement is up; all traffic routed through the relay.
    Engaged,
    /// Normal networking restored.
    Disengaged,
    /// Enforcement torn down and brought up again.
    Reengaged,
    /// Firewall rules cleared without touching the relay.
    Flushed,
    /// Critical: the relay died before enforcement was applied.
    RelayFailed,
}

#[derive(Clone, Copy, PartialEq, Eq, Structural, Debug)]
pub enum EngineError {
    /// The calling identity is not the superuser.
    NotRoot,
    /// The relay process could not be spawned.
    SpawnFailed,
    /// The relay died during the bootstrap wait.
    RelayDied,
}

/// Everything a transition observably touches on the host.
pub struct Host {
    pub fw: FwState,
    pub fs: FsState,
    /// Whether the host's own resolver services are masked and stopped.
    pub resolver_masked: bool,
    /// Whether a supervised relay process is running.
    pub relay_running: bool,
    /// The sysctl flag allowing redirected traffic to target loopback.
    pub route_localnet: bool,
    /// Whether the relay's configuration has been written out.
    pub torrc_written: bool,
    /// Whether the detached background liveness monitor has been started.
    pub monitor_active: bool,
    /// Every alert handed to the notification sink, in order.
    pub alerts: Vec<Alert>,
}

/// Mathematical image of `Host`.
#[verifier::ext_equal]
pub ghost struct HostModel {
    pub fw: FwModel,
    pub fs: FsModel,
    pub resolver_masked: bool,
    pub relay_running: bool,
    pub route_localnet: bool,
    pub torrc_written: bool,
    pub monitor_active: bool,
    pub alerts: Seq<Alert>,
}

impl View for Host {
    type V = HostModel;

    open spec fn view(&self) -> HostModel {
        HostModel {
            fw: self.fw@,
            fs: self.fs@,
            resolver_masked: self.resolver_masked,
            relay_running: self.relay_running,
            route_localnet: self.route_localnet,
            torrc_written: self.torrc_written,
            monitor_active: self.monitor_active,
            alerts: self.alerts@,
        }
    }
}

/// Effect of stopping any supervised relay: the process is gone and so is
/// its identifier marker.
pub open spec fn stop_relay_model(m: HostModel) -> HostModel {
    HostModel {
        relay_running: false,
        fs: FsModel { pid_marker: Option::None, ..m.fs },
        ..m
    }
}

/// Effect of engage, given the calling identity, the relay's identity, and
/// the two facts the outside world reports back: the spawned process
/// identifier (absent when the spawn failed) and whether the relay still
/// reported alive after the fixed bootstrap wait.
pub open spec fn start_model(
    m: HostModel,
    uid: u32,
    relay_uid: u32,
    spawned_pid: Option<u64>,
    alive_after_wait: bool,
) -> (HostModel, Result<(), EngineError>) {
    if uid != 0 {
        (m, Result::Err(EngineError::NotRoot))
    } else {
        let prepared = HostModel {
            resolver_masked: true,
            route_localnet: true,
            torrc_written: true,
            ..stop_relay_model(m)
        };
        match spawned_pid {
            Option::None => (prepared, Result::Err(EngineError::SpawnFailed)),
            Option::Some(pid) => {
                let launched = HostModel {
                    relay_running: true,
                    fs: FsModel { pid_marker: Option::Some(pid), ..prepared.fs },
                    ..prepared
                };
                if !alive_after_wait {
                    let failed = HostModel {
                        relay_running: false,
                        alerts: launched.alerts.push(Alert::RelayFailed),
                        ..launched
                    };
                    (failed, Result::Err(EngineError::RelayDied))
                } else {
                    let enforced = HostModel {
                        fw: engaged_model(launched.fw, relay_uid),
                        fs: take_dns_model(launched.fs),
                        ..launched
                    };
                    let done = HostModel {
                        monitor_active: true,
                        alerts: enforced.alerts.push(Alert::Engaged),
                        ..enforced
                    };
                    (done, Result::Ok(()))
                }
            },
        }
    }
}

/// Effect of disengage: firewall opened first, relay stopped and its
/// background monitor with it, DNS and the native resolver restored last.
pub open spec fn stop_model(m: HostModel, uid: u32) -> (HostModel, Result<(), EngineError>) {
    if uid != 0 {
        (m, Result::Err(EngineError::NotRoot))
    } else {
        let opened = stop_relay_model(
            HostModel { fw: flushed_model(m.fw), monitor_active: false, ..m },
        );
        let restored = HostModel {
            fs: restore_dns_model(opened.fs),
            resolver_masked: false,
            ..opened
        };
        let done = HostModel { alerts: restored.alerts.push(Alert::Disengaged), ..restored };
        (done, Result::Ok(()))
    }
}

/// Effect of reengage: a quiet disengage (no alert), then a full engage
/// (which raises its own alert), then one overriding reengage alert.
pub open spec fn restart_model(
    m: HostModel,
    uid: u32,
    relay_uid: u32,
    spawned_pid: Option<u64>,
    alive_after_wait: bool,
) -> (HostModel, Result<(), EngineError>) {
    if uid != 0 {
        (m, Result::Err(EngineError::NotRoot))
    } else {
        let opened = stop_relay_model(
            HostModel { fw: flushed_model(m.fw), monitor_active: false, ..m },
        );
        let quiet = HostModel {
            fs: restore_dns_model(opened.fs),
            resolver_masked: false,
            ..opened
        };
        let (started, outcome) = start_model(quiet, uid, relay_uid, spawned_pid, alive_after_wait);
        match outcome {
            Result::Ok(u) => (
                HostModel { alerts: started.alerts.push(Alert::Reengaged), ..started },
                Result::Ok(u),
            ),
            Result::Err(e) => (started, Result::Err(e)),
        }
    }
}

/// Effect of the rules-only clear: firewall opened, DNS and the native
/// resolver restored, the background monitor stopped, the relay process
/// itself left alone.
pub open spec fn flush_model(m: HostModel, uid: u32) -> (HostModel, Result<(), EngineError>) {
    if uid != 0 {
        (m, Result::Err(EngineError::NotRoot))
    } else {
        let restored = HostModel {
            fw: flushed_model(m.fw),
            fs: restore_dns_model(m.fs),
            resolver_masked: false,
            monitor_active: false,
            ..m
        };
        let done = HostModel { alerts: restored.alerts.push(Alert::Flushed), ..restored };
        (done, Result::Ok(()))
    }
}

/// Stop any supervised relay and drop its identifier marker. Idempotent.
pub fn stop_tor_service(h: &mut Host)
    ensures
        final(h)@ == stop_relay_model(old(h)@),
{
    h.relay_running = false;
    h.fs.pid_marker = Option::None;
}

/// Mask and stop the host's own resolver services.
pub fn neutralize_system_resolver(h: &mut Host)
    ensures
        final(h)@ == (HostModel { resolver_masked: true, ..old(h)@ }),
{
    h.resolver_masked = true;
}

/// Unmask and restart the host's own resolver services.
pub fn restore_system_resolver(h: &mut Host)
    ensures
        final(h)@ == (HostModel { resolver_masked: false, ..old(h)@ }),
{
    h.resolver_masked = false;
}

/// Allow redirected traffic to target loopback.
pub fn enable_route_localnet(h: &mut Host)
    ensures
        final(h)@ == (HostModel { route_localnet: true, ..old(h)@ }),
{
    h.route_localnet = true;
}

/// Engage enforcement. Aborts before any firewall or DNS change when the
/// caller is not the superuser, when the relay cannot be spawned, or when
/// the relay fails to report alive after the bootstrap wait.
pub fn start(
    h: &mut Host,
    uid: u32,
    relay_uid: u32,
    spawned_pid: Option<u64>,
    alive_after_wait: bool,
) -> (r: Result<(), EngineError>)
    ensures
        final(h)@ == start_model(old(h)@, uid, relay_uid, spawned_pid, alive_after_wait).0,
        r == start_model(old(h)@, uid, relay_uid, spawned_pid, alive_after_wait).1,
{
    if uid != 0 {
        return Result::Err(EngineError::NotRoot);
    }
    stop_tor_service(h);
    neutralize_system_resolver(h);
    enable_route_localnet(h);
    h.torrc_written = true;
    let pid: u64 = match spawned_pid {
        Option::None => {
            return Result::Err(EngineError::SpawnFailed);
        },
        Option::Some(p) => p,
    };
    h.relay_running = true;
    h.fs.pid_marker = Option::Some(pid);
    if !alive_after_wait {
        h.relay_running = false;
        h.alerts.push(Alert::RelayFailed);
        return Result::Err(EngineError::RelayDied);
    }
    iptables::apply_rules(&mut h.fw, relay_uid);
    resolver::take_dns_ownership(&mut h.fs);
    h.alerts.push(Alert::Engaged);
    h.monitor_active = true;
    Result::Ok(())
}

/// Disengage enforcement: open the firewall before stopping the relay, so
/// no traffic is stranded behind a deny-all policy with no relay left.
pub fn stop(h: &mut Host, uid: u32) -> (r: Result<(), EngineError>)
    ensures
        final(h)@ == stop_model(old(h)@, uid).0,
        r == stop_model(old(h)@, uid).1,
{
    if uid != 0 {
        return Result::Err(EngineError::NotRoot);
    }
    iptables::flush_rules(&mut h.fw);
    h.monitor_active = false;
    stop_tor_service(h);
    resolver::restore_dns(&mut h.fs);
    restore_system_resolver(h);
    h.alerts.push(Alert::Disengaged);
    Result::Ok(())
}

/// Reengage: a quiet disengage, then a full engage, then the one
/// overriding reengage alert.
pub fn restart(
    h: &mut Host,
    uid: u32,
    relay_uid: u32,
    spawned_pid: Option<u64>,
    alive_after_wait: bool,
) -> (r: Result<(), EngineError>)
    ensures
        final(h)@ == restart_model(old(h)@, uid, relay_uid, spawned_pid, alive_after_wait).0,
        r == restart_model(old(h)@, uid, relay_uid, spawned_pid, alive_after_wait).1,
{
    if uid != 0 {
        return Result::Err(EngineError::NotRoot);
    }
    iptables::flush_rules(&mut h.fw);
    h.monitor_active = false;
    stop_tor_service(h);
    resolver::restore_dns(&mut h.fs);
    restore_system_resolver(h);
    let outcome = start(h, uid, relay_uid, spawned_pid, alive_after_wait);
    match outcome {
        Result::Ok(u) => {
            h.alerts.push(Alert::Reengaged);
            Result::Ok(u)
        },
        Result::Err(e) => Result::Err(e),
    }
}

/// Clear the firewall and restore DNS and the native resolver, leaving the
/// relay's state alone.
pub fn flush(h: &mut Host, uid: u32) -> (r: Result<(), EngineError>)
    ensures
        final(h)@ == flush_model(old(h)@, uid).0,
        r == flush_model(old(h)@, uid).1,
{
    if uid != 0 {
        return Result::Err(EngineError::NotRoot);
    }
    iptables::flush_rules(&mut h.fw);
    h.monitor_active = false;
    resolver::restore_dns(&mut h.fs);
    restore_system_resolver(h);
    h.alerts.push(Alert::Flushed);
    Result::Ok(())
}

/// Law: when the relay cannot be spawned, or dies during the bootstrap
/// wait, engage returns an error having made no firewall change and taken
/// no DNS ownership; the death after the wait raises exactly one critical
/// alert, the failed spawn raises none.
pub proof fn lemma_engage_aborts_without_firewall_changes(
    m: HostModel,
    relay_uid: u32,
    pid: u64,
    alive_after_wait: bool,
)
    ensures
        start_model(m, 0, relay_uid, Option::Some(pid), false).1 == Result::<
            (),
            EngineError,
        >::Err(EngineError::RelayDied),
        start_model(m, 0, relay_uid, Option::Some(pid), false).0.fw == m.fw,
        start_model(m, 0, relay_uid, Option::Some(pid), false).0.fs.resolv == m.fs.resolv,
        start_model(m, 0, relay_uid, Option::Some(pid), false).0.fs.backup == m.fs.backup,
        start_model(m, 0, relay_uid, Option::Some(pid), false).0.alerts == m.alerts.push(
            Alert::RelayFailed,
        ),
        start_model(m, 0, relay_uid, Option::None, alive_after_wait).1 == Result::<
            (),
            EngineError,
        >::Err(EngineError::SpawnFailed),
        start_model(m, 0, relay_uid, Option::None, alive_after_wait).0.fw == m.fw,
        start_model(m, 0, relay_uid, Option::None, alive_after_wait).0.fs.resolv == m.fs.resolv,
        start_model(m, 0, relay_uid, Option::None, alive_after_wait).0.alerts == m.alerts,
{
}

/// Law: a disengage right after a successful engage inverts every
/// observable side effect: firewall back to accept-all with empty chains,
/// the resolution config byte for byte as before with its immutable
/// attribute clear, the backup consumed, the native resolver unmasked, the
/// relay stopped and its identifier marker gone. It holds whenever no
/// stale backup was pending and the takeover's backup source carries the
/// config's own effective content — as on a host whose resolution config
/// is the usual link onto the generated one, or has no generated one.
pub proof fn lemma_disengage_inverts_engage(m: HostModel, relay_uid: u32, pid: u64)
    requires
        m.fs.backup is None,
        m.fs.resolv is Some,
        backup_source(m.fs) == m.fs.resolv,
    ensures
        ({
            let (engaged, r1) = start_model(m, 0, relay_uid, Option::Some(pid), true);
            let (disengaged, r2) = stop_model(engaged, 0);
            &&& r1 == Result::<(), EngineError>::Ok(())
            &&& r2 == Result::<(), EngineError>::Ok(())
            &&& disengaged.fw == flushed_model(m.fw)
            &&& disengaged.fs.resolv == m.fs.resolv
            &&& !disengaged.fs.resolv_immutable
            &&& disengaged.fs.backup is None
            &&& !disengaged.resolver_masked
            &&& !disengaged.relay_running
            &&& !disengaged.monitor_active
            &&& disengaged.fs.pid_marker is None
        }),
{
}

/// Law: a successful reengage appends the engage alert and then exactly
/// one reengage alert, nothing else; the final word to the user is the
/// reengage alert, and it differs from a plain engage's.
pub proof fn lemma_reengage_single_final_alert(m: HostModel, relay_uid: u32, pid: u64)
    ensures
        ({
            let (reengaged, r) = restart_model(m, 0, relay_uid, Option::Some(pid), true);
            &&& r == Result::<(), EngineError>::Ok(())
            &&& reengaged.alerts == m.alerts.push(Alert::Engaged).push(Alert::Reengaged)
            &&& reengaged.alerts.last() == Alert::Reengaged
            &&& Alert::Reengaged != Alert::Engaged
        }),
{
}

} // verus!
