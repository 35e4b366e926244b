//! Resolver controller: ownership of the host's resolution path.
//!
//! Takeover saves the first existing copy of the pre-enforcement resolution
//! config (once, never overwriting an earlier save), pins a fixed
//! loopback-only replacement over the config, and marks it immutable.
//! Restore is the inverse: it consumes the backup, or falls back to the
//! native resolver's stub config when no backup exists.
//!
//! `FsState` carries what the controller reads and writes as plain values:
//! the effective text behind each path (links already followed), `None`
//! where the file is absent. The binary mirrors each field mutation with
//! the matching file operation.

use vstd::prelude::*;

verus! {

/// Files on disk that the DNS takeover touches.
pub struct FsState {
    /// The host's resolution config.
    pub resolv: Option<String>,
    /// Whether the resolution config carries the immutable attribute.
    pub resolv_immutable: bool,
    /// The saved pre-enforcement copy of the resolution config.
    pub backup: Option<String>,
    /// The native resolver service's generated config, if present.
    pub cand_systemd: Option<String>,
    /// The network manager's generated config, if present.
    pub cand_nm: Option<String>,
    /// The native resolver's stub config, if present.
    pub stub: Option<String>,
    /// The relay's persisted process identifier.
    pub pid_marker: Option<u64>,
}

/// Mathematical image of `FsState`.
#[verifier::ext_equal]
pub ghost struct FsModel {
    pub resolv: Option<Seq<char>>,
    pub resolv_immutable: bool,
    pub backup: Option<Seq<char>>,
    pub cand_systemd: Option<Seq<char>>,
    pub cand_nm: Option<Seq<char>>,
    pub stub: Option<Seq<char>>,
    pub pid_marker: Option<u64>,
}

pub open spec fn text_of(s: Option<String>) -> Option<Seq<char>> {
    match s {
        Option::Some(t) => Option::Some(t@),
        Option::None => Option::None,
    }
}

impl View for FsState {
    type V = FsModel;

    open spec fn view(&self) -> FsModel {
        FsModel {
            resolv: text_of(self.resolv),
            resolv_immutable: self.resolv_immutable,
            backup: text_of(self.backup),
            cand_systemd: text_of(self.cand_systemd),
            cand_nm: text_of(self.cand_nm),
            stub: text_of(self.stub),
            pid_marker: self.pid_marker,
        }
    }
}

/// The exact text pinned over the resolution config while enforcement is
/// active: a marker block, loopback as the only nameserver, and the
/// resolver options.
pub open spec fn replacement_text() -> Seq<char> {
    "# HULIOS - Tor DNS\n# DO NOT MODIFY - This file is managed by HULIOS\n# All DNS queries are routed through Tor\nnameserver 127.0.0.1\noptions edns0 trust-ad ndots:0\n"@
}

/// The replacement as a value, for the write the binary performs.
pub fn resolv_replacement() -> (r: String)
    ensures
        r@ == replacement_text(),
{
    String::from_str(
        "# HULIOS - Tor DNS\n# DO NOT MODIFY - This file is managed by HULIOS\n# All DNS queries are routed through Tor\nnameserver 127.0.0.1\noptions edns0 trust-ad ndots:0\n",
    )
}

/// What a takeover saves when no backup exists yet: the first existing
/// config from the priority list, the resolution config itself last.
pub open spec fn backup_source(m: FsModel) -> Option<Seq<char>> {
    if m.cand_systemd is Some {
        m.cand_systemd
    } else if m.cand_nm is Some {
        m.cand_nm
    } else {
        m.resolv
    }
}

/// Effect of a DNS takeover.
pub open spec fn take_dns_model(m: FsModel) -> FsModel {
    FsModel {
        resolv: Option::Some(replacement_text()),
        resolv_immutable: true,
        backup: if m.backup is Some {
            m.backup
        } else {
            backup_source(m)
        },
        ..m
    }
}

/// Effect of a DNS restore: the backup is restored and consumed. Without
/// one, the config becomes a link to the native resolver's stub config
/// (absent if that stub is absent) — but only while it still holds the
/// enforcement replacement; a config already restored, or never taken
/// over, is left alone, which makes a repeated restore a no-op. The relay
/// marker goes away with it.
pub open spec fn restore_dns_model(m: FsModel) -> FsModel {
    FsModel {
        resolv: if m.backup is Some {
            m.backup
        } else if m.resolv == Option::Some(replacement_text()) {
            m.stub
        } else {
            m.resolv
        },
        resolv_immutable: false,
        backup: Option::None,
        pid_marker: Option::None,
        ..m
    }
}

/// Take ownership of the resolution path: save the original config if no
/// save exists yet, pin the fixed loopback replacement, mark it immutable.
pub fn take_dns_ownership(fs: &mut FsState)
    ensures
        final(fs)@ == take_dns_model(old(fs)@),
{
    fs.resolv_immutable = false;
    if fs.backup.is_none() {
        match &fs.cand_systemd {
            Option::Some(s) => {
                let c = s.clone();
                fs.backup = Option::Some(c);
            },
            Option::None => {
                match &fs.cand_nm {
                    Option::Some(s) => {
                        let c = s.clone();
                        fs.backup = Option::Some(c);
                    },
                    Option::None => {
                        match &fs.resolv {
                            Option::Some(s) => {
                                let c = s.clone();
                                fs.backup = Option::Some(c);
                            },
                            Option::None => {},
                        }
                    },
                }
            },
        }
    }
    fs.resolv = Option::None;
    fs.resolv = Option::Some(resolv_replacement());
    fs.resolv_immutable = true;
}

/// Undo the takeover: clear the immutable attribute, put the saved config
/// back (consuming the save), and remove the relay's process-identifier
/// marker. Without a save, the config falls back to the stub link only
/// while it still holds the enforcement replacement; otherwise it stays,
/// so calling this again changes nothing.
pub fn restore_dns(fs: &mut FsState)
    ensures
        final(fs)@ == restore_dns_model(old(fs)@),
{
    fs.resolv_immutable = false;
    match &fs.backup {
        Option::Some(b) => {
            let c = b.clone();
            fs.resolv = Option::Some(c);
            fs.backup = Option::None;
        },
        Option::None => {
            let still_enforced: bool = match &fs.resolv {
                Option::Some(cur) => {
                    let repl = resolv_replacement();
                    *cur == repl
                },
                Option::None => false,
            };
            if still_enforced {
                match &fs.stub {
                    Option::Some(s) => {
                        let c = s.clone();
                        fs.resolv = Option::Some(c);
                    },
                    Option::None => {
                        fs.resolv = Option::None;
                    },
                }
            }
        },
    }
    fs.pid_marker = Option::None;
}

/// One invocation of the service manager (or of the process sweeper), as
/// the binary performs it. Every one of these is best-effort: a failure is
/// ignored so teardown always makes progress.
#[derive(Clone, Copy, PartialEq, Eq, Structural, Debug)]
pub enum SvcAction {
    /// Mask a unit: stronger than stopping, it survives restart attempts.
    Mask,
    Unmask,
    Start,
    Stop,
    /// Kill every process of the given name.
    KillByName,
}

/// The neutralize sequence: mask, stop and kill the host's own resolver
/// service, and stop the other local resolvers that could compete.
pub fn neutralize_plan() -> (p: Vec<(SvcAction, &'static str)>)
    ensures
        p@.len() == 6,
        p@[0].0 == SvcAction::Mask && p@[0].1@ == "systemd-resolved"@,
        p@[1].0 == SvcAction::Stop && p@[1].1@ == "systemd-resolved"@,
        p@[2].0 == SvcAction::KillByName && p@[2].1@ == "systemd-resolved"@,
        p@[3].0 == SvcAction::Stop && p@[3].1@ == "NetworkManager-dispatcher"@,
        p@[4].0 == SvcAction::Stop && p@[4].1@ == "dnsmasq"@,
        p@[5].0 == SvcAction::Mask && p@[5].1@ == "dnsmasq"@,
{
    let mut p: Vec<(SvcAction, &'static str)> = Vec::new();
    p.push((SvcAction::Mask, "systemd-resolved"));
    p.push((SvcAction::Stop, "systemd-resolved"));
    p.push((SvcAction::KillByName, "systemd-resolved"));
    p.push((SvcAction::Stop, "NetworkManager-dispatcher"));
    p.push((SvcAction::Stop, "dnsmasq"));
    p.push((SvcAction::Mask, "dnsmasq"));
    p
}

/// The restore sequence: unmask what neutralize masked, then start the
/// services again.
pub fn restore_plan() -> (p: Vec<(SvcAction, &'static str)>)
    ensures
        p@.len() == 4,
        p@[0].0 == SvcAction::Unmask && p@[0].1@ == "systemd-resolved"@,
        p@[1].0 == SvcAction::Unmask && p@[1].1@ == "dnsmasq"@,
        p@[2].0 == SvcAction::Start && p@[2].1@ == "systemd-resolved"@,
        p@[3].0 == SvcAction::Start && p@[3].1@ == "NetworkManager-dispatcher"@,
{
    let mut p: Vec<(SvcAction, &'static str)> = Vec::new();
    p.push((SvcAction::Unmask, "systemd-resolved"));
    p.push((SvcAction::Unmask, "dnsmasq"));
    p.push((SvcAction::Start, "systemd-resolved"));
    p.push((SvcAction::Start, "NetworkManager-dispatcher"));
    p
}

/// Law: a backup, once present, survives any further takeover; and after a
/// takeover that saved one, a second takeover without an intervening
/// restore keeps that save untouched.
pub proof fn lemma_takeover_keeps_existing_backup(m: FsModel)
    ensures
        m.backup is Some ==> take_dns_model(m).backup == m.backup,
        take_dns_model(m).backup is Some ==> take_dns_model(take_dns_model(m)).backup
            == take_dns_model(m).backup,
{
}

/// Law: restore is idempotent — a second restore changes nothing, the
/// save being consumed and the config no longer holding the enforcement
/// replacement. The one excluded input is a pending save whose content is
/// itself the replacement text (then the repeat falls back to the stub):
/// such a save only arises when the config already held the replacement
/// before the first takeover.
pub proof fn lemma_restore_idempotent(m: FsModel)
    requires
        m.backup != Option::Some(replacement_text()),
    ensures
        restore_dns_model(restore_dns_model(m)) == restore_dns_model(m),
{
}

/// Law: a restore right after a takeover brings the resolution config back
/// byte for byte, consumes the save, clears the immutable attribute and
/// drops the relay marker — provided no older save was pending and the
/// takeover's backup source carries the config's own effective content (as
/// it does when the config is the usual link onto that source, or when no
/// generated config exists at all).
pub proof fn lemma_restore_inverts_takeover(m: FsModel)
    requires
        m.backup is None,
        m.resolv is Some,
        backup_source(m) == m.resolv,
    ensures
        restore_dns_model(take_dns_model(m)).resolv == m.resolv,
        restore_dns_model(take_dns_model(m)).backup is None,
        !restore_dns_model(take_dns_model(m)).resolv_immutable,
        restore_dns_model(take_dns_model(m)).pid_marker is None,
{
}

} // verus!
