//! Firewall controller: the ordered rule set that locks traffic to the
//! relay, the flush that undoes it, and a model of how the packet filter
//! reacts to each command.
//!
//! The rule set is produced as data (`engage_plan`, `flush_plan`); the
//! binary renders each command into an invocation of the host's
//! packet-filter tool. `FwState` mirrors the filter state those commands
//! produce, so the effect of a whole plan is stated and proved here.

use vstd::prelude::*;

verus! {

/// The relay's DNS listener port: all port-53 traffic is redirected here.
pub const DNS_PORT: u16 = 9061;

/// The relay's transparent-proxy port: all remaining TCP is redirected here.
pub const TRANS_PORT: u16 = 9051;

#[derive(Clone, Copy, PartialEq, Eq, Structural, Debug)]
pub enum Family {
    V4,
    V6,
}

#[derive(Clone, Copy, PartialEq, Eq, Structural, Debug)]
pub enum Table {
    Nat,
    Filter,
}

#[derive(Clone, Copy, PartialEq, Eq, Structural, Debug)]
pub enum Chain {
    Input,
    Output,
    Forward,
}

/// Hosts may run two parallel packet-filter backends; the flush clears both.
#[derive(Clone, Copy, PartialEq, Eq, Structural, Debug)]
pub enum Backend {
    Active,
    Legacy,
}

#[derive(Clone, Copy, PartialEq, Eq, Structural, Debug)]
pub enum Policy {
    Accept,
    Drop,
}

/// What a rule matches on.
#[derive(Clone, Copy, PartialEq, Eq, Structural, Debug)]
pub enum Selector {
    /// Connections already established.
    Established,
    /// Connections established or related.
    EstablishedRelated,
    /// Packets owned by the given system identity.
    OwnerUid(u32),
    /// UDP packets to the given destination port.
    UdpDport(u16),
    /// TCP packets to the given destination port.
    TcpDport(u16),
    /// Packets destined to the loopback network.
    DestLoopbackNet,
    /// Packets leaving on the loopback interface.
    OutLoopback,
    /// Packets arriving on the loopback interface.
    InLoopback,
    /// Any TCP packet.
    AnyTcp,
    /// Any packet.
    Any,
}

#[derive(Clone, Copy, PartialEq, Eq, Structural, Debug)]
pub enum Action {
    /// Leave the chain without redirecting.
    Return,
    /// Redirect to the given local port.
    RedirectTo(u16),
    Accept,
    Drop,
}

/// One entry of a chain.
#[derive(Clone, Copy, PartialEq, Eq, Structural, Debug)]
pub struct Rule {
    pub selector: Selector,
    pub action: Action,
}

/// One firewall mutation, in the order the packet-filter tool receives them.
#[derive(Clone, Copy, PartialEq, Eq, Structural, Debug)]
pub enum FwCmd {
    SetPolicy { family: Family, chain: Chain, policy: Policy },
    Append { family: Family, table: Table, chain: Chain, rule: Rule },
    FlushChain { family: Family, backend: Backend, table: Table, chain: Chain },
}

/// The packet-filter state the commands act on: default policies of the
/// filter chains and the contents of every chain the tool ever touches.
pub struct FwState {
    pub v4_policy_out: Policy,
    pub v4_policy_in: Policy,
    pub v4_policy_fwd: Policy,
    pub v6_policy_out: Policy,
    pub v6_policy_in: Policy,
    pub v6_policy_fwd: Policy,
    pub v4_nat_out: Vec<Rule>,
    pub v4_filter_out: Vec<Rule>,
    pub v4_filter_in: Vec<Rule>,
    pub v6_nat_out: Vec<Rule>,
    pub v6_filter_out: Vec<Rule>,
    pub v6_filter_in: Vec<Rule>,
    pub legacy4_nat_out: Vec<Rule>,
    pub legacy4_filter_out: Vec<Rule>,
    pub legacy6_nat_out: Vec<Rule>,
    pub legacy6_filter_out: Vec<Rule>,
}

/// Mathematical image of `FwState`.
#[verifier::ext_equal]
pub ghost struct FwModel {
    pub v4_policy_out: Policy,
    pub v4_policy_in: Policy,
    pub v4_policy_fwd: Policy,
    pub v6_policy_out: Policy,
    pub v6_policy_in: Policy,
    pub v6_policy_fwd: Policy,
    pub v4_nat_out: Seq<Rule>,
    pub v4_filter_out: Seq<Rule>,
    pub v4_filter_in: Seq<Rule>,
    pub v6_nat_out: Seq<Rule>,
    pub v6_filter_out: Seq<Rule>,
    pub v6_filter_in: Seq<Rule>,
    pub legacy4_nat_out: Seq<Rule>,
    pub legacy4_filter_out: Seq<Rule>,
    pub legacy6_nat_out: Seq<Rule>,
    pub legacy6_filter_out: Seq<Rule>,
}

impl View for FwState {
    type V = FwModel;

    open spec fn view(&self) -> FwModel {
        FwModel {
            v4_policy_out: self.v4_policy_out,
            v4_policy_in: self.v4_policy_in,
            v4_policy_fwd: self.v4_policy_fwd,
            v6_policy_out: self.v6_policy_out,
            v6_policy_in: self.v6_policy_in,
            v6_policy_fwd: self.v6_policy_fwd,
            v4_nat_out: self.v4_nat_out@,
            v4_filter_out: self.v4_filter_out@,
            v4_filter_in: self.v4_filter_in@,
            v6_nat_out: self.v6_nat_out@,
            v6_filter_out: self.v6_filter_out@,
            v6_filter_in: self.v6_filter_in@,
            legacy4_nat_out: self.legacy4_nat_out@,
            legacy4_filter_out: self.legacy4_filter_out@,
            legacy6_nat_out: self.legacy6_nat_out@,
            legacy6_filter_out: self.legacy6_filter_out@,
        }
    }
}

/// Effect of one command on the packet-filter state. Commands addressed to
/// chains the tool never touches leave the state unchanged.
pub open spec fn fw_step(m: FwModel, c: FwCmd) -> FwModel {
    match c {
        FwCmd::SetPolicy { family, chain, policy } => match (family, chain) {
            (Family::V4, Chain::Output) => FwModel { v4_policy_out: policy, ..m },
            (Family::V4, Chain::Input) => FwModel { v4_policy_in: policy, ..m },
            (Family::V4, Chain::Forward) => FwModel { v4_policy_fwd: policy, ..m },
            (Family::V6, Chain::Output) => FwModel { v6_policy_out: policy, ..m },
            (Family::V6, Chain::Input) => FwModel { v6_policy_in: policy, ..m },
            (Family::V6, Chain::Forward) => FwModel { v6_policy_fwd: policy, ..m },
        },
        FwCmd::Append { family, table, chain, rule } => match (family, table, chain) {
            (Family::V4, Table::Nat, Chain::Output) => FwModel {
                v4_nat_out: m.v4_nat_out.push(rule),
                ..m
            },
            (Family::V4, Table::Filter, Chain::Output) => FwModel {
                v4_filter_out: m.v4_filter_out.push(rule),
                ..m
            },
            (Family::V4, Table::Filter, Chain::Input) => FwModel {
                v4_filter_in: m.v4_filter_in.push(rule),
                ..m
            },
            (Family::V6, Table::Nat, Chain::Output) => FwModel {
                v6_nat_out: m.v6_nat_out.push(rule),
                ..m
            },
            (Family::V6, Table::Filter, Chain::Output) => FwModel {
                v6_filter_out: m.v6_filter_out.push(rule),
                ..m
            },
            (Family::V6, Table::Filter, Chain::Input) => FwModel {
                v6_filter_in: m.v6_filter_in.push(rule),
                ..m
            },
            _ => m,
        },
        FwCmd::FlushChain { family, backend, table, chain } => match (
            backend,
            family,
            table,
            chain,
        ) {
            (Backend::Active, Family::V4, Table::Nat, Chain::Output) => FwModel {
                v4_nat_out: Seq::empty(),
                ..m
            },
            (Backend::Active, Family::V4, Table::Filter, Chain::Output) => FwModel {
                v4_filter_out: Seq::empty(),
                ..m
            },
            (Backend::Active, Family::V4, Table::Filter, Chain::Input) => FwModel {
                v4_filter_in: Seq::empty(),
                ..m
            },
            (Backend::Active, Family::V6, Table::Nat, Chain::Output) => FwModel {
                v6_nat_out: Seq::empty(),
                ..m
            },
            (Backend::Active, Family::V6, Table::Filter, Chain::Output) => FwModel {
                v6_filter_out: Seq::empty(),
                ..m
            },
            (Backend::Active, Family::V6, Table::Filter, Chain::Input) => FwModel {
                v6_filter_in: Seq::empty(),
                ..m
            },
            (Backend::Legacy, Family::V4, Table::Nat, Chain::Output) => FwModel {
                legacy4_nat_out: Seq::empty(),
                ..m
            },
            (Backend::Legacy, Family::V4, Table::Filter, Chain::Output) => FwModel {
                legacy4_filter_out: Seq::empty(),
                ..m
            },
            (Backend::Legacy, Family::V6, Table::Nat, Chain::Output) => FwModel {
                legacy6_nat_out: Seq::empty(),
                ..m
            },
            (Backend::Legacy, Family::V6, Table::Filter, Chain::Output) => FwModel {
                legacy6_filter_out: Seq::empty(),
                ..m
            },
            _ => m,
        },
    }
}

/// Effect of a whole command sequence, first command first.
pub open spec fn fw_run(m: FwModel, cs: Seq<FwCmd>) -> FwModel
    decreases cs.len(),
{
    if cs.len() == 0 {
        m
    } else {
        fw_step(fw_run(m, cs.drop_last()), cs.last())
    }
}

/// The flush sequence: policies of all three chains back to accept for both
/// families, the NAT and filter OUTPUT chains cleared for both families and
/// filter INPUT only for the secondary one — the primary family's INPUT
/// chain is left alone, since this tool never sets rules there — and the
/// legacy backend's chains cleared as well, so stale enforcement cannot
/// survive in a parallel backend.
pub open spec fn flush_cmds() -> Seq<FwCmd> {
    seq![
        FwCmd::SetPolicy { family: Family::V4, chain: Chain::Output, policy: Policy::Accept },
        FwCmd::SetPolicy { family: Family::V4, chain: Chain::Input, policy: Policy::Accept },
        FwCmd::SetPolicy { family: Family::V4, chain: Chain::Forward, policy: Policy::Accept },
        FwCmd::FlushChain {
            family: Family::V4,
            backend: Backend::Active,
            table: Table::Nat,
            chain: Chain::Output,
        },
        FwCmd::FlushChain {
            family: Family::V4,
            backend: Backend::Active,
            table: Table::Filter,
            chain: Chain::Output,
        },
        FwCmd::SetPolicy { family: Family::V6, chain: Chain::Output, policy: Policy::Accept },
        FwCmd::SetPolicy { family: Family::V6, chain: Chain::Input, policy: Policy::Accept },
        FwCmd::SetPolicy { family: Family::V6, chain: Chain::Forward, policy: Policy::Accept },
        FwCmd::FlushChain {
            family: Family::V6,
            backend: Backend::Active,
            table: Table::Nat,
            chain: Chain::Output,
        },
        FwCmd::FlushChain {
            family: Family::V6,
            backend: Backend::Active,
            table: Table::Filter,
            chain: Chain::Output,
        },
        FwCmd::FlushChain {
            family: Family::V6,
            backend: Backend::Active,
            table: Table::Filter,
            chain: Chain::Input,
        },
        FwCmd::FlushChain {
            family: Family::V4,
            backend: Backend::Legacy,
            table: Table::Nat,
            chain: Chain::Output,
        },
        FwCmd::FlushChain {
            family: Family::V4,
            backend: Backend::Legacy,
            table: Table::Filter,
            chain: Chain::Output,
        },
        FwCmd::FlushChain {
            family: Family::V6,
            backend: Backend::Legacy,
            table: Table::Nat,
            chain: Chain::Output,
        },
        FwCmd::FlushChain {
            family: Family::V6,
            backend: Backend::Legacy,
            table: Table::Filter,
            chain: Chain::Output,
        },
    ]
}

/// The enforcement rules appended after the flush, in the exact order they
/// must take effect; `relay_uid` is the relay's own system identity, which
/// is exempted so its egress is not redirected back into itself.
pub open spec fn engage_tail(relay_uid: u32) -> Seq<FwCmd> {
    seq![
        // NAT: skip established connections, then the relay's own traffic.
        FwCmd::Append {
            family: Family::V4,
            table: Table::Nat,
            chain: Chain::Output,
            rule: Rule { selector: Selector::Established, action: Action::Return },
        },
        FwCmd::Append {
            family: Family::V4,
            table: Table::Nat,
            chain: Chain::Output,
            rule: Rule { selector: Selector::OwnerUid(relay_uid), action: Action::Return },
        },
        // NAT: capture all name resolution before any destination rule.
        FwCmd::Append {
            family: Family::V4,
            table: Table::Nat,
            chain: Chain::Output,
            rule: Rule { selector: Selector::UdpDport(53), action: Action::RedirectTo(DNS_PORT) },
        },
        FwCmd::Append {
            family: Family::V4,
            table: Table::Nat,
            chain: Chain::Output,
            rule: Rule { selector: Selector::TcpDport(53), action: Action::RedirectTo(DNS_PORT) },
        },
        // NAT: never redirect loopback destinations; all remaining TCP to the proxy.
        FwCmd::Append {
            family: Family::V4,
            table: Table::Nat,
            chain: Chain::Output,
            rule: Rule { selector: Selector::DestLoopbackNet, action: Action::Return },
        },
        FwCmd::Append {
            family: Family::V4,
            table: Table::Nat,
            chain: Chain::Output,
            rule: Rule { selector: Selector::AnyTcp, action: Action::RedirectTo(TRANS_PORT) },
        },
        // Filter: deny by default before any accept exception.
        FwCmd::SetPolicy { family: Family::V4, chain: Chain::Output, policy: Policy::Drop },
        FwCmd::Append {
            family: Family::V4,
            table: Table::Filter,
            chain: Chain::Output,
            rule: Rule { selector: Selector::OutLoopback, action: Action::Accept },
        },
        FwCmd::Append {
            family: Family::V4,
            table: Table::Filter,
            chain: Chain::Output,
            rule: Rule { selector: Selector::DestLoopbackNet, action: Action::Accept },
        },
        FwCmd::Append {
            family: Family::V4,
            table: Table::Filter,
            chain: Chain::Output,
            rule: Rule { selector: Selector::EstablishedRelated, action: Action::Accept },
        },
        FwCmd::Append {
            family: Family::V4,
            table: Table::Filter,
            chain: Chain::Output,
            rule: Rule { selector: Selector::OwnerUid(relay_uid), action: Action::Accept },
        },
        // Filter: close the known resolver-bypass channels explicitly.
        FwCmd::Append {
            family: Family::V4,
            table: Table::Filter,
            chain: Chain::Output,
            rule: Rule { selector: Selector::UdpDport(53), action: Action::Drop },
        },
        FwCmd::Append {
            family: Family::V4,
            table: Table::Filter,
            chain: Chain::Output,
            rule: Rule { selector: Selector::TcpDport(53), action: Action::Drop },
        },
        FwCmd::Append {
            family: Family::V4,
            table: Table::Filter,
            chain: Chain::Output,
            rule: Rule { selector: Selector::TcpDport(853), action: Action::Drop },
        },
        FwCmd::Append {
            family: Family::V4,
            table: Table::Filter,
            chain: Chain::Output,
            rule: Rule { selector: Selector::UdpDport(443), action: Action::Drop },
        },
        FwCmd::Append {
            family: Family::V4,
            table: Table::Filter,
            chain: Chain::Output,
            rule: Rule { selector: Selector::Any, action: Action::Drop },
        },
        // The secondary family has no redirection, so it is blocked outright.
        FwCmd::SetPolicy { family: Family::V6, chain: Chain::Output, policy: Policy::Drop },
        FwCmd::SetPolicy { family: Family::V6, chain: Chain::Input, policy: Policy::Drop },
        FwCmd::SetPolicy { family: Family::V6, chain: Chain::Forward, policy: Policy::Drop },
        FwCmd::Append {
            family: Family::V6,
            table: Table::Filter,
            chain: Chain::Output,
            rule: Rule { selector: Selector::OutLoopback, action: Action::Accept },
        },
        FwCmd::Append {
            family: Family::V6,
            table: Table::Filter,
            chain: Chain::Input,
            rule: Rule { selector: Selector::InLoopback, action: Action::Accept },
        },
        FwCmd::Append {
            family: Family::V6,
            table: Table::Filter,
            chain: Chain::Output,
            rule: Rule { selector: Selector::EstablishedRelated, action: Action::Accept },
        },
        FwCmd::Append {
            family: Family::V6,
            table: Table::Filter,
            chain: Chain::Input,
            rule: Rule { selector: Selector::EstablishedRelated, action: Action::Accept },
        },
        FwCmd::Append {
            family: Family::V6,
            table: Table::Filter,
            chain: Chain::Output,
            rule: Rule { selector: Selector::Any, action: Action::Drop },
        },
        FwCmd::Append {
            family: Family::V6,
            table: Table::Filter,
            chain: Chain::Input,
            rule: Rule { selector: Selector::Any, action: Action::Drop },
        },
    ]
}

/// The whole apply sequence: a full flush first, for idempotency, then the
/// enforcement rules.
pub open spec fn engage_cmds(relay_uid: u32) -> Seq<FwCmd> {
    flush_cmds() + engage_tail(relay_uid)
}

/// The state after a flush: everything accepted and every touched chain
/// empty. The primary family's filter INPUT chain keeps whatever the host
/// had in it.
pub open spec fn flushed_model(m: FwModel) -> FwModel {
    FwModel {
        v4_policy_out: Policy::Accept,
        v4_policy_in: Policy::Accept,
        v4_policy_fwd: Policy::Accept,
        v6_policy_out: Policy::Accept,
        v6_policy_in: Policy::Accept,
        v6_policy_fwd: Policy::Accept,
        v4_nat_out: Seq::empty(),
        v4_filter_out: Seq::empty(),
        v4_filter_in: m.v4_filter_in,
        v6_nat_out: Seq::empty(),
        v6_filter_out: Seq::empty(),
        v6_filter_in: Seq::empty(),
        legacy4_nat_out: Seq::empty(),
        legacy4_filter_out: Seq::empty(),
        legacy6_nat_out: Seq::empty(),
        legacy6_filter_out: Seq::empty(),
    }
}

/// The state after the apply sequence: deny-by-default with exceptions only
/// for loopback, established traffic and the relay's own identity, all name
/// resolution and remaining TCP redirected to the relay, and the secondary
/// family blocked. Only the primary family's filter INPUT chain carries
/// over from the prior state: the sequence never touches it.
pub open spec fn engaged_model(m: FwModel, relay_uid: u32) -> FwModel {
    FwModel {
        v4_policy_out: Policy::Drop,
        v4_policy_in: Policy::Accept,
        v4_policy_fwd: Policy::Accept,
        v6_policy_out: Policy::Drop,
        v6_policy_in: Policy::Drop,
        v6_policy_fwd: Policy::Drop,
        v4_nat_out: seq![
            Rule { selector: Selector::Established, action: Action::Return },
            Rule { selector: Selector::OwnerUid(relay_uid), action: Action::Return },
            Rule { selector: Selector::UdpDport(53), action: Action::RedirectTo(DNS_PORT) },
            Rule { selector: Selector::TcpDport(53), action: Action::RedirectTo(DNS_PORT) },
            Rule { selector: Selector::DestLoopbackNet, action: Action::Return },
            Rule { selector: Selector::AnyTcp, action: Action::RedirectTo(TRANS_PORT) },
        ],
        v4_filter_out: seq![
            Rule { selector: Selector::OutLoopback, action: Action::Accept },
            Rule { selector: Selector::DestLoopbackNet, action: Action::Accept },
            Rule { selector: Selector::EstablishedRelated, action: Action::Accept },
            Rule { selector: Selector::OwnerUid(relay_uid), action: Action::Accept },
            Rule { selector: Selector::UdpDport(53), action: Action::Drop },
            Rule { selector: Selector::TcpDport(53), action: Action::Drop },
            Rule { selector: Selector::TcpDport(853), action: Action::Drop },
            Rule { selector: Selector::UdpDport(443), action: Action::Drop },
            Rule { selector: Selector::Any, action: Action::Drop },
        ],
        v4_filter_in: m.v4_filter_in,
        v6_nat_out: Seq::empty(),
        v6_filter_out: seq![
            Rule { selector: Selector::OutLoopback, action: Action::Accept },
            Rule { selector: Selector::EstablishedRelated, action: Action::Accept },
            Rule { selector: Selector::Any, action: Action::Drop },
        ],
        v6_filter_in: seq![
            Rule { selector: Selector::InLoopback, action: Action::Accept },
            Rule { selector: Selector::EstablishedRelated, action: Action::Accept },
            Rule { selector: Selector::Any, action: Action::Drop },
        ],
        legacy4_nat_out: Seq::empty(),
        legacy4_filter_out: Seq::empty(),
        legacy6_nat_out: Seq::empty(),
        legacy6_filter_out: Seq::empty(),
    }
}

/// Running a concatenation is running the first part, then the second.
pub proof fn lemma_fw_run_concat(m: FwModel, a: Seq<FwCmd>, b: Seq<FwCmd>)
    ensures
        fw_run(m, a + b) == fw_run(fw_run(m, a), b),
    decreases b.len(),
{
    if b.len() == 0 {
        assert(a + b =~= a);
    } else {
        lemma_fw_run_concat(m, a, b.drop_last());
        assert((a + b).drop_last() =~= a + b.drop_last());
    }
}

/// The flush sequence opens every starting state, touching nothing else.
pub proof fn lemma_run_flush(m: FwModel)
    ensures
        fw_run(m, flush_cmds()) == flushed_model(m),
{
    reveal_with_fuel(fw_run, 16);
    assert(fw_run(m, flush_cmds()) =~= flushed_model(m));
}

/// The apply sequence drives every starting state to the enforced state.
#[verifier::rlimit(60)]
pub proof fn lemma_run_engage(m: FwModel, relay_uid: u32)
    ensures
        fw_run(m, engage_cmds(relay_uid)) == engaged_model(m, relay_uid),
{
    lemma_fw_run_concat(m, flush_cmds(), engage_tail(relay_uid));
    lemma_run_flush(m);
    let tail = engage_tail(relay_uid);
    let half = fw_run(flushed_model(m), tail.take(13));
    assert(half =~= FwModel {
        v4_policy_out: Policy::Drop,
        v4_nat_out: engaged_model(m, relay_uid).v4_nat_out,
        v4_filter_out: engaged_model(m, relay_uid).v4_filter_out.take(6),
        ..flushed_model(m)
    }) by {
        reveal_with_fuel(fw_run, 14);
    }
    assert(tail =~= tail.take(13) + tail.skip(13));
    lemma_fw_run_concat(flushed_model(m), tail.take(13), tail.skip(13));
    assert(fw_run(half, tail.skip(13)) =~= engaged_model(m, relay_uid)) by {
        reveal_with_fuel(fw_run, 13);
    }
}

/// Law: applying the rule set twice in a row yields the same effective rule
/// set as applying it once — the flush prefix makes the apply idempotent.
pub proof fn lemma_apply_rules_idempotent(m: FwModel, relay_uid: u32)
    ensures
        fw_run(fw_run(m, engage_cmds(relay_uid)), engage_cmds(relay_uid)) == fw_run(
            m,
            engage_cmds(relay_uid),
        ),
{
    lemma_run_engage(m, relay_uid);
    lemma_run_engage(engaged_model(m, relay_uid), relay_uid);
    assert(engaged_model(engaged_model(m, relay_uid), relay_uid) =~= engaged_model(
        m,
        relay_uid,
    ));
}

/// Perform one command on the mirrored state.
pub fn run_cmd(s: &mut FwState, c: &FwCmd)
    ensures
        final(s)@ == fw_step(old(s)@, *c),
{
    match *c {
        FwCmd::SetPolicy { family, chain, policy } => match (family, chain) {
            (Family::V4, Chain::Output) => { s.v4_policy_out = policy; },
            (Family::V4, Chain::Input) => { s.v4_policy_in = policy; },
            (Family::V4, Chain::Forward) => { s.v4_policy_fwd = policy; },
            (Family::V6, Chain::Output) => { s.v6_policy_out = policy; },
            (Family::V6, Chain::Input) => { s.v6_policy_in = policy; },
            (Family::V6, Chain::Forward) => { s.v6_policy_fwd = policy; },
        },
        FwCmd::Append { family, table, chain, rule } => match (family, table, chain) {
            (Family::V4, Table::Nat, Chain::Output) => { s.v4_nat_out.push(rule); },
            (Family::V4, Table::Filter, Chain::Output) => { s.v4_filter_out.push(rule); },
            (Family::V4, Table::Filter, Chain::Input) => { s.v4_filter_in.push(rule); },
            (Family::V6, Table::Nat, Chain::Output) => { s.v6_nat_out.push(rule); },
            (Family::V6, Table::Filter, Chain::Output) => { s.v6_filter_out.push(rule); },
            (Family::V6, Table::Filter, Chain::Input) => { s.v6_filter_in.push(rule); },
            _ => {},
        },
        FwCmd::FlushChain { family, backend, table, chain } => match (
            backend,
            family,
            table,
            chain,
        ) {
            (Backend::Active, Family::V4, Table::Nat, Chain::Output) => { s.v4_nat_out.clear(); },
            (Backend::Active, Family::V4, Table::Filter, Chain::Output) => {
                s.v4_filter_out.clear();
            },
            (Backend::Active, Family::V4, Table::Filter, Chain::Input) => {
                s.v4_filter_in.clear();
            },
            (Backend::Active, Family::V6, Table::Nat, Chain::Output) => { s.v6_nat_out.clear(); },
            (Backend::Active, Family::V6, Table::Filter, Chain::Output) => {
                s.v6_filter_out.clear();
            },
            (Backend::Active, Family::V6, Table::Filter, Chain::Input) => {
                s.v6_filter_in.clear();
            },
            (Backend::Legacy, Family::V4, Table::Nat, Chain::Output) => {
                s.legacy4_nat_out.clear();
            },
            (Backend::Legacy, Family::V4, Table::Filter, Chain::Output) => {
                s.legacy4_filter_out.clear();
            },
            (Backend::Legacy, Family::V6, Table::Nat, Chain::Output) => {
                s.legacy6_nat_out.clear();
            },
            (Backend::Legacy, Family::V6, Table::Filter, Chain::Output) => {
                s.legacy6_filter_out.clear();
            },
            _ => {},
        },
    }
}

/// Perform a whole plan on the mirrored state, first command first.
pub fn run_plan(s: &mut FwState, p: &Vec<FwCmd>)
    ensures
        final(s)@ == fw_run(old(s)@, p@),
{
    let ghost m0 = s@;
    let mut i: usize = 0;
    while i < p.len()
        invariant
            i <= p.len(),
            s@ == fw_run(m0, p@.take(i as int)),
        decreases p.len() - i,
    {
        run_cmd(s, &p[i]);
        proof {
            assert(p@.take(i + 1).drop_last() =~= p@.take(i as int));
            assert(p@.take(i + 1).last() == p@[i as int]);
        }
        i += 1;
    }
    proof {
        assert(p@.take(p@.len() as int) =~= p@);
    }
}

/// The flush sequence as data, for the binary to hand to the filter tool.
pub fn flush_plan() -> (p: Vec<FwCmd>)
    ensures
        p@ == flush_cmds(),
{
    let mut p: Vec<FwCmd> = Vec::new();
    p.push(FwCmd::SetPolicy { family: Family::V4, chain: Chain::Output, policy: Policy::Accept });
    p.push(FwCmd::SetPolicy { family: Family::V4, chain: Chain::Input, policy: Policy::Accept });
    p.push(FwCmd::SetPolicy { family: Family::V4, chain: Chain::Forward, policy: Policy::Accept });
    p.push(FwCmd::FlushChain {
        family: Family::V4,
        backend: Backend::Active,
        table: Table::Nat,
        chain: Chain::Output,
    });
    p.push(FwCmd::FlushChain {
        family: Family::V4,
        backend: Backend::Active,
        table: Table::Filter,
        chain: Chain::Output,
    });
    p.push(FwCmd::SetPolicy { family: Family::V6, chain: Chain::Output, policy: Policy::Accept });
    p.push(FwCmd::SetPolicy { family: Family::V6, chain: Chain::Input, policy: Policy::Accept });
    p.push(FwCmd::SetPolicy { family: Family::V6, chain: Chain::Forward, policy: Policy::Accept });
    p.push(FwCmd::FlushChain {
        family: Family::V6,
        backend: Backend::Active,
        table: Table::Nat,
        chain: Chain::Output,
    });
    p.push(FwCmd::FlushChain {
        family: Family::V6,
        backend: Backend::Active,
        table: Table::Filter,
        chain: Chain::Output,
    });
    p.push(FwCmd::FlushChain {
        family: Family::V6,
        backend: Backend::Active,
        table: Table::Filter,
        chain: Chain::Input,
    });
    p.push(FwCmd::FlushChain {
        family: Family::V4,
        backend: Backend::Legacy,
        table: Table::Nat,
        chain: Chain::Output,
    });
    p.push(FwCmd::FlushChain {
        family: Family::V4,
        backend: Backend::Legacy,
        table: Table::Filter,
        chain: Chain::Output,
    });
    p.push(FwCmd::FlushChain {
        family: Family::V6,
        backend: Backend::Legacy,
        table: Table::Nat,
        chain: Chain::Output,
    });
    p.push(FwCmd::FlushChain {
        family: Family::V6,
        backend: Backend::Legacy,
        table: Table::Filter,
        chain: Chain::Output,
    });
    proof {
        assert(p@ =~= flush_cmds());
    }
    p
}

/// The whole apply sequence as data: the flush, then the enforcement rules.
pub fn engage_plan(relay_uid: u32) -> (p: Vec<FwCmd>)
    ensures
        p@ == engage_cmds(relay_uid),
{
    let mut p: Vec<FwCmd> = flush_plan();
    p.push(FwCmd::Append {
        family: Family::V4,
        table: Table::Nat,
        chain: Chain::Output,
        rule: Rule { selector: Selector::Established, action: Action::Return },
    });
    p.push(FwCmd::Append {
        family: Family::V4,
        table: Table::Nat,
        chain: Chain::Output,
        rule: Rule { selector: Selector::OwnerUid(relay_uid), action: Action::Return },
    });
    p.push(FwCmd::Append {
        family: Family::V4,
        table: Table::Nat,
        chain: Chain::Output,
        rule: Rule { selector: Selector::UdpDport(53), action: Action::RedirectTo(DNS_PORT) },
    });
    p.push(FwCmd::Append {
        family: Family::V4,
        table: Table::Nat,
        chain: Chain::Output,
        rule: Rule { selector: Selector::TcpDport(53), action: Action::RedirectTo(DNS_PORT) },
    });
    p.push(FwCmd::Append {
        family: Family::V4,
        table: Table::Nat,
        chain: Chain::Output,
        rule: Rule { selector: Selector::DestLoopbackNet, action: Action::Return },
    });
    p.push(FwCmd::Append {
        family: Family::V4,
        table: Table::Nat,
        chain: Chain::Output,
        rule: Rule { selector: Selector::AnyTcp, action: Action::RedirectTo(TRANS_PORT) },
    });
    p.push(FwCmd::SetPolicy { family: Family::V4, chain: Chain::Output, policy: Policy::Drop });
    p.push(FwCmd::Append {
        family: Family::V4,
        table: Table::Filter,
        chain: Chain::Output,
        rule: Rule { selector: Selector::OutLoopback, action: Action::Accept },
    });
    p.push(FwCmd::Append {
        family: Family::V4,
        table: Table::Filter,
        chain: Chain::Output,
        rule: Rule { selector: Selector::DestLoopbackNet, action: Action::Accept },
    });
    p.push(FwCmd::Append {
        family: Family::V4,
        table: Table::Filter,
        chain: Chain::Output,
        rule: Rule { selector: Selector::EstablishedRelated, action: Action::Accept },
    });
    p.push(FwCmd::Append {
        family: Family::V4,
        table: Table::Filter,
        chain: Chain::Output,
        rule: Rule { selector: Selector::OwnerUid(relay_uid), action: Action::Accept },
    });
    p.push(FwCmd::Append {
        family: Family::V4,
        table: Table::Filter,
        chain: Chain::Output,
        rule: Rule { selector: Selector::UdpDport(53), action: Action::Drop },
    });
    p.push(FwCmd::Append {
        family: Family::V4,
        table: Table::Filter,
        chain: Chain::Output,
        rule: Rule { selector: Selector::TcpDport(53), action: Action::Drop },
    });
    p.push(FwCmd::Append {
        family: Family::V4,
        table: Table::Filter,
        chain: Chain::Output,
        rule: Rule { selector: Selector::TcpDport(853), action: Action::Drop },
    });
    p.push(FwCmd::Append {
        family: Family::V4,
        table: Table::Filter,
        chain: Chain::Output,
        rule: Rule { selector: Selector::UdpDport(443), action: Action::Drop },
    });
    p.push(FwCmd::Append {
        family: Family::V4,
        table: Table::Filter,
        chain: Chain::Output,
        rule: Rule { selector: Selector::Any, action: Action::Drop },
    });
    p.push(FwCmd::SetPolicy { family: Family::V6, chain: Chain::Output, policy: Policy::Drop });
    p.push(FwCmd::SetPolicy { family: Family::V6, chain: Chain::Input, policy: Policy::Drop });
    p.push(FwCmd::SetPolicy { family: Family::V6, chain: Chain::Forward, policy: Policy::Drop });
    p.push(FwCmd::Append {
        family: Family::V6,
        table: Table::Filter,
        chain: Chain::Output,
        rule: Rule { selector: Selector::OutLoopback, action: Action::Accept },
    });
    p.push(FwCmd::Append {
        family: Family::V6,
        table: Table::Filter,
        chain: Chain::Input,
        rule: Rule { selector: Selector::InLoopback, action: Action::Accept },
    });
    p.push(FwCmd::Append {
        family: Family::V6,
        table: Table::Filter,
        chain: Chain::Output,
        rule: Rule { selector: Selector::EstablishedRelated, action: Action::Accept },
    });
    p.push(FwCmd::Append {
        family: Family::V6,
        table: Table::Filter,
        chain: Chain::Input,
        rule: Rule { selector: Selector::EstablishedRelated, action: Action::Accept },
    });
    p.push(FwCmd::Append {
        family: Family::V6,
        table: Table::Filter,
        chain: Chain::Output,
        rule: Rule { selector: Selector::Any, action: Action::Drop },
    });
    p.push(FwCmd::Append {
        family: Family::V6,
        table: Table::Filter,
        chain: Chain::Input,
        rule: Rule { selector: Selector::Any, action: Action::Drop },
    });
    proof {
        assert(p@ =~= engage_cmds(relay_uid));
    }
    p
}

/// Apply the enforcement rule set to the mirrored state: a full flush for
/// idempotency, then the ordered rules. Everything the sequence touches
/// ends up the same whatever the prior state; only the untouched primary
/// filter INPUT chain carries over.
pub fn apply_rules(fw: &mut FwState, relay_uid: u32)
    ensures
        final(fw)@ == engaged_model(old(fw)@, relay_uid),
{
    let p = engage_plan(relay_uid);
    run_plan(fw, &p);
    proof {
        lemma_run_engage(old(fw)@, relay_uid);
    }
}

/// Reset the mirrored state to accept-all with every touched chain empty,
/// leaving the primary family's filter INPUT chain as it was.
pub fn flush_rules(fw: &mut FwState)
    ensures
        final(fw)@ == flushed_model(old(fw)@),
{
    let p = flush_plan();
    run_plan(fw, &p);
    proof {
        lemma_run_flush(old(fw)@);
    }
}

} // verus!




