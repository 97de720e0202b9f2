//! The reconciliation engine's decision core: what one record needs
//! per address family, how the per-interface processor determines the
//! desired addresses, and the bounded-concurrency batch bookkeeping.
//! Every provider call and probe happens outside; this module decides
//! and the caller performs.
use vstd::prelude::*;

use crate::cloudflare::{spec_existing_ip, spec_plan, DnsRecord, RecordWrite, UpdateError};
use crate::config::TypeOptions;
use crate::ip::{IpAddress, V4Addr, V6Addr};
use crate::ip_text::spec_ip_text;
use crate::networking::{
    best_addresses_by_interface, spec_best_v4, spec_best_v6, CandidateAddress, NetworkError,
};

verus! {

/// The reconciliation result for one (record, family) pair.
#[derive(Clone, Copy, Debug, PartialEq, Eq, Structural)]
pub enum Outcome {
    /// A record was (or would be) created or rewritten to this address.
    Updated(IpAddress),
    /// The existing record already carries this address; nothing was
    /// written.
    NoChange(IpAddress),
    /// The family was required but no address could be determined this
    /// cycle (non-fatal).
    Skipped,
    /// The record's kind never required this family; distinct from
    /// `Skipped`.
    NotApplicable,
}

pub open spec fn lift_v4(d: Option<V4Addr>) -> Option<IpAddress> {
    match d {
        Some(a) => Some(IpAddress::V4(a)),
        None => None,
    }
}

pub open spec fn lift_v6(d: Option<V6Addr>) -> Option<IpAddress> {
    match d {
        Some(a) => Some(IpAddress::V6(a)),
        None => None,
    }
}

/// The outcome one family reports in a live run, or `None` for the
/// hard `NotAnIpRecord` error.
pub open spec fn spec_family_outcome(
    required: bool,
    desired: Option<IpAddress>,
    existing: Option<DnsRecord>,
) -> Option<Outcome> {
    if !required {
        Some(Outcome::NotApplicable)
    } else {
        match desired {
            None => Some(Outcome::Skipped),
            Some(ip) => match spec_plan(existing, ip) {
                None => None,
                Some(RecordWrite::Noop) => Some(Outcome::NoChange(ip)),
                Some(RecordWrite::Create) => Some(Outcome::Updated(ip)),
                Some(RecordWrite::Update) => Some(Outcome::Updated(ip)),
            },
        }
    }
}

/// The write a live run performs for one family, if any.
pub open spec fn spec_family_write(
    required: bool,
    desired: Option<IpAddress>,
    existing: Option<DnsRecord>,
) -> Option<RecordWrite> {
    if !required {
        None
    } else {
        match desired {
            None => None,
            Some(ip) => match spec_plan(existing, ip) {
                Some(RecordWrite::Create) => Some(RecordWrite::Create),
                Some(RecordWrite::Update) => Some(RecordWrite::Update),
                _ => None,
            },
        }
    }
}

/// One record's full decision: an outcome per family, and the write
/// (if any) the live run owes each family.
#[derive(Clone, Copy, Debug, PartialEq, Eq, Structural)]
pub struct RecordDecision {
    pub v4_outcome: Outcome,
    pub v4_write: Option<RecordWrite>,
    pub v6_outcome: Outcome,
    pub v6_write: Option<RecordWrite>,
}

/// The live decision for a whole record; `None` where an existing
/// record of a required family is not an address record. The IPv4
/// family is decided first, as a conflict there aborts the record.
pub open spec fn spec_decide_record(
    kind: TypeOptions,
    desired_v4: Option<V4Addr>,
    desired_v6: Option<V6Addr>,
    existing_v4: Option<DnsRecord>,
    existing_v6: Option<DnsRecord>,
) -> Option<RecordDecision> {
    match spec_family_outcome(kind.spec_requires_v4(), lift_v4(desired_v4), existing_v4) {
        None => None,
        Some(o4) => match spec_family_outcome(
            kind.spec_requires_v6(),
            lift_v6(desired_v6),
            existing_v6,
        ) {
            None => None,
            Some(o6) => Some(
                RecordDecision {
                    v4_outcome: o4,
                    v4_write: spec_family_write(
                        kind.spec_requires_v4(),
                        lift_v4(desired_v4),
                        existing_v4,
                    ),
                    v6_outcome: o6,
                    v6_write: spec_family_write(
                        kind.spec_requires_v6(),
                        lift_v6(desired_v6),
                        existing_v6,
                    ),
                },
            ),
        },
    }
}

/// Decides one family: the outcome to report and the write owed.
fn decide_family(required: bool, desired: Option<IpAddress>, existing: &Option<DnsRecord>) -> (r:
    Result<(Outcome, Option<RecordWrite>), UpdateError>)
    ensures
        match spec_family_outcome(required, desired, *existing) {
            Some(o) => (r matches Ok(q) && q.0 == o && q.1 == spec_family_write(
                required,
                desired,
                *existing,
            )),
            None => r matches Err(UpdateError::NotAnIpRecord),
        },
{
    if !required {
        return Ok((Outcome::NotApplicable, None));
    }
    match desired {
        None => Ok((Outcome::Skipped, None)),
        Some(ip) => match crate::cloudflare::plan_record_write(existing, ip) {
            Err(e) => Err(e),
            Ok(RecordWrite::Noop) => Ok((Outcome::NoChange(ip), None)),
            Ok(RecordWrite::Create) => Ok((Outcome::Updated(ip), Some(RecordWrite::Create))),
            Ok(RecordWrite::Update) => Ok((Outcome::Updated(ip), Some(RecordWrite::Update))),
        },
    }
}

/// Decides a whole record for a live run: per required family, skip
/// without an address, create where no record exists, update where the
/// address differs, and report no-change otherwise. The caller
/// performs exactly the writes in the decision, one call per family.
pub fn decide_record(
    kind: &TypeOptions,
    desired_v4: Option<V4Addr>,
    desired_v6: Option<V6Addr>,
    existing_v4: &Option<DnsRecord>,
    existing_v6: &Option<DnsRecord>,
) -> (r: Result<RecordDecision, UpdateError>)
    ensures
        match spec_decide_record(*kind, desired_v4, desired_v6, *existing_v4, *existing_v6) {
            Some(d) => (r matches Ok(q) && q == d),
            None => r matches Err(UpdateError::NotAnIpRecord),
        },
{
    let d4 = match desired_v4 {
        Some(a) => Some(IpAddress::V4(a)),
        None => None,
    };
    let d6 = match desired_v6 {
        Some(a) => Some(IpAddress::V6(a)),
        None => None,
    };
    let (v4_outcome, v4_write) = match decide_family(kind.requires_v4(), d4, existing_v4) {
        Ok(p) => p,
        Err(e) => {
            return Err(e);
        },
    };
    let (v6_outcome, v6_write) = match decide_family(kind.requires_v6(), d6, existing_v6) {
        Ok(p) => p,
        Err(e) => {
            return Err(e);
        },
    };
    Ok(RecordDecision { v4_outcome, v4_write, v6_outcome, v6_write })
}

/// The outcome one family reports in a dry run, or `None` for the hard
/// `NotAnIpRecord` error; stated independently of the live path.
pub open spec fn spec_dry_family(
    required: bool,
    desired: Option<IpAddress>,
    existing: Option<DnsRecord>,
) -> Option<Outcome> {
    if !required {
        Some(Outcome::NotApplicable)
    } else {
        match desired {
            None => Some(Outcome::Skipped),
            Some(ip) => match existing {
                None => Some(Outcome::Updated(ip)),
                Some(rec) => match spec_existing_ip(rec) {
                    None => None,
                    Some(cur) => if cur == ip {
                        Some(Outcome::NoChange(ip))
                    } else {
                        Some(Outcome::Updated(ip))
                    },
                },
            },
        }
    }
}

/// The dry-run decision for a whole record: the per-family outcomes
/// alone, since a dry run owes no writes.
pub open spec fn spec_dry_record(
    kind: TypeOptions,
    desired_v4: Option<V4Addr>,
    desired_v6: Option<V6Addr>,
    existing_v4: Option<DnsRecord>,
    existing_v6: Option<DnsRecord>,
) -> Option<(Outcome, Outcome)> {
    match spec_dry_family(kind.spec_requires_v4(), lift_v4(desired_v4), existing_v4) {
        None => None,
        Some(o4) => match spec_dry_family(
            kind.spec_requires_v6(),
            lift_v6(desired_v6),
            existing_v6,
        ) {
            None => None,
            Some(o6) => Some((o4, o6)),
        },
    }
}

/// Decides a whole record for a dry run: the same classification as a
/// live run, with no write planned or performed.
pub fn decide_record_dry_run(
    kind: &TypeOptions,
    desired_v4: Option<V4Addr>,
    desired_v6: Option<V6Addr>,
    existing_v4: &Option<DnsRecord>,
    existing_v6: &Option<DnsRecord>,
) -> (r: Result<(Outcome, Outcome), UpdateError>)
    ensures
        match spec_dry_record(*kind, desired_v4, desired_v6, *existing_v4, *existing_v6) {
            Some(p) => (r matches Ok(q) && q == p),
            None => r matches Err(UpdateError::NotAnIpRecord),
        },
{
    let d4 = match desired_v4 {
        Some(a) => Some(IpAddress::V4(a)),
        None => None,
    };
    let d6 = match desired_v6 {
        Some(a) => Some(IpAddress::V6(a)),
        None => None,
    };
    let o4 = match dry_run_family(kind.requires_v4(), d4, existing_v4) {
        Ok(o) => o,
        Err(e) => {
            return Err(e);
        },
    };
    let o6 = match dry_run_family(kind.requires_v6(), d6, existing_v6) {
        Ok(o) => o,
        Err(e) => {
            return Err(e);
        },
    };
    Ok((o4, o6))
}

/// One family of the dry run, through the same record test a live run
/// applies.
fn dry_run_family(required: bool, desired: Option<IpAddress>, existing: &Option<DnsRecord>) -> (r:
    Result<Outcome, UpdateError>)
    ensures
        match spec_dry_family(required, desired, *existing) {
            Some(o) => (r matches Ok(q) && q == o),
            None => r matches Err(UpdateError::NotAnIpRecord),
        },
{
    if !required {
        return Ok(Outcome::NotApplicable);
    }
    match desired {
        None => Ok(Outcome::Skipped),
        Some(ip) => match existing {
            None => Ok(Outcome::Updated(ip)),
            Some(rec) => match rec.content {
                crate::cloudflare::DnsContent::A(a) => {
                    if IpAddress::V4(a) == ip {
                        Ok(Outcome::NoChange(ip))
                    } else {
                        Ok(Outcome::Updated(ip))
                    }
                },
                crate::cloudflare::DnsContent::Aaaa(a) => {
                    if IpAddress::V6(a) == ip {
                        Ok(Outcome::NoChange(ip))
                    } else {
                        Ok(Outcome::Updated(ip))
                    }
                },
                crate::cloudflare::DnsContent::Other => Err(UpdateError::NotAnIpRecord),
            },
        },
    }
}

/// Dry-run parity: for any record and any existing-record state, the
/// dry run classifies exactly as the live run does — same outcomes,
/// same hard errors. Only the live run carries writes at all, so the
/// two differ in nothing but the absence of calls.
pub proof fn lemma_dry_run_parity(
    kind: TypeOptions,
    desired_v4: Option<V4Addr>,
    desired_v6: Option<V6Addr>,
    existing_v4: Option<DnsRecord>,
    existing_v6: Option<DnsRecord>,
)
    ensures
        (spec_dry_record(kind, desired_v4, desired_v6, existing_v4, existing_v6) is Some
            <==> spec_decide_record(kind, desired_v4, desired_v6, existing_v4, existing_v6)
            is Some),
        spec_dry_record(kind, desired_v4, desired_v6, existing_v4, existing_v6) matches Some(p)
            ==> (spec_decide_record(kind, desired_v4, desired_v6, existing_v4, existing_v6)
            matches Some(d) && d.v4_outcome == p.0 && d.v6_outcome == p.1),
{
}

/// A `Both`-kind record with no existing A or AAAA record and both
/// desired addresses resolved yields two independent `Updated`
/// outcomes and owes two separate creates, one per family.
pub proof fn lemma_both_kind_two_creates(desired_v4: V4Addr, desired_v6: V6Addr)
    ensures
        spec_decide_record(TypeOptions::Both, Some(desired_v4), Some(desired_v6), None, None)
            matches Some(d) && d.v4_outcome == Outcome::Updated(IpAddress::V4(desired_v4))
            && d.v4_write == Some(RecordWrite::Create) && d.v6_outcome == Outcome::Updated(
            IpAddress::V6(desired_v6),
        ) && d.v6_write == Some(RecordWrite::Create),
{
}

/// A record whose domain already has an A record matching the desired
/// IPv4 exactly yields `NoChange` for that family and owes it no write
/// call.
pub proof fn lemma_matching_a_record_unchanged(
    kind: TypeOptions,
    desired_v4: V4Addr,
    existing_v4: DnsRecord,
    desired_v6: Option<V6Addr>,
    existing_v6: Option<DnsRecord>,
)
    requires
        kind.spec_requires_v4(),
        existing_v4.content == crate::cloudflare::DnsContent::A(desired_v4),
    ensures
        spec_decide_record(kind, Some(desired_v4), desired_v6, Some(existing_v4), existing_v6)
            matches Some(d) ==> d.v4_outcome == Outcome::NoChange(IpAddress::V4(desired_v4))
            && d.v4_write is None,
{
}

/// How a record's desired IPv4 is determined: either it is already
/// known (possibly absent), or the caller owes one public-address
/// probe from the given local address, whose result it commits back.
#[derive(Clone, Copy, Debug, PartialEq, Eq, Structural)]
pub enum DesiredV4 {
    Ready(Option<V4Addr>),
    NeedLookup(V4Addr),
}

/// As `DesiredV4`, for the IPv6 family.
#[derive(Clone, Copy, Debug, PartialEq, Eq, Structural)]
pub enum DesiredV6 {
    Ready(Option<V6Addr>),
    NeedLookup(V6Addr),
}

/// Per-interface state of the engine: the interface's best local
/// addresses, selected once, and the write-once memo of the public
/// addresses discovered by web lookup.
#[derive(Debug)]
pub struct RecordProcessor {
    pub iface: String,
    pub ipv4: Option<V4Addr>,
    pub ipv6: Option<V6Addr>,
    /// Public IPv4, committed at most once per run.
    pub web_v4: Option<V4Addr>,
    /// Public IPv6, committed at most once per run.
    pub web_v6: Option<V6Addr>,
}

impl RecordProcessor {
    /// Builds the processor for one interface from the enumerated
    /// candidates. An absent interface fails here, before any of its
    /// records can be processed; an interface with no usable address
    /// still yields a processor, whose records then skip per family.
    pub fn new(iface: &str, found: Option<Vec<CandidateAddress>>) -> (r: Result<
        RecordProcessor,
        NetworkError,
    >)
        ensures
            found matches Some(cands) ==> (r matches Ok(p) && p.iface@ == iface@ && p.ipv4
                == spec_best_v4(cands@) && p.ipv6 == spec_best_v6(cands@) && p.web_v4 is None
                && p.web_v6 is None),
            found is None ==> (r matches Err(NetworkError::InvalidInterface(name)) && name@
                == iface@),
    {
        match best_addresses_by_interface(iface, found) {
            Ok((ipv4, ipv6)) => Ok(
                RecordProcessor {
                    iface: iface.to_owned(),
                    ipv4,
                    ipv6,
                    web_v4: None,
                    web_v6: None,
                },
            ),
            Err(e) => Err(e),
        }
    }

    /// The desired IPv4 for one record: the local best address, unless
    /// the record opted into web lookup — then the memoised public
    /// address, or a demand for one probe if none is committed yet. A
    /// record with no local address of the family skips it either way.
    pub fn desired_v4_step(&self, web_lookup: bool) -> (r: DesiredV4)
        ensures
            !web_lookup ==> r == DesiredV4::Ready(self.ipv4),
            web_lookup && self.ipv4 is None ==> r == DesiredV4::Ready(Option::<V4Addr>::None),
            web_lookup && self.ipv4 is Some && self.web_v4 is Some ==> r == DesiredV4::Ready(
                self.web_v4,
            ),
            web_lookup && self.ipv4 is Some && self.web_v4 is None ==> r == DesiredV4::NeedLookup(
                self.ipv4->0,
            ),
    {
        if !web_lookup {
            DesiredV4::Ready(self.ipv4)
        } else {
            match self.ipv4 {
                None => DesiredV4::Ready(None),
                Some(local) => match self.web_v4 {
                    Some(public) => DesiredV4::Ready(Some(public)),
                    None => DesiredV4::NeedLookup(local),
                },
            }
        }
    }

    /// As `desired_v4_step`, for the IPv6 family.
    pub fn desired_v6_step(&self, web_lookup: bool) -> (r: DesiredV6)
        ensures
            !web_lookup ==> r == DesiredV6::Ready(self.ipv6),
            web_lookup && self.ipv6 is None ==> r == DesiredV6::Ready(Option::<V6Addr>::None),
            web_lookup && self.ipv6 is Some && self.web_v6 is Some ==> r == DesiredV6::Ready(
                self.web_v6,
            ),
            web_lookup && self.ipv6 is Some && self.web_v6 is None ==> r == DesiredV6::NeedLookup(
                self.ipv6->0,
            ),
    {
        if !web_lookup {
            DesiredV6::Ready(self.ipv6)
        } else {
            match self.ipv6 {
                None => DesiredV6::Ready(None),
                Some(local) => match self.web_v6 {
                    Some(public) => DesiredV6::Ready(Some(public)),
                    None => DesiredV6::NeedLookup(local),
                },
            }
        }
    }

    /// Commits the probed public IPv4, write-once: a first commit
    /// sticks, any racing duplicate is discarded, so every caller
    /// observes the same committed value for the rest of the run.
    pub fn commit_web_v4(&mut self, public: V4Addr)
        ensures
            final(self).web_v4 == (if old(self).web_v4 is Some {
                old(self).web_v4
            } else {
                Some(public)
            }),
            final(self).web_v6 == old(self).web_v6,
            final(self).iface == old(self).iface,
            final(self).ipv4 == old(self).ipv4,
            final(self).ipv6 == old(self).ipv6,
    {
        if self.web_v4.is_none() {
            self.web_v4 = Some(public);
        }
    }

    /// As `commit_web_v4`, for the IPv6 family.
    pub fn commit_web_v6(&mut self, public: V6Addr)
        ensures
            final(self).web_v6 == (if old(self).web_v6 is Some {
                old(self).web_v6
            } else {
                Some(public)
            }),
            final(self).web_v4 == old(self).web_v4,
            final(self).iface == old(self).iface,
            final(self).ipv4 == old(self).ipv4,
            final(self).ipv6 == old(self).ipv6,
    {
        if self.web_v6.is_none() {
            self.web_v6 = Some(public);
        }
    }
}

/// Bookkeeping of one interface's record batch under a concurrency
/// bound: how many record tasks have started, finished, and failed.
/// The well-formedness invariant caps the records in flight at the
/// bound, so no more than `bound` records ever have outstanding
/// provider calls at once.
#[derive(Clone, Copy, Debug, PartialEq, Eq, Structural)]
pub struct BatchState {
    pub total: usize,
    pub started: usize,
    pub finished: usize,
    pub failed: usize,
    pub bound: usize,
}

impl BatchState {
    /// Every start was counted, nothing finished before starting, no
    /// more than `bound` records are in flight, and failures are
    /// finished records.
    pub open spec fn wf(self) -> bool {
        self.finished <= self.started <= self.total && self.started - self.finished <= self.bound
            && self.failed <= self.finished && 1 <= self.bound
    }

    pub open spec fn spec_in_flight(self) -> int {
        self.started - self.finished
    }

    pub fn new(total: usize, bound: usize) -> (r: BatchState)
        requires
            1 <= bound,
        ensures
            r.wf(),
            r.total == total,
            r.started == 0,
            r.finished == 0,
            r.failed == 0,
            r.bound == bound,
    {
        BatchState { total, started: 0, finished: 0, failed: 0, bound }
    }

    /// Whether another record task may start now: records remain and
    /// the bound leaves room.
    pub fn can_start(&self) -> (r: bool)
        requires
            self.wf(),
        ensures
            r == (self.started < self.total && self.spec_in_flight() < self.bound),
    {
        self.started < self.total && self.started - self.finished < self.bound
    }

    /// Starts one record task; only allowed while the bound leaves
    /// room, so the in-flight count never exceeds the bound.
    pub fn start(&mut self)
        requires
            old(self).wf(),
            old(self).started < old(self).total,
            old(self).spec_in_flight() < old(self).bound,
        ensures
            final(self).wf(),
            final(self).started == old(self).started + 1,
            final(self).finished == old(self).finished,
            final(self).failed == old(self).failed,
            final(self).total == old(self).total,
            final(self).bound == old(self).bound,
    {
        self.started = self.started + 1;
    }

    /// Finishes one record task, recording whether it failed. Siblings
    /// run to completion regardless: a failure only counts, it cancels
    /// nothing.
    pub fn finish(&mut self, ok: bool)
        requires
            old(self).wf(),
            old(self).finished < old(self).started,
        ensures
            final(self).wf(),
            final(self).finished == old(self).finished + 1,
            final(self).started == old(self).started,
            final(self).failed == old(self).failed + (if ok {
                0int
            } else {
                1int
            }),
            final(self).total == old(self).total,
            final(self).bound == old(self).bound,
    {
        self.finished = self.finished + 1;
        if !ok {
            self.failed = self.failed + 1;
        }
    }

    /// How many record tasks are in flight; never above the bound.
    pub fn in_flight(&self) -> (r: usize)
        requires
            self.wf(),
        ensures
            r == self.spec_in_flight(),
            r <= self.bound,
    {
        self.started - self.finished
    }

    /// The batch as a whole reports failure exactly when some record
    /// failed, judged only after every task finished.
    pub fn batch_failed(&self) -> (r: bool)
        requires
            self.wf(),
            self.finished == self.total,
            self.started == self.total,
        ensures
            r == (self.failed > 0),
    {
        self.failed > 0
    }
}

/// With concurrency bound B, a well-formed batch never has more than B
/// record tasks (hence provider calls) outstanding at once.
pub proof fn lemma_bounded_in_flight(b: BatchState)
    requires
        b.wf(),
    ensures
        b.spec_in_flight() <= b.bound,
{
}

/// What one family reports, given whether an address was sent and
/// whether a write happened: the address as updated or unchanged, or a
/// skip when no address was ever found.
pub open spec fn spec_reported(sent: Option<IpAddress>, updated: bool) -> Outcome {
    match sent {
        Some(ip) => if updated {
            Outcome::Updated(ip)
        } else {
            Outcome::NoChange(ip)
        },
        None => Outcome::Skipped,
    }
}

/// The per-record outcome collector: one outcome per family, rendered
/// purely from the tags, with families never required left
/// `NotApplicable`.
#[derive(Clone, Copy, Debug, PartialEq, Eq, Structural)]
pub struct UiRecordContext {
    pub ipv4: Outcome,
    pub ipv6: Outcome,
}

impl UiRecordContext {
    pub fn new() -> (r: UiRecordContext)
        ensures
            r.ipv4 == Outcome::NotApplicable,
            r.ipv6 == Outcome::NotApplicable,
    {
        UiRecordContext { ipv4: Outcome::NotApplicable, ipv6: Outcome::NotApplicable }
    }

    /// Records the IPv4 family's result.
    pub fn ipv4_result(&mut self, sent: Option<V4Addr>, updated: bool)
        ensures
            final(self).ipv4 == spec_reported(lift_v4(sent), updated),
            final(self).ipv6 == old(self).ipv6,
    {
        self.ipv4 = match sent {
            Some(ip) => {
                if updated {
                    Outcome::Updated(IpAddress::V4(ip))
                } else {
                    Outcome::NoChange(IpAddress::V4(ip))
                }
            },
            None => Outcome::Skipped,
        };
    }

    /// Records the IPv6 family's result.
    pub fn ipv6_result(&mut self, sent: Option<V6Addr>, updated: bool)
        ensures
            final(self).ipv6 == spec_reported(lift_v6(sent), updated),
            final(self).ipv4 == old(self).ipv4,
    {
        self.ipv6 = match sent {
            Some(ip) => {
                if updated {
                    Outcome::Updated(IpAddress::V6(ip))
                } else {
                    Outcome::NoChange(IpAddress::V6(ip))
                }
            },
            None => Outcome::Skipped,
        };
    }

    /// Renders the record's report line, purely from the outcome tags.
    pub fn render(&self) -> (r: String)
        ensures
            r@ == spec_render(*self),
    {
        let v4 = render_v4_part(&self.ipv4);
        let v6 = render_v6_part(&self.ipv6);
        match (v4, v6) {
            (Some(a), Some(b)) => {
                let mut s = a;
                s.append(" ");
                s.append(b.as_str());
                s
            },
            (Some(a), None) => a,
            (None, Some(b)) => b,
            (None, None) => "No updates performed".to_owned(),
        }
    }
}

/// The text the IPv4 family contributes to a record's report line.
pub open spec fn spec_render_v4(o: Outcome) -> Option<Seq<char>> {
    match o {
        Outcome::Updated(ip) => Some("IPv4 updated => "@ + spec_ip_text(ip)),
        Outcome::NoChange(ip) => Some("IPv4 unchanged ("@ + spec_ip_text(ip) + ")"@),
        Outcome::Skipped => Some("IPv4 not found!"@),
        Outcome::NotApplicable => None,
    }
}

/// The text the IPv6 family contributes to a record's report line.
pub open spec fn spec_render_v6(o: Outcome) -> Option<Seq<char>> {
    match o {
        Outcome::Updated(ip) => Some("IPv6 updated => "@ + spec_ip_text(ip)),
        Outcome::NoChange(ip) => Some("IPv6 unchanged ("@ + spec_ip_text(ip) + ")"@),
        Outcome::Skipped => Some("IPv6 not found!"@),
        Outcome::NotApplicable => None,
    }
}

/// A record's whole report line: both families' texts, either one
/// alone, or a fixed line when neither family was required.
pub open spec fn spec_render(ctx: UiRecordContext) -> Seq<char> {
    match (spec_render_v4(ctx.ipv4), spec_render_v6(ctx.ipv6)) {
        (Some(a), Some(b)) => a + " "@ + b,
        (Some(a), None) => a,
        (None, Some(b)) => b,
        (None, None) => "No updates performed"@,
    }
}

fn render_v4_part(o: &Outcome) -> (r: Option<String>)
    ensures
        match spec_render_v4(*o) {
            Some(v) => (r matches Some(s) && s@ == v),
            None => r is None,
        },
{
    match o {
        Outcome::Updated(ip) => {
            let mut s = "IPv4 updated => ".to_owned();
            let t = crate::ip_text::ip_text(ip);
            s.append(t.as_str());
            Some(s)
        },
        Outcome::NoChange(ip) => {
            let mut s = "IPv4 unchanged (".to_owned();
            let t = crate::ip_text::ip_text(ip);
            s.append(t.as_str());
            s.append(")");
            Some(s)
        },
        Outcome::Skipped => Some("IPv4 not found!".to_owned()),
        Outcome::NotApplicable => None,
    }
}

fn render_v6_part(o: &Outcome) -> (r: Option<String>)
    ensures
        match spec_render_v6(*o) {
            Some(v) => (r matches Some(s) && s@ == v),
            None => r is None,
        },
{
    match o {
        Outcome::Updated(ip) => {
            let mut s = "IPv6 updated => ".to_owned();
            let t = crate::ip_text::ip_text(ip);
            s.append(t.as_str());
            Some(s)
        },
        Outcome::NoChange(ip) => {
            let mut s = "IPv6 unchanged (".to_owned();
            let t = crate::ip_text::ip_text(ip);
            s.append(t.as_str());
            s.append(")");
            Some(s)
        },
        Outcome::Skipped => Some("IPv6 not found!".to_owned()),
        Outcome::NotApplicable => None,
    }
}

} // verus!
