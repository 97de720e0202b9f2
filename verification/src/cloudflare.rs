//! The provider-facing halves of reconciliation that are pure
//! decisions: classifying API failures, reading a zone-list response,
//! picking the A and AAAA records out of a record-list response, and
//! planning the minimal write for one record.
use vstd::prelude::*;

use crate::ip::{IpAddress, V4Addr, V6Addr};

verus! {

/// The typed content of a provider-owned DNS record, as far as the
/// engine reads it: an address of either family, or something else
/// entirely (an alias, text, ...).
#[derive(Clone, Copy, Debug, PartialEq, Eq)]
pub enum DnsContent {
    A(V4Addr),
    Aaaa(V6Addr),
    Other,
}

/// A provider-owned record returned by a query; read-only input.
#[derive(Clone, Debug, PartialEq, Eq)]
pub struct DnsRecord {
    pub id: String,
    pub name: String,
    pub content: DnsContent,
}

/// How a provider API call failed: an error status, or no usable
/// response at all.
#[derive(Clone, Debug, PartialEq, Eq)]
pub enum ApiFailure {
    Status(u16),
    Transport(String),
}

/// Failure while resolving a zone name to its id.
#[derive(Clone, Debug, PartialEq, Eq)]
pub enum ZoneError {
    /// The zone does not exist (or is invisible to the token).
    NotFound(String),
    /// The token may not access the zone.
    AccessDenied(String),
    /// The API answered with another error status.
    Api(String, u16),
    /// The request produced no usable response.
    Invalid(String, String),
}

/// Failure while reconciling one record.
#[derive(Clone, Debug, PartialEq, Eq)]
pub enum UpdateError {
    /// The existing record is not an A or AAAA record: a conflicting,
    /// manually managed entry the engine must not touch.
    NotAnIpRecord,
    /// The provider rejected the write.
    Cloudflare { domain: String, source: ApiFailure },
}

/// Classifies a failed zone-list call: 404 means the zone is unknown,
/// 403 that access was denied; any other status or a transport fault
/// is passed through with the zone name.
pub fn from_api(zone_name: String, value: ApiFailure) -> (r: ZoneError)
    ensures
        match value {
            ApiFailure::Status(code) => {
                if code == 404 {
                    (r matches ZoneError::NotFound(z) && z@ == zone_name@)
                } else if code == 403 {
                    (r matches ZoneError::AccessDenied(z) && z@ == zone_name@)
                } else {
                    (r matches ZoneError::Api(z, c) && z@ == zone_name@ && c == code)
                }
            },
            ApiFailure::Transport(msg) => (r matches ZoneError::Invalid(z, m) && z@ == zone_name@
                && m@ == msg@),
        },
{
    match value {
        ApiFailure::Status(code) => {
            if code == 404 {
                ZoneError::NotFound(zone_name)
            } else if code == 403 {
                ZoneError::AccessDenied(zone_name)
            } else {
                ZoneError::Api(zone_name, code)
            }
        },
        ApiFailure::Transport(msg) => ZoneError::Invalid(zone_name, msg),
    }
}

/// Reads a zone-list response: an empty result means the zone was not
/// found; otherwise the first listed zone's id is the answer.
pub fn zone_id_from_results(zone_name: &str, mut ids: Vec<String>) -> (r: Result<
    String,
    ZoneError,
>)
    ensures
        ids@.len() == 0 ==> (r matches Err(ZoneError::NotFound(z)) && z@ == zone_name@),
        ids@.len() > 0 ==> (r matches Ok(id) && id@ == ids@[0]@),
{
    if ids.len() == 0 {
        Err(ZoneError::NotFound(zone_name.to_owned()))
    } else {
        Ok(ids.swap_remove(0))
    }
}

/// The last record with A content, as the combined query reads it.
pub open spec fn spec_last_a(s: Seq<DnsRecord>) -> Option<DnsRecord>
    decreases s.len(),
{
    if s.len() == 0 {
        None
    } else if s.last().content is A {
        Some(s.last())
    } else {
        spec_last_a(s.drop_last())
    }
}

/// The last record with AAAA content.
pub open spec fn spec_last_aaaa(s: Seq<DnsRecord>) -> Option<DnsRecord>
    decreases s.len(),
{
    if s.len() == 0 {
        None
    } else if s.last().content is Aaaa {
        Some(s.last())
    } else {
        spec_last_aaaa(s.drop_last())
    }
}

/// Splits a combined record-list response into the existing A record
/// and the existing AAAA record for the domain, each the last of its
/// kind in response order; records of other types are ignored.
pub fn select_ip_records(mut records: Vec<DnsRecord>) -> (r: (Option<DnsRecord>, Option<
    DnsRecord,
>))
    ensures
        r.0 == spec_last_a(records@),
        r.1 == spec_last_aaaa(records@),
{
    let ghost all = records@;
    let mut v4: Option<DnsRecord> = None;
    let mut v6: Option<DnsRecord> = None;
    while records.len() > 0
        invariant
            (match v4 {
                Some(rec) => spec_last_a(all) == Some(rec),
                None => spec_last_a(all) == spec_last_a(records@),
            }),
            (match v6 {
                Some(rec) => spec_last_aaaa(all) == Some(rec),
                None => spec_last_aaaa(all) == spec_last_aaaa(records@),
            }),
        decreases records@.len(),
    {
        if let Some(rec) = records.pop() {
            match rec.content {
                DnsContent::A(_) => {
                    if v4.is_none() {
                        v4 = Some(rec);
                    }
                },
                DnsContent::Aaaa(_) => {
                    if v6.is_none() {
                        v6 = Some(rec);
                    }
                },
                DnsContent::Other => {},
            }
        }
    }
    (v4, v6)
}

/// The address an existing record carries, if it is an address record
/// at all.
pub open spec fn spec_existing_ip(rec: DnsRecord) -> Option<IpAddress> {
    match rec.content {
        DnsContent::A(a) => Some(IpAddress::V4(a)),
        DnsContent::Aaaa(a) => Some(IpAddress::V6(a)),
        DnsContent::Other => None,
    }
}

/// The write one (record, family) pair needs.
#[derive(Clone, Copy, Debug, PartialEq, Eq, Structural)]
pub enum RecordWrite {
    /// No record exists yet: create one.
    Create,
    /// A record exists with a different address: update it in place.
    Update,
    /// The existing record already matches: touch nothing.
    Noop,
}

/// The minimal corrective write for a desired address against the
/// existing record, or `None` when the existing record is not an
/// address record (a hard per-record error).
pub open spec fn spec_plan(existing: Option<DnsRecord>, ip: IpAddress) -> Option<RecordWrite> {
    match existing {
        None => Some(RecordWrite::Create),
        Some(rec) => match spec_existing_ip(rec) {
            None => None,
            Some(cur) => if cur == ip {
                Some(RecordWrite::Noop)
            } else {
                Some(RecordWrite::Update)
            },
        },
    }
}

/// Plans the write for one desired address: create when no record
/// exists, update when the address differs, nothing when it already
/// matches; an existing non-address record is the hard error
/// `NotAnIpRecord`.
pub fn plan_record_write(existing: &Option<DnsRecord>, ip: IpAddress) -> (r: Result<
    RecordWrite,
    UpdateError,
>)
    ensures
        match spec_plan(*existing, ip) {
            Some(p) => (r matches Ok(q) && q == p),
            None => r matches Err(UpdateError::NotAnIpRecord),
        },
{
    match existing {
        None => Ok(RecordWrite::Create),
        Some(rec) => {
            let cur = match rec.content {
                DnsContent::A(a) => IpAddress::V4(a),
                DnsContent::Aaaa(a) => IpAddress::V6(a),
                DnsContent::Other => {
                    return Err(UpdateError::NotAnIpRecord);
                },
            };
            if cur == ip {
                Ok(RecordWrite::Noop)
            } else {
                Ok(RecordWrite::Update)
            }
        },
    }
}

/// One record's dry-run decision: `Ok(Some(()))` where a live run
/// would write (create or update), `Ok(None)` where the record is
/// already up to date, and the same hard error as a live run where the
/// existing record is not an address record. No call leaves here.
pub fn try_update_record_dry_run(_domain: &str, existing: &Option<DnsRecord>, ip: IpAddress) -> (r:
    Result<Option<()>, UpdateError>)
    ensures
        match spec_plan(*existing, ip) {
            Some(RecordWrite::Noop) => (r matches Ok(o) && o is None),
            Some(RecordWrite::Create) => (r matches Ok(o) && o == Some(())),
            Some(RecordWrite::Update) => (r matches Ok(o) && o == Some(())),
            None => r matches Err(UpdateError::NotAnIpRecord),
        },
{
    match plan_record_write(existing, ip) {
        Ok(RecordWrite::Noop) => Ok(None),
        Ok(RecordWrite::Create) => Ok(Some(())),
        Ok(RecordWrite::Update) => Ok(Some(())),
        Err(e) => Err(e),
    }
}

/// The registrable root of a domain name under the public-suffix
/// list, as the domain parser determines it; a function of the name
/// alone.
pub uninterp spec fn domain_root_of(s: Seq<char>) -> Option<Seq<char>>;

/// Relies on `addr::parse_domain_name` (and `Name::root`): the
/// registrable root of a domain name, used to prefill the zone for a
/// freshly entered record; `None` where the name does not parse or
/// consists of a bare suffix.
#[verifier::external_body]
pub fn guess_zone_from_domain(domain: &str) -> (r: Option<String>)
    ensures
        match r {
            Some(root) => domain_root_of(domain@) == Some(root@),
            None => domain_root_of(domain@) is None,
        },
{
    match addr::parse_domain_name(domain) {
        Ok(name) => name.root().map(|root| root.to_owned()),
        Err(_) => None,
    }
}

} // verus!
