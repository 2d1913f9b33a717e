//! The contract's recorded version, and semantic versions (`semver`).

use crate::error::{ContractError, ErrorView, StdErrorView};
use crate::contract_info::{legacy_info_kind, missing_info, not_found_info, parse_err_info};
use crate::store::{ContractStore, StoredContractInfo};
use semver::{Comparator, Op, Prerelease, Version, VersionReq};
use vstd::prelude::*;

verus! {

#[verifier::external_type_specification]
#[verifier::external_body]
pub struct ExVersion(Version);

/// The name the contract records as its definition.
pub const CRATE_NAME: &'static str = "ats-smart-contract";

/// The version the contract records after a migration.
pub const PACKAGE_VERSION: &'static str = "0.18.2";

/// The definition and version of the contract, as stored.
#[derive(Debug, PartialEq, Eq)]
pub struct VersionInfoV1 {
    pub definition: String,
    pub version: String,
}

impl Clone for VersionInfoV1 {
    fn clone(&self) -> (r: Self)
        ensures
            r == *self,
    {
        VersionInfoV1 { definition: self.definition.clone(), version: self.version.clone() }
    }
}

/// A copy of an optional version record.
pub fn clone_version_info(v: &Option<VersionInfoV1>) -> (r: Option<VersionInfoV1>)
    ensures
        r == *v,
{
    match v {
        Some(v) => Some(v.clone()),
        None => None,
    }
}

/// A parsed semantic version: its parts as plain values, beside the
/// `semver` value they were read from. Its fields are private and only
/// `semver_parse` builds one, so the two always describe one version.
#[derive(Debug)]
pub struct SemVer {
    major: u64,
    minor: u64,
    patch: u64,
    pre: String,
    build: String,
    inner: Version,
}

impl SemVer {
    pub closed spec fn spec_major(self) -> u64 {
        self.major
    }

    pub closed spec fn spec_minor(self) -> u64 {
        self.minor
    }

    pub closed spec fn spec_patch(self) -> u64 {
        self.patch
    }

    /// The pre-release part, empty for a release.
    pub closed spec fn spec_pre(self) -> Seq<char> {
        self.pre@
    }

    pub closed spec fn spec_build(self) -> Seq<char> {
        self.build@
    }

    /// The parts of the version as plain values.
    pub open spec fn parts(self) -> (int, int, int, Seq<char>, Seq<char>) {
        (self.spec_major() as int, self.spec_minor() as int, self.spec_patch() as int, self.spec_pre(), self.spec_build())
    }

    /// The major, minor and patch numbers.
    pub open spec fn triple(self) -> (u64, u64, u64) {
        (self.spec_major(), self.spec_minor(), self.spec_patch())
    }
}

/// What `Version::parse` gives back for a text: the parts of the version,
/// or the message of the error.
pub uninterp spec fn semver_version_parse(s: Seq<char>) -> Result<(int, int, int, Seq<char>, Seq<char>), Seq<char>>;

/// The decimal digits of a whole number, without leading zeros.
pub open spec fn decimal_digits(n: nat) -> Seq<char>
    decreases n,
{
    if n < 10 {
        seq![(n + 48) as char]
    } else {
        decimal_digits(n / 10).push(((n % 10) + 48) as char)
    }
}

/// What `Version`'s `Display` writes for a version given by its parts:
/// `major.minor.patch`, then `-` and the pre-release and `+` and the build
/// metadata where they are not empty.
pub open spec fn semver_display(major: int, minor: int, patch: int, pre: Seq<char>, build: Seq<char>) -> Seq<char> {
    let release = decimal_digits(major as nat) + seq!['.'] + decimal_digits(minor as nat) + seq!['.']
        + decimal_digits(patch as nat);
    let with_pre = if pre.len() > 0 { release + seq!['-'] + pre } else { release };
    if build.len() > 0 { with_pre + seq!['+'] + build } else { with_pre }
}

/// Parses a version with `Version::parse` (`semver`).
///
/// Trusted: the result is the named `semver_version_parse` of the text; on
/// an error, its message.
#[verifier::external_body]
pub(crate) fn semver_parse(s: &String) -> (r: Result<SemVer, String>)
    ensures
        match r {
            Ok(v) => semver_version_parse(s@) == Ok::<(int, int, int, Seq<char>, Seq<char>), Seq<char>>(v.parts()),
            Err(msg) => semver_version_parse(s@) == Err::<(int, int, int, Seq<char>, Seq<char>), Seq<char>>(msg@),
        },
{
    match Version::parse(s) {
        Ok(v) => Ok(SemVer {
            major: v.major,
            minor: v.minor,
            patch: v.patch,
            pre: v.pre.as_str().to_string(),
            build: v.build.as_str().to_string(),
            inner: v,
        }),
        Err(e) => Err(e.to_string()),
    }
}

/// Writes a version with `Version`'s `Display` (`semver`).
///
/// Trusted: as `Display for Version` shows (written without a width, so
/// with no padding), the text is `semver_display` of the version's parts.
#[verifier::external_body]
pub(crate) fn semver_to_string(v: &SemVer) -> (r: String)
    ensures
        r@ == semver_display(v.parts().0, v.parts().1, v.parts().2, v.parts().3, v.parts().4),
{
    v.inner.to_string()
}

/// The comparison of a version bound.
#[derive(Clone, Copy, Debug, PartialEq, Eq)]
pub enum BoundOp {
    /// At least the bound.
    GreaterEq,
    /// Below the bound.
    Less,
}

/// A bound on versions: a comparison with a full major.minor.patch release.
#[derive(Clone, Copy, Debug, PartialEq, Eq)]
pub struct VersionBound {
    pub op: BoundOp,
    pub major: u64,
    pub minor: u64,
    pub patch: u64,
}

/// `a` comes before `b` in the order of major, minor and patch numbers.
pub open spec fn triple_lt(a: (u64, u64, u64), b: (u64, u64, u64)) -> bool {
    a.0 < b.0 || (a.0 == b.0 && (a.1 < b.1 || (a.1 == b.1 && a.2 < b.2)))
}

/// The version meets the bound.
pub open spec fn bound_holds(b: VersionBound, v: SemVer) -> bool {
    match b.op {
        BoundOp::GreaterEq => !triple_lt(v.triple(), (b.major, b.minor, b.patch)),
        BoundOp::Less => triple_lt(v.triple(), (b.major, b.minor, b.patch)),
    }
}

/// The version meets a requirement made of bounds: it is a release (a
/// pre-release never meets bounds on releases) and meets every bound.
pub open spec fn req_holds(bounds: Seq<VersionBound>, v: SemVer) -> bool {
    v.spec_pre().len() == 0 && forall|i: int| 0 <= i < bounds.len() ==> bound_holds(#[trigger] bounds[i], v)
}

/// Matches a version against a requirement with `VersionReq::matches`
/// (`semver`), the requirement made of comparators `>=` and `<` on full
/// releases.
///
/// Trusted: as `matches_req` and `matches_impl` show, a release meets such
/// a requirement when it meets every comparator by its major, minor and
/// patch numbers, and a pre-release meets none (no comparator has a
/// pre-release).
#[verifier::external_body]
pub(crate) fn version_req_matches(bounds: &Vec<VersionBound>, v: &SemVer) -> (r: bool)
    ensures
        r == req_holds(bounds@, *v),
{
    let comparators = bounds.iter().map(|b| Comparator {
        op: match b.op {
            BoundOp::GreaterEq => Op::GreaterEq,
            BoundOp::Less => Op::Less,
        },
        major: b.major,
        minor: Some(b.minor),
        patch: Some(b.patch),
        pre: Prerelease::EMPTY,
    }).collect();
    VersionReq { comparators }.matches(&v.inner)
}

/// A requirement of one bound.
pub fn req1(op: BoundOp, major: u64, minor: u64, patch: u64) -> (r: Vec<VersionBound>)
    ensures
        r@ == seq![VersionBound { op, major, minor, patch }],
{
    let mut r: Vec<VersionBound> = Vec::new();
    r.push(VersionBound { op, major, minor, patch });
    assert(r@ =~= seq![VersionBound { op, major, minor, patch }]);
    r
}

/// A requirement of at least `lo` and below `hi`.
pub fn req_range(lo: (u64, u64, u64), hi: (u64, u64, u64)) -> (r: Vec<VersionBound>)
    ensures
        r@ == seq![
            VersionBound { op: BoundOp::GreaterEq, major: lo.0, minor: lo.1, patch: lo.2 },
            VersionBound { op: BoundOp::Less, major: hi.0, minor: hi.1, patch: hi.2 },
        ],
{
    let mut r: Vec<VersionBound> = Vec::new();
    r.push(VersionBound { op: BoundOp::GreaterEq, major: lo.0, minor: lo.1, patch: lo.2 });
    r.push(VersionBound { op: BoundOp::Less, major: hi.0, minor: hi.1, patch: hi.2 });
    r
}

/// Version parts `(major, minor, patch, pre, build)` come before the
/// release `lo` in the order of major, minor and patch numbers.
pub open spec fn parts_lt(p: (int, int, int, Seq<char>, Seq<char>), lo: (u64, u64, u64)) -> bool {
    p.0 < lo.0 || (p.0 == lo.0 && (p.1 < lo.1 || (p.1 == lo.1 && p.2 < lo.2)))
}

/// The version parts are a release of at least `lo`.
pub open spec fn parts_at_least(p: (int, int, int, Seq<char>, Seq<char>), lo: (u64, u64, u64)) -> bool {
    p.3.len() == 0 && !parts_lt(p, lo)
}

/// The version parts are a release below `hi`.
pub open spec fn parts_below(p: (int, int, int, Seq<char>, Seq<char>), hi: (u64, u64, u64)) -> bool {
    p.3.len() == 0 && parts_lt(p, hi)
}

/// The version parts are a release of at least `lo` and below `hi`.
pub open spec fn parts_in_range(p: (int, int, int, Seq<char>, Seq<char>), lo: (u64, u64, u64), hi: (u64, u64, u64)) -> bool {
    p.3.len() == 0 && !parts_lt(p, lo) && parts_lt(p, hi)
}

/// The version meets at least `lo`, as a release.
pub open spec fn at_least(v: SemVer, lo: (u64, u64, u64)) -> bool {
    parts_at_least(v.parts(), lo)
}

/// The version is a release below `hi`.
pub open spec fn below(v: SemVer, hi: (u64, u64, u64)) -> bool {
    parts_below(v.parts(), hi)
}

/// The version is a release of at least `lo` and below `hi`.
pub open spec fn in_range(v: SemVer, lo: (u64, u64, u64), hi: (u64, u64, u64)) -> bool {
    parts_in_range(v.parts(), lo, hi)
}

/// `v` meets `>= lo`.
pub fn matches_at_least(v: &SemVer, lo: (u64, u64, u64)) -> (r: bool)
    ensures
        r == at_least(*v, lo),
{
    let req = req1(BoundOp::GreaterEq, lo.0, lo.1, lo.2);
    let r = version_req_matches(&req, v);
    proof {
        if r {
            assert(bound_holds(req@[0], *v));
        }
    }
    r
}

/// `v` meets `< hi`.
pub fn matches_below(v: &SemVer, hi: (u64, u64, u64)) -> (r: bool)
    ensures
        r == below(*v, hi),
{
    let req = req1(BoundOp::Less, hi.0, hi.1, hi.2);
    let r = version_req_matches(&req, v);
    proof {
        if r {
            assert(bound_holds(req@[0], *v));
        }
    }
    r
}

/// `v` meets `>= lo, < hi`.
pub fn matches_range(v: &SemVer, lo: (u64, u64, u64), hi: (u64, u64, u64)) -> (r: bool)
    ensures
        r == in_range(*v, lo, hi),
{
    let req = req_range(lo, hi);
    let r = version_req_matches(&req, v);
    proof {
        if r {
            assert(bound_holds(req@[0], *v));
            assert(bound_holds(req@[1], *v));
        }
    }
    r
}

/// `Ok` when the version is a release of at least `lo`; else
/// `UnsupportedUpgrade` from the version to the requirement `req_text`.
pub fn require_version(req_text: &str, lo: (u64, u64, u64), v: &SemVer) -> (r: Result<(), ContractError>)
    ensures
        at_least(*v, lo) ==> r is Ok,
        !at_least(*v, lo) ==> (r matches Err(ContractError::UnsupportedUpgrade { source_version, target_version })
            && source_version@ == semver_display(v.parts().0, v.parts().1, v.parts().2, v.parts().3, v.parts().4)
            && target_version@ == req_text@),
{
    if matches_at_least(v, lo) {
        Ok(())
    } else {
        Err(ContractError::UnsupportedUpgrade { source_version: semver_to_string(v), target_version: req_text.to_owned() })
    }
}

/// The recorded definition and version: as stored, or, for a contract from
/// before 0.15.0 (which kept them in its settings), from its settings read
/// in the shape of that time (with the error of that read).
pub open spec fn version_of(store: ContractStore) -> Result<(Seq<char>, Seq<char>), StdErrorView> {
    match store.version_info {
        Some(v) => Ok((v.definition@, v.version@)),
        None => match store.contract_info {
            Some(StoredContractInfo::Legacy(c)) => Ok((c.definition@, c.version@)),
            None => Err(StdErrorView::NotFound { kind: missing_info(legacy_info_kind()) }),
            Some(_) => Err(StdErrorView::ParseErr { target_type: legacy_info_kind() }),
        },
    }
}

/// The recorded version, parsed, when it is a release of at least `lo`;
/// else the error of reading it, of parsing it, or `UnsupportedUpgrade`
/// from it to the requirement `req_text`.
pub open spec fn version_requirement(
    store: ContractStore,
    lo: (u64, u64, u64),
    req_text: Seq<char>,
) -> Result<(int, int, int, Seq<char>, Seq<char>), ErrorView> {
    match version_of(store) {
        Err(e) => Err(ErrorView::Std(e)),
        Ok(vi) => match semver_version_parse(vi.1) {
            Err(m) => Err(ErrorView::SemverError { msg: m }),
            Ok(p) => if parts_at_least(p, lo) {
                Ok(p)
            } else {
                Err(ErrorView::UnsupportedUpgrade { source_version: semver_display(p.0, p.1, p.2, p.3, p.4), target_version: req_text })
            },
        },
    }
}

/// Reads and parses the recorded version and requires it to be a release
/// of at least `lo`.
pub fn require_recorded_version(store: &ContractStore, req_text: &str, lo: (u64, u64, u64)) -> (r: Result<SemVer, ContractError>)
    ensures
        match version_requirement(*store, lo, req_text@) {
            Ok(p) => r matches Ok(v) && v.parts() == p,
            Err(e) => r matches Err(err) && err@ == e,
        },
{
    let version_info = get_version_info(store)?;
    let current_version = match semver_parse(&version_info.version) {
        Ok(v) => v,
        Err(msg) => {
            return Err(ContractError::SemverError { msg });
        },
    };
    require_version(req_text, lo, &current_version)?;
    Ok(current_version)
}

/// Reads the recorded definition and version.
pub fn get_version_info(store: &ContractStore) -> (r: Result<VersionInfoV1, ContractError>)
    ensures
        match version_of(*store) {
            Ok(v) => r matches Ok(vi) && vi.definition@ == v.0 && vi.version@ == v.1,
            Err(e) => r matches Err(err) && err@ == ErrorView::Std(e),
        },
{
    match &store.version_info {
        Some(v) => Ok(VersionInfoV1 { definition: v.definition.clone(), version: v.version.clone() }),
        None => match &store.contract_info {
            Some(StoredContractInfo::Legacy(c)) => Ok(VersionInfoV1 { definition: c.definition.clone(), version: c.version.clone() }),
            None => Err(ContractError::Std(not_found_info("ats_smart_contract::contract_info::ContractInfo"))),
            Some(_) => Err(ContractError::Std(parse_err_info("ats_smart_contract::contract_info::ContractInfo"))),
        },
    }
}

/// Records a definition and version.
pub fn set_version_info(store: &mut ContractStore, version_info: &VersionInfoV1) -> (r: Result<(), ContractError>)
    ensures
        r is Ok,
        final(store).version_info == Some(*version_info),
        final(store).contract_info == old(store).contract_info,
        final(store).asks == old(store).asks,
        final(store).bids == old(store).bids,
{
    store.version_info = Some(VersionInfoV1 { definition: version_info.definition.clone(), version: version_info.version.clone() });
    Ok(())
}

/// Records this contract's name and version.
pub fn migrate_version_info(store: &mut ContractStore) -> (r: Result<VersionInfoV1, ContractError>)
    ensures
        r matches Ok(v) && final(store).version_info == Some(v) && v.definition@ == CRATE_NAME@
            && v.version@ == PACKAGE_VERSION@,
        final(store).contract_info == old(store).contract_info,
        final(store).asks == old(store).asks,
        final(store).bids == old(store).bids,
{
    let v = VersionInfoV1 { definition: CRATE_NAME.to_owned(), version: PACKAGE_VERSION.to_owned() };
    store.version_info = Some(VersionInfoV1 { definition: v.definition.clone(), version: v.version.clone() });
    Ok(v)
}

} // verus!
