//! Semantic versions and version requirements parsed by the `semver` crate, each kept together
//! with the text it was parsed from so that what `VersionReq::matches` answers can be tied to
//! those texts. Values of these types are built only by the parsing functions below.

use vstd::prelude::*;

verus! {

#[verifier::external_type_specification]
#[verifier::external_body]
pub struct ExSemverVersion(semver::Version);

#[verifier::external_type_specification]
#[verifier::external_body]
pub struct ExSemverVersionReq(semver::VersionReq);

/// Whether `semver::Version::parse` accepts `text`.
pub uninterp spec fn semver_version_valid(text: Seq<char>) -> bool;

/// Whether `semver::VersionReq::parse` accepts `text`.
pub uninterp spec fn semver_req_valid(text: Seq<char>) -> bool;

/// What `VersionReq::matches` answers for the requirement parsed from `req` and the version
/// parsed from `version`.
pub uninterp spec fn semver_matches(req: Seq<char>, version: Seq<char>) -> bool;

/// Whether the version parsed from `a` orders strictly before the one parsed from `b` in the
/// `semver` crate's ordering of versions.
pub uninterp spec fn semver_less(a: Seq<char>, b: Seq<char>) -> bool;

/// A version parsed from a known text.
pub struct ParsedVersion {
    version: semver::Version,
    source: Ghost<Seq<char>>,
}

/// A version requirement parsed from a known text.
pub struct ParsedReq {
    req: semver::VersionReq,
    source: Ghost<Seq<char>>,
}

impl ParsedVersion {
    /// The text this version was parsed from.
    pub closed spec fn source(self) -> Seq<char> {
        self.source@
    }

    /// `semver::Version::parse`: `Some` exactly when the semver crate accepts `text`.
    #[verifier::external_body]
    pub(crate) fn parse(text: &str) -> (r: Option<ParsedVersion>)
        ensures
            r is Some <==> semver_version_valid(text@),
            r matches Some(v) ==> v.source() == text@,
    {
        match semver::Version::parse(text) {
            Ok(version) => Some(ParsedVersion { version, source: Ghost(text@) }),
            Err(_) => None,
        }
    }

    /// `<` on `semver::Version`: whether this version orders strictly before `other`. The
    /// answer depends only on the two parsed texts; the ordering rules are not spelled out.
    #[verifier::external_body]
    pub(crate) fn less_than(&self, other: &ParsedVersion) -> (r: bool)
        ensures
            r == semver_less(self.source(), other.source()),
    {
        self.version < other.version
    }
}

impl ParsedReq {
    /// The text this requirement was parsed from.
    pub closed spec fn source(self) -> Seq<char> {
        self.source@
    }

    /// `semver::VersionReq::parse`: `Some` exactly when the semver crate accepts `text`.
    #[verifier::external_body]
    pub(crate) fn parse(text: &str) -> (r: Option<ParsedReq>)
        ensures
            r is Some <==> semver_req_valid(text@),
            r matches Some(q) ==> q.source() == text@,
    {
        match semver::VersionReq::parse(text) {
            Ok(req) => Some(ParsedReq { req, source: Ghost(text@) }),
            Err(_) => None,
        }
    }

    /// `semver::VersionReq::matches`: whether `version` satisfies this requirement. The answer
    /// depends only on the two parsed texts; the matching rules themselves are not spelled out.
    #[verifier::external_body]
    pub(crate) fn matches(&self, version: &ParsedVersion) -> (r: bool)
        ensures
            r == semver_matches(self.source(), version.source()),
    {
        self.req.matches(&version.version)
    }
}

impl ParsedReq {
    /// Whether the version written `version` satisfies this requirement; `None` when `version`
    /// is not a version the semver crate accepts.
    pub fn matches_text(&self, version: &str) -> (r: Option<bool>)
        ensures
            r is Some <==> semver_version_valid(version@),
            r matches Some(b) ==> b == semver_matches(self.source(), version@),
    {
        match ParsedVersion::parse(version) {
            Some(v) => Some(self.matches(&v)),
            None => None,
        }
    }
}

} // verus!
