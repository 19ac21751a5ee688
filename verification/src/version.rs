//! Client and resource versions, and how two of them compare.

use vstd::prelude::*;
use vstd::string::*;
use crate::text::{json_string, json_string_text, strip_leading, trim_leading};

verus! {

#[verifier::external_type_specification]
#[verifier::external_body]
pub struct ExSemverVersion(semver::Version);

#[verifier::external_type_specification]
#[verifier::external_body]
pub struct ExSemverError(semver::Error);

#[verifier::external_type_specification]
#[verifier::external_body]
pub struct ExChronoParseError(chrono::ParseError);

/// The file that holds the client version, in the working directory.
pub const CLIENT_VERSION_JSON: &'static str = "client_version.json";

/// The file that holds the resource version, in the resource directory.
pub const RESOURCE_VERSION_JSON: &'static str = "version.json";

/// The format of `last_updated`: `YYYY-MM-DD HH:MM:SS.mmm`.
pub const RESOURCE_TIMESTAMP_FORMAT: &'static str = "%Y-%m-%d %H:%M:%S%.3f";

/// Whether `semver::Version::parse` accepts `text`.
pub uninterp spec fn is_semver(text: Seq<char>) -> bool;

/// What a `semver::Version` holds, as the text that `Display` writes of
/// it: the three numbers separated by dots, then a hyphen and the
/// pre-release, then a plus sign and the build metadata. Of a version that
/// was parsed it is the text that was parsed.
pub uninterp spec fn semver_text(v: semver::Version) -> Seq<char>;

/// Whether the version written `a` is at least the version written `b` in
/// the total order of `semver::Version`.
pub uninterp spec fn semver_at_least(a: Seq<char>, b: Seq<char>) -> bool;

/// `semver::Version::parse`: it succeeds exactly on the texts that
/// `is_semver` names, and the version it returns holds the text given. It
/// accepts a text in one form only, without leading zeros or spaces, so
/// that the version is written as it was read.
#[verifier::external_body]
pub(crate) fn parse_version(text: &str) -> (r: Result<semver::Version, semver::Error>)
    ensures
        r.is_ok() == is_semver(text@),
        r matches Ok(v) ==> semver_text(v) == text@,
{
    semver::Version::parse(text)
}

/// `>=` of `semver::Version`: the named order of what the two versions
/// hold. Versions that hold the same text are equal, so each is at least
/// the other.
#[verifier::external_body]
pub(crate) fn version_at_least(a: &semver::Version, b: &semver::Version) -> (r: bool)
    ensures
        r == semver_at_least(semver_text(*a), semver_text(*b)),
        semver_text(*a) == semver_text(*b) ==> r,
{
    a >= b
}

/// What `chrono::NaiveDateTime::parse_from_str` reads from `text` in the
/// format `RESOURCE_TIMESTAMP_FORMAT`: the day counted from the first of
/// January of the year 1, the second of that day, and the nanosecond of
/// that second; `None` where it refuses the text.
pub uninterp spec fn timestamp_of(text: Seq<char>) -> Option<(i32, u32, u32)>;

/// `chrono::NaiveDateTime::parse_from_str` with the resource format, the
/// date and time it returns taken apart into three integers.
#[verifier::external_body]
fn parse_timestamp(text: &str) -> (r: Result<Timestamp, chrono::ParseError>)
    ensures
        match r {
            Ok(t) => timestamp_of(text@) == Some((t.days, t.secs, t.nanos)),
            Err(_) => timestamp_of(text@) is None,
        },
{
    let t = chrono::NaiveDateTime::parse_from_str(text, RESOURCE_TIMESTAMP_FORMAT)?;
    Ok(
        Timestamp {
            days: chrono::Datelike::num_days_from_ce(&t),
            secs: chrono::Timelike::num_seconds_from_midnight(&t),
            nanos: chrono::Timelike::nanosecond(&t),
        },
    )
}

/// Why a version could not be read.
#[derive(Debug, Clone, Copy, PartialEq, Eq)]
pub enum VersionError {
    /// The client version is `Unknown`: there is no text to read.
    UnknownVersion,
    /// The text is no semantic version.
    InvalidSemver,
    /// The text is no timestamp in the resource format.
    InvalidTimestamp,
}

/// The release channel that an update is asked for.
#[derive(Debug, Clone, Copy, PartialEq, Eq)]
pub enum ClientVersionRequest {
    Nightly,
    Beta,
    Stable,
}

/// The version of the installed client, tagged by its release channel.
#[derive(Debug, Clone, PartialEq, Eq)]
pub enum ClientVersion {
    Nightly(String),
    Beta(String),
    Stable(String),
    /// No version file exists: a fresh installation.
    Unknown,
}

/// What a `ClientVersion` holds, as mathematics.
pub enum ClientVersionView {
    Nightly(Seq<char>),
    Beta(Seq<char>),
    Stable(Seq<char>),
    Unknown,
}

impl View for ClientVersion {
    type V = ClientVersionView;

    open spec fn view(&self) -> ClientVersionView {
        match self {
            ClientVersion::Nightly(s) => ClientVersionView::Nightly(s@),
            ClientVersion::Beta(s) => ClientVersionView::Beta(s@),
            ClientVersion::Stable(s) => ClientVersionView::Stable(s@),
            ClientVersion::Unknown => ClientVersionView::Unknown,
        }
    }
}

impl ClientVersionView {
    /// The version as it is written to its file: an object with one
    /// member, named like the channel, that holds the version string; a
    /// version that is not known is the string `Unknown`.
    pub open spec fn json(self) -> Seq<char> {
        match self {
            ClientVersionView::Nightly(s) => "{\"Nightly\":"@ + json_string_text(s) + "}"@,
            ClientVersionView::Beta(s) => "{\"Beta\":"@ + json_string_text(s) + "}"@,
            ClientVersionView::Stable(s) => "{\"Stable\":"@ + json_string_text(s) + "}"@,
            ClientVersionView::Unknown => "\"Unknown\""@,
        }
    }

    /// The version string, if there is one.
    pub open spec fn text(self) -> Option<Seq<char>> {
        match self {
            ClientVersionView::Nightly(s) => Some(s),
            ClientVersionView::Beta(s) => Some(s),
            ClientVersionView::Stable(s) => Some(s),
            ClientVersionView::Unknown => None,
        }
    }

    /// The semantic version inside the version string: the string without
    /// its leading `v`.
    pub open spec fn semver_source(self) -> Option<Seq<char>> {
        match self.text() {
            Some(s) => Some(trim_leading(s, 'v')),
            None => None,
        }
    }
}

impl ClientVersionRequest {
    /// The version `version` on this channel.
    pub open spec fn spec_to_version(self, version: Seq<char>) -> ClientVersionView {
        match self {
            ClientVersionRequest::Nightly => ClientVersionView::Nightly(version),
            ClientVersionRequest::Beta => ClientVersionView::Beta(version),
            ClientVersionRequest::Stable => ClientVersionView::Stable(version),
        }
    }

    /// Tags `version` with this channel.
    pub fn to_version(self, version: String) -> (r: ClientVersion)
        ensures
            r@ == self.spec_to_version(version@),
    {
        match self {
            ClientVersionRequest::Nightly => ClientVersion::Nightly(version),
            ClientVersionRequest::Beta => ClientVersion::Beta(version),
            ClientVersionRequest::Stable => ClientVersion::Stable(version),
        }
    }
}

impl ClientVersion {
    /// The version as it is written to its file, as JSON text.
    pub fn to_json(&self) -> (r: String)
        ensures
            r@ == self@.json(),
    {
        match self {
            ClientVersion::Nightly(s) => String::from_str("{\"Nightly\":").concat(
                json_string(s.as_str()).as_str(),
            ).concat("}"),
            ClientVersion::Beta(s) => String::from_str("{\"Beta\":").concat(
                json_string(s.as_str()).as_str(),
            ).concat("}"),
            ClientVersion::Stable(s) => String::from_str("{\"Stable\":").concat(
                json_string(s.as_str()).as_str(),
            ).concat("}"),
            ClientVersion::Unknown => String::from_str("\"Unknown\""),
        }
    }

    /// The version string; `None` for `Unknown`.
    pub fn version(&self) -> (r: Option<&str>)
        ensures
            match r {
                Some(s) => self@.text() == Some(s@),
                None => self@.text() is None,
            },
    {
        match self {
            ClientVersion::Nightly(s) => Some(s.as_str()),
            ClientVersion::Beta(s) => Some(s.as_str()),
            ClientVersion::Stable(s) => Some(s.as_str()),
            ClientVersion::Unknown => None,
        }
    }

    /// The version string read as a semantic version, its leading `v`
    /// stripped.
    pub fn semver(&self) -> (r: Result<semver::Version, VersionError>)
        ensures
            match r {
                Ok(v) => self@.semver_source() matches Some(t) && is_semver(t) && semver_text(v)
                    == t,
                Err(e) => match self@.semver_source() {
                    Some(t) => !is_semver(t) && e == VersionError::InvalidSemver,
                    None => e == VersionError::UnknownVersion,
                },
            },
    {
        match self.version() {
            Some(s) => match parse_version(strip_leading(s, 'v')) {
                Ok(v) => Ok(v),
                Err(_) => Err(VersionError::InvalidSemver),
            },
            None => Err(VersionError::UnknownVersion),
        }
    }
}

/// A point in time without a zone, as three integers that order it.
#[derive(Debug, Clone, Copy, PartialEq, Eq)]
pub struct Timestamp {
    /// Days since the first of January of the year 1, which is day 1.
    pub days: i32,
    /// Seconds since midnight.
    pub secs: u32,
    /// Nanoseconds since the last full second.
    pub nanos: u32,
}

/// Whether the point `a` lies strictly before the point `b`.
pub open spec fn timestamp_before(a: (i32, u32, u32), b: (i32, u32, u32)) -> bool {
    a.0 < b.0 || (a.0 == b.0 && (a.1 < b.1 || (a.1 == b.1 && a.2 < b.2)))
}

impl Timestamp {
    /// The three integers as a tuple.
    pub open spec fn key(self) -> (i32, u32, u32) {
        (self.days, self.secs, self.nanos)
    }

    /// Whether this point in time lies strictly before `other`.
    pub fn before(&self, other: &Timestamp) -> (r: bool)
        ensures
            r == timestamp_before(self.key(), other.key()),
    {
        self.days < other.days || (self.days == other.days && (self.secs < other.secs || (
        self.secs == other.secs && self.nanos < other.nanos)))
    }
}

/// The current activity of the game, as the resource bundle records it.
#[derive(Debug, Clone, Default)]
pub struct Activity {
    pub name: String,
    pub time: u64,
}

/// The current gacha pool of the game, as the resource bundle records it.
#[derive(Debug, Clone, Default)]
pub struct Gacha {
    pub pool: String,
    pub time: u64,
}

/// The version of the resource bundle. Two of them are the same version
/// when their `last_updated` strings are equal.
#[derive(Debug, Clone)]
pub struct ResourceVersion {
    pub activity: Activity,
    pub gacha: Gacha,
    pub last_updated: String,
}

impl Default for ResourceVersion {
    fn default() -> (r: ResourceVersion)
        ensures
            r.is_default(),
    {
        ResourceVersion {
            activity: Activity { name: String::new(), time: 0 },
            gacha: Gacha { pool: String::new(), time: 0 },
            last_updated: String::new(),
        }
    }
}

impl ResourceVersion {
    /// Whether this is the record of an installation without a resource
    /// bundle: every text is empty and every time is 0.
    pub open spec fn is_default(&self) -> bool {
        &&& self.last_updated@ == Seq::<char>::empty()
        &&& self.activity.name@ == Seq::<char>::empty()
        &&& self.activity.time == 0
        &&& self.gacha.pool@ == Seq::<char>::empty()
        &&& self.gacha.time == 0
    }

    /// The record that was read from the version file, or the default
    /// record where the file does not exist.
    pub fn load(stored: Option<ResourceVersion>) -> (r: ResourceVersion)
        ensures
            match stored {
                Some(v) => r == v,
                None => r.is_default(),
            },
    {
        match stored {
            Some(v) => v,
            None => ResourceVersion::default(),
        }
    }

    /// Replaces this record by what `load` makes of `stored`.
    pub fn reload(&mut self, stored: Option<ResourceVersion>)
        ensures
            match stored {
                Some(v) => *final(self) == v,
                None => final(self).is_default(),
            },
    {
        *self = ResourceVersion::load(stored);
    }

    /// Whether the record names a version at all.
    pub open spec fn spec_is_installed(&self) -> bool {
        self.last_updated@.len() > 0
    }

    /// Whether a resource bundle is installed: whether `last_updated` is
    /// not empty.
    #[verifier::when_used_as_spec(spec_is_installed)]
    pub fn is_installed(&self) -> (r: bool)
        ensures
            r == self.spec_is_installed(),
    {
        !self.last_updated.as_str().is_empty()
    }

    /// A copy of this record.
    pub fn duplicate(&self) -> (r: ResourceVersion)
        ensures
            r.last_updated@ == self.last_updated@,
            r.activity.name@ == self.activity.name@,
            r.activity.time == self.activity.time,
            r.gacha.pool@ == self.gacha.pool@,
            r.gacha.time == self.gacha.time,
    {
        ResourceVersion {
            activity: Activity { name: self.activity.name.clone(), time: self.activity.time },
            gacha: Gacha { pool: self.gacha.pool.clone(), time: self.gacha.time },
            last_updated: self.last_updated.clone(),
        }
    }

    /// `last_updated` read as a point in time.
    pub fn timestamp(&self) -> (r: Result<Timestamp, VersionError>)
        ensures
            match r {
                Ok(t) => timestamp_of(self.last_updated@) == Some(t.key()),
                Err(e) => timestamp_of(self.last_updated@) is None && e
                    == VersionError::InvalidTimestamp,
            },
    {
        match parse_timestamp(self.last_updated.as_str()) {
            Ok(t) => Ok(t),
            Err(_) => Err(VersionError::InvalidTimestamp),
        }
    }
}

impl ClientVersion {
    /// A copy of this version.
    pub fn duplicate(&self) -> (r: ClientVersion)
        ensures
            r@ == self@,
    {
        match self {
            ClientVersion::Nightly(s) => ClientVersion::Nightly(s.clone()),
            ClientVersion::Beta(s) => ClientVersion::Beta(s.clone()),
            ClientVersion::Stable(s) => ClientVersion::Stable(s.clone()),
            ClientVersion::Unknown => ClientVersion::Unknown,
        }
    }

    /// The version that was read from the version file, or `Unknown` where
    /// the file does not exist.
    pub fn load(stored: Option<ClientVersion>) -> (r: ClientVersion)
        ensures
            match stored {
                Some(v) => r == v,
                None => r@ == ClientVersionView::Unknown,
            },
    {
        match stored {
            Some(v) => v,
            None => ClientVersion::Unknown,
        }
    }
}

/// The versions of what is installed: the client and the resource bundle.
#[derive(Debug)]
pub struct Versions {
    pub client: ClientVersion,
    pub resource: ResourceVersion,
}

impl Versions {
    /// Both records as `ClientVersion::load` and `ResourceVersion::load`
    /// make them of what the two version files held.
    pub fn load(client: Option<ClientVersion>, resource: Option<ResourceVersion>) -> (r: Versions)
        ensures
            match client {
                Some(v) => r.client == v,
                None => r.client@ == ClientVersionView::Unknown,
            },
            match resource {
                Some(v) => r.resource == v,
                None => r.resource.is_default(),
            },
    {
        Versions { client: ClientVersion::load(client), resource: ResourceVersion::load(resource) }
    }
}

} // verus!
