//! When an update is due, and which archive it takes.

use vstd::prelude::*;
use vstd::string::*;
use crate::errors::{UpdateError, UpdateErrorDetails, UpdateErrorType};
use crate::text::{str_eq, strip_leading, trim_leading};
use crate::version::{
    is_semver, parse_version, semver_at_least, timestamp_before, timestamp_of, version_at_least,
    ClientVersion, ClientVersionRequest, ClientVersionView, ResourceVersion, VersionError,
};

verus! {

/// Where the summary of the client versions is published.
pub const VERSION_SUMMARY: &'static str =
    "https://ota.maa.plus/MaaAssistantArknights/api/version/summary.json";

/// Where the version of the newest resource bundle is published.
pub const RESOURCE_SUMMARY: &'static str =
    "https://ota.maa.plus/MaaAssistantArknights/MaaAssistantArknights/resource/version.json";

/// The archive of the resource repository, as a zip file.
pub const GITHUB_RESOURCE_ZIP: &'static str =
    "https://github.com/MaaAssistantArknights/MaaResource/archive/refs/heads/main.zip";

/// The archive of the resource repository, as a compressed tar file.
pub const GITHUB_RESOURCE_TAR_GZ: &'static str =
    "https://github.com/MaaAssistantArknights/MaaResource/archive/refs/heads/main.tar.gz";

/// What a request says of the program that makes it.
pub const USER_AGENT: &'static str =
    "Mozilla/5.0 (Windows NT 10.0; Win64; x64) AppleWebKit/537.36 (KHTML, like Gecko) Chrome/133.0.0.0 Safari/537.36 Edg/133.0.0.0";

/// What a download says that it accepts.
pub const HEADER_DOWNLOAD: &'static str = "application/octet-stream";

/// How the name of a full archive of the client begins.
pub const MAA_PKG_PREFIX: &'static str = "MAA-";

/// How the name of an incremental archive of the client begins.
pub const OTA_PREFIX: &'static str = "MAAComponent-OTA";

/// The directory that the archive of the resource repository unpacks to.
pub const RESOURCE_REPO_NAME: &'static str = "MaaResource-main";

/// The name under which the archive of the resource repository is kept
/// while it is downloaded.
pub const RESOURCE_DOWNLOAD_NAME: &'static str = "resources";

/// What an update reports of a package that the details do not list.
pub const NO_MATCH_PKG: &'static str = "no match pkg";

/// Whether a response with the HTTP status `status` is a success: only a
/// status from 200 to 299 is, and a request with any other fails.
pub fn is_success_status(status: u16) -> (r: bool)
    ensures
        r == (200 <= status <= 299),
{
    200 <= status && status <= 299
}

/// The system that the client runs on.
#[derive(Debug, Clone, PartialEq, Eq)]
pub enum Platform {
    /// Windows on a 64-bit processor of the x86 family.
    WindowsX64,
    /// Windows on an ARM processor.
    WindowsArm64,
    MacOs,
    /// Linux, with the name of the processor's architecture.
    Linux(String),
}

/// The form of an archive.
#[derive(Debug, Clone, Copy, PartialEq, Eq, Structural)]
pub enum ArchiveKind {
    Zip,
    TarGz,
}

impl Platform {
    /// How the name of an archive for this system ends.
    pub open spec fn spec_suffix(&self) -> Seq<char> {
        match self {
            Platform::WindowsX64 => "win-x64.zip"@,
            Platform::WindowsArm64 => "win-arm64.zip"@,
            Platform::MacOs => "macos-runtime-universal.zip"@,
            Platform::Linux(arch) => "linux-"@ + arch@ + ".tar.gz"@,
        }
    }

    /// How the name of an archive for this system ends.
    pub fn suffix(&self) -> (r: String)
        ensures
            r@ == self.spec_suffix(),
    {
        match self {
            Platform::WindowsX64 => String::from_str("win-x64.zip"),
            Platform::WindowsArm64 => String::from_str("win-arm64.zip"),
            Platform::MacOs => String::from_str("macos-runtime-universal.zip"),
            Platform::Linux(arch) => {
                let mut r = String::from_str("linux-");
                r.append(arch.as_str());
                r.append(".tar.gz");
                r
            },
        }
    }

    /// The form of the archives for this system: compressed tar files on
    /// Linux, zip files elsewhere.
    pub open spec fn spec_archive_kind(&self) -> ArchiveKind {
        match self {
            Platform::Linux(_) => ArchiveKind::TarGz,
            _ => ArchiveKind::Zip,
        }
    }

    /// The form of the archives for this system.
    pub fn archive_kind(&self) -> (r: ArchiveKind)
        ensures
            r == self.spec_archive_kind(),
    {
        match self {
            Platform::Linux(_) => ArchiveKind::TarGz,
            _ => ArchiveKind::Zip,
        }
    }

    /// Whether incremental archives are published for this system: only
    /// for Windows on x86.
    pub open spec fn spec_supports_ota(&self) -> bool {
        self is WindowsX64
    }

    /// Whether incremental archives are published for this system.
    pub fn supports_ota(&self) -> (r: bool)
        ensures
            r == self.spec_supports_ota(),
    {
        match self {
            Platform::WindowsX64 => true,
            _ => false,
        }
    }

    /// Where the archive of the resource repository is fetched from.
    pub open spec fn spec_resource_url(&self) -> Seq<char> {
        match self {
            Platform::Linux(_) => GITHUB_RESOURCE_TAR_GZ@,
            _ => GITHUB_RESOURCE_ZIP@,
        }
    }

    /// Where the archive of the resource repository is fetched from.
    pub fn resource_url(&self) -> (r: &'static str)
        ensures
            r@ == self.spec_resource_url(),
    {
        match self {
            Platform::Linux(_) => GITHUB_RESOURCE_TAR_GZ,
            _ => GITHUB_RESOURCE_ZIP,
        }
    }
}

/// What the summary says of one release channel.
#[derive(Debug, Clone)]
pub struct Summary {
    /// The newest version of the channel.
    pub version: String,
    /// Where the details of that version are published.
    pub detail_url: String,
}

/// The summary of the client versions, one entry for each channel.
#[derive(Debug, Clone)]
pub struct VersionInfo {
    pub alpha: Summary,
    pub beta: Summary,
    pub stable: Summary,
}

/// A file of a release.
#[derive(Debug, Clone)]
pub struct Asset {
    pub name: String,
    pub size: usize,
    pub download_url: String,
}

/// The release that the details describe.
#[derive(Debug, Clone)]
pub struct DetailsInner {
    pub tag_name: String,
    pub assets: Vec<Asset>,
}

/// The details of one version of the client.
#[derive(Debug, Clone)]
pub struct Details {
    pub version: String,
    pub inner: DetailsInner,
}

/// How an update ended.
#[derive(Debug, Clone)]
pub enum UpdateResult {
    /// Another update is in flight; nothing was done.
    Updating,
    /// What is installed is not older than what is published.
    AlreadyUpdated,
    /// The client was updated to this version.
    ClientSuccess(ClientVersion),
    /// The resource bundle was updated to this version.
    ResourceSuccess(ResourceVersion),
}

impl UpdateResult {
    /// The name of the way in which the update ended.
    pub open spec fn spec_name(&self) -> Seq<char> {
        match self {
            UpdateResult::Updating => "Updating"@,
            UpdateResult::AlreadyUpdated => "AlreadyUpdated"@,
            UpdateResult::ClientSuccess(_) => "ClientSuccess"@,
            UpdateResult::ResourceSuccess(_) => "ResourceSuccess"@,
        }
    }

    /// The name of the way in which the update ended.
    pub fn name(&self) -> (r: &'static str)
        ensures
            r@ == self.spec_name(),
    {
        match self {
            UpdateResult::Updating => "Updating",
            UpdateResult::AlreadyUpdated => "AlreadyUpdated",
            UpdateResult::ClientSuccess(_) => "ClientSuccess",
            UpdateResult::ResourceSuccess(_) => "ResourceSuccess",
        }
    }
}

impl VersionInfo {
    /// What the summary says of the channel `target`: nightly versions are
    /// published as `alpha`.
    pub open spec fn spec_summary(&self, target: ClientVersionRequest) -> Summary {
        match target {
            ClientVersionRequest::Nightly => self.alpha,
            ClientVersionRequest::Beta => self.beta,
            ClientVersionRequest::Stable => self.stable,
        }
    }

    /// What the summary says of the channel `target`.
    pub fn summary(&self, target: ClientVersionRequest) -> (r: &Summary)
        ensures
            *r == self.spec_summary(target),
    {
        match target {
            ClientVersionRequest::Nightly => &self.alpha,
            ClientVersionRequest::Beta => &self.beta,
            ClientVersionRequest::Stable => &self.stable,
        }
    }
}

/// The name of the archive of the version `version` that begins with
/// `prefix` and ends with `suffix`.
pub open spec fn package_name_text(prefix: Seq<char>, version: Seq<char>, suffix: Seq<char>) -> Seq<
    char,
> {
    prefix + version + "-"@ + suffix
}

/// The name of the archive of the version `version` that begins with
/// `prefix` and ends with `suffix`.
pub fn package_name(prefix: &str, version: &str, suffix: &str) -> (r: String)
    ensures
        r@ == package_name_text(prefix@, version@, suffix@),
{
    let mut r = String::from_str(prefix);
    r.append(version);
    r.append("-");
    r.append(suffix);
    r
}

/// How the name of the incremental archive begins that updates the
/// version `current`.
pub open spec fn ota_prefix_text(current: Seq<char>) -> Seq<char> {
    OTA_PREFIX@ + "-"@ + current + "_"@
}

/// How the name of the incremental archive begins that updates the
/// version `current`.
pub fn ota_prefix(current: &str) -> (r: String)
    ensures
        r@ == ota_prefix_text(current@),
{
    let mut r = String::from_str(OTA_PREFIX);
    r.append("-");
    r.append(current);
    r.append("_");
    r
}

/// Whether `i` is the place of the first asset named `name`.
pub open spec fn is_first_asset(assets: Seq<Asset>, name: Seq<char>, i: int) -> bool {
    &&& 0 <= i < assets.len()
    &&& assets[i].name@ == name
    &&& forall|j: int| 0 <= j < i ==> (#[trigger] assets[j]).name@ != name
}

/// Whether no asset is named `name`.
pub open spec fn no_asset(assets: Seq<Asset>, name: Seq<char>) -> bool {
    forall|j: int| 0 <= j < assets.len() ==> (#[trigger] assets[j]).name@ != name
}

/// The place of the first asset whose name is exactly `name`; `None`
/// where no asset has that name.
pub fn find_asset(assets: &Vec<Asset>, name: &str) -> (r: Option<usize>)
    ensures
        match r {
            Some(i) => is_first_asset(assets@, name@, i as int),
            None => no_asset(assets@, name@),
        },
{
    let mut i: usize = 0;
    while i < assets.len()
        invariant
            i <= assets.len(),
            forall|j: int| 0 <= j < i ==> (#[trigger] assets@[j]).name@ != name@,
        decreases assets.len() - i,
    {
        if str_eq(assets[i].name.as_str(), name) {
            return Some(i);
        }
        i += 1;
    }
    None
}

/// What the check of the client version reports where the installed
/// version is no semantic version.
pub const PARSE_CURRENT_VERSION: &'static str = "parse current version";

/// What the check of the client version reports where the published
/// version is no semantic version.
pub const PARSE_TARGET_VERSION: &'static str = "parse target version";

/// What the check of the resource version reports where the installed
/// bundle's time of publication cannot be read.
pub const PARSE_CURRENT_TIMESTAMP: &'static str = "parse current timestamp";

/// What the check of the resource version reports where the published
/// bundle's time of publication cannot be read.
pub const PARSE_LATEST_TIMESTAMP: &'static str = "parse latest timestamp";

/// Whether a client of the version `current` is to be updated to the
/// published version `target`, or why that cannot be told.
///
/// A client of unknown version always is. Otherwise both versions are
/// read as semantic versions, their leading `v` stripped, and the client
/// is to be updated unless its version is at least the published one.
pub open spec fn core_update_due(current: ClientVersionView, target: Seq<char>) -> Result<
    bool,
    Seq<char>,
> {
    match current.semver_source() {
        None => Ok(true),
        Some(installed) => {
            let published = trim_leading(target, 'v');
            if !is_semver(installed) {
                Err(PARSE_CURRENT_VERSION@)
            } else if !is_semver(published) {
                Err(PARSE_TARGET_VERSION@)
            } else {
                Ok(!semver_at_least(installed, published))
            }
        },
    }
}

/// Whether `r` is the outcome `expected` of a check.
pub open spec fn is_check(r: Result<bool, String>, expected: Result<bool, Seq<char>>) -> bool {
    match r {
        Ok(due) => expected == Ok::<bool, Seq<char>>(due),
        Err(e) => expected == Err::<bool, Seq<char>>(e@),
    }
}

/// Whether a client of the version `current` is to be updated to the
/// published version `target`; an error where one of the two versions is
/// no semantic version.
pub fn check_core_update(current: &ClientVersion, target: &str) -> (r: Result<bool, String>)
    ensures
        is_check(r, core_update_due(current@, target@)),
        is_semver(trim_leading(target@, 'v')) && current@.semver_source() == Some(
            trim_leading(target@, 'v'),
        ) ==> r == Ok::<bool, String>(false),
{
    match current.semver() {
        Err(VersionError::UnknownVersion) => Ok(true),
        Err(_) => Err(String::from_str(PARSE_CURRENT_VERSION)),
        Ok(installed) => match parse_version(strip_leading(target, 'v')) {
            Err(_) => Err(String::from_str(PARSE_TARGET_VERSION)),
            Ok(published) => Ok(!version_at_least(&installed, &published)),
        },
    }
}

/// Whether a resource bundle published at `current` is to be updated to
/// the bundle published at `latest`, or why that cannot be told.
///
/// Bundles with the same time of publication are the same bundle, and
/// nothing is read. Otherwise both times are read, and the bundle is to be
/// updated where its time lies before the other.
pub open spec fn resource_update_due(current: Seq<char>, latest: Seq<char>) -> Result<
    bool,
    Seq<char>,
> {
    if current == latest {
        Ok(false)
    } else {
        match timestamp_of(current) {
            None => Err(PARSE_CURRENT_TIMESTAMP@),
            Some(installed) => match timestamp_of(latest) {
                None => Err(PARSE_LATEST_TIMESTAMP@),
                Some(published) => Ok(timestamp_before(installed, published)),
            },
        }
    }
}

/// The bundle to update to, where the resource bundle `current` is to be
/// updated to the published bundle `latest`; an error where a time of
/// publication cannot be read.
pub fn check_resource_update(current: &ResourceVersion, latest: ResourceVersion) -> (r: Result<
    Option<ResourceVersion>,
    String,
>)
    ensures
        match r {
            Ok(Some(v)) => v == latest && resource_update_due(
                current.last_updated@,
                latest.last_updated@,
            ) == Ok::<bool, Seq<char>>(true),
            Ok(None) => resource_update_due(current.last_updated@, latest.last_updated@) == Ok::<
                bool,
                Seq<char>,
            >(false),
            Err(e) => resource_update_due(current.last_updated@, latest.last_updated@) == Err::<
                bool,
                Seq<char>,
            >(e@),
        },
{
    if str_eq(current.last_updated.as_str(), latest.last_updated.as_str()) {
        return Ok(None);
    }
    match current.timestamp() {
        Err(_) => Err(String::from_str(PARSE_CURRENT_TIMESTAMP)),
        Ok(installed) => match latest.timestamp() {
            Err(_) => Err(String::from_str(PARSE_LATEST_TIMESTAMP)),
            Ok(published) => if installed.before(&published) {
                Ok(Some(latest))
            } else {
                Ok(None)
            },
        },
    }
}

/// What an update reports of an event that its stage does not expect.
pub const UNEXPECTED_EVENT: &'static str = "unexpected event";

/// How far an update has come.
#[derive(Debug, Clone, Copy, PartialEq, Eq, Structural)]
pub enum UpdateStage {
    /// Nothing was done yet.
    Start,
    /// The summary was asked for.
    Summary,
    /// The details were asked for.
    Details,
    /// The incremental archive is being installed.
    Ota,
    /// The full archive is being installed.
    Full,
    /// The update has ended.
    Finished,
}

/// What came of the last action of an update.
#[derive(Debug, Clone)]
pub enum UpdateEvent {
    /// The update begins.
    Begin,
    /// The summary of the client versions was fetched.
    SummaryFetched(VersionInfo),
    /// The version of the newest resource bundle was fetched.
    ResourceFetched(ResourceVersion),
    /// The details were fetched.
    DetailsFetched(Details),
    /// The archive was downloaded and unpacked.
    Installed,
    /// The last action failed.
    Failed(UpdateErrorDetails),
}

/// An archive to download and unpack.
#[derive(Debug, Clone)]
pub struct Package {
    /// Where the archive is fetched from.
    pub url: String,
    /// The name under which it is kept while it is downloaded.
    pub file_name: String,
    /// Whether it is an incremental archive.
    pub ota: bool,
}

/// What an update does next.
#[derive(Debug, Clone)]
pub enum UpdateAction {
    /// Fetch the summary.
    FetchSummary,
    /// Fetch the details from this address.
    FetchDetails(String),
    /// Download this archive and unpack it.
    Install(Package),
    /// The update has ended with this result.
    Finish(UpdateResult),
    /// The update has failed.
    Abort(UpdateError),
}

/// One step of an update: a warning for the log, where the incremental
/// update was given up, and what the update does next.
#[derive(Debug, Clone)]
pub struct UpdateStep {
    pub warning: Option<UpdateError>,
    pub action: UpdateAction,
}

/// The failure of a step of a client update.
pub open spec fn package_failure(details: UpdateErrorDetails) -> UpdateError {
    UpdateError::FullUpdateError(UpdateErrorType::PackageUpdateError(details))
}

/// Whether `e` reports that a client update failed with a version error
/// that says `message`.
pub open spec fn is_version_failure(e: UpdateError, message: Seq<char>) -> bool {
    e matches UpdateError::FullUpdateError(
        UpdateErrorType::PackageUpdateError(UpdateErrorDetails::VersionError(m)),
    ) && m@ == message
}

/// Whether `e` reports that an incremental update was given up because
/// of `details`.
pub open spec fn is_ota_warning(e: Option<UpdateError>, details: UpdateErrorDetails) -> bool {
    e == Some(UpdateError::OTAError(UpdateErrorType::PackageUpdateError(details)))
}

/// Whether `e` reports that an incremental update was given up because
/// the details list no incremental archive.
pub open spec fn is_ota_missing(e: Option<UpdateError>) -> bool {
    e matches Some(
        UpdateError::OTAError(
            UpdateErrorType::PackageUpdateError(UpdateErrorDetails::VersionError(m)),
        ),
    ) && m@ == NO_MATCH_PKG@
}

/// Whether `action` ends the update because of an event that was not
/// expected.
pub open spec fn is_unexpected(action: UpdateAction) -> bool {
    action matches UpdateAction::Abort(
        UpdateError::FullUpdateError(
            UpdateErrorType::PackageUpdateError(UpdateErrorDetails::IOError { msg, source }),
        ),
    ) && msg@ == UNEXPECTED_EVENT@ && source@ == Seq::<char>::empty()
}

/// Whether `action` installs the asset of `details` named `name`, as an
/// incremental archive or not.
pub open spec fn installs(action: UpdateAction, details: Details, name: Seq<char>, ota: bool) -> bool {
    action matches UpdateAction::Install(package) && package.ota == ota && package.file_name@
        == name && exists|i: int|
        is_first_asset(details.inner.assets@, name, i) && package.url@
            == details.inner.assets@[i].download_url@
}

/// The name of the full archive of the version of `details`.
pub open spec fn full_name(details: Details, platform: Platform) -> Seq<char> {
    package_name_text(MAA_PKG_PREFIX@, details.version@, platform.spec_suffix())
}

/// The name of the incremental archive that leads from the version
/// `current` to the version of `details`.
pub open spec fn ota_name(current: Seq<char>, details: Details, platform: Platform) -> Seq<char> {
    package_name_text(ota_prefix_text(current), details.version@, platform.spec_suffix())
}

/// The run of one update of the client.
#[derive(Debug, Clone)]
pub struct ClientUpdate {
    /// The version that is installed.
    pub current: ClientVersion,
    /// The channel to update to.
    pub target: ClientVersionRequest,
    /// The system that the client runs on.
    pub platform: Platform,
    pub stage: UpdateStage,
    /// The details of the version that is being installed.
    pub details: Option<Details>,
}

impl ClientUpdate {
    /// Whether the update tries the incremental archive first: where such
    /// archives are published for the system, and the installed version
    /// is known.
    pub open spec fn tries_ota(&self) -> bool {
        self.platform.spec_supports_ota() && self.current@.text() is Some
    }

    /// What the update does with the full archive of `details`: it
    /// installs the archive, or it fails where the details do not list it.
    pub open spec fn goes_full(
        old: ClientUpdate,
        details: Details,
        new: ClientUpdate,
        action: UpdateAction,
    ) -> bool {
        let name = full_name(details, old.platform);
        if no_asset(details.inner.assets@, name) {
            &&& new.stage == UpdateStage::Finished
            &&& action matches UpdateAction::Abort(e)
            &&& is_version_failure(e, NO_MATCH_PKG@)
        } else {
            &&& new.stage == UpdateStage::Full
            &&& new.details == Some(details)
            &&& installs(action, details, name, false)
        }
    }

    /// What the update does once the client is installed: it ends with
    /// the new version, tagged with the channel that was asked for.
    pub open spec fn succeeds(old: ClientUpdate, new: ClientUpdate, action: UpdateAction) -> bool {
        &&& new.stage == UpdateStage::Finished
        &&& old.details matches Some(details)
        &&& action matches UpdateAction::Finish(UpdateResult::ClientSuccess(v))
        &&& v@ == old.target.spec_to_version(details.version@)
    }

    /// The rule of the update: what the update `old` becomes on `event`,
    /// and what it does next.
    ///
    /// 1. At the start it asks for the summary.
    /// 2. From the summary it takes the entry of its channel. It ends
    ///    where no update is due, fails where that cannot be told, and
    ///    else asks for the details.
    /// 3. With the details it installs the incremental archive where it
    ///    tries one and the details list it. Where they do not, it warns
    ///    and goes on with the full archive.
    /// 4. Where the incremental archive cannot be installed, it warns and
    ///    goes on with the full archive.
    /// 5. Once an archive is installed, it ends with the new version.
    /// 6. Any other failure ends it, and so does an event that its stage
    ///    does not expect.
    pub open spec fn steps(
        old: ClientUpdate,
        event: UpdateEvent,
        new: ClientUpdate,
        out: UpdateStep,
    ) -> bool {
        &&& new.current == old.current
        &&& new.target == old.target
        &&& new.platform == old.platform
        &&& match (old.stage, event) {
            (UpdateStage::Start, UpdateEvent::Begin) => {
                &&& new.stage == UpdateStage::Summary
                &&& out.warning is None
                &&& out.action is FetchSummary
            },
            (UpdateStage::Summary, UpdateEvent::SummaryFetched(info)) => {
                let summary = info.spec_summary(old.target);
                &&& out.warning is None
                &&& match core_update_due(old.current@, summary.version@) {
                    Ok(true) => {
                        &&& new.stage == UpdateStage::Details
                        &&& out.action matches UpdateAction::FetchDetails(url)
                        &&& url@ == summary.detail_url@
                    },
                    Ok(false) => {
                        &&& new.stage == UpdateStage::Finished
                        &&& out.action matches UpdateAction::Finish(r)
                        &&& r is AlreadyUpdated
                    },
                    Err(message) => {
                        &&& new.stage == UpdateStage::Finished
                        &&& out.action matches UpdateAction::Abort(e)
                        &&& is_version_failure(e, message)
                    },
                }
            },
            (UpdateStage::Details, UpdateEvent::DetailsFetched(details)) => {
                if old.tries_ota() {
                    let name = ota_name(old.current@.text()->0, details, old.platform);
                    if no_asset(details.inner.assets@, name) {
                        &&& is_ota_missing(out.warning)
                        &&& Self::goes_full(old, details, new, out.action)
                    } else {
                        &&& out.warning is None
                        &&& new.stage == UpdateStage::Ota
                        &&& new.details == Some(details)
                        &&& installs(out.action, details, name, true)
                    }
                } else {
                    &&& out.warning is None
                    &&& Self::goes_full(old, details, new, out.action)
                }
            },
            (UpdateStage::Ota, UpdateEvent::Installed) => {
                if old.details is Some {
                    out.warning is None && Self::succeeds(old, new, out.action)
                } else {
                    &&& new.stage == UpdateStage::Finished
                    &&& out.warning is None
                    &&& is_unexpected(out.action)
                }
            },
            (UpdateStage::Full, UpdateEvent::Installed) => {
                if old.details is Some {
                    out.warning is None && Self::succeeds(old, new, out.action)
                } else {
                    &&& new.stage == UpdateStage::Finished
                    &&& out.warning is None
                    &&& is_unexpected(out.action)
                }
            },
            (UpdateStage::Ota, UpdateEvent::Failed(why)) => {
                match old.details {
                    Some(details) => {
                        &&& is_ota_warning(out.warning, why)
                        &&& Self::goes_full(old, details, new, out.action)
                    },
                    None => {
                        &&& new.stage == UpdateStage::Finished
                        &&& out.warning is None
                        &&& is_unexpected(out.action)
                    },
                }
            },
            (UpdateStage::Summary, UpdateEvent::Failed(why)) => {
                &&& new.stage == UpdateStage::Finished
                &&& out.warning is None
                &&& out.action == UpdateAction::Abort(package_failure(why))
            },
            (UpdateStage::Details, UpdateEvent::Failed(why)) => {
                &&& new.stage == UpdateStage::Finished
                &&& out.warning is None
                &&& out.action == UpdateAction::Abort(package_failure(why))
            },
            (UpdateStage::Full, UpdateEvent::Failed(why)) => {
                &&& new.stage == UpdateStage::Finished
                &&& out.warning is None
                &&& out.action == UpdateAction::Abort(package_failure(why))
            },
            _ => {
                &&& new.stage == UpdateStage::Finished
                &&& out.warning is None
                &&& is_unexpected(out.action)
            },
        }
    }

    /// An update of the client from the version `current` to the newest
    /// version of the channel `target`, at its start.
    pub fn new(current: ClientVersion, target: ClientVersionRequest, platform: Platform) -> (r:
        ClientUpdate)
        ensures
            r.current == current,
            r.target == target,
            r.platform == platform,
            r.stage == UpdateStage::Start,
            r.details is None,
    {
        ClientUpdate { current, target, platform, stage: UpdateStage::Start, details: None }
    }

    /// Ends the update because of an event that was not expected.
    fn unexpected(&mut self) -> (r: UpdateStep)
        ensures
            final(self).current == old(self).current,
            final(self).target == old(self).target,
            final(self).platform == old(self).platform,
            final(self).stage == UpdateStage::Finished,
            r.warning is None,
            is_unexpected(r.action),
    {
        self.stage = UpdateStage::Finished;
        UpdateStep {
            warning: None,
            action: UpdateAction::Abort(
                UpdateError::FullUpdateError(
                    UpdateErrorType::PackageUpdateError(
                        UpdateErrorDetails::IOError {
                            msg: String::from_str(UNEXPECTED_EVENT),
                            source: String::new(),
                        },
                    ),
                ),
            ),
        }
    }

    /// Ends the update because a step failed.
    fn fail(&mut self, why: UpdateErrorDetails) -> (r: UpdateStep)
        ensures
            final(self).current == old(self).current,
            final(self).target == old(self).target,
            final(self).platform == old(self).platform,
            final(self).stage == UpdateStage::Finished,
            r.warning is None,
            r.action == UpdateAction::Abort(package_failure(why)),
    {
        self.stage = UpdateStage::Finished;
        UpdateStep {
            warning: None,
            action: UpdateAction::Abort(
                UpdateError::FullUpdateError(UpdateErrorType::PackageUpdateError(why)),
            ),
        }
    }

    /// Goes on with the full archive of `details`.
    fn go_full(&mut self, details: Details, warning: Option<UpdateError>) -> (r: UpdateStep)
        ensures
            final(self).current == old(self).current,
            final(self).target == old(self).target,
            final(self).platform == old(self).platform,
            r.warning == warning,
            Self::goes_full(*old(self), details, *final(self), r.action),
    {
        let suffix = self.platform.suffix();
        let name = package_name(MAA_PKG_PREFIX, details.version.as_str(), suffix.as_str());
        match find_asset(&details.inner.assets, name.as_str()) {
            Some(i) => {
                let url = details.inner.assets[i].download_url.clone();
                self.stage = UpdateStage::Full;
                self.details = Some(details);
                UpdateStep {
                    warning,
                    action: UpdateAction::Install(Package { url, file_name: name, ota: false }),
                }
            },
            None => {
                self.stage = UpdateStage::Finished;
                UpdateStep {
                    warning,
                    action: UpdateAction::Abort(
                        UpdateError::FullUpdateError(
                            UpdateErrorType::PackageUpdateError(
                                UpdateErrorDetails::VersionError(String::from_str(NO_MATCH_PKG)),
                            ),
                        ),
                    ),
                }
            },
        }
    }

    /// Ends the update with the version that was installed.
    fn succeed(&mut self) -> (r: UpdateStep)
        ensures
            final(self).current == old(self).current,
            final(self).target == old(self).target,
            final(self).platform == old(self).platform,
            r.warning is None,
            if old(self).details is Some {
                Self::succeeds(*old(self), *final(self), r.action)
            } else {
                final(self).stage == UpdateStage::Finished && is_unexpected(r.action)
            },
    {
        match &self.details {
            Some(details) => {
                let version = self.target.to_version(details.version.clone());
                self.stage = UpdateStage::Finished;
                UpdateStep {
                    warning: None,
                    action: UpdateAction::Finish(UpdateResult::ClientSuccess(version)),
                }
            },
            None => self.unexpected(),
        }
    }

    /// Takes the update one step further: `event` is what came of its last
    /// action, and the result says what it does next.
    pub fn step(&mut self, event: UpdateEvent) -> (r: UpdateStep)
        ensures
            Self::steps(*old(self), event, *final(self), r),
    {
        match (self.stage, event) {
            (UpdateStage::Start, UpdateEvent::Begin) => {
                self.stage = UpdateStage::Summary;
                UpdateStep { warning: None, action: UpdateAction::FetchSummary }
            },
            (UpdateStage::Summary, UpdateEvent::SummaryFetched(info)) => {
                let summary = info.summary(self.target);
                match check_core_update(&self.current, summary.version.as_str()) {
                    Ok(true) => {
                        self.stage = UpdateStage::Details;
                        UpdateStep {
                            warning: None,
                            action: UpdateAction::FetchDetails(summary.detail_url.clone()),
                        }
                    },
                    Ok(false) => {
                        self.stage = UpdateStage::Finished;
                        UpdateStep {
                            warning: None,
                            action: UpdateAction::Finish(UpdateResult::AlreadyUpdated),
                        }
                    },
                    Err(message) => self.fail(UpdateErrorDetails::VersionError(message)),
                }
            },
            (UpdateStage::Details, UpdateEvent::DetailsFetched(details)) => {
                let installed = match self.current.version() {
                    Some(text) => Some(String::from_str(text)),
                    None => None,
                };
                match installed {
                    Some(text) => {
                        if self.platform.supports_ota() {
                            let suffix = self.platform.suffix();
                            let prefix = ota_prefix(text.as_str());
                            let name = package_name(
                                prefix.as_str(),
                                details.version.as_str(),
                                suffix.as_str(),
                            );
                            match find_asset(&details.inner.assets, name.as_str()) {
                                Some(i) => {
                                    let url = details.inner.assets[i].download_url.clone();
                                    self.stage = UpdateStage::Ota;
                                    self.details = Some(details);
                                    UpdateStep {
                                        warning: None,
                                        action: UpdateAction::Install(
                                            Package { url, file_name: name, ota: true },
                                        ),
                                    }
                                },
                                None => {
                                    let warning = UpdateError::OTAError(
                                        UpdateErrorType::PackageUpdateError(
                                            UpdateErrorDetails::VersionError(
                                                String::from_str(NO_MATCH_PKG),
                                            ),
                                        ),
                                    );
                                    self.go_full(details, Some(warning))
                                },
                            }
                        } else {
                            self.go_full(details, None)
                        }
                    },
                    None => self.go_full(details, None),
                }
            },
            (UpdateStage::Ota, UpdateEvent::Installed) => self.succeed(),
            (UpdateStage::Full, UpdateEvent::Installed) => self.succeed(),
            (UpdateStage::Ota, UpdateEvent::Failed(why)) => {
                match self.details.take() {
                    Some(details) => {
                        let warning = UpdateError::OTAError(
                            UpdateErrorType::PackageUpdateError(why),
                        );
                        self.go_full(details, Some(warning))
                    },
                    None => self.unexpected(),
                }
            },
            (UpdateStage::Summary, UpdateEvent::Failed(why)) => self.fail(why),
            (UpdateStage::Details, UpdateEvent::Failed(why)) => self.fail(why),
            (UpdateStage::Full, UpdateEvent::Failed(why)) => self.fail(why),
            _ => self.unexpected(),
        }
    }
}

/// The failure of a step of a resource update.
pub open spec fn resource_failure(details: UpdateErrorDetails) -> UpdateError {
    UpdateError::FullUpdateError(UpdateErrorType::ResourceUpdateError(details))
}

/// Whether `action` ends a resource update because of an event that was
/// not expected.
pub open spec fn is_unexpected_resource(action: UpdateAction) -> bool {
    action matches UpdateAction::Abort(
        UpdateError::FullUpdateError(
            UpdateErrorType::ResourceUpdateError(UpdateErrorDetails::IOError { msg, source }),
        ),
    ) && msg@ == UNEXPECTED_EVENT@ && source@ == Seq::<char>::empty()
}

/// The run of one update of the resource bundle.
#[derive(Debug, Clone)]
pub struct ResourceUpdate {
    /// The bundle that is installed.
    pub current: ResourceVersion,
    /// The system that the client runs on.
    pub platform: Platform,
    pub stage: UpdateStage,
    /// The bundle that is being installed.
    pub latest: Option<ResourceVersion>,
}

impl ResourceUpdate {
    /// The rule of the update: what the update `old` becomes on `event`,
    /// and what it does next.
    ///
    /// 1. At the start it asks for the version of the newest bundle.
    /// 2. With that version it ends where no update is due, fails where
    ///    that cannot be told, and else installs the archive of the
    ///    resource repository.
    /// 3. Once the archive is installed, it ends with the new version.
    /// 4. A failure ends it, and so does an event that its stage does not
    ///    expect.
    pub open spec fn steps(
        old: ResourceUpdate,
        event: UpdateEvent,
        new: ResourceUpdate,
        out: UpdateStep,
    ) -> bool {
        &&& new.current == old.current
        &&& new.platform == old.platform
        &&& out.warning is None
        &&& match (old.stage, event) {
            (UpdateStage::Start, UpdateEvent::Begin) => {
                &&& new.stage == UpdateStage::Summary
                &&& out.action is FetchSummary
            },
            (UpdateStage::Summary, UpdateEvent::ResourceFetched(latest)) => {
                match resource_update_due(old.current.last_updated@, latest.last_updated@) {
                    Ok(true) => {
                        &&& new.stage == UpdateStage::Full
                        &&& new.latest == Some(latest)
                        &&& out.action matches UpdateAction::Install(package)
                        &&& package.url@ == old.platform.spec_resource_url()
                        &&& package.file_name@ == RESOURCE_DOWNLOAD_NAME@
                        &&& !package.ota
                    },
                    Ok(false) => {
                        &&& new.stage == UpdateStage::Finished
                        &&& out.action matches UpdateAction::Finish(r)
                        &&& r is AlreadyUpdated
                    },
                    Err(message) => {
                        &&& new.stage == UpdateStage::Finished
                        &&& out.action matches UpdateAction::Abort(
                            UpdateError::FullUpdateError(
                                UpdateErrorType::ResourceUpdateError(
                                    UpdateErrorDetails::VersionError(m),
                                ),
                            ),
                        )
                        &&& m@ == message
                    },
                }
            },
            (UpdateStage::Full, UpdateEvent::Installed) => {
                match old.latest {
                    Some(latest) => {
                        &&& new.stage == UpdateStage::Finished
                        &&& out.action == UpdateAction::Finish(
                            UpdateResult::ResourceSuccess(latest),
                        )
                    },
                    None => {
                        &&& new.stage == UpdateStage::Finished
                        &&& is_unexpected_resource(out.action)
                    },
                }
            },
            (UpdateStage::Summary, UpdateEvent::Failed(why)) => {
                &&& new.stage == UpdateStage::Finished
                &&& out.action == UpdateAction::Abort(resource_failure(why))
            },
            (UpdateStage::Full, UpdateEvent::Failed(why)) => {
                &&& new.stage == UpdateStage::Finished
                &&& out.action == UpdateAction::Abort(resource_failure(why))
            },
            _ => {
                &&& new.stage == UpdateStage::Finished
                &&& is_unexpected_resource(out.action)
            },
        }
    }

    /// An update of the resource bundle `current`, at its start.
    pub fn new(current: ResourceVersion, platform: Platform) -> (r: ResourceUpdate)
        ensures
            r.current == current,
            r.platform == platform,
            r.stage == UpdateStage::Start,
            r.latest is None,
    {
        ResourceUpdate { current, platform, stage: UpdateStage::Start, latest: None }
    }

    /// Ends the update with the failure `why`.
    fn fail(&mut self, why: UpdateErrorDetails) -> (r: UpdateStep)
        ensures
            final(self).current == old(self).current,
            final(self).platform == old(self).platform,
            final(self).stage == UpdateStage::Finished,
            r.warning is None,
            r.action == UpdateAction::Abort(resource_failure(why)),
    {
        self.stage = UpdateStage::Finished;
        UpdateStep {
            warning: None,
            action: UpdateAction::Abort(
                UpdateError::FullUpdateError(UpdateErrorType::ResourceUpdateError(why)),
            ),
        }
    }

    /// Ends the update because of an event that was not expected.
    fn unexpected(&mut self) -> (r: UpdateStep)
        ensures
            final(self).current == old(self).current,
            final(self).platform == old(self).platform,
            final(self).stage == UpdateStage::Finished,
            r.warning is None,
            is_unexpected_resource(r.action),
    {
        self.fail(
            UpdateErrorDetails::IOError {
                msg: String::from_str(UNEXPECTED_EVENT),
                source: String::new(),
            },
        )
    }

    /// Takes the update one step further: `event` is what came of its last
    /// action, and the result says what it does next.
    pub fn step(&mut self, event: UpdateEvent) -> (r: UpdateStep)
        ensures
            Self::steps(*old(self), event, *final(self), r),
    {
        match (self.stage, event) {
            (UpdateStage::Start, UpdateEvent::Begin) => {
                self.stage = UpdateStage::Summary;
                UpdateStep { warning: None, action: UpdateAction::FetchSummary }
            },
            (UpdateStage::Summary, UpdateEvent::ResourceFetched(latest)) => {
                match check_resource_update(&self.current, latest) {
                    Ok(Some(latest)) => {
                        self.stage = UpdateStage::Full;
                        self.latest = Some(latest);
                        UpdateStep {
                            warning: None,
                            action: UpdateAction::Install(
                                Package {
                                    url: String::from_str(self.platform.resource_url()),
                                    file_name: String::from_str(RESOURCE_DOWNLOAD_NAME),
                                    ota: false,
                                },
                            ),
                        }
                    },
                    Ok(None) => {
                        self.stage = UpdateStage::Finished;
                        UpdateStep {
                            warning: None,
                            action: UpdateAction::Finish(UpdateResult::AlreadyUpdated),
                        }
                    },
                    Err(message) => self.fail(UpdateErrorDetails::VersionError(message)),
                }
            },
            (UpdateStage::Full, UpdateEvent::Installed) => {
                match self.latest.take() {
                    Some(latest) => {
                        self.stage = UpdateStage::Finished;
                        UpdateStep {
                            warning: None,
                            action: UpdateAction::Finish(UpdateResult::ResourceSuccess(latest)),
                        }
                    },
                    None => self.unexpected(),
                }
            },
            (UpdateStage::Summary, UpdateEvent::Failed(why)) => self.fail(why),
            (UpdateStage::Full, UpdateEvent::Failed(why)) => self.fail(why),
            _ => self.unexpected(),
        }
    }
}

/// An update whose installed version is at least the published one ends
/// as soon as the summary is there: it reports that nothing is to be
/// done, and asks neither for the details nor for an archive.
pub proof fn lemma_up_to_date_client_ends(
    old: ClientUpdate,
    info: VersionInfo,
    new: ClientUpdate,
    out: UpdateStep,
)
    requires
        old.stage == UpdateStage::Summary,
        ClientUpdate::steps(old, UpdateEvent::SummaryFetched(info), new, out),
        old.current@.semver_source() matches Some(installed) && is_semver(installed)
            && is_semver(trim_leading(info.spec_summary(old.target).version@, 'v'))
            && semver_at_least(
            installed,
            trim_leading(info.spec_summary(old.target).version@, 'v'),
        ),
    ensures
        new.stage == UpdateStage::Finished,
        out.warning is None,
        out.action matches UpdateAction::Finish(r) && r is AlreadyUpdated,
{
}

/// An update of a bundle whose time of publication equals the published
/// one ends as soon as that is known: it reports that nothing is to be
/// done, and asks for no archive.
pub proof fn lemma_same_bundle_ends(
    old: ResourceUpdate,
    latest: ResourceVersion,
    new: ResourceUpdate,
    out: UpdateStep,
)
    requires
        old.stage == UpdateStage::Summary,
        ResourceUpdate::steps(old, UpdateEvent::ResourceFetched(latest), new, out),
        old.current.last_updated@ == latest.last_updated@,
    ensures
        new.stage == UpdateStage::Finished,
        out.action matches UpdateAction::Finish(r) && r is AlreadyUpdated,
{
}

/// An update that has ended stays ended, whatever comes: it asks for
/// nothing more, neither of a client update nor of a resource update.
pub proof fn lemma_finished_asks_nothing(
    client: ClientUpdate,
    resource: ResourceUpdate,
    event: UpdateEvent,
    client_after: ClientUpdate,
    resource_after: ResourceUpdate,
    client_out: UpdateStep,
    resource_out: UpdateStep,
)
    requires
        client.stage == UpdateStage::Finished,
        resource.stage == UpdateStage::Finished,
        ClientUpdate::steps(client, event, client_after, client_out),
        ResourceUpdate::steps(resource, event, resource_after, resource_out),
    ensures
        client_after.stage == UpdateStage::Finished,
        resource_after.stage == UpdateStage::Finished,
        client_out.action is Abort,
        resource_out.action is Abort,
{
}

/// The proof that an update holds the updater: it is handed out when an
/// update starts, and handed back when the update has ended.
#[derive(Debug)]
pub struct UpdaterGuard {
    held: (),
}

/// The updater: at most one update runs at a time, of the client or of
/// the resource bundle.
#[derive(Debug)]
pub struct Updater {
    updating: bool,
}

/// What taking the updater does to its flag: the first value says whether
/// the updater was taken, the second is the flag afterwards.
pub open spec fn taken(updating: bool) -> (bool, bool) {
    (!updating, true)
}

/// Of two updates that are asked for one after the other while the first
/// still runs, exactly the first is started, whatever the flag was before
/// either came; being refused changes nothing.
pub proof fn lemma_one_update_at_a_time(updating: bool)
    ensures
        taken(updating).0 == !updating,
        !taken(taken(updating).1).0,
        taken(taken(updating).1).1 == taken(updating).1,
{
}

impl Updater {
    /// Whether an update is running.
    pub closed spec fn spec_is_updating(&self) -> bool {
        self.updating
    }

    /// An updater that no update holds.
    pub fn new() -> (r: Updater)
        ensures
            !r.spec_is_updating(),
    {
        Updater { updating: false }
    }

    /// Whether an update is running.
    #[verifier::when_used_as_spec(spec_is_updating)]
    pub fn is_updating(&self) -> (r: bool)
        ensures
            r == self.spec_is_updating(),
    {
        self.updating
    }

    /// Takes the updater for one update. Where an update is running the
    /// updater is left as it is, and the error is the flag that was found.
    pub fn lock(&mut self) -> (r: Result<UpdaterGuard, bool>)
        ensures
            r.is_ok() == taken(old(self).spec_is_updating()).0,
            final(self).spec_is_updating() == taken(old(self).spec_is_updating()).1,
            r matches Err(found) ==> found && *final(self) == *old(self),
    {
        if self.updating {
            Err(true)
        } else {
            self.updating = true;
            Ok(UpdaterGuard { held: () })
        }
    }

    /// Hands the updater back when an update has ended, however it ended.
    pub fn release(&mut self, guard: UpdaterGuard)
        ensures
            !final(self).spec_is_updating(),
    {
        self.updating = false;
    }

    /// Starts an update of the client, unless an update is running: then
    /// the result is `Updating`, and nothing has changed.
    pub fn update(
        &mut self,
        current_version: ClientVersion,
        target_type: ClientVersionRequest,
        platform: Platform,
    ) -> (r: Result<(UpdaterGuard, ClientUpdate), UpdateResult>)
        ensures
            r.is_ok() == !old(self).spec_is_updating(),
            final(self).spec_is_updating(),
            match r {
                Ok((_, run)) => {
                    &&& run.current == current_version
                    &&& run.target == target_type
                    &&& run.platform == platform
                    &&& run.stage == UpdateStage::Start
                    &&& run.details is None
                },
                Err(busy) => busy is Updating && *final(self) == *old(self),
            },
    {
        match self.lock() {
            Ok(guard) => Ok((guard, ClientUpdate::new(current_version, target_type, platform))),
            Err(_) => Err(UpdateResult::Updating),
        }
    }

    /// Starts an update of the resource bundle, unless an update is
    /// running: then the result is `Updating`, and nothing has changed.
    pub fn update_resource(&mut self, current_version: ResourceVersion, platform: Platform) -> (r:
        Result<(UpdaterGuard, ResourceUpdate), UpdateResult>)
        ensures
            r.is_ok() == !old(self).spec_is_updating(),
            final(self).spec_is_updating(),
            match r {
                Ok((_, run)) => {
                    &&& run.current == current_version
                    &&& run.platform == platform
                    &&& run.stage == UpdateStage::Start
                    &&& run.latest is None
                },
                Err(busy) => busy is Updating && *final(self) == *old(self),
            },
    {
        match self.lock() {
            Ok(guard) => Ok((guard, ResourceUpdate::new(current_version, platform))),
            Err(_) => Err(UpdateResult::Updating),
        }
    }
}

/// What is to be done after an update has ended.
#[derive(Debug, Clone)]
pub enum FollowUp {
    /// Write the new client version to disk.
    PersistClientVersion(ClientVersion),
    /// Read the resource version again from what is on disk now.
    ReloadResourceVersion,
    /// Load the engine library anew.
    ReloadCore,
    /// Keep the new resource version.
    RecordResourceVersion(ResourceVersion),
}

/// What is to be done after an update has ended with `result`, in this
/// order. After an update of the client the new version is written to
/// disk, the resource version is read again, and the engine library is
/// loaded anew. After an update of the resource bundle the new version is
/// kept. Otherwise nothing is to be done.
pub fn follow_ups(result: &UpdateResult) -> (r: Vec<FollowUp>)
    ensures
        match result {
            UpdateResult::ClientSuccess(v) => {
                &&& r.len() == 3
                &&& r[0] matches FollowUp::PersistClientVersion(w)
                &&& w@ == v@
                &&& r[1] is ReloadResourceVersion
                &&& r[2] is ReloadCore
            },
            UpdateResult::ResourceSuccess(v) => {
                &&& r.len() == 1
                &&& r[0] matches FollowUp::RecordResourceVersion(w)
                &&& w.last_updated@ == v.last_updated@
                &&& w.activity.name@ == v.activity.name@
                &&& w.activity.time == v.activity.time
                &&& w.gacha.pool@ == v.gacha.pool@
                &&& w.gacha.time == v.gacha.time
            },
            _ => r.len() == 0,
        },
{
    let mut r: Vec<FollowUp> = Vec::new();
    match result {
        UpdateResult::ClientSuccess(v) => {
            r.push(FollowUp::PersistClientVersion(v.duplicate()));
            r.push(FollowUp::ReloadResourceVersion);
            r.push(FollowUp::ReloadCore);
        },
        UpdateResult::ResourceSuccess(v) => {
            r.push(FollowUp::RecordResourceVersion(v.duplicate()));
        },
        _ => {},
    }
    r
}

} // verus!
