use maa_se::errors::{UpdateError, UpdateErrorDetails, UpdateErrorType};
use maa_se::updater::{
    check_core_update, check_resource_update, find_asset, follow_ups, is_success_status,
    ota_prefix, package_name,
    ArchiveKind, Asset, ClientUpdate, Details, DetailsInner, FollowUp, Package, Platform,
    ResourceUpdate, Summary, UpdateAction, UpdateEvent, UpdateResult, UpdateStage, Updater,
    VersionInfo,
};
use maa_se::version::{ClientVersion, ClientVersionRequest, ResourceVersion};

const OLD: &str = "v5.14.0-beta.3.d026.ga1d49556d";
const NEW: &str = "v5.14.0-beta.3.d030.g82b63a0c3";
const OTA: &str =
    "MAAComponent-OTA-v5.14.0-beta.3.d026.ga1d49556d_v5.14.0-beta.3.d030.g82b63a0c3-win-x64.zip";
const FULL: &str = "MAA-v5.14.0-beta.3.d030.g82b63a0c3-win-x64.zip";

fn summary(version: &str) -> Summary {
    Summary { version: version.to_string(), detail_url: format!("https://details/{version}") }
}

fn info(alpha: &str, beta: &str, stable: &str) -> VersionInfo {
    VersionInfo { alpha: summary(alpha), beta: summary(beta), stable: summary(stable) }
}

fn asset(name: &str) -> Asset {
    Asset { name: name.to_string(), size: 1, download_url: format!("https://assets/{name}") }
}

fn details(version: &str, names: &[&str]) -> Details {
    Details {
        version: version.to_string(),
        inner: DetailsInner {
            tag_name: version.to_string(),
            assets: names.iter().map(|name| asset(name)).collect(),
        },
    }
}

fn install(action: &UpdateAction) -> &Package {
    match action {
        UpdateAction::Install(package) => package,
        other => panic!("expected an installation, found {:?}", other),
    }
}

fn version_failure(action: &UpdateAction) -> &str {
    match action {
        UpdateAction::Abort(UpdateError::FullUpdateError(
            UpdateErrorType::PackageUpdateError(UpdateErrorDetails::VersionError(message)),
        )) => message,
        other => panic!("expected a version error, found {:?}", other),
    }
}

fn at_details(current: ClientVersion, platform: Platform) -> ClientUpdate {
    let mut run = ClientUpdate::new(current, ClientVersionRequest::Nightly, platform);
    assert!(matches!(run.step(UpdateEvent::Begin).action, UpdateAction::FetchSummary));
    let step = run.step(UpdateEvent::SummaryFetched(info(NEW, "v5.14.0-beta.3", "v5.13.1")));
    assert!(step.warning.is_none());
    match step.action {
        UpdateAction::FetchDetails(url) => assert_eq!(url, format!("https://details/{NEW}")),
        other => panic!("expected the details to be fetched, found {:?}", other),
    }
    assert_eq!(run.stage, UpdateStage::Details);
    run
}

#[test]
fn ota_success() {
    let mut run = at_details(ClientVersion::Nightly(OLD.to_string()), Platform::WindowsX64);
    let step = run.step(UpdateEvent::DetailsFetched(details(NEW, &["other.zip", FULL, OTA])));
    assert!(step.warning.is_none());
    let package = install(&step.action);
    assert_eq!(package.file_name, OTA);
    assert_eq!(package.url, format!("https://assets/{OTA}"));
    assert!(package.ota);
    assert_eq!(run.stage, UpdateStage::Ota);
    let step = run.step(UpdateEvent::Installed);
    assert!(step.warning.is_none());
    let result = match step.action {
        UpdateAction::Finish(result) => result,
        other => panic!("expected the end, found {:?}", other),
    };
    match &result {
        UpdateResult::ClientSuccess(v) => assert_eq!(*v, ClientVersion::Nightly(NEW.to_string())),
        other => panic!("expected a new client, found {:?}", other),
    }
    assert_eq!(run.stage, UpdateStage::Finished);
    let after = follow_ups(&result);
    assert_eq!(after.len(), 3);
    match &after[0] {
        FollowUp::PersistClientVersion(v) => assert_eq!(*v, ClientVersion::Nightly(NEW.to_string())),
        other => panic!("expected the version to be written, found {:?}", other),
    }
    assert!(matches!(after[1], FollowUp::ReloadResourceVersion));
    assert!(matches!(after[2], FollowUp::ReloadCore));
}

#[test]
fn ota_fallback_to_full_when_the_asset_is_missing() {
    let mut run = at_details(ClientVersion::Nightly(OLD.to_string()), Platform::WindowsX64);
    let step = run.step(UpdateEvent::DetailsFetched(details(NEW, &["other.zip", FULL])));
    match &step.warning {
        Some(UpdateError::OTAError(UpdateErrorType::PackageUpdateError(
            UpdateErrorDetails::VersionError(message),
        ))) => assert_eq!(message, "no match pkg"),
        other => panic!("expected a warning, found {:?}", other),
    }
    let package = install(&step.action);
    assert_eq!(package.file_name, "MAA-v5.14.0-beta.3.d030.g82b63a0c3-win-x64.zip");
    assert_eq!(package.url, format!("https://assets/{FULL}"));
    assert!(!package.ota);
    assert_eq!(run.stage, UpdateStage::Full);
    let step = run.step(UpdateEvent::Installed);
    match step.action {
        UpdateAction::Finish(UpdateResult::ClientSuccess(v)) => {
            assert_eq!(v, ClientVersion::Nightly(NEW.to_string()))
        }
        other => panic!("expected a new client, found {:?}", other),
    }
}

#[test]
fn ota_fallback_to_full_when_the_installation_fails() {
    let mut run = at_details(ClientVersion::Nightly(OLD.to_string()), Platform::WindowsX64);
    run.step(UpdateEvent::DetailsFetched(details(NEW, &[OTA, FULL])));
    let step =
        run.step(UpdateEvent::Failed(UpdateErrorDetails::DecompressError("bad zip".to_string())));
    match &step.warning {
        Some(UpdateError::OTAError(UpdateErrorType::PackageUpdateError(
            UpdateErrorDetails::DecompressError(message),
        ))) => assert_eq!(message, "bad zip"),
        other => panic!("expected a warning, found {:?}", other),
    }
    let package = install(&step.action);
    assert_eq!(package.file_name, FULL);
    assert!(!package.ota);
    assert_eq!(run.stage, UpdateStage::Full);
    // The full archive is the last resort.
    let step =
        run.step(UpdateEvent::Failed(UpdateErrorDetails::DownloadError("status 404".to_string())));
    assert!(step.warning.is_none());
    match step.action {
        UpdateAction::Abort(UpdateError::FullUpdateError(
            UpdateErrorType::PackageUpdateError(UpdateErrorDetails::DownloadError(message)),
        )) => assert_eq!(message, "status 404"),
        other => panic!("expected a failure, found {:?}", other),
    }
    assert_eq!(run.stage, UpdateStage::Finished);
}

#[test]
fn no_ota_without_a_known_version_or_on_other_systems() {
    let mut run = at_details(ClientVersion::Unknown, Platform::WindowsX64);
    let step = run.step(UpdateEvent::DetailsFetched(details(NEW, &[OTA, FULL])));
    assert!(step.warning.is_none());
    assert_eq!(install(&step.action).file_name, FULL);

    let linux = "MAA-v5.14.0-beta.3.d030.g82b63a0c3-linux-x86_64.tar.gz";
    let mut run = at_details(
        ClientVersion::Nightly(OLD.to_string()),
        Platform::Linux("x86_64".to_string()),
    );
    let step = run.step(UpdateEvent::DetailsFetched(details(NEW, &[OTA, FULL, linux])));
    assert!(step.warning.is_none());
    let package = install(&step.action);
    assert_eq!(package.file_name, linux);
    assert!(!package.ota);
}

#[test]
fn a_missing_full_package_fails_the_update() {
    let mut run = at_details(ClientVersion::Unknown, Platform::MacOs);
    let step = run.step(UpdateEvent::DetailsFetched(details(NEW, &[OTA, FULL])));
    assert_eq!(version_failure(&step.action), "no match pkg");
    assert_eq!(run.stage, UpdateStage::Finished);
}

#[test]
fn up_to_date() {
    let mut updater = Updater::new();
    let (guard, mut run) = updater
        .update(
            ClientVersion::Stable("v5.13.1".to_string()),
            ClientVersionRequest::Stable,
            Platform::WindowsX64,
        )
        .unwrap();
    assert!(updater.is_updating());
    run.step(UpdateEvent::Begin);
    let step = run.step(UpdateEvent::SummaryFetched(info(NEW, "v5.14.0-beta.3", "v5.13.1")));
    assert!(step.warning.is_none());
    assert!(matches!(step.action, UpdateAction::Finish(UpdateResult::AlreadyUpdated)));
    assert_eq!(run.stage, UpdateStage::Finished);
    assert!(follow_ups(&UpdateResult::AlreadyUpdated).is_empty());
    updater.release(guard);
    assert!(!updater.is_updating());
}

#[test]
fn a_newer_client_is_up_to_date_too() {
    let mut run = ClientUpdate::new(
        ClientVersion::Nightly(NEW.to_string()),
        ClientVersionRequest::Beta,
        Platform::WindowsX64,
    );
    run.step(UpdateEvent::Begin);
    let step = run.step(UpdateEvent::SummaryFetched(info(NEW, "v5.14.0-beta.3", "v5.13.1")));
    assert!(matches!(step.action, UpdateAction::Finish(UpdateResult::AlreadyUpdated)));
    // Whatever comes after the end, nothing is fetched.
    let step = run.step(UpdateEvent::DetailsFetched(details(NEW, &[FULL])));
    assert!(matches!(step.action, UpdateAction::Abort(_)));
    assert_eq!(run.stage, UpdateStage::Finished);
}

#[test]
fn versions_that_cannot_be_read_fail_the_update() {
    let mut run = ClientUpdate::new(
        ClientVersion::Stable("five".to_string()),
        ClientVersionRequest::Stable,
        Platform::MacOs,
    );
    run.step(UpdateEvent::Begin);
    let step = run.step(UpdateEvent::SummaryFetched(info(NEW, NEW, "v5.13.1")));
    assert_eq!(version_failure(&step.action), "parse current version");

    let mut run = ClientUpdate::new(
        ClientVersion::Stable("v5.13.1".to_string()),
        ClientVersionRequest::Stable,
        Platform::MacOs,
    );
    run.step(UpdateEvent::Begin);
    let step = run.step(UpdateEvent::SummaryFetched(info(NEW, NEW, "latest")));
    assert_eq!(version_failure(&step.action), "parse target version");
    assert_eq!(run.stage, UpdateStage::Finished);
}

#[test]
fn the_check_compares_semantic_versions() {
    let stable = ClientVersion::Stable("v5.13.1".to_string());
    assert_eq!(check_core_update(&stable, "v5.13.1"), Ok(false));
    assert_eq!(check_core_update(&stable, "5.13.1"), Ok(false));
    assert_eq!(check_core_update(&stable, "v5.13.0"), Ok(false));
    assert_eq!(check_core_update(&stable, "v5.13.2"), Ok(true));
    assert_eq!(check_core_update(&stable, "v5.14.0-beta.3"), Ok(true));
    assert_eq!(check_core_update(&stable, "v5.13.1-rc.1"), Ok(false));
    assert_eq!(check_core_update(&stable, "v10.0.0"), Ok(true));
    assert_eq!(check_core_update(&ClientVersion::Nightly(OLD.to_string()), NEW), Ok(true));
    assert_eq!(check_core_update(&ClientVersion::Nightly(NEW.to_string()), OLD), Ok(false));
    assert_eq!(check_core_update(&ClientVersion::Unknown, "anything"), Ok(true));
    assert_eq!(check_core_update(&stable, "anything"), Err("parse target version".to_string()));
    assert_eq!(
        check_core_update(&ClientVersion::Beta("x".to_string()), "v1.0.0"),
        Err("parse current version".to_string())
    );
}

#[test]
fn the_summary_is_read_by_channel() {
    let info = info("a", "b", "c");
    assert_eq!(info.summary(ClientVersionRequest::Nightly).version, "a");
    assert_eq!(info.summary(ClientVersionRequest::Beta).version, "b");
    assert_eq!(info.summary(ClientVersionRequest::Stable).version, "c");
}

#[test]
fn a_failed_request_fails_the_update() {
    let mut run = ClientUpdate::new(ClientVersion::Unknown, ClientVersionRequest::Beta, Platform::MacOs);
    run.step(UpdateEvent::Begin);
    let step = run.step(UpdateEvent::Failed(UpdateErrorDetails::DownloadError("timeout".to_string())));
    match step.action {
        UpdateAction::Abort(e) => assert_eq!(
            e.to_text(),
            "full update error: package update error: download error: timeout"
        ),
        other => panic!("expected a failure, found {:?}", other),
    }
    assert_eq!(run.stage, UpdateStage::Finished);
}

#[test]
fn an_unexpected_event_ends_the_update() {
    let mut run = ClientUpdate::new(ClientVersion::Unknown, ClientVersionRequest::Beta, Platform::MacOs);
    let step = run.step(UpdateEvent::Installed);
    match step.action {
        UpdateAction::Abort(UpdateError::FullUpdateError(
            UpdateErrorType::PackageUpdateError(UpdateErrorDetails::IOError { msg, source }),
        )) => {
            assert_eq!(msg, "unexpected event");
            assert_eq!(source, "");
        }
        other => panic!("expected a failure, found {:?}", other),
    }
    assert_eq!(run.stage, UpdateStage::Finished);
}

#[test]
fn concurrent_update() {
    let mut updater = Updater::new();
    assert!(!updater.is_updating());
    let first = updater.update(
        ClientVersion::Unknown,
        ClientVersionRequest::Stable,
        Platform::MacOs,
    );
    let (guard, run) = first.unwrap();
    assert_eq!(run.stage, UpdateStage::Start);
    let second = updater.update(
        ClientVersion::Unknown,
        ClientVersionRequest::Stable,
        Platform::MacOs,
    );
    assert!(matches!(second, Err(UpdateResult::Updating)));
    let third = updater.update_resource(ResourceVersion::default(), Platform::MacOs);
    assert!(matches!(third, Err(UpdateResult::Updating)));
    assert_eq!(updater.lock().unwrap_err(), true);
    assert!(updater.is_updating());
    updater.release(guard);
    assert!(!updater.is_updating());
    let (guard, _) = updater.update_resource(ResourceVersion::default(), Platform::MacOs).unwrap();
    assert!(updater.is_updating());
    updater.release(guard);
    assert!(updater.lock().is_ok());
}

fn resource(last_updated: &str) -> ResourceVersion {
    let mut v = ResourceVersion::default();
    v.last_updated = last_updated.to_string();
    v
}

#[test]
fn the_same_bundle_is_not_downloaded() {
    let mut run = ResourceUpdate::new(resource("2025-01-02 03:04:05.678"), Platform::MacOs);
    assert!(matches!(run.step(UpdateEvent::Begin).action, UpdateAction::FetchSummary));
    let step = run.step(UpdateEvent::ResourceFetched(resource("2025-01-02 03:04:05.678")));
    assert!(matches!(step.action, UpdateAction::Finish(UpdateResult::AlreadyUpdated)));
    assert_eq!(run.stage, UpdateStage::Finished);
    // Equal strings are not even read.
    let mut run = ResourceUpdate::new(resource("yesterday"), Platform::MacOs);
    run.step(UpdateEvent::Begin);
    let step = run.step(UpdateEvent::ResourceFetched(resource("yesterday")));
    assert!(matches!(step.action, UpdateAction::Finish(UpdateResult::AlreadyUpdated)));
}

#[test]
fn a_newer_bundle_is_installed() {
    let mut run =
        ResourceUpdate::new(resource("2025-01-02 03:04:05.678"), Platform::Linux("x86_64".to_string()));
    run.step(UpdateEvent::Begin);
    let step = run.step(UpdateEvent::ResourceFetched(resource("2025-01-02 03:04:05.679")));
    let package = install(&step.action);
    assert_eq!(
        package.url,
        "https://github.com/MaaAssistantArknights/MaaResource/archive/refs/heads/main.tar.gz"
    );
    assert_eq!(package.file_name, "resources");
    assert!(!package.ota);
    assert_eq!(run.stage, UpdateStage::Full);
    let step = run.step(UpdateEvent::Installed);
    let result = match step.action {
        UpdateAction::Finish(result) => result,
        other => panic!("expected the end, found {:?}", other),
    };
    match &result {
        UpdateResult::ResourceSuccess(v) => assert_eq!(v.last_updated, "2025-01-02 03:04:05.679"),
        other => panic!("expected a new bundle, found {:?}", other),
    }
    let after = follow_ups(&result);
    assert_eq!(after.len(), 1);
    match &after[0] {
        FollowUp::RecordResourceVersion(v) => assert_eq!(v.last_updated, "2025-01-02 03:04:05.679"),
        other => panic!("expected the version to be kept, found {:?}", other),
    }
}

#[test]
fn an_older_bundle_is_not_installed() {
    let current = resource("2025-01-02 03:04:05.678");
    assert!(check_resource_update(&current, resource("2025-01-01 23:59:59.999")).unwrap().is_none());
    assert!(check_resource_update(&current, resource("2024-12-31 03:04:05.678")).unwrap().is_none());
    let newer = check_resource_update(&current, resource("2025-01-02 03:04:06.000")).unwrap();
    assert_eq!(newer.unwrap().last_updated, "2025-01-02 03:04:06.000");
    assert_eq!(
        check_resource_update(&resource(""), resource("2025-01-02 03:04:06.000")).unwrap_err(),
        "parse current timestamp"
    );
    assert_eq!(
        check_resource_update(&current, resource("soon")).unwrap_err(),
        "parse latest timestamp"
    );
}

#[test]
fn a_failed_resource_update_is_reported_as_one() {
    let mut run = ResourceUpdate::new(resource("2025-01-02 03:04:05.678"), Platform::MacOs);
    run.step(UpdateEvent::Begin);
    let step = run.step(UpdateEvent::ResourceFetched(resource("2025-02-02 03:04:05.678")));
    assert_eq!(
        install(&step.action).url,
        "https://github.com/MaaAssistantArknights/MaaResource/archive/refs/heads/main.zip"
    );
    let step = run.step(UpdateEvent::Failed(UpdateErrorDetails::IOError {
        msg: "move dir".to_string(),
        source: "denied".to_string(),
    }));
    match step.action {
        UpdateAction::Abort(e) => assert_eq!(
            e.to_text(),
            "full update error: resource update error: IO error: move dir"
        ),
        other => panic!("expected a failure, found {:?}", other),
    }
}

#[test]
fn packages_are_named_for_the_system() {
    assert_eq!(Platform::WindowsX64.suffix(), "win-x64.zip");
    assert_eq!(Platform::WindowsArm64.suffix(), "win-arm64.zip");
    assert_eq!(Platform::MacOs.suffix(), "macos-runtime-universal.zip");
    assert_eq!(Platform::Linux("aarch64".to_string()).suffix(), "linux-aarch64.tar.gz");
    assert_eq!(Platform::WindowsX64.archive_kind(), ArchiveKind::Zip);
    assert_eq!(Platform::MacOs.archive_kind(), ArchiveKind::Zip);
    assert_eq!(Platform::Linux("x86_64".to_string()).archive_kind(), ArchiveKind::TarGz);
    assert!(Platform::WindowsX64.supports_ota());
    assert!(!Platform::WindowsArm64.supports_ota());
    assert!(!Platform::MacOs.supports_ota());
    assert!(!Platform::Linux("x86_64".to_string()).supports_ota());
    assert_eq!(package_name("MAA-", "v1.2.3", "win-x64.zip"), "MAA-v1.2.3-win-x64.zip");
    assert_eq!(ota_prefix("v1.2.2"), "MAAComponent-OTA-v1.2.2_");
}

#[test]
fn assets_are_found_by_their_exact_name() {
    let assets = vec![asset("a.zip"), asset("b.zip"), asset("a.zip")];
    assert_eq!(find_asset(&assets, "a.zip"), Some(0));
    assert_eq!(find_asset(&assets, "b.zip"), Some(1));
    assert_eq!(find_asset(&assets, "A.zip"), None);
    assert_eq!(find_asset(&assets, "a.zi"), None);
    assert_eq!(find_asset(&vec![], "a.zip"), None);
}

#[test]
fn results_and_errors_have_their_words() {
    assert_eq!(UpdateResult::Updating.name(), "Updating");
    assert_eq!(UpdateResult::AlreadyUpdated.name(), "AlreadyUpdated");
    assert_eq!(UpdateResult::ClientSuccess(ClientVersion::Unknown).name(), "ClientSuccess");
    assert_eq!(UpdateResult::ResourceSuccess(ResourceVersion::default()).name(), "ResourceSuccess");
    let details = UpdateErrorDetails::VersionError("no match pkg".to_string());
    assert_eq!(details.to_text(), "version error: no match pkg");
    assert_eq!(
        UpdateErrorDetails::DecompressError("x".to_string()).to_text(),
        "decompress error: x"
    );
    assert_eq!(UpdateErrorDetails::TokioError("x".to_string()).to_text(), "tokio error: x");
    let kind = UpdateErrorType::PackageUpdateError(details);
    assert_eq!(kind.to_text(), "package update error: version error: no match pkg");
    assert_eq!(
        UpdateError::OTAError(kind).to_text(),
        "full update error: package update error: version error: no match pkg"
    );
}

#[test]
fn only_a_status_of_the_two_hundreds_is_a_success() {
    for status in [200, 201, 204, 206, 299] {
        assert!(is_success_status(status));
    }
    for status in [0, 100, 199, 300, 301, 304, 400, 404, 500, 599, u16::MAX] {
        assert!(!is_success_status(status));
    }
}
