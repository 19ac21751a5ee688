use maa_se::command::{log_error_context, set_log_level, update_config, VersionState};
use maa_se::config::{Config, ConfigFile};
use maa_se::level::Level;
use maa_se::task::Parameters;
use maa_se::updater::FollowUp;
use maa_se::version::{ClientVersion, ResourceVersion, Versions};

#[test]
fn log_levels_are_named_in_lower_case() {
    assert_eq!(set_log_level("error"), Some(Level::Error));
    assert_eq!(set_log_level("warn"), Some(Level::Warn));
    assert_eq!(set_log_level("info"), Some(Level::Info));
    assert_eq!(set_log_level("debug"), Some(Level::Debug));
    assert_eq!(set_log_level("trace"), Some(Level::Trace));
    assert_eq!(set_log_level("off"), None);
    assert_eq!(set_log_level("Info"), None);
    assert_eq!(set_log_level(""), None);
}

#[test]
fn a_failed_command_is_logged_twice() {
    let failure = log_error_context("run daily", "load core: no such file");
    assert_eq!(failure.summary.level, Level::Info);
    assert_eq!(failure.summary.text, "run daily");
    assert_eq!(failure.trace.level, Level::Debug);
    assert_eq!(failure.trace.text, "load core: no such file");
    assert_eq!(failure.reply, "run daily");
}

fn empty() -> Config {
    Config::load(None, &vec![], &vec![], &vec![], &vec![], &vec![], &vec![])
}

#[test]
fn update_config_writes_the_named_entry() {
    let mut config = empty();
    let params = Parameters { enable: true, index: Some(1), json: "{\"enable\":true}".to_string() };
    let order = update_config(&mut config, "Fight", params).unwrap();
    assert_eq!(order.file, ConfigFile::Daily);
    assert_eq!(order.entries.len(), 1);
    assert_eq!(order.entries[0].key, "Fight");
    assert_eq!(order.entries[0].enable, Some(true));
    assert_eq!(order.entries[0].index, Some(1));
    assert_eq!(order.entries[0].json, "{\"enable\":true}");
    assert_eq!(
        config.available_daily_tasks(),
        vec![("Fight".to_string(), "{\"enable\":true}".to_string())]
    );
    let order = update_config(&mut config, "Tool(depot)", Parameters::default()).unwrap();
    assert_eq!(order.file, ConfigFile::ToolStorage);
    assert_eq!(order.entries[0].key, "depot");
}

#[test]
fn update_config_rejects_an_unknown_name() {
    let mut config = empty();
    let rejected = update_config(&mut config, "Nothing", Parameters::default()).unwrap_err();
    assert_eq!(rejected, "Nothing");
    for file in [
        ConfigFile::Daily,
        ConfigFile::ExtraTask,
        ConfigFile::Customs,
        ConfigFile::ToolStorage,
        ConfigFile::CustomStorage,
        ConfigFile::Settings,
    ] {
        assert!(config.entries(file).is_empty());
    }
}

fn resource(last_updated: &str) -> ResourceVersion {
    let mut v = ResourceVersion::default();
    v.last_updated = last_updated.to_string();
    v
}

#[test]
fn the_shared_versions_follow_the_update() {
    let mut state = VersionState::new(Versions::load(None, Some(resource("a"))));
    state.record(FollowUp::PersistClientVersion(ClientVersion::Beta("v2".to_string())), None);
    assert_eq!(state.versions.client, ClientVersion::Beta("v2".to_string()));
    assert_eq!(state.versions.resource.last_updated, "a");
    state.record(FollowUp::ReloadResourceVersion, Some(resource("b")));
    assert_eq!(state.versions.resource.last_updated, "b");
    state.record(FollowUp::ReloadCore, Some(resource("ignored")));
    assert_eq!(state.versions.resource.last_updated, "b");
    state.record(FollowUp::RecordResourceVersion(resource("c")), None);
    assert_eq!(state.versions.resource.last_updated, "c");
    assert_eq!(state.versions.client, ClientVersion::Beta("v2".to_string()));
    state.record(FollowUp::ReloadResourceVersion, None);
    assert_eq!(state.versions.resource.last_updated, "");
}
