use maa_se::config::{AdbSource, Config, ConfigFile, ConfigType, Storage};
use maa_se::entry::{dedup, position, upsert, ConfigEntry};
use maa_se::queue::available_tasks;
use maa_se::settings::SettingType;
use maa_se::task::{DailyTaskType, ExtraTaskType, Parameters, TaskType};

fn entry(key: &str, enable: Option<bool>, index: Option<i64>, json: &str) -> ConfigEntry {
    ConfigEntry { key: key.to_string(), enable, index, json: json.to_string() }
}

fn names(queue: &[(String, String)]) -> Vec<&str> {
    queue.iter().map(|task| task.0.as_str()).collect()
}

fn daily(entries: Vec<ConfigEntry>) -> Config {
    Config::load(None, &entries, &vec![], &vec![], &vec![], &vec![], &vec![])
}

#[test]
fn daily_run_takes_the_enabled_tasks_in_order() {
    let config = daily(vec![
        entry("Fight", Some(true), Some(1), "{\"enable\":true,\"index\":1,\"stage\":\"1-7\"}"),
        entry("Mall", Some(true), Some(2), "{\"enable\":true,\"index\":2}"),
        entry("Award", Some(false), None, "{\"enable\":false}"),
    ]);
    let queue = config.available_daily_tasks();
    assert_eq!(
        queue,
        vec![
            (
                "Fight".to_string(),
                "{\"enable\":true,\"index\":1,\"stage\":\"1-7\"}".to_string()
            ),
            ("Mall".to_string(), "{\"enable\":true,\"index\":2}".to_string()),
        ]
    );
}

#[test]
fn the_queue_is_sorted_by_index() {
    let entries = vec![
        entry("Mall", Some(true), Some(5), "m"),
        entry("Award", Some(true), Some(-3), "a"),
        entry("Fight", Some(true), Some(2), "f"),
        entry("Recruit", Some(true), Some(i64::MAX), "r"),
        entry("StartUp", Some(true), Some(i64::MIN), "s"),
    ];
    let queue = available_tasks(&entries);
    assert_eq!(names(&queue), vec!["StartUp", "Award", "Fight", "Mall", "Recruit"]);
    assert_eq!(queue[1].1, "a");
}

#[test]
fn equal_indices_keep_the_order_of_the_file() {
    let entries = vec![
        entry("d", Some(true), Some(1), ""),
        entry("c", Some(true), None, ""),
        entry("b", Some(true), Some(1), ""),
        entry("a", Some(true), Some(0), ""),
        entry("e", Some(true), Some(1), ""),
    ];
    // An entry without an index asks for place 0.
    assert_eq!(names(&available_tasks(&entries)), vec!["c", "a", "d", "b", "e"]);
}

#[test]
fn only_entries_that_say_true_are_enabled() {
    let entries = vec![
        entry("a", None, Some(0), ""),
        entry("b", Some(false), Some(1), ""),
        entry("c", Some(true), Some(2), ""),
    ];
    assert_eq!(names(&available_tasks(&entries)), vec!["c"]);
    assert!(available_tasks(&vec![]).is_empty());
    assert!(available_tasks(&vec![entry("a", None, None, "")]).is_empty());
}

#[test]
fn names_are_resolved_settings_first() {
    assert_eq!(ConfigType::from_str("Adb"), Ok(ConfigType::Settings(SettingType::Adb)));
    assert_eq!(
        ConfigType::from_str("Fight"),
        Ok(ConfigType::Task(TaskType::Daily(DailyTaskType::Fight)))
    );
    assert_eq!(
        ConfigType::from_str("Reclamation"),
        Ok(ConfigType::Task(TaskType::Daily(DailyTaskType::Reclamation)))
    );
    assert_eq!(
        ConfigType::from_str("Custom"),
        Ok(ConfigType::Task(TaskType::Extra(ExtraTaskType::Custom)))
    );
    assert_eq!(
        ConfigType::from_str("VideoRecognition"),
        Ok(ConfigType::Task(TaskType::Extra(ExtraTaskType::VideoRecognition)))
    );
    assert_eq!(
        ConfigType::from_str("Tool(depot)"),
        Ok(ConfigType::Storage(Storage::Tool("depot".to_string())))
    );
    assert_eq!(
        ConfigType::from_str("Custom(我的任务)"),
        Ok(ConfigType::Storage(Storage::Custom("我的任务".to_string())))
    );
    assert_eq!(
        ConfigType::from_str("Tool()"),
        Ok(ConfigType::Storage(Storage::Tool("".to_string())))
    );
    assert_eq!(
        ConfigType::from_str("Tool(a)b)"),
        Ok(ConfigType::Storage(Storage::Tool("a)b".to_string())))
    );
}

#[test]
fn unknown_names_are_rejected() {
    for name in ["", "adb", "fight", "Tool", "Tool(", "Tool)", "Tool(x", "Toolx)", "Other(x)", "Tool(x) "]
    {
        assert_eq!(ConfigType::from_str(name), Err(name.to_string()), "{:?}", name);
    }
}

#[test]
fn every_daily_and_extra_task_has_its_name() {
    let daily = [
        (DailyTaskType::StartUp, "StartUp"),
        (DailyTaskType::CloseDown, "CloseDown"),
        (DailyTaskType::Fight, "Fight"),
        (DailyTaskType::Recruit, "Recruit"),
        (DailyTaskType::Infrast, "Infrast"),
        (DailyTaskType::Mall, "Mall"),
        (DailyTaskType::Award, "Award"),
        (DailyTaskType::Roguelike, "Roguelike"),
        (DailyTaskType::Reclamation, "Reclamation"),
    ];
    for (task, name) in daily {
        assert_eq!(task.name(), name);
        assert_eq!(DailyTaskType::from_str(name), Some(task));
        assert_eq!(TaskType::from_str(name), TaskType::Daily(task));
        assert_eq!(ExtraTaskType::from_str(name), None);
    }
    let extra = [
        (ExtraTaskType::Custom, "Custom"),
        (ExtraTaskType::Copilot, "Copilot"),
        (ExtraTaskType::SSSCopilot, "SSSCopilot"),
        (ExtraTaskType::Depot, "Depot"),
        (ExtraTaskType::OperBox, "OperBox"),
        (ExtraTaskType::SingleStep, "SingleStep"),
        (ExtraTaskType::VideoRecognition, "VideoRecognition"),
    ];
    for (task, name) in extra {
        assert_eq!(task.name(), name);
        assert_eq!(ExtraTaskType::from_str(name), Some(task));
        assert_eq!(TaskType::from_str(name), TaskType::Extra(task));
        assert_eq!(DailyTaskType::from_str(name), None);
    }
    assert_eq!(TaskType::known("mine"), None);
    assert_eq!(TaskType::from_str("mine"), TaskType::Custom("mine".to_string()));
    assert_eq!(SettingType::Adb.name(), "Adb");
    assert_eq!(SettingType::from_str("Adb"), Some(SettingType::Adb));
    assert_eq!(SettingType::from_str("ADB"), None);
}

#[test]
fn each_kind_of_entry_has_its_file_and_key() {
    let table = [
        (ConfigType::Task(TaskType::Daily(DailyTaskType::Fight)), ConfigFile::Daily, "Fight"),
        (ConfigType::Task(TaskType::Extra(ExtraTaskType::Depot)), ConfigFile::ExtraTask, "Depot"),
        (ConfigType::Task(TaskType::Custom("mine".to_string())), ConfigFile::Customs, "mine"),
        (ConfigType::Storage(Storage::Tool("depot".to_string())), ConfigFile::ToolStorage, "depot"),
        (
            ConfigType::Storage(Storage::Custom("mine".to_string())),
            ConfigFile::CustomStorage,
            "mine",
        ),
        (ConfigType::Settings(SettingType::Adb), ConfigFile::Settings, "Adb"),
    ];
    for (kind, file, key) in table {
        assert_eq!(kind.file(), file);
        assert_eq!(kind.key(), key);
    }
    assert_eq!(ConfigFile::Daily.file_name(), "daily.json");
    assert_eq!(ConfigFile::ExtraTask.file_name(), "extra-task.json");
    assert_eq!(ConfigFile::Customs.file_name(), "customs.json");
    assert_eq!(ConfigFile::ToolStorage.file_name(), "tool-storage.json");
    assert_eq!(ConfigFile::CustomStorage.file_name(), "custom-storage.json");
    assert_eq!(ConfigFile::Settings.file_name(), "settings.json");
}

fn params(enable: bool, index: Option<i64>, json: &str) -> Parameters {
    Parameters { enable, index, json: json.to_string() }
}

fn keys(entries: &[ConfigEntry]) -> Vec<&str> {
    entries.iter().map(|e| e.key.as_str()).collect()
}

#[test]
fn a_write_is_found_again() {
    let mut config = daily(vec![
        entry("Fight", Some(true), Some(1), "old"),
        entry("Mall", Some(true), Some(2), "mall"),
    ]);
    let fight = ConfigType::Task(TaskType::Daily(DailyTaskType::Fight));
    let order = config.set_and_write(fight.clone(), params(false, Some(7), "new"));
    assert_eq!(order.file, ConfigFile::Daily);
    // The entry stands where it stood.
    assert_eq!(keys(&order.entries), vec!["Fight", "Mall"]);
    assert_eq!(order.entries[0].enable, Some(false));
    assert_eq!(order.entries[0].index, Some(7));
    assert_eq!(order.entries[0].json, "new");
    assert_eq!(order.entries[1].json, "mall");
    let found = config.get(&fight).unwrap();
    assert_eq!(found.key, "Fight");
    assert_eq!(found.enable, Some(false));
    assert_eq!(found.index, Some(7));
    assert_eq!(found.json, "new");
    assert_eq!(config.available_daily_tasks(), vec![("Mall".to_string(), "mall".to_string())]);
}

#[test]
fn a_new_entry_goes_to_the_end_of_its_file() {
    let mut config = daily(vec![entry("Fight", Some(true), Some(1), "f")]);
    let award = ConfigType::Task(TaskType::Daily(DailyTaskType::Award));
    assert!(config.get(&award).is_none());
    let order = config.set_and_write(award.clone(), params(true, Some(0), "a"));
    assert_eq!(keys(&order.entries), vec!["Fight", "Award"]);
    assert_eq!(keys(&config.entries(ConfigFile::Daily)), vec!["Fight", "Award"]);
    assert_eq!(
        config.available_daily_tasks(),
        vec![("Award".to_string(), "a".to_string()), ("Fight".to_string(), "f".to_string())]
    );
}

#[test]
fn a_write_leaves_the_other_files_alone() {
    let mut config = Config::load(
        Some("second".to_string()),
        &vec![entry("Fight", Some(true), None, "f")],
        &vec![entry("depot", None, None, "t")],
        &vec![entry("Adb", None, None, "s")],
        &vec![entry("mine", None, None, "c")],
        &vec![entry("Depot", None, None, "e")],
        &vec![entry("mine", None, None, "cs")],
    );
    assert_eq!(config.group(), "second");
    let order = config.set_and_write(
        ConfigType::Storage(Storage::Custom("mine".to_string())),
        params(true, None, "written"),
    );
    assert_eq!(order.file, ConfigFile::CustomStorage);
    assert_eq!(order.entries.len(), 1);
    assert_eq!(order.entries[0].json, "written");
    assert_eq!(config.entries(ConfigFile::Daily)[0].json, "f");
    assert_eq!(config.entries(ConfigFile::ToolStorage)[0].json, "t");
    assert_eq!(config.entries(ConfigFile::Settings)[0].json, "s");
    assert_eq!(config.entries(ConfigFile::Customs)[0].json, "c");
    assert_eq!(config.entries(ConfigFile::ExtraTask)[0].json, "e");
    assert_eq!(config.entries(ConfigFile::CustomStorage)[0].json, "written");
}

#[test]
fn a_group_that_is_not_named_is_the_default_group() {
    let config = daily(vec![]);
    assert_eq!(config.group(), "default");
    for file in [
        ConfigFile::Daily,
        ConfigFile::ExtraTask,
        ConfigFile::Customs,
        ConfigFile::ToolStorage,
        ConfigFile::CustomStorage,
        ConfigFile::Settings,
    ] {
        assert!(config.entries(file).is_empty());
    }
    assert!(config.available_daily_tasks().is_empty());
}

#[test]
fn a_name_that_occurs_twice_is_read_once() {
    let read = dedup(&vec![
        entry("a", None, None, "1"),
        entry("b", None, None, "2"),
        entry("a", None, None, "3"),
    ]);
    assert_eq!(keys(&read), vec!["a", "b"]);
    assert_eq!(read[0].json, "3");
    let config = daily(vec![
        entry("Fight", Some(true), Some(1), "first"),
        entry("Fight", Some(true), Some(1), "second"),
    ]);
    assert_eq!(
        config.available_daily_tasks(),
        vec![("Fight".to_string(), "second".to_string())]
    );
}

#[test]
fn upsert_replaces_or_appends() {
    let mut entries = vec![entry("a", None, None, "1"), entry("b", None, None, "2")];
    assert_eq!(position(&entries, "b"), Some(1));
    assert_eq!(position(&entries, "c"), None);
    upsert(&mut entries, entry("b", Some(true), None, "3"));
    assert_eq!(keys(&entries), vec!["a", "b"]);
    assert_eq!(entries[1].json, "3");
    upsert(&mut entries, entry("c", None, None, "4"));
    assert_eq!(keys(&entries), vec!["a", "b", "c"]);
    let made = ConfigEntry::from_parameters("k".to_string(), params(true, Some(3), "{}"));
    assert_eq!((made.key.as_str(), made.enable, made.index, made.json.as_str()), ("k", Some(true), Some(3), "{}"));
}

#[test]
fn connection_settings_come_from_the_entry_or_are_the_default() {
    let config = daily(vec![]);
    match config.adb_config() {
        AdbSource::Default(settings) => {
            assert_eq!(settings.path, "D:\\MuMuPlayer-12.0\\shell\\adb.exe");
            assert_eq!(settings.address, "127.0.0.1:16384");
        }
        AdbSource::Stored(_) => panic!("nothing is stored"),
    }
    let mut config = config;
    config.set_and_write(ConfigType::Settings(SettingType::Adb), params(true, None, "{\"x\":1}"));
    match config.adb_config() {
        AdbSource::Stored(json) => assert_eq!(json, "{\"x\":1}"),
        AdbSource::Default(_) => panic!("the entry is stored"),
    }
}
