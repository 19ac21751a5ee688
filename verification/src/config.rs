//! The configuration: what its entries are called, the cache that holds
//! them, and the task queue of the daily routine.

use vstd::prelude::*;
use vstd::string::*;
use crate::entry::{
    copy_entries, dedup, deduped, distinct_keys, entries_view, entry_of, lemma_index_of,
    lemma_lookup_upserted, lemma_upserted_distinct, lookup, position, upsert, upserted,
    ConfigEntry, ConfigEntryView,
};
use crate::queue::{available_tasks, is_task_queue, queue_view};
use crate::settings::{AdbSettings, SettingType};
use crate::task::{Parameters, TaskQueue, TaskType, TaskTypeView};
use crate::text::str_eq;

verus! {

/// The directory of the configuration, in the working directory.
pub const CFG_DIR: &'static str = "config";

/// The configuration group that is used where none is named.
pub const DEFAULT_CFG_PATH: &'static str = "default";

/// The ending of the name of a configuration file.
pub const CFG_SUFFIX: &'static str = ".json";

/// The file of the daily tasks.
pub const DAILY_CFG: &'static str = "daily";

/// The file of the extra tasks.
pub const EXTRA_TASK_CFG: &'static str = "extra-task";

/// The file of the settings.
pub const SETTINGS_CFG: &'static str = "settings";

/// The file of what the tools found.
pub const TOOL_STORAGE: &'static str = "tool-storage";

/// The file of the user's tasks.
pub const CUSTOMS_CFG: &'static str = "customs";

/// The file of what the user's tasks stored.
pub const CUSTOMS_STORAGE: &'static str = "custom-storage";

/// Data that is stored beside the configuration.
#[derive(Debug, Clone, PartialEq, Eq)]
pub enum Storage {
    /// What a tool found, such as the depot or the operators, by its name.
    Tool(String),
    /// What a task of the user stored, by the task's name.
    Custom(String),
}

/// What a `Storage` holds, as mathematics.
pub enum StorageView {
    Tool(Seq<char>),
    Custom(Seq<char>),
}

impl View for Storage {
    type V = StorageView;

    open spec fn view(&self) -> StorageView {
        match self {
            Storage::Tool(s) => StorageView::Tool(s@),
            Storage::Custom(s) => StorageView::Custom(s@),
        }
    }
}

/// What an entry of the configuration is.
#[derive(Debug, Clone, PartialEq, Eq)]
pub enum ConfigType {
    Task(TaskType),
    Storage(Storage),
    Settings(SettingType),
}

/// What a `ConfigType` holds, as mathematics.
pub enum ConfigTypeView {
    Task(TaskTypeView),
    Storage(StorageView),
    Settings(SettingType),
}

impl View for ConfigType {
    type V = ConfigTypeView;

    open spec fn view(&self) -> ConfigTypeView {
        match self {
            ConfigType::Task(t) => ConfigTypeView::Task(t@),
            ConfigType::Storage(s) => ConfigTypeView::Storage(s@),
            ConfigType::Settings(s) => ConfigTypeView::Settings(*s),
        }
    }
}

/// What stands in the brackets of `name`, where `name` is `tag`, an
/// opening bracket, any text, and a closing bracket.
pub open spec fn bracketed(name: Seq<char>, tag: Seq<char>) -> Option<Seq<char>> {
    if name.len() >= tag.len() + 2 && name.subrange(0, tag.len() as int) == tag && name[tag.len() as int]
        == '(' && name.last() == ')' {
        Some(name.subrange(tag.len() as int + 1, name.len() as int - 1))
    } else {
        None
    }
}

/// What stands in the brackets of `name` behind `tag`; `None` where `name`
/// is not of that form.
fn in_brackets(name: &str, tag: &str) -> (r: Option<String>)
    ensures
        match r {
            Some(s) => bracketed(name@, tag@) == Some(s@),
            None => bracketed(name@, tag@) is None,
        },
{
    let n = name.unicode_len();
    let t = tag.unicode_len();
    if n < 2 || n - 2 < t {
        return None;
    }
    if !str_eq(name.substring_char(0, t), tag) {
        return None;
    }
    if name.get_char(t) != '(' || name.get_char(n - 1) != ')' {
        return None;
    }
    Some(String::from_str(name.substring_char(t + 1, n - 1)))
}

impl Storage {
    /// The storage that `name` names: `Tool(..)` or `Custom(..)`, with the
    /// name of the tool or of the task in the brackets.
    pub open spec fn spec_from_str(name: Seq<char>) -> Option<StorageView> {
        match bracketed(name, "Tool"@) {
            Some(id) => Some(StorageView::Tool(id)),
            None => match bracketed(name, "Custom"@) {
                Some(id) => Some(StorageView::Custom(id)),
                None => None,
            },
        }
    }

    /// The storage that `name` names; `None` where it names none.
    pub fn from_str(name: &str) -> (r: Option<Storage>)
        ensures
            match r {
                Some(s) => Self::spec_from_str(name@) == Some(s@),
                None => Self::spec_from_str(name@) is None,
            },
    {
        match in_brackets(name, "Tool") {
            Some(id) => Some(Storage::Tool(id)),
            None => match in_brackets(name, "Custom") {
                Some(id) => Some(Storage::Custom(id)),
                None => None,
            },
        }
    }
}

impl ConfigType {
    /// How a name is resolved: a setting first, then a known task, then a
    /// storage. A name that is none of them names nothing.
    pub open spec fn spec_from_str(name: Seq<char>) -> Option<ConfigTypeView> {
        match SettingType::spec_from_str(name) {
            Some(s) => Some(ConfigTypeView::Settings(s)),
            None => match TaskType::spec_known(name) {
                Some(t) => Some(ConfigTypeView::Task(t)),
                None => match Storage::spec_from_str(name) {
                    Some(s) => Some(ConfigTypeView::Storage(s)),
                    None => None,
                },
            },
        }
    }

    /// The entry of the configuration that `name` names. A name that names
    /// none is rejected, and handed back as the error.
    pub fn from_str(name: &str) -> (r: Result<ConfigType, String>)
        ensures
            match r {
                Ok(t) => Self::spec_from_str(name@) == Some(t@),
                Err(e) => Self::spec_from_str(name@) is None && e@ == name@,
            },
    {
        match SettingType::from_str(name) {
            Some(s) => Ok(ConfigType::Settings(s)),
            None => match TaskType::known(name) {
                Some(t) => Ok(ConfigType::Task(t)),
                None => match Storage::from_str(name) {
                    Some(s) => Ok(ConfigType::Storage(s)),
                    None => Err(String::from_str(name)),
                },
            },
        }
    }
}

#[verifier::external_type_specification]
#[verifier::external_body]
#[verifier::reject_recursive_types(K)]
#[verifier::reject_recursive_types(V)]
#[verifier::reject_recursive_types(S)]
pub struct ExDashMap<K, V, S>(dashmap::DashMap<K, V, S>);

/// What a cache holds: for the name of each file the views of its entries.
pub uninterp spec fn cache_contents(cache: dashmap::DashMap<String, Vec<ConfigEntry>>) -> Map<
    Seq<char>,
    Seq<ConfigEntryView>,
>;

/// A cache that holds nothing.
pub open spec fn empty_cache() -> Map<Seq<char>, Seq<ConfigEntryView>> {
    Map::empty()
}

/// `DashMap::new`: a map that holds nothing.
#[verifier::external_body]
fn cache_new() -> (r: dashmap::DashMap<String, Vec<ConfigEntry>>)
    ensures
        cache_contents(r) == empty_cache(),
{
    dashmap::DashMap::new()
}

/// `DashMap::insert`: afterwards the map holds `entries` under `file`, and
/// under every other name what it held before.
#[verifier::external_body]
fn cache_insert(
    cache: &mut dashmap::DashMap<String, Vec<ConfigEntry>>,
    file: String,
    entries: Vec<ConfigEntry>,
)
    ensures
        cache_contents(*final(cache)) == cache_contents(*old(cache)).insert(
            file@,
            entries_view(entries@),
        ),
{
    cache.insert(file, entries);
}

/// `DashMap::get`, with a copy of what it refers to: the entries that the
/// map holds under `file`; `None` where it holds nothing under that name.
#[verifier::external_body]
fn cache_get(cache: &dashmap::DashMap<String, Vec<ConfigEntry>>, file: &str) -> (r: Option<
    Vec<ConfigEntry>,
>)
    ensures
        r is Some == cache_contents(*cache).contains_key(file@),
        r matches Some(entries) ==> entries_view(entries@) == cache_contents(*cache)[file@],
{
    match cache.get(file) {
        Some(found) => Some(found.value().clone()),
        None => None,
    }
}

/// The files of a configuration group.
#[derive(Debug, Clone, Copy, PartialEq, Eq, Structural)]
pub enum ConfigFile {
    Daily,
    ExtraTask,
    Customs,
    ToolStorage,
    CustomStorage,
    Settings,
}

impl ConfigFile {
    /// The name of the file without its ending.
    pub open spec fn spec_stem(self) -> Seq<char> {
        match self {
            ConfigFile::Daily => DAILY_CFG@,
            ConfigFile::ExtraTask => EXTRA_TASK_CFG@,
            ConfigFile::Customs => CUSTOMS_CFG@,
            ConfigFile::ToolStorage => TOOL_STORAGE@,
            ConfigFile::CustomStorage => CUSTOMS_STORAGE@,
            ConfigFile::Settings => SETTINGS_CFG@,
        }
    }

    /// The name of the file without its ending.
    pub fn stem(&self) -> (r: &'static str)
        ensures
            r@ == self.spec_stem(),
    {
        match self {
            ConfigFile::Daily => DAILY_CFG,
            ConfigFile::ExtraTask => EXTRA_TASK_CFG,
            ConfigFile::Customs => CUSTOMS_CFG,
            ConfigFile::ToolStorage => TOOL_STORAGE,
            ConfigFile::CustomStorage => CUSTOMS_STORAGE,
            ConfigFile::Settings => SETTINGS_CFG,
        }
    }

    /// The name of the file: its stem and the ending `.json`.
    pub fn file_name(&self) -> (r: String)
        ensures
            r@ == self.spec_stem() + CFG_SUFFIX@,
    {
        let mut r = String::from_str(self.stem());
        r.append(CFG_SUFFIX);
        r
    }
}

/// The six stems are six different names.
pub proof fn lemma_stems_differ(a: ConfigFile, b: ConfigFile)
    ensures
        a.spec_stem() == b.spec_stem() ==> a == b,
{
    reveal_strlit("daily");
    reveal_strlit("extra-task");
    reveal_strlit("customs");
    reveal_strlit("tool-storage");
    reveal_strlit("custom-storage");
    reveal_strlit("settings");
    if a != b && a.spec_stem() == b.spec_stem() {
        assert(a.spec_stem().len() == b.spec_stem().len());
        assert(a.spec_stem()[0] == b.spec_stem()[0]);
        assert(a.spec_stem()[6] == b.spec_stem()[6]);
    }
}

impl ConfigTypeView {
    /// The file in which an entry of this kind stands.
    pub open spec fn file(self) -> ConfigFile {
        match self {
            ConfigTypeView::Task(TaskTypeView::Daily(_)) => ConfigFile::Daily,
            ConfigTypeView::Task(TaskTypeView::Extra(_)) => ConfigFile::ExtraTask,
            ConfigTypeView::Task(TaskTypeView::Custom(_)) => ConfigFile::Customs,
            ConfigTypeView::Storage(StorageView::Tool(_)) => ConfigFile::ToolStorage,
            ConfigTypeView::Storage(StorageView::Custom(_)) => ConfigFile::CustomStorage,
            ConfigTypeView::Settings(_) => ConfigFile::Settings,
        }
    }

    /// The name under which an entry of this kind stands in its file.
    pub open spec fn key(self) -> Seq<char> {
        match self {
            ConfigTypeView::Task(TaskTypeView::Daily(t)) => t.spec_name(),
            ConfigTypeView::Task(TaskTypeView::Extra(t)) => t.spec_name(),
            ConfigTypeView::Task(TaskTypeView::Custom(name)) => name,
            ConfigTypeView::Storage(StorageView::Tool(name)) => name,
            ConfigTypeView::Storage(StorageView::Custom(name)) => name,
            ConfigTypeView::Settings(s) => s.spec_name(),
        }
    }
}

impl ConfigType {
    /// The file in which an entry of this kind stands.
    pub fn file(&self) -> (r: ConfigFile)
        ensures
            r == self@.file(),
    {
        match self {
            ConfigType::Task(TaskType::Daily(_)) => ConfigFile::Daily,
            ConfigType::Task(TaskType::Extra(_)) => ConfigFile::ExtraTask,
            ConfigType::Task(TaskType::Custom(_)) => ConfigFile::Customs,
            ConfigType::Storage(Storage::Tool(_)) => ConfigFile::ToolStorage,
            ConfigType::Storage(Storage::Custom(_)) => ConfigFile::CustomStorage,
            ConfigType::Settings(_) => ConfigFile::Settings,
        }
    }

    /// The name under which an entry of this kind stands in its file.
    pub fn key(&self) -> (r: String)
        ensures
            r@ == self@.key(),
    {
        match self {
            ConfigType::Task(TaskType::Daily(t)) => String::from_str(t.name()),
            ConfigType::Task(TaskType::Extra(t)) => String::from_str(t.name()),
            ConfigType::Task(TaskType::Custom(name)) => name.clone(),
            ConfigType::Storage(Storage::Tool(name)) => name.clone(),
            ConfigType::Storage(Storage::Custom(name)) => name.clone(),
            ConfigType::Settings(s) => String::from_str(s.name()),
        }
    }
}

/// What is to be written to disk after a change: a file, and all of its
/// entries.
#[derive(Debug, Clone)]
pub struct WriteOrder {
    pub file: ConfigFile,
    pub entries: Vec<ConfigEntry>,
}

/// Where the connection settings come from.
#[derive(Debug, Clone)]
pub enum AdbSource {
    /// The configuration holds none: these are the settings to use.
    Default(AdbSettings),
    /// The configuration holds this JSON text, which is to be read.
    Stored(String),
}

/// The configuration of one group, as it stands on disk: the entries of
/// each of its files.
pub struct Config {
    group: String,
    cfgs: dashmap::DashMap<String, Vec<ConfigEntry>>,
}

impl Config {
    /// The entries of each file, by the file's stem.
    pub closed spec fn files(&self) -> Map<Seq<char>, Seq<ConfigEntryView>> {
        cache_contents(self.cfgs)
    }

    /// The name of the group.
    pub closed spec fn spec_group(&self) -> Seq<char> {
        self.group@
    }

    /// The entries of the file `file`.
    pub open spec fn entries_of(&self, file: ConfigFile) -> Seq<ConfigEntryView> {
        self.files()[file.spec_stem()]
    }

    /// What `load` establishes and every method keeps: the configuration
    /// has entries for each of the six files, and within a file no name
    /// occurs twice.
    pub open spec fn wf(&self) -> bool {
        forall|file: ConfigFile|
            #![trigger file.spec_stem()]
            self.files().contains_key(file.spec_stem()) && distinct_keys(
                self.files()[file.spec_stem()],
            )
    }

}

impl Config {
    /// Puts `entries` into the cache as the entries of `file`.
    fn put(
        cfgs: &mut dashmap::DashMap<String, Vec<ConfigEntry>>,
        file: ConfigFile,
        entries: Vec<ConfigEntry>,
    )
        ensures
            cache_contents(*final(cfgs)) == cache_contents(*old(cfgs)).insert(
                file.spec_stem(),
                entries_view(entries@),
            ),
    {
        cache_insert(cfgs, String::from_str(file.stem()), entries);
    }

    /// The configuration of the group `cfg_group`, or of the default group
    /// where none is named, from what its six files hold: the entries of
    /// each file, each written over an earlier one of the same name. A file
    /// that does not exist holds no entries.
    pub fn load(
        cfg_group: Option<String>,
        daily: &Vec<ConfigEntry>,
        tools: &Vec<ConfigEntry>,
        settings: &Vec<ConfigEntry>,
        customs: &Vec<ConfigEntry>,
        extra: &Vec<ConfigEntry>,
        custom_storage: &Vec<ConfigEntry>,
    ) -> (r: Config)
        ensures
            r.wf(),
            r.spec_group() == match cfg_group {
                Some(g) => g@,
                None => DEFAULT_CFG_PATH@,
            },
            r.entries_of(ConfigFile::Daily) == deduped(entries_view(daily@)),
            r.entries_of(ConfigFile::ToolStorage) == deduped(entries_view(tools@)),
            r.entries_of(ConfigFile::Settings) == deduped(entries_view(settings@)),
            r.entries_of(ConfigFile::Customs) == deduped(entries_view(customs@)),
            r.entries_of(ConfigFile::ExtraTask) == deduped(entries_view(extra@)),
            r.entries_of(ConfigFile::CustomStorage) == deduped(entries_view(custom_storage@)),
    {
        let group = match cfg_group {
            Some(g) => g,
            None => String::from_str(DEFAULT_CFG_PATH),
        };
        proof {
            assert forall|a: ConfigFile, b: ConfigFile|
                a.spec_stem() == b.spec_stem() implies a == b by {
                lemma_stems_differ(a, b);
            }
        }
        let mut cfgs = cache_new();
        Self::put(&mut cfgs, ConfigFile::Daily, dedup(daily));
        Self::put(&mut cfgs, ConfigFile::ToolStorage, dedup(tools));
        Self::put(&mut cfgs, ConfigFile::Settings, dedup(settings));
        Self::put(&mut cfgs, ConfigFile::Customs, dedup(customs));
        Self::put(&mut cfgs, ConfigFile::ExtraTask, dedup(extra));
        Self::put(&mut cfgs, ConfigFile::CustomStorage, dedup(custom_storage));
        proof {
            let files = cache_contents(cfgs);
            assert(files[ConfigFile::Daily.spec_stem()] == deduped(entries_view(daily@)));
            assert forall|file: ConfigFile|
                #![trigger file.spec_stem()]
                files.contains_key(file.spec_stem()) && distinct_keys(
                    files[file.spec_stem()],
                ) by {
                match file {
                    ConfigFile::Daily => {},
                    ConfigFile::ExtraTask => {},
                    ConfigFile::Customs => {},
                    ConfigFile::ToolStorage => {},
                    ConfigFile::CustomStorage => {},
                    ConfigFile::Settings => {},
                }
            }
        }
        Config { group, cfgs }
    }

    /// The name of the group.
    pub fn group(&self) -> (r: &str)
        ensures
            r@ == self.spec_group(),
    {
        self.group.as_str()
    }

    /// The entries of the file `file`.
    pub fn entries(&self, file: ConfigFile) -> (r: Vec<ConfigEntry>)
        requires
            self.wf(),
        ensures
            entries_view(r@) == self.entries_of(file),
    {
        match cache_get(&self.cfgs, file.stem()) {
            Some(entries) => entries,
            None => {
                proof {
                    assert(self.files().contains_key(file.spec_stem()));
                }
                Vec::new()
            },
        }
    }

    /// The entry that stands in the configuration for `cfg_type`; `None`
    /// where none does.
    pub fn get(&self, cfg_type: &ConfigType) -> (r: Option<ConfigEntry>)
        requires
            self.wf(),
        ensures
            match r {
                Some(e) => lookup(self.entries_of(cfg_type@.file()), cfg_type@.key()) == Some(e@),
                None => lookup(self.entries_of(cfg_type@.file()), cfg_type@.key()) is None,
            },
    {
        let entries = self.entries(cfg_type.file());
        let key = cfg_type.key();
        proof {
            lemma_index_of(entries_view(entries@), key@);
        }
        match position(&entries, key.as_str()) {
            Some(i) => Some(entries[i].duplicate()),
            None => None,
        }
    }

    /// Writes `params` into the cache as the entry for `cfg_type`, and
    /// returns what is to be written to disk: the file of the entry with
    /// all of its entries.
    ///
    /// Afterwards the entry is found under its name, it stands in the
    /// place of the entry it replaced or at the end of the file, and every
    /// other entry and every other file is as before.
    pub fn set_and_write(&mut self, cfg_type: ConfigType, params: Parameters) -> (r: WriteOrder)
        requires
            old(self).wf(),
        ensures
            final(self).wf(),
            final(self).spec_group() == old(self).spec_group(),
            r.file == cfg_type@.file(),
            entries_view(r.entries@) == final(self).entries_of(r.file),
            final(self).entries_of(r.file) == upserted(
                old(self).entries_of(r.file),
                entry_of(cfg_type@.key(), params),
            ),
            lookup(final(self).entries_of(r.file), cfg_type@.key()) == Some(
                entry_of(cfg_type@.key(), params),
            ),
            forall|other: ConfigFile|
                other != r.file ==> final(self).entries_of(other) == old(self).entries_of(other),
    {
        proof {
            assert forall|a: ConfigFile, b: ConfigFile|
                a.spec_stem() == b.spec_stem() implies a == b by {
                lemma_stems_differ(a, b);
            }
        }
        let file = cfg_type.file();
        let entry = ConfigEntry::from_parameters(cfg_type.key(), params);
        let mut entries = self.entries(file);
        proof {
            assert(distinct_keys(self.files()[file.spec_stem()]));
            lemma_upserted_distinct(entries_view(entries@), entry@);
            lemma_lookup_upserted(entries_view(entries@), entry@, entry@.key);
        }
        upsert(&mut entries, entry);
        let written = copy_entries(&entries);
        Self::put(&mut self.cfgs, file, entries);
        proof {
            let files = cache_contents(self.cfgs);
            assert forall|f: ConfigFile|
                #![trigger f.spec_stem()]
                files.contains_key(f.spec_stem()) && distinct_keys(files[f.spec_stem()]) by {
                if f != file {
                    assert(files[f.spec_stem()] == old(self).files()[f.spec_stem()]);
                    assert(old(self).files().contains_key(f.spec_stem()));
                }
            }
        }
        WriteOrder { file, entries: written }
    }

    /// The task queue of the daily routine: the daily tasks that are
    /// switched on, in ascending order of the places they ask for, tasks
    /// that ask for the same place in the order of the file.
    pub fn available_daily_tasks(&self) -> (r: TaskQueue)
        requires
            self.wf(),
        ensures
            exists|picks: Seq<int>|
                is_task_queue(self.entries_of(ConfigFile::Daily), picks, queue_view(r@)),
    {
        let entries = self.entries(ConfigFile::Daily);
        available_tasks(&entries)
    }

    /// Where the connection settings come from: from the entry `Adb` of
    /// the settings, or else the default settings.
    pub fn adb_config(&self) -> (r: AdbSource)
        requires
            self.wf(),
        ensures
            match lookup(self.entries_of(ConfigFile::Settings), SettingType::Adb.spec_name()) {
                Some(e) => r matches AdbSource::Stored(json) && json@ == e.json,
                None => r is Default,
            },
    {
        match self.get(&ConfigType::Settings(SettingType::Adb)) {
            Some(e) => AdbSource::Stored(e.json),
            None => AdbSource::Default(AdbSettings::default()),
        }
    }
}

} // verus!
