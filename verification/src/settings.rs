//! The settings of the connection to the device.

use vstd::prelude::*;
use vstd::string::*;
use crate::text::{decimal, decimal_text, json_string, json_string_text, str_eq};

verus! {

/// Where the emulator is installed, unless the settings say otherwise.
pub const DEFAULT_EMULATOR_PATH: &'static str = "D:\\MuMuPlayer-12.0";

/// Where the emulator's bridge program lies, unless the settings say
/// otherwise.
pub const DEFAULT_ADB_PATH: &'static str = "D:\\MuMuPlayer-12.0\\shell\\adb.exe";

/// The address of the emulator, unless the settings say otherwise.
pub const DEFAULT_ADB_ADDRESS: &'static str = "127.0.0.1:16384";

/// The settings that a configuration can name.
#[derive(Debug, Clone, Copy, PartialEq, Eq, Structural)]
pub enum SettingType {
    Adb,
}

impl SettingType {
    /// The name of this setting.
    pub open spec fn spec_name(self) -> Seq<char> {
        "Adb"@
    }

    /// The name of this setting.
    pub fn name(&self) -> (r: &'static str)
        ensures
            r@ == self.spec_name(),
    {
        "Adb"
    }

    /// The setting named `s`, if there is one.
    pub open spec fn spec_from_str(s: Seq<char>) -> Option<SettingType> {
        if s == "Adb"@ {
            Some(SettingType::Adb)
        } else {
            None
        }
    }

    /// The setting named `s`; `None` where there is none.
    pub fn from_str(s: &str) -> (r: Option<SettingType>)
        ensures
            r == Self::spec_from_str(s@),
    {
        if str_eq(s, "Adb") {
            Some(SettingType::Adb)
        } else {
            None
        }
    }
}

/// What the engine is told of an emulator of the kind MuMu 12.
#[derive(Debug, Clone)]
pub struct MuMuEmulator12ConnectionExtras {
    /// Whether the engine uses the emulator's own tools.
    pub enable: bool,
    /// The instance of the emulator, where several run.
    pub bridge_index: Option<usize>,
    /// The directory in which the emulator is installed.
    pub emulator_path: String,
}

impl Default for MuMuEmulator12ConnectionExtras {
    fn default() -> (r: MuMuEmulator12ConnectionExtras)
        ensures
            r.enable,
            r.bridge_index is None,
            r.emulator_path@ == DEFAULT_EMULATOR_PATH@,
    {
        MuMuEmulator12ConnectionExtras {
            enable: true,
            bridge_index: None,
            emulator_path: String::from_str(DEFAULT_EMULATOR_PATH),
        }
    }
}

/// The connection extras of an emulator installed at `path`, with the
/// instance `index` where one is given: a JSON object with the member
/// `path` and, where given, the member `index`.
pub open spec fn extras_text(path: Seq<char>, index: Option<usize>) -> Seq<char> {
    match index {
        Some(i) => "{\"path\":"@ + json_string_text(path) + ",\"index\":"@ + decimal_text(
            i as nat,
        ) + "}"@,
        None => "{\"path\":"@ + json_string_text(path) + "}"@,
    }
}

impl MuMuEmulator12ConnectionExtras {
    /// The extras of an emulator installed at `emulator_path`.
    pub fn new(enable: bool, emulator_path: String, bridge_index: Option<usize>) -> (r:
        MuMuEmulator12ConnectionExtras)
        ensures
            r.enable == enable,
            r.emulator_path@ == emulator_path@,
            r.bridge_index == bridge_index,
    {
        MuMuEmulator12ConnectionExtras { enable, emulator_path, bridge_index }
    }

    /// What `config` returns: the empty object where the extras are
    /// switched off, `extras_text` otherwise.
    pub open spec fn spec_config(&self) -> Seq<char> {
        if self.enable {
            extras_text(self.emulator_path@, self.bridge_index)
        } else {
            "{}"@
        }
    }

    /// The connection extras as the JSON text that the engine takes.
    pub fn config(&self) -> (r: String)
        ensures
            r@ == self.spec_config(),
    {
        if !self.enable {
            return String::from_str("{}");
        }
        let mut r = String::from_str("{\"path\":");
        r.append(json_string(self.emulator_path.as_str()).as_str());
        match self.bridge_index {
            Some(i) => {
                r.append(",\"index\":");
                r.append(decimal(i as u64).as_str());
            },
            None => {},
        }
        r.append("}");
        r
    }
}

/// The vendor-specific part of the connection settings.
#[derive(Debug, Clone)]
pub enum ExtraAdb {
    /// No emulator of a kind that the engine knows.
    NoExtras,
    MuMuEmulator12(MuMuEmulator12ConnectionExtras),
}

impl Default for ExtraAdb {
    fn default() -> (r: ExtraAdb)
        ensures
            r is NoExtras,
    {
        ExtraAdb::NoExtras
    }
}

impl ExtraAdb {
    /// The tag under which the engine knows this kind of emulator; empty
    /// for `NoExtras`.
    pub open spec fn spec_tag(&self) -> Seq<char> {
        match self {
            ExtraAdb::NoExtras => ""@,
            ExtraAdb::MuMuEmulator12(_) => "MuMuEmulator12"@,
        }
    }

    /// The tag under which the engine knows this kind of emulator.
    pub fn tag(&self) -> (r: &'static str)
        ensures
            r@ == self.spec_tag(),
    {
        match self {
            ExtraAdb::NoExtras => "",
            ExtraAdb::MuMuEmulator12(_) => "MuMuEmulator12",
        }
    }
}

/// The settings of the connection to the device.
#[derive(Debug, Clone)]
pub struct AdbSettings {
    /// The path of the bridge program.
    pub path: String,
    /// The address of the device.
    pub address: String,
    pub extra: ExtraAdb,
}

impl Default for AdbSettings {
    fn default() -> (r: AdbSettings)
        ensures
            r.path@ == DEFAULT_ADB_PATH@,
            r.address@ == DEFAULT_ADB_ADDRESS@,
            r.extra matches ExtraAdb::MuMuEmulator12(m) && m.enable && m.bridge_index is None
                && m.emulator_path@ == DEFAULT_EMULATOR_PATH@,
    {
        AdbSettings {
            path: String::from_str(DEFAULT_ADB_PATH),
            address: String::from_str(DEFAULT_ADB_ADDRESS),
            extra: ExtraAdb::MuMuEmulator12(MuMuEmulator12ConnectionExtras::default()),
        }
    }
}

} // verus!
