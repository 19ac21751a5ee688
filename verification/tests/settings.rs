use maa_se::session::{core_library_name, set_connection_extras};
use maa_se::settings::{AdbSettings, ExtraAdb, MuMuEmulator12ConnectionExtras};

#[test]
fn extras_that_are_switched_off_are_the_empty_object() {
    let extras = MuMuEmulator12ConnectionExtras::new(false, "C:\\emu".to_string(), Some(1));
    assert_eq!(extras.config(), "{}");
}

#[test]
fn extras_hold_the_path_and_the_index() {
    let extras = MuMuEmulator12ConnectionExtras::new(true, "D:\\MuMuPlayer-12.0".to_string(), None);
    assert_eq!(extras.config(), "{\"path\":\"D:\\\\MuMuPlayer-12.0\"}");
    let extras = MuMuEmulator12ConnectionExtras::new(true, "/opt/\"mumu\"\n".to_string(), Some(12));
    assert_eq!(extras.config(), "{\"path\":\"/opt/\\\"mumu\\\"\\n\",\"index\":12}");
    let extras = MuMuEmulator12ConnectionExtras::new(true, "".to_string(), Some(0));
    assert_eq!(extras.config(), "{\"path\":\"\",\"index\":0}");
    let parsed: serde_json::Value = serde_json::from_str(&extras.config()).unwrap();
    assert_eq!(parsed["index"].as_u64(), Some(0));
}

#[test]
fn new_keeps_what_it_is_given() {
    let extras = MuMuEmulator12ConnectionExtras::new(true, "p".to_string(), Some(3));
    assert!(extras.enable);
    assert_eq!(extras.emulator_path, "p");
    assert_eq!(extras.bridge_index, Some(3));
}

#[test]
fn default_settings() {
    let extras = MuMuEmulator12ConnectionExtras::default();
    assert!(extras.enable);
    assert_eq!(extras.bridge_index, None);
    assert_eq!(extras.emulator_path, "D:\\MuMuPlayer-12.0");
    let settings = AdbSettings::default();
    assert_eq!(settings.path, "D:\\MuMuPlayer-12.0\\shell\\adb.exe");
    assert_eq!(settings.address, "127.0.0.1:16384");
    match settings.extra {
        ExtraAdb::MuMuEmulator12(m) => assert_eq!(m.config(), "{\"path\":\"D:\\\\MuMuPlayer-12.0\"}"),
        ExtraAdb::NoExtras => panic!("the default names an emulator"),
    }
    assert!(matches!(ExtraAdb::default(), ExtraAdb::NoExtras));
}

#[test]
fn the_engine_is_told_of_the_emulator_by_its_tag() {
    assert_eq!(ExtraAdb::NoExtras.tag(), "");
    let mumu = ExtraAdb::MuMuEmulator12(MuMuEmulator12ConnectionExtras::new(
        true,
        "p".to_string(),
        None,
    ));
    assert_eq!(mumu.tag(), "MuMuEmulator12");
    assert_eq!(set_connection_extras(&ExtraAdb::NoExtras), None);
    assert_eq!(
        set_connection_extras(&mumu),
        Some(("MuMuEmulator12".to_string(), "{\"path\":\"p\"}".to_string()))
    );
    let off = ExtraAdb::MuMuEmulator12(MuMuEmulator12ConnectionExtras::new(
        false,
        "p".to_string(),
        None,
    ));
    assert_eq!(set_connection_extras(&off), Some(("MuMuEmulator12".to_string(), "{}".to_string())));
}

#[test]
fn the_library_is_named_for_the_system() {
    assert_eq!(core_library_name("lib", ".so"), "libMaaCore.so");
    assert_eq!(core_library_name("", ".dll"), "MaaCore.dll");
    assert_eq!(core_library_name("lib", ".dylib"), "libMaaCore.dylib");
}
