use rmk::vial::{
    deserialize, serialize, ShortSettings, VialConfig, VialDeviceSettings, VialDeviceSettingsData,
    VIAL_DEVICE_SETTINGS_MAX_LEN,
};

type Get = fn(u16, &mut [u8]) -> Option<usize>;
type Put = fn(u16, &[u8]) -> bool;
type Save = fn() -> VialDeviceSettingsData;
type Load = fn(&[u8]);

#[test]
fn empty_settings_are_zero() {
    let empty = VialDeviceSettingsData::empty();
    assert_eq!(empty.len, 0);
    assert!(empty.data.iter().all(|byte| *byte == 0));
    assert_eq!(VialDeviceSettingsData::default().data, empty.data);
}

#[test]
fn settings_survive_storage() {
    let mut data = [0u8; VIAL_DEVICE_SETTINGS_MAX_LEN];
    for (i, byte) in data.iter_mut().enumerate() {
        *byte = i as u8;
    }
    let elements = serialize(&data);
    assert_eq!(elements.len(), 224);
    assert_eq!(deserialize(&elements), Ok(data));
}

#[test]
fn short_settings_are_refused_and_long_ones_cut() {
    assert_eq!(deserialize(&[1u8; VIAL_DEVICE_SETTINGS_MAX_LEN - 1]), Err(ShortSettings));
    assert_eq!(deserialize(&[]), Err(ShortSettings));
    assert_eq!(deserialize(&[1u8; VIAL_DEVICE_SETTINGS_MAX_LEN + 5]), Ok([1u8; VIAL_DEVICE_SETTINGS_MAX_LEN]));
}

#[test]
fn configs_start_locked_and_without_settings() {
    let keys = [(0u8, 0u8), (1, 1)];
    let config: VialConfig<Get, Put, Save, Load> = VialConfig::new(&[1, 2], &[3], &keys);
    assert_eq!(config.vial_keyboard_id, &[1, 2]);
    assert_eq!(config.vial_keyboard_def, &[3]);
    assert_eq!(config.unlock_keys, &keys);
    assert!(config.device_settings.is_none());
    assert!(!config.vial_insecure);
    let default: VialConfig<Get, Put, Save, Load> = VialConfig::default();
    assert!(default.vial_keyboard_id.is_empty());
    assert!(default.unlock_keys.is_empty());
}

#[test]
fn configs_hold_access_to_the_settings() {
    fn get(_: u16, out: &mut [u8]) -> Option<usize> {
        out[0] = 9;
        Some(1)
    }
    fn put(key: u16, _: &[u8]) -> bool {
        key == 4
    }
    fn load(_: &[u8]) {}
    let settings: VialDeviceSettings<Get, Put, Save, Load> = VialDeviceSettings {
        setting_keys: &[4],
        get_setting: get,
        set_setting: put,
        serialize: VialDeviceSettingsData::empty,
        deserialize: load,
    };
    let mut config: VialConfig<Get, Put, Save, Load> = VialConfig::default();
    config.device_settings = Some(settings);
    let settings = config.device_settings.unwrap();
    let mut out = [0u8; 1];
    assert_eq!((settings.get_setting)(4, &mut out), Some(1));
    assert_eq!(out, [9]);
    assert!((settings.set_setting)(4, &[]));
    assert_eq!((settings.serialize)().len, 0);
}
