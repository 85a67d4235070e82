//! Configuration of the keyboard by a Vial host.

use vstd::prelude::*;

verus! {

/// Size of the device settings in storage.
pub const VIAL_DEVICE_SETTINGS_MAX_LEN: usize = 224;

/// Device settings as they are stored: `len` bytes of `data` are in use.
#[derive(Clone, Copy, Debug)]
pub struct VialDeviceSettingsData {
    pub len: u8,
    pub data: [u8; VIAL_DEVICE_SETTINGS_MAX_LEN],
}

impl Default for VialDeviceSettingsData {
    fn default() -> (settings: Self)
        ensures
            settings.len == 0,
            forall|i: int| 0 <= i < VIAL_DEVICE_SETTINGS_MAX_LEN ==> settings.data@[i] == 0,
    {
        Self::empty()
    }
}

impl VialDeviceSettingsData {
    /// No settings.
    pub fn empty() -> (settings: Self)
        ensures
            settings.len == 0,
            forall|i: int| 0 <= i < VIAL_DEVICE_SETTINGS_MAX_LEN ==> settings.data@[i] == 0,
    {
        VialDeviceSettingsData { len: 0, data: [0; VIAL_DEVICE_SETTINGS_MAX_LEN] }
    }
}

/// The stored elements were fewer than the settings need.
#[derive(Clone, Copy, Debug, PartialEq, Eq, Structural)]
pub struct ShortSettings;

/// Elements of stored settings, one per byte.
pub open spec fn stored(data: Seq<u8>) -> Seq<u8> {
    data
}

/// Settings from stored elements, if there are enough of them.
pub open spec fn loaded(elements: Seq<u8>) -> Option<Seq<u8>> {
    if elements.len() >= VIAL_DEVICE_SETTINGS_MAX_LEN {
        Some(elements.take(VIAL_DEVICE_SETTINGS_MAX_LEN as int))
    } else {
        None
    }
}

/// Elements of stored settings, one per byte.
pub fn serialize(data: &[u8; VIAL_DEVICE_SETTINGS_MAX_LEN]) -> (elements: Vec<u8>)
    ensures
        elements@ == stored(data@),
{
    let mut elements: Vec<u8> = Vec::new();
    let mut i: usize = 0;
    while i < VIAL_DEVICE_SETTINGS_MAX_LEN
        invariant
            i <= VIAL_DEVICE_SETTINGS_MAX_LEN,
            elements@ == data@.take(i as int),
        decreases VIAL_DEVICE_SETTINGS_MAX_LEN - i,
    {
        elements.push(data[i]);
        i += 1;
        assert(elements@ =~= data@.take(i as int));
    }
    assert(elements@ =~= data@);
    elements
}

/// Settings from stored elements. Elements beyond the size of the settings are not
/// looked at; too few are an error.
pub fn deserialize(elements: &[u8]) -> (data: Result<[u8; VIAL_DEVICE_SETTINGS_MAX_LEN], ShortSettings>)
    ensures
        data is Ok <==> loaded(elements@) is Some,
        data matches Ok(d) ==> loaded(elements@) == Some(d@),
{
    let mut out: [u8; VIAL_DEVICE_SETTINGS_MAX_LEN] = [0; VIAL_DEVICE_SETTINGS_MAX_LEN];
    let mut i: usize = 0;
    while i < VIAL_DEVICE_SETTINGS_MAX_LEN
        invariant
            i <= VIAL_DEVICE_SETTINGS_MAX_LEN,
            i <= elements@.len(),
            forall|j: int| 0 <= j < i ==> out@[j] == elements@[j],
        decreases VIAL_DEVICE_SETTINGS_MAX_LEN - i,
    {
        if i >= elements.len() {
            return Err(ShortSettings);
        }
        out[i] = elements[i];
        i += 1;
    }
    assert(out@ =~= elements@.take(VIAL_DEVICE_SETTINGS_MAX_LEN as int));
    Ok(out)
}

/// Settings that were stored come back unchanged, whatever follows them in storage, and
/// each byte is one element; fewer than 224 elements are no settings.
pub proof fn law_settings_survive_storage(data: Seq<u8>, more: Seq<u8>, few: Seq<u8>)
    requires
        data.len() == 224,
        few.len() < 224,
    ensures
        stored(data).len() == 224,
        forall|i: int| 0 <= i < 224 ==> stored(data)[i] == data[i],
        loaded(stored(data)) == Some(data),
        loaded(stored(data) + more) == Some(data),
        loaded(few) is None,
{
    assert(stored(data).take(224) =~= data);
    assert((stored(data) + more).take(224) =~= data);
}

/// Access to the device settings: the keys that there are, and what reads, writes, saves
/// and loads them.
#[derive(Clone, Copy, Debug)]
pub struct VialDeviceSettings<'a, Get, Put, Save, Load> {
    pub setting_keys: &'a [u16],
    pub get_setting: Get,
    pub set_setting: Put,
    pub serialize: Save,
    pub deserialize: Load,
}

/// Config for [vial](https://get.vial.today/).
#[derive(Clone, Copy, Debug)]
pub struct VialConfig<'a, Get, Put, Save, Load> {
    pub vial_keyboard_id: &'a [u8],
    pub vial_keyboard_def: &'a [u8],
    pub unlock_keys: &'a [(u8, u8)],
    pub device_settings: Option<VialDeviceSettings<'a, Get, Put, Save, Load>>,
    pub vial_insecure: bool,
}

impl<'a, Get, Put, Save, Load> Default for VialConfig<'a, Get, Put, Save, Load> {
    fn default() -> (config: Self)
        ensures
            config.vial_keyboard_id@.len() == 0,
            config.vial_keyboard_def@.len() == 0,
            config.unlock_keys@.len() == 0,
            config.device_settings is None,
            !config.vial_insecure,
    {
        VialConfig {
            vial_keyboard_id: &[],
            vial_keyboard_def: &[],
            unlock_keys: &[],
            device_settings: None,
            vial_insecure: false,
        }
    }
}

impl<'a, Get, Put, Save, Load> VialConfig<'a, Get, Put, Save, Load> {
    /// A keyboard that is locked and has no device settings.
    pub fn new(vial_keyboard_id: &'a [u8], vial_keyboard_def: &'a [u8], unlock_keys: &'a [(u8, u8)]) -> (config: Self)
        ensures
            config.vial_keyboard_id == vial_keyboard_id,
            config.vial_keyboard_def == vial_keyboard_def,
            config.unlock_keys == unlock_keys,
            config.device_settings is None,
            !config.vial_insecure,
    {
        VialConfig { vial_keyboard_id, vial_keyboard_def, unlock_keys, device_settings: None, vial_insecure: false }
    }
}

} // verus!
