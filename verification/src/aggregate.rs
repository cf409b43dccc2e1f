//! Merging the readings of the GATT Battery Service with those that the
//! platform keeps for paired classic devices.

use crate::battery::{is_valid_percentage, BatteryLevel};
use crate::device::{AddressView, Device, DeviceAddress, DeviceView};
use crate::text::{lowercase_of, name_passes, passes_name_filter, to_lowercase};
use vstd::prelude::*;

verus! {

/// What the platform's record of a paired classic device holds. The four
/// battery fields are raw: 0 or a value above 100 means that no reading is
/// there.
#[derive(Debug)]
pub struct PairedDevice {
    /// Whether the device is connected now.
    pub connected: bool,
    /// The name of the device, where the platform has one.
    pub name: Option<String>,
    /// The address of the device, where the platform has one.
    pub address: Option<String>,
    /// The battery of a device that has one.
    pub battery_single: u8,
    /// The battery of the left part.
    pub battery_left: u8,
    /// The battery of the right part.
    pub battery_right: u8,
    /// The battery of the charging case.
    pub battery_case: u8,
}

/// The record of a paired device as plain data.
pub struct PairedView {
    pub connected: bool,
    pub name: Option<Seq<char>>,
    pub address: Option<Seq<char>>,
    pub battery_single: u8,
    pub battery_left: u8,
    pub battery_right: u8,
    pub battery_case: u8,
}

impl View for PairedDevice {
    type V = PairedView;

    open spec fn view(&self) -> PairedView {
        PairedView {
            connected: self.connected,
            name: self.name.deep_view(),
            address: self.address.deep_view(),
            battery_single: self.battery_single,
            battery_left: self.battery_left,
            battery_right: self.battery_right,
            battery_case: self.battery_case,
        }
    }
}

impl DeepView for PairedDevice {
    type V = PairedView;

    open spec fn deep_view(&self) -> PairedView {
        self@
    }
}

/// The reading that a raw battery field stands for.
pub open spec fn level_of(raw: u8) -> Option<u8> {
    if is_valid_percentage(raw) {
        Some(raw)
    } else {
        None
    }
}

/// The address under which a classic device is listed when the platform has
/// none for it.
pub open spec fn unknown_address() -> Seq<char> {
    seq!['u', 'n', 'k', 'n', 'o', 'w', 'n']
}

/// The device that one reading of the Battery Service gives: none when the
/// name does not pass the filter or the byte is no valid percentage.
pub open spec fn gatt_device(reading: (Seq<char>, u8), name_filter: Option<Seq<char>>) -> Option<
    DeviceView,
> {
    if name_passes(reading.0, name_filter) && is_valid_percentage(reading.1) {
        Some(
            DeviceView {
                name: reading.0,
                address: AddressView::Ble,
                battery_level: Some(reading.1),
                battery_left: None,
                battery_right: None,
                battery_case: None,
            },
        )
    } else {
        None
    }
}

/// The devices that the readings give, in the order of the readings.
pub open spec fn gatt_devices(
    readings: Seq<(Seq<char>, u8)>,
    name_filter: Option<Seq<char>>,
) -> Seq<DeviceView>
    decreases readings.len(),
{
    if readings.len() == 0 {
        seq![]
    } else {
        let earlier = gatt_devices(readings.drop_last(), name_filter);
        match gatt_device(readings.last(), name_filter) {
            Some(device) => earlier.push(device),
            None => earlier,
        }
    }
}

/// The device that one paired record gives. There is none when the device is
/// not connected, has no name, goes by a name in `seen`, does not pass the
/// filter, or has no valid reading in any of its four fields.
pub open spec fn classic_device(
    paired: PairedView,
    name_filter: Option<Seq<char>>,
    seen: Seq<Seq<char>>,
) -> Option<DeviceView> {
    match paired.name {
        Some(name) if paired.connected && !seen.contains(name) && name_passes(
            name,
            name_filter,
        ) => {
            let device = DeviceView {
                name,
                address: AddressView::Classic(
                    match paired.address {
                        Some(address) => address,
                        None => unknown_address(),
                    },
                ),
                battery_level: level_of(paired.battery_single),
                battery_left: level_of(paired.battery_left),
                battery_right: level_of(paired.battery_right),
                battery_case: level_of(paired.battery_case),
            };
            if device.has_battery_info() {
                Some(device)
            } else {
                None
            }
        },
        _ => None,
    }
}

/// The devices that the paired records give, in the order of the records.
pub open spec fn classic_devices(
    paired: Seq<PairedView>,
    name_filter: Option<Seq<char>>,
    seen: Seq<Seq<char>>,
) -> Seq<DeviceView>
    decreases paired.len(),
{
    if paired.len() == 0 {
        seq![]
    } else {
        let earlier = classic_devices(paired.drop_last(), name_filter, seen);
        match classic_device(paired.last(), name_filter, seen) {
            Some(device) => earlier.push(device),
            None => earlier,
        }
    }
}

/// The names of the devices, in order.
pub open spec fn names_of(devices: Seq<DeviceView>) -> Seq<Seq<char>> {
    Seq::new(devices.len(), |i: int| devices[i].name)
}

/// All connected devices with a reading: those of the Battery Service first,
/// then the paired devices that go by another name. The filter is taken in
/// lower case.
pub open spec fn connected_devices(
    readings: Seq<(Seq<char>, u8)>,
    paired: Seq<PairedView>,
    name_filter: Option<Seq<char>>,
) -> Seq<DeviceView> {
    let lower = match name_filter {
        Some(filter) => Some(lowercase_of(filter)),
        None => None,
    };
    let gatt = gatt_devices(readings, lower);
    gatt + classic_devices(paired, lower, names_of(gatt))
}

/// Whether a reading that is there is a valid percentage.
pub open spec fn is_valid_reading(reading: Option<u8>) -> bool {
    reading matches Some(level) ==> is_valid_percentage(level)
}

/// Every device that the readings give is a low-energy device whose name
/// passes the filter, with one valid reading and no readings of parts.
pub proof fn law_gatt_devices_are_valid(
    readings: Seq<(Seq<char>, u8)>,
    name_filter: Option<Seq<char>>,
)
    ensures
        gatt_devices(readings, name_filter).len() <= readings.len(),
        forall|i: int|
            0 <= i < gatt_devices(readings, name_filter).len() ==> {
                let device = #[trigger] gatt_devices(readings, name_filter)[i];
                &&& device.address is Ble
                &&& name_passes(device.name, name_filter)
                &&& device.battery_level is Some
                &&& is_valid_reading(device.battery_level)
                &&& device.battery_left is None
                &&& device.battery_right is None
                &&& device.battery_case is None
            },
    decreases readings.len(),
{
    if readings.len() > 0 {
        law_gatt_devices_are_valid(readings.drop_last(), name_filter);
    }
}

/// Every device that the paired records give is a classic device whose name
/// passes the filter and is none of those seen before, with a reading in at
/// least one place and no reading that is not a valid percentage.
pub proof fn law_classic_devices_are_new(
    paired: Seq<PairedView>,
    name_filter: Option<Seq<char>>,
    seen: Seq<Seq<char>>,
)
    ensures
        classic_devices(paired, name_filter, seen).len() <= paired.len(),
        forall|i: int|
            0 <= i < classic_devices(paired, name_filter, seen).len() ==> {
                let device = #[trigger] classic_devices(paired, name_filter, seen)[i];
                &&& device.address is Classic
                &&& name_passes(device.name, name_filter)
                &&& !seen.contains(device.name)
                &&& device.has_battery_info()
                &&& is_valid_reading(device.battery_level)
                &&& is_valid_reading(device.battery_left)
                &&& is_valid_reading(device.battery_right)
                &&& is_valid_reading(device.battery_case)
            },
    decreases paired.len(),
{
    if paired.len() > 0 {
        law_classic_devices_are_new(paired.drop_last(), name_filter, seen);
    }
}

/// In the list of all connected devices, no paired device goes by the name
/// of a device of the Battery Service.
pub proof fn law_connected_devices_list_a_name_once(
    readings: Seq<(Seq<char>, u8)>,
    paired: Seq<PairedView>,
    name_filter: Option<Seq<char>>,
)
    ensures
        ({
            let all = connected_devices(readings, paired, name_filter);
            forall|i: int, j: int|
                #![trigger all[i], all[j]]
                0 <= i < all.len() && 0 <= j < all.len() && all[i].address is Ble
                    && all[j].address is Classic ==> all[i].name != all[j].name
        }),
{
    let lower = match name_filter {
        Some(filter) => Some(lowercase_of(filter)),
        None => None,
    };
    let gatt = gatt_devices(readings, lower);
    let seen = names_of(gatt);
    let classic = classic_devices(paired, lower, seen);
    let all = connected_devices(readings, paired, name_filter);
    law_gatt_devices_are_valid(readings, lower);
    law_classic_devices_are_new(paired, lower, seen);
    assert forall|i: int, j: int|
        0 <= i < all.len() && 0 <= j < all.len() && all[i].address is Ble && all[j].address
            is Classic implies all[i].name != all[j].name by {
        assert(all[i] == gatt[i]);
        assert(all[j] == classic[j - gatt.len()]);
        assert(seen[i] == gatt[i].name);
    }
}

/// The devices that the readings of the Battery Service give: one for each
/// reading whose name passes the filter and whose byte is a valid percentage,
/// in the order of the readings. The filter must be in lower case already.
pub fn get_gatt_devices(readings: &Vec<(String, u8)>, name_filter: Option<&str>) -> (devices: Vec<
    Device,
>)
    ensures
        devices.deep_view() == gatt_devices(readings.deep_view(), name_filter.deep_view()),
{
    let mut devices: Vec<Device> = Vec::new();
    let mut i: usize = 0;
    while i < readings.len()
        invariant
            i <= readings.len(),
            devices.deep_view() == gatt_devices(
                readings.deep_view().take(i as int),
                name_filter.deep_view(),
            ),
        decreases readings.len() - i,
    {
        let reading = &readings[i];
        assert(readings.deep_view().take(i + 1).drop_last() =~= readings.deep_view().take(
            i as int,
        ));
        if passes_name_filter(reading.0.as_str(), name_filter) {
            let battery_level = BatteryLevel::new(reading.1);
            if battery_level.is_some() {
                let device = Device {
                    name: reading.0.clone(),
                    address: DeviceAddress::Ble,
                    battery_level,
                    battery_left: None,
                    battery_right: None,
                    battery_case: None,
                };
                devices.push(device);
            }
        }
        i += 1;
    }
    assert(readings.deep_view().take(i as int) =~= readings.deep_view());
    devices
}

/// Whether `name` is one of `names`.
pub fn is_seen(names: &Vec<String>, name: &String) -> (seen: bool)
    ensures
        seen == names.deep_view().contains(name@),
{
    let mut i: usize = 0;
    while i < names.len()
        invariant
            i <= names.len(),
            forall|j: int| 0 <= j < i ==> names.deep_view()[j] != name@,
        decreases names.len() - i,
    {
        if names[i] == *name {
            assert(names.deep_view()[i as int] == name@);
            return true;
        }
        i += 1;
    }
    false
}

/// The devices that the records of the paired classic devices give, in the
/// order of the records. A record gives a device when it is connected, has a
/// name that is not in `seen_names` and passes the filter, and holds a valid
/// reading in at least one of its four fields. The filter must be in lower
/// case already.
pub fn get_iobluetooth_devices(
    paired: &Vec<PairedDevice>,
    name_filter: Option<&str>,
    seen_names: &Vec<String>,
) -> (devices: Vec<Device>)
    ensures
        devices.deep_view() == classic_devices(
            paired.deep_view(),
            name_filter.deep_view(),
            seen_names.deep_view(),
        ),
{
    let mut devices: Vec<Device> = Vec::new();
    let mut i: usize = 0;
    while i < paired.len()
        invariant
            i <= paired.len(),
            devices.deep_view() == classic_devices(
                paired.deep_view().take(i as int),
                name_filter.deep_view(),
                seen_names.deep_view(),
            ),
        decreases paired.len() - i,
    {
        let record = &paired[i];
        assert(paired.deep_view().take(i + 1).drop_last() =~= paired.deep_view().take(i as int));
        i += 1;
        if !record.connected {
            continue ;
        }
        let name = match &record.name {
            Some(name) => name,
            None => {
                continue ;
            },
        };
        if is_seen(seen_names, name) {
            continue ;
        }
        if !passes_name_filter(name.as_str(), name_filter) {
            continue ;
        }
        let address = match &record.address {
            Some(address) => DeviceAddress::Classic(address.clone()),
            None => {
                proof {
                    reveal_strlit("unknown");
                }
                let unknown = String::from_str("unknown");
                assert(unknown@ =~= unknown_address());
                DeviceAddress::Classic(unknown)
            },
        };
        let device = Device {
            name: name.clone(),
            address,
            battery_level: BatteryLevel::new(record.battery_single),
            battery_left: BatteryLevel::new(record.battery_left),
            battery_right: BatteryLevel::new(record.battery_right),
            battery_case: BatteryLevel::new(record.battery_case),
        };
        if !device.has_battery_info() {
            continue ;
        }
        devices.push(device);
    }
    assert(paired.deep_view().take(i as int) =~= paired.deep_view());
    devices
}

/// All connected devices with a reading. The devices of the Battery Service
/// come first, in the order of their readings; then the paired classic
/// devices, in the order of their records, but for those that go by the name
/// of a device already listed. Only devices whose name holds the filter,
/// whatever the case of either, are listed.
pub fn get_connected_devices(
    readings: &Vec<(String, u8)>,
    paired: &Vec<PairedDevice>,
    name_filter: Option<&str>,
) -> (devices: Vec<Device>)
    ensures
        devices.deep_view() == connected_devices(
            readings.deep_view(),
            paired.deep_view(),
            name_filter.deep_view(),
        ),
{
    let filter_lower: Option<String> = match name_filter {
        Some(filter) => Some(to_lowercase(filter)),
        None => None,
    };
    let filter_ref: Option<&str> = match &filter_lower {
        Some(filter) => Some(filter.as_str()),
        None => None,
    };
    let mut devices = get_gatt_devices(readings, filter_ref);
    let ghost gatt = devices.deep_view();

    let mut seen_names: Vec<String> = Vec::new();
    let mut i: usize = 0;
    while i < devices.len()
        invariant
            i <= devices.len(),
            devices.deep_view() == gatt,
            seen_names.deep_view() == names_of(gatt).take(i as int),
        decreases devices.len() - i,
    {
        let ghost before = seen_names.deep_view();
        seen_names.push(devices[i].name.clone());
        assert(seen_names.deep_view() =~= before.push(devices[i as int].name@));
        i += 1;
    }
    assert(names_of(gatt).take(i as int) =~= names_of(gatt));

    let mut classic = get_iobluetooth_devices(paired, filter_ref, &seen_names);
    devices.append(&mut classic);
    devices
}

} // verus!
