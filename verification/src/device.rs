//! Devices with their battery readings, and the line that shows one.

use crate::battery::{percent_text, BatteryLevel};
use vstd::prelude::*;

verus! {

/// Where a device is reached.
#[derive(Debug)]
pub enum DeviceAddress {
    /// The address of a classic Bluetooth device.
    Classic(String),
    /// A low-energy device. The platform keeps its address to itself.
    Ble,
}

/// A device address as plain data.
pub enum AddressView {
    Classic(Seq<char>),
    Ble,
}

impl View for DeviceAddress {
    type V = AddressView;

    open spec fn view(&self) -> AddressView {
        match self {
            DeviceAddress::Classic(address) => AddressView::Classic(address@),
            DeviceAddress::Ble => AddressView::Ble,
        }
    }
}

impl DeepView for DeviceAddress {
    type V = AddressView;

    open spec fn deep_view(&self) -> AddressView {
        self@
    }
}

impl AddressView {
    /// The address as it is shown: the address itself, or `BLE`.
    pub open spec fn text(self) -> Seq<char> {
        match self {
            AddressView::Classic(address) => address,
            AddressView::Ble => seq!['B', 'L', 'E'],
        }
    }
}

impl Clone for DeviceAddress {
    fn clone(&self) -> (copy: Self)
        ensures
            copy@ == self@,
    {
        match self {
            DeviceAddress::Classic(address) => DeviceAddress::Classic(address.clone()),
            DeviceAddress::Ble => DeviceAddress::Ble,
        }
    }
}

impl DeviceAddress {
    /// The address as it is shown: the address itself, or `BLE`.
    pub fn to_string(&self) -> (text: String)
        ensures
            text@ == self@.text(),
    {
        match self {
            DeviceAddress::Classic(address) => address.clone(),
            DeviceAddress::Ble => {
                proof {
                    reveal_strlit("BLE");
                }
                String::from_str("BLE")
            },
        }
    }
}

/// A Bluetooth device and what is known of its batteries. Accessories with
/// several parts report the left and right part and the case one by one.
#[derive(Debug)]
pub struct Device {
    /// The name that the device goes by.
    pub name: String,
    /// Where the device is reached.
    pub address: DeviceAddress,
    /// The battery of a device that has one.
    pub battery_level: Option<BatteryLevel>,
    /// The battery of the left part.
    pub battery_left: Option<BatteryLevel>,
    /// The battery of the right part.
    pub battery_right: Option<BatteryLevel>,
    /// The battery of the charging case.
    pub battery_case: Option<BatteryLevel>,
}

/// A device as plain data, each level by its percentage.
pub struct DeviceView {
    pub name: Seq<char>,
    pub address: AddressView,
    pub battery_level: Option<u8>,
    pub battery_left: Option<u8>,
    pub battery_right: Option<u8>,
    pub battery_case: Option<u8>,
}

impl View for Device {
    type V = DeviceView;

    open spec fn view(&self) -> DeviceView {
        DeviceView {
            name: self.name@,
            address: self.address@,
            battery_level: self.battery_level.deep_view(),
            battery_left: self.battery_left.deep_view(),
            battery_right: self.battery_right.deep_view(),
            battery_case: self.battery_case.deep_view(),
        }
    }
}

impl DeepView for Device {
    type V = DeviceView;

    open spec fn deep_view(&self) -> DeviceView {
        self@
    }
}

impl DeviceView {
    /// Whether any of the four readings is there.
    pub open spec fn has_battery_info(self) -> bool {
        self.battery_level is Some || self.battery_left is Some || self.battery_right is Some
            || self.battery_case is Some
    }

    /// The readings of the parts that have one, each under its label, in the
    /// order left, right, case.
    pub open spec fn part_texts(self) -> Seq<Seq<char>> {
        let left = match self.battery_left {
            Some(level) => seq![seq!['L', ':'] + percent_text(level)],
            None => seq![],
        };
        let right = match self.battery_right {
            Some(level) => seq![seq!['R', ':'] + percent_text(level)],
            None => seq![],
        };
        let case = match self.battery_case {
            Some(level) => seq![seq!['C', 'a', 's', 'e', ':'] + percent_text(level)],
            None => seq![],
        };
        left + right + case
    }

    /// The line that shows the device: its name, a colon and a space, then
    /// the single reading if there is one, else the readings of the parts
    /// with a space between them.
    pub open spec fn line(self) -> Seq<char> {
        let head = self.name + seq![':', ' '];
        match self.battery_level {
            Some(level) => head + percent_text(level),
            None => head + joined(self.part_texts(), seq![' ']),
        }
    }
}

/// The texts in order, with the separator between each two of them.
pub open spec fn joined(parts: Seq<Seq<char>>, separator: Seq<char>) -> Seq<char>
    decreases parts.len(),
{
    if parts.len() == 0 {
        seq![]
    } else if parts.len() == 1 {
        parts[0]
    } else {
        joined(parts.drop_last(), separator) + separator + parts.last()
    }
}

/// Joins the texts with the separator between each two of them.
pub fn join(parts: &Vec<String>, separator: &str) -> (text: String)
    ensures
        text@ == joined(parts.deep_view(), separator@),
{
    let mut text = String::new();
    let mut i: usize = 0;
    while i < parts.len()
        invariant
            i <= parts.len(),
            text@ == joined(parts.deep_view().take(i as int), separator@),
        decreases parts.len() - i,
    {
        if i > 0 {
            text.append(separator);
        }
        text.append(parts[i].as_str());
        assert(parts.deep_view().take(i + 1).drop_last() =~= parts.deep_view().take(i as int));
        i += 1;
    }
    assert(parts.deep_view().take(i as int) =~= parts.deep_view());
    text
}

impl Device {
    /// Whether any of the four readings is there.
    pub fn has_battery_info(&self) -> (has: bool)
        ensures
            has == self@.has_battery_info(),
    {
        self.battery_level.is_some() || self.battery_left.is_some() || self.battery_right.is_some()
            || self.battery_case.is_some()
    }
}

/// The line that shows a device on a terminal, such as `Keyboard: 76%` or
/// `AirPods Pro: L:80% R:90% Case:100%`.
pub fn format_device_output(device: &Device) -> (line: String)
    ensures
        line@ == device@.line(),
{
    proof {
        reveal_strlit(": ");
        reveal_strlit("L:");
        reveal_strlit("R:");
        reveal_strlit("Case:");
        reveal_strlit(" ");
    }
    let mut line = device.name.clone();
    line.append(": ");
    if let Some(level) = device.battery_level {
        line.append(level.to_string().as_str());
    } else {
        let mut parts: Vec<String> = Vec::new();
        if let Some(left) = device.battery_left {
            let mut part = String::from_str("L:");
            part.append(left.to_string().as_str());
            assert(part@ =~= seq!['L', ':'] + percent_text(left@));
            parts.push(part);
        }
        if let Some(right) = device.battery_right {
            let mut part = String::from_str("R:");
            part.append(right.to_string().as_str());
            assert(part@ =~= seq!['R', ':'] + percent_text(right@));
            parts.push(part);
        }
        if let Some(case) = device.battery_case {
            let mut part = String::from_str("Case:");
            part.append(case.to_string().as_str());
            assert(part@ =~= seq!['C', 'a', 's', 'e', ':'] + percent_text(case@));
            parts.push(part);
        }
        assert(parts.deep_view() =~= device@.part_texts());
        let tail = join(&parts, " ");
        assert(" "@ =~= seq![' ']);
        line.append(tail.as_str());
    }
    line
}

} // verus!
