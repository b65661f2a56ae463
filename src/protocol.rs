use vstd::prelude::*;

verus! {

/// The GATT service that every Aranet4 device advertises.
pub const TARGET_SERVICE: u128 = 0x0000fce0_0000_1000_8000_00805f9b34fb;

/// The characteristic that holds the current sensor readings.
pub const SENSOR_CHARACTERISTIC: u128 = 0xf0cd3001_95da_4f4b_9ac8_aa55d312af0c;

/// Device-information profile: model number string.
pub const MODEL_NUMBER_CHARACTERISTIC: u128 = 0x00002a24_0000_1000_8000_00805f9b34fb;

/// Device-information profile: serial number string.
pub const SERIAL_NUMBER_CHARACTERISTIC: u128 = 0x00002a25_0000_1000_8000_00805f9b34fb;

/// Device-information profile: firmware revision string.
pub const FIRMWARE_REVISION_CHARACTERISTIC: u128 = 0x00002a26_0000_1000_8000_00805f9b34fb;

/// Device-information profile: hardware revision string.
pub const HARDWARE_REVISION_CHARACTERISTIC: u128 = 0x00002a27_0000_1000_8000_00805f9b34fb;

/// Device-information profile: software revision string.
pub const SOFTWARE_REVISION_CHARACTERISTIC: u128 = 0x00002a28_0000_1000_8000_00805f9b34fb;

/// Device-information profile: manufacturer name string.
pub const MANUFACTURER_NAME_CHARACTERISTIC: u128 = 0x00002a29_0000_1000_8000_00805f9b34fb;

/// The six identity fields of a device.
#[derive(Clone, Copy, Debug, PartialEq, Eq, Structural)]
pub enum InfoField {
    ModelNumber,
    SerialNumber,
    FirmwareRevision,
    HardwareRevision,
    SoftwareRevision,
    ManufacturerName,
}

/// The identity field that a characteristic identifier carries, if any.
pub open spec fn field_of(uuid: u128) -> Option<InfoField> {
    if uuid == MODEL_NUMBER_CHARACTERISTIC {
        Some(InfoField::ModelNumber)
    } else if uuid == SERIAL_NUMBER_CHARACTERISTIC {
        Some(InfoField::SerialNumber)
    } else if uuid == FIRMWARE_REVISION_CHARACTERISTIC {
        Some(InfoField::FirmwareRevision)
    } else if uuid == HARDWARE_REVISION_CHARACTERISTIC {
        Some(InfoField::HardwareRevision)
    } else if uuid == SOFTWARE_REVISION_CHARACTERISTIC {
        Some(InfoField::SoftwareRevision)
    } else if uuid == MANUFACTURER_NAME_CHARACTERISTIC {
        Some(InfoField::ManufacturerName)
    } else {
        None
    }
}

/// Maps a characteristic identifier to the identity field it carries.
pub fn identity_field(uuid: u128) -> (r: Option<InfoField>)
    ensures
        r == field_of(uuid),
{
    if uuid == MODEL_NUMBER_CHARACTERISTIC {
        Some(InfoField::ModelNumber)
    } else if uuid == SERIAL_NUMBER_CHARACTERISTIC {
        Some(InfoField::SerialNumber)
    } else if uuid == FIRMWARE_REVISION_CHARACTERISTIC {
        Some(InfoField::FirmwareRevision)
    } else if uuid == HARDWARE_REVISION_CHARACTERISTIC {
        Some(InfoField::HardwareRevision)
    } else if uuid == SOFTWARE_REVISION_CHARACTERISTIC {
        Some(InfoField::SoftwareRevision)
    } else if uuid == MANUFACTURER_NAME_CHARACTERISTIC {
        Some(InfoField::ManufacturerName)
    } else {
        None
    }
}

/// Whether a device's own advertised service set holds the target service.
pub fn advertises_target(services: &Vec<u128>) -> (r: bool)
    ensures
        r == services@.contains(TARGET_SERVICE),
{
    let mut i: usize = 0;
    while i < services.len()
        invariant
            i <= services.len(),
            forall|j: int| 0 <= j < i ==> services@[j] != TARGET_SERVICE,
        decreases services.len() - i,
    {
        if services[i] == TARGET_SERVICE {
            return true;
        }
        i = i + 1;
    }
    false
}

} // verus!
