use crate::protocol::InfoField;
use vstd::prelude::*;

verus! {

/// One sensor reading, in the fixed-point units of the payload.
#[derive(Clone, Copy, Debug, PartialEq, Eq, Structural)]
pub struct Data {
    /// Carbon dioxide concentration, in ppm.
    pub co2: u32,
    /// Temperature, in twentieths of a degree Celsius.
    pub temperature_twentieths: u32,
    /// Pressure, in tenths of a hectopascal.
    pub pressure_tenths: u32,
    /// Relative humidity, in percent.
    pub humidity: u32,
    /// Battery level, in percent; passed through as the device reports it.
    pub battery: u32,
}

/// The identity strings of a device; each is present only if it could be read.
#[derive(Clone, Debug)]
pub struct Info {
    pub model_number: Option<String>,
    pub serial_number: Option<String>,
    pub firmware_revision: Option<String>,
    pub hardware_revision: Option<String>,
    pub software_revision: Option<String>,
    pub manufacturer_name: Option<String>,
}

/// The text held by an optional string.
pub open spec fn text_of(o: Option<String>) -> Option<Seq<char>> {
    match o {
        Some(s) => Some(s@),
        None => None,
    }
}

impl Info {
    /// The text of one identity field.
    pub open spec fn field(&self, f: InfoField) -> Option<Seq<char>> {
        match f {
            InfoField::ModelNumber => text_of(self.model_number),
            InfoField::SerialNumber => text_of(self.serial_number),
            InfoField::FirmwareRevision => text_of(self.firmware_revision),
            InfoField::HardwareRevision => text_of(self.hardware_revision),
            InfoField::SoftwareRevision => text_of(self.software_revision),
            InfoField::ManufacturerName => text_of(self.manufacturer_name),
        }
    }

    /// An identity with every field unset.
    pub fn new() -> (r: Info)
        ensures
            forall|f: InfoField| r.field(f) is None,
    {
        Info {
            model_number: None,
            serial_number: None,
            firmware_revision: None,
            hardware_revision: None,
            software_revision: None,
            manufacturer_name: None,
        }
    }

    /// Sets one field and leaves the other five as they were.
    pub fn set(&mut self, f: InfoField, value: String)
        ensures
            forall|g: InfoField|
                #[trigger] final(self).field(g) == if g == f {
                    Some(value@)
                } else {
                    old(self).field(g)
                },
    {
        match f {
            InfoField::ModelNumber => self.model_number = Some(value),
            InfoField::SerialNumber => self.serial_number = Some(value),
            InfoField::FirmwareRevision => self.firmware_revision = Some(value),
            InfoField::HardwareRevision => self.hardware_revision = Some(value),
            InfoField::SoftwareRevision => self.software_revision = Some(value),
            InfoField::ManufacturerName => self.manufacturer_name = Some(value),
        }
    }
}

impl Default for Info {
    fn default() -> (r: Info)
        ensures
            forall|f: InfoField| r.field(f) is None,
    {
        Info::new()
    }
}

/// Everything read from one device in a discovery pass.
#[derive(Clone, Debug)]
pub struct Device {
    /// The device's advertised display name.
    pub name: String,
    /// The device's six-byte hardware address.
    pub address: [u8; 6],
    pub data: Data,
    pub info: Info,
}

} // verus!
