//! Discovery and reading of Aranet4 environmental sensors over Bluetooth Low Energy.
//!
//! The library holds the logic of a discovery pass: the payload decoder, the
//! identity reader, the per-device session and the scan coordinator. The last two
//! are state machines: the caller performs the radio operation each one asks for
//! and reports back what happened.

mod decoder;
mod error;
mod info;
mod protocol;
mod record;
mod scan;
mod session;

pub use decoder::{decode, decoded_battery, decoded_co2, decoded_humidity, decoded_pressure, decoded_temperature};
pub use error::DiscoveryError;
pub use info::{field_set_iff_read, info_field_from, latest_value, lossy_text, read_info, CharacteristicRead};
pub use protocol::{
    advertises_target, field_of, identity_field, InfoField, FIRMWARE_REVISION_CHARACTERISTIC,
    HARDWARE_REVISION_CHARACTERISTIC, MANUFACTURER_NAME_CHARACTERISTIC, MODEL_NUMBER_CHARACTERISTIC,
    SENSOR_CHARACTERISTIC, SERIAL_NUMBER_CHARACTERISTIC, SOFTWARE_REVISION_CHARACTERISTIC,
    TARGET_SERVICE,
};
pub use record::{text_of, Data, Device, Info};
pub use scan::{honours_deadline, listen_or_stop, phase_awaiting, ScanAction, ScanCoordinator, ScanPhase};
pub use session::{is_reading_of, lists_identity_positions, name_text, DeviceSession, LinkState};
