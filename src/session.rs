use crate::decoder::{
    decode, decoded_battery, decoded_co2, decoded_humidity, decoded_pressure, decoded_temperature,
};
use crate::error::DiscoveryError;
use crate::info::{info_field_from, read_info, CharacteristicRead};
use crate::protocol::{field_of, identity_field, InfoField, SENSOR_CHARACTERISTIC};
use crate::record::{Data, Device};
use vstd::prelude::*;

verus! {

/// Where a peripheral stands in its connection lifecycle.
#[derive(Clone, Copy, Debug, PartialEq, Eq, Structural)]
pub enum LinkState {
    Discovered,
    Connected,
    ServicesDiscovered,
    Closed,
}

/// One device driven through connect, service discovery and reads.
///
/// The caller performs each operation on the radio and reports its outcome
/// through the matching method, which says what to do next. Characteristic
/// reads are accepted only once services have been discovered; a failure closes
/// the session.
#[derive(Debug)]
pub struct DeviceSession {
    /// The device's hardware address.
    pub address: [u8; 6],
    pub state: LinkState,
    /// The identifiers of the device's characteristics, in the order the radio lists them.
    pub characteristics: Vec<u128>,
    /// The display name, once read.
    pub name: Option<String>,
    /// The sensor reading, once decoded.
    pub data: Option<Data>,
}

/// Whether `d` is the reading that `b` encodes.
pub open spec fn is_reading_of(d: Data, b: Seq<u8>) -> bool {
    &&& b.len() >= 8
    &&& d.co2 == decoded_co2(b)
    &&& d.temperature_twentieths == decoded_temperature(b)
    &&& d.pressure_tenths == decoded_pressure(b)
    &&& d.humidity == decoded_humidity(b)
    &&& d.battery == decoded_battery(b)
}

/// Whether `idx` lists, in increasing order, exactly the positions of `chars`
/// that hold an identity characteristic.
pub open spec fn lists_identity_positions(idx: Seq<usize>, chars: Seq<u128>) -> bool {
    &&& forall|k: int| 0 <= k < idx.len() ==> #[trigger] idx[k] < chars.len() && field_of(chars[idx[k] as int]) is Some
    &&& forall|k: int, l: int| 0 <= k < l < idx.len() ==> idx[k] < idx[l]
    &&& forall|i: int| 0 <= i < chars.len() && (#[trigger] field_of(chars[i])) is Some ==> exists|k: int| 0 <= k < idx.len() && idx[k] == i
}

/// The text of an optional name.
pub open spec fn name_text(o: Option<String>) -> Seq<char> {
    match o {
        Some(s) => s@,
        None => Seq::empty(),
    }
}

/// The position of the first sensor characteristic among `chars`.
fn sensor_position(chars: &Vec<u128>) -> (r: Option<usize>)
    ensures
        r is Some <==> chars@.contains(SENSOR_CHARACTERISTIC),
        r matches Some(i) ==> i < chars@.len() && chars@[i as int] == SENSOR_CHARACTERISTIC
            && forall|j: int| 0 <= j < i ==> chars@[j] != SENSOR_CHARACTERISTIC,
{
    let mut i: usize = 0;
    while i < chars.len()
        invariant
            i <= chars.len(),
            forall|j: int| 0 <= j < i ==> chars@[j] != SENSOR_CHARACTERISTIC,
        decreases chars.len() - i,
    {
        if chars[i] == SENSOR_CHARACTERISTIC {
            return Some(i);
        }
        i = i + 1;
    }
    None
}

/// The positions of the identity characteristics among `chars`, in increasing order.
fn identity_positions(chars: &Vec<u128>) -> (idx: Vec<usize>)
    ensures
        lists_identity_positions(idx@, chars@),
{
    let mut idx: Vec<usize> = Vec::new();
    let mut i: usize = 0;
    while i < chars.len()
        invariant
            i <= chars.len(),
            forall|k: int| 0 <= k < idx.len() ==> #[trigger] idx@[k] < i && field_of(chars@[idx@[k] as int]) is Some,
            forall|k: int, l: int| 0 <= k < l < idx.len() ==> idx@[k] < idx@[l],
            forall|j: int|
                0 <= j < i && (#[trigger] field_of(chars@[j])) is Some ==> exists|k: int| 0 <= k < idx.len() && idx@[k] == j,
        decreases chars.len() - i,
    {
        let ghost before = idx@;
        if identity_field(chars[i]).is_some() {
            idx.push(i);
        }
        assert forall|j: int| 0 <= j <= i && (#[trigger] field_of(chars@[j])) is Some implies exists|k: int|
            0 <= k < idx.len() && idx@[k] == j by {
            if j < i {
                let k = choose|k: int| 0 <= k < before.len() && before[k] == j;
                assert(idx@[k] == j);
            } else {
                assert(idx@[idx.len() - 1] == j);
            }
        }
        i = i + 1;
    }
    idx
}

impl DeviceSession {
    /// A session for a freshly discovered device.
    pub fn new(address: [u8; 6]) -> (r: DeviceSession)
        ensures
            r.address == address,
            r.state == LinkState::Discovered,
            r.characteristics@.len() == 0,
            r.name is None,
            r.data is None,
    {
        DeviceSession { address, state: LinkState::Discovered, characteristics: Vec::new(), name: None, data: None }
    }

    /// Reports whether connecting succeeded.
    pub fn connected(&mut self, ok: bool) -> (r: Result<(), DiscoveryError>)
        ensures
            old(self).state != LinkState::Discovered ==> r == Err::<(), DiscoveryError>(DiscoveryError::InvalidState)
                && *final(self) == *old(self),
            old(self).state == LinkState::Discovered && ok ==> r is Ok
                && *final(self) == (DeviceSession { state: LinkState::Connected, ..*old(self) }),
            old(self).state == LinkState::Discovered && !ok ==> r == Err::<(), DiscoveryError>(DiscoveryError::ConnectionFailure)
                && *final(self) == (DeviceSession { state: LinkState::Closed, ..*old(self) }),
    {
        if self.state != LinkState::Discovered {
            return Err(DiscoveryError::InvalidState);
        }
        if ok {
            self.state = LinkState::Connected;
            Ok(())
        } else {
            self.state = LinkState::Closed;
            Err(DiscoveryError::ConnectionFailure)
        }
    }
    /// Reports the outcome of service discovery: the identifiers of the device's
    /// characteristics, or `None` if discovery failed.
    pub fn services_discovered(&mut self, characteristics: Option<Vec<u128>>) -> (r: Result<(), DiscoveryError>)
        ensures
            old(self).state != LinkState::Connected ==> r == Err::<(), DiscoveryError>(DiscoveryError::InvalidState)
                && *final(self) == *old(self),
            old(self).state == LinkState::Connected && characteristics is None ==> r == Err::<(), DiscoveryError>(
                DiscoveryError::ServiceDiscoveryFailure)
                && *final(self) == (DeviceSession { state: LinkState::Closed, ..*old(self) }),
            old(self).state == LinkState::Connected && characteristics is Some ==> r is Ok
                && *final(self) == (DeviceSession {
                    state: LinkState::ServicesDiscovered,
                    characteristics: characteristics->0,
                    ..*old(self)
                }),
    {
        if self.state != LinkState::Connected {
            return Err(DiscoveryError::InvalidState);
        }
        match characteristics {
            Some(c) => {
                self.state = LinkState::ServicesDiscovered;
                self.characteristics = c;
                Ok(())
            },
            None => {
                self.state = LinkState::Closed;
                Err(DiscoveryError::ServiceDiscoveryFailure)
            },
        }
    }

    /// Reports the device's advertised display name, if it has one.
    ///
    /// On success returns the position, among the characteristics, of the first
    /// sensor characteristic: the one to read next.
    pub fn name_read(&mut self, name: Option<String>) -> (r: Result<usize, DiscoveryError>)
        ensures
            !(old(self).state == LinkState::ServicesDiscovered && old(self).name is None) ==> r == Err::<
                usize,
                DiscoveryError,
            >(DiscoveryError::InvalidState) && *final(self) == *old(self),
            old(self).state == LinkState::ServicesDiscovered && old(self).name is None && name is None ==> r
                == Err::<usize, DiscoveryError>(DiscoveryError::MissingName) && *final(self) == (DeviceSession {
                state: LinkState::Closed,
                ..*old(self)
            }),
            old(self).state == LinkState::ServicesDiscovered && old(self).name is None && name is Some ==> {
                &&& final(self).address == old(self).address
                &&& final(self).characteristics == old(self).characteristics
                &&& final(self).data == old(self).data
                &&& final(self).name == name
                &&& (r is Ok <==> old(self).characteristics@.contains(SENSOR_CHARACTERISTIC))
                &&& r is Ok ==> final(self).state == LinkState::ServicesDiscovered
                &&& r is Err ==> r == Err::<usize, DiscoveryError>(DiscoveryError::MalformedPayload)
                    && final(self).state == LinkState::Closed
                &&& r matches Ok(i) ==> i < old(self).characteristics@.len()
                    && old(self).characteristics@[i as int] == SENSOR_CHARACTERISTIC
                    && forall|j: int| 0 <= j < i ==> old(self).characteristics@[j] != SENSOR_CHARACTERISTIC
            },
    {
        if !(self.state == LinkState::ServicesDiscovered && self.name.is_none()) {
            return Err(DiscoveryError::InvalidState);
        }
        if name.is_none() {
            self.state = LinkState::Closed;
            return Err(DiscoveryError::MissingName);
        }
        self.name = name;
        match sensor_position(&self.characteristics) {
            Some(i) => Ok(i),
            None => {
                self.state = LinkState::Closed;
                Err(DiscoveryError::MalformedPayload)
            },
        }
    }

    /// Reports the sensor characteristic's value, or `None` if reading it failed.
    ///
    /// On success returns, in increasing order, the positions of the identity
    /// characteristics among the device's characteristics: the ones to read next.
    pub fn payload_read(&mut self, payload: Option<Vec<u8>>) -> (r: Result<Vec<usize>, DiscoveryError>)
        ensures
            !(old(self).state == LinkState::ServicesDiscovered && old(self).name is Some && old(self).data is None)
                ==> r == Err::<Vec<usize>, DiscoveryError>(DiscoveryError::InvalidState) && *final(self) == *old(
                self),
            old(self).state == LinkState::ServicesDiscovered && old(self).name is Some && old(self).data is None ==> {
                &&& final(self).address == old(self).address
                &&& final(self).characteristics == old(self).characteristics
                &&& final(self).name == old(self).name
                &&& (r is Ok <==> payload is Some && payload->0@.len() >= 8)
                &&& r is Err ==> r == Err::<Vec<usize>, DiscoveryError>(DiscoveryError::MalformedPayload)
                    && final(self).state == LinkState::Closed && final(self).data is None
                &&& r matches Ok(idx) ==> final(self).state == LinkState::ServicesDiscovered
                    && (final(self).data matches Some(d) && is_reading_of(d, payload->0@))
                    && lists_identity_positions(idx@, old(self).characteristics@)
            },
    {
        if !(self.state == LinkState::ServicesDiscovered && self.name.is_some() && self.data.is_none()) {
            return Err(DiscoveryError::InvalidState);
        }
        let decoded = match &payload {
            Some(bytes) => decode(bytes.as_slice()),
            None => Err(DiscoveryError::MalformedPayload),
        };
        match decoded {
            Ok(d) => {
                self.data = Some(d);
            },
            Err(_) => {
                self.state = LinkState::Closed;
                return Err(DiscoveryError::MalformedPayload);
            },
        }
        Ok(identity_positions(&self.characteristics))
    }

    /// Reports the reads of the identity characteristics and completes the
    /// session with the device's record.
    pub fn identity_read(&mut self, reads: &Vec<CharacteristicRead>) -> (r: Result<Device, DiscoveryError>)
        ensures
            !(old(self).state == LinkState::ServicesDiscovered && old(self).name is Some && old(self).data is Some)
                ==> r == Err::<Device, DiscoveryError>(DiscoveryError::InvalidState) && *final(self) == *old(self),
            old(self).state == LinkState::ServicesDiscovered && old(self).name is Some && old(self).data is Some ==> {
                &&& final(self).state == LinkState::Closed
                &&& r matches Ok(d) && d.name@ == name_text(old(self).name) && d.address == old(self).address
                    && Some(d.data) == old(self).data
                    && forall|f: InfoField| #[trigger] d.info.field(f) == info_field_from(reads@, f)
            },
    {
        if !(self.state == LinkState::ServicesDiscovered && self.name.is_some() && self.data.is_some()) {
            return Err(DiscoveryError::InvalidState);
        }
        let name = match self.name.take() {
            Some(n) => n,
            None => String::new(),
        };
        let data = match self.data {
            Some(d) => d,
            None => Data { co2: 0, temperature_twentieths: 0, pressure_tenths: 0, humidity: 0, battery: 0 },
        };
        self.state = LinkState::Closed;
        Ok(Device { name, address: self.address, data, info: read_info(reads) })
    }
}

} // verus!
