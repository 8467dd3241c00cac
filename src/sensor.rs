use vstd::prelude::*;
use vstd::string::StringSliceAdditionalSpecFns;

use crate::datalink::{le_bytes_u32, overwrite};
use crate::entity::DeviceClass;

verus! {

/// Each sensor has a `state_class` associated to it
#[derive(Clone, Copy, PartialEq, Eq, Structural)]
pub enum StateClass {
    Measurement,
    Total,
    TotalIncreasing,
}

impl StateClass {
    /// The name under which this class is transmitted.
    pub open spec fn spec_name(self) -> Seq<char> {
        match self {
            StateClass::Measurement => "measurement"@,
            StateClass::Total => "total"@,
            StateClass::TotalIncreasing => "total_increasing"@,
        }
    }

    /// Returns the StateClass in string form for transmission
    pub fn as_str(&self) -> (r: &'static str)
        ensures
            r@ == self.spec_name(),
            r.spec_bytes().len() <= 255,
    {
        match self {
            StateClass::Measurement => {
                let r = "measurement";
                proof {
                    reveal_strlit("measurement");
                    vstd::string::is_ascii_spec_bytes(r);
                }
                r
            },
            StateClass::Total => {
                let r = "total";
                proof {
                    reveal_strlit("total");
                    vstd::string::is_ascii_spec_bytes(r);
                }
                r
            },
            StateClass::TotalIncreasing => {
                let r = "total_increasing";
                proof {
                    reveal_strlit("total_increasing");
                    vstd::string::is_ascii_spec_bytes(r);
                }
                r
            },
        }
    }
}

/// The type tag that opens a value payload
#[derive(Clone, Copy, PartialEq, Eq, Structural)]
pub enum PayloadType {
    /// All bytes of the payload are the characters in UTF-8 encoding, no null terminator
    String,
    /// 4 byte integer, LSB first
    Int,
    /// 4 byte float, LSB first
    Float,
}

impl PayloadType {
    /// The byte that stands for this type on the wire.
    pub open spec fn spec_tag(self) -> u8 {
        match self {
            PayloadType::String => 0,
            PayloadType::Int => 1,
            PayloadType::Float => 2,
        }
    }

    /// Returns the byte that stands for this type on the wire
    pub fn tag(&self) -> (r: u8)
        ensures
            r == self.spec_tag(),
    {
        match self {
            PayloadType::String => 0,
            PayloadType::Int => 1,
            PayloadType::Float => 2,
        }
    }
}

/// A value that a sensor can report
pub trait SensorValue {
    /// The payload that stands for this value: a type tag, then the value.
    spec fn encoding(&self) -> Seq<u8>;

    /// Fills this value into a payload array and sets the payload length
    fn to_payload(&self, len: &mut u8, payload: &mut [u8; 256])
        ensures
            *final(len) as int == self.encoding().len(),
            final(payload)@ == overwrite(old(payload)@, self.encoding()),
    ;
}

/// Writes a type tag and four value bytes to the front of a payload.
fn write_tagged_u32(tag: PayloadType, v: u32, len: &mut u8, payload: &mut [u8; 256])
    ensures
        *final(len) == 5,
        final(payload)@ == overwrite(old(payload)@, seq![tag.spec_tag()] + le_bytes_u32(v)),
{
    payload[0] = tag.tag();
    payload[1] = v as u8;
    payload[2] = (v >> 8u32) as u8;
    payload[3] = (v >> 16u32) as u8;
    payload[4] = (v >> 24u32) as u8;
    *len = 5;
    assert(payload@ =~= overwrite(old(payload)@, seq![tag.spec_tag()] + le_bytes_u32(v)));
}

impl SensorValue for i32 {
    open spec fn encoding(&self) -> Seq<u8> {
        seq![PayloadType::Int.spec_tag()] + le_bytes_u32(*self as u32)
    }

    fn to_payload(&self, len: &mut u8, payload: &mut [u8; 256]) {
        write_tagged_u32(PayloadType::Int, *self as u32, len, payload);
    }
}

/// A single-precision IEEE-754 value, held as its bit pattern
#[derive(Clone, Copy, PartialEq, Eq, Structural)]
pub struct FloatValue {
    pub bits: u32,
}

impl FloatValue {
    /// The value with the bit pattern `bits`
    pub fn from_bits(bits: u32) -> (r: Self)
        ensures
            r.bits == bits,
    {
        FloatValue { bits }
    }
}

impl SensorValue for FloatValue {
    open spec fn encoding(&self) -> Seq<u8> {
        seq![PayloadType::Float.spec_tag()] + le_bytes_u32(self.bits)
    }

    fn to_payload(&self, len: &mut u8, payload: &mut [u8; 256]) {
        write_tagged_u32(PayloadType::Float, self.bits, len, payload);
    }
}

/// Read access to a sensor, as the command dispatcher needs it
pub trait SensorRef<'a> {
    /// The friendly name of the sensor
    spec fn name(&self) -> Seq<char>;

    /// The unique id of the sensor within this device / address
    spec fn unique_id(&self) -> Seq<char>;

    /// The native unit of measurement
    spec fn unit(&self) -> Seq<char>;

    /// The device class this sensor represents
    spec fn device_class(&self) -> DeviceClass;

    /// The state class (type of measurement)
    spec fn state_class(&self) -> StateClass;

    /// The payload that reports the current value
    spec fn value_payload(&self) -> Seq<u8>;

    /// Returns the name of the sensor
    fn get_name(&self) -> (r: &'a str)
        ensures
            r@ == self.name(),
    ;

    /// Returns the unique id of this sensor within this device / address
    fn get_unique_id(&self) -> (r: &'a str)
        ensures
            r@ == self.unique_id(),
    ;

    /// The native unit of measurement
    fn get_native_unit_of_measurement(&self) -> (r: &'a str)
        ensures
            r@ == self.unit(),
    ;

    /// The device class this sensor represents
    fn get_device_class(&self) -> (r: DeviceClass)
        ensures
            r == self.device_class(),
    ;

    /// The state class (type of measurement)
    fn get_state_class(&self) -> (r: StateClass)
        ensures
            r == self.state_class(),
    ;

    /// Writes the current value into the payload and sets the payload length
    fn get_payload(&self, len: &mut u8, payload: &mut [u8; 256])
        ensures
            *final(len) as int == self.value_payload().len(),
            final(payload)@ == overwrite(old(payload)@, self.value_payload()),
    ;
}

/// A sensor entity
pub struct Sensor<'a, T: SensorValue> {
    /// The friendly name for the sensor
    pub name: &'a str,
    /// The `unique_id` for this sensor
    pub unique_id: &'a str,
    /// The unit of measurement for this sensor
    pub native_unit_of_measurement: &'a str,
    /// The `device_class` for this sensor
    pub device_class: DeviceClass,
    /// The `state_class` for this sensor
    pub state_class: StateClass,
    /// The current value of this sensor
    pub value: T,
}

impl<'a, T: SensorValue> Sensor<'a, T> {
    /// Create a new sensor from the supplied arguments
    pub fn new(
        name: &'a str,
        unique_id: &'a str,
        native_unit_of_measurement: &'a str,
        device_class: DeviceClass,
        state_class: StateClass,
        value: T,
    ) -> (r: Self)
        ensures
            r.name == name,
            r.unique_id == unique_id,
            r.native_unit_of_measurement == native_unit_of_measurement,
            r.device_class == device_class,
            r.state_class == state_class,
            r.value == value,
    {
        Sensor { name, unique_id, native_unit_of_measurement, device_class, state_class, value }
    }

    /// Sets the current value of this sensor
    pub fn set_value(&mut self, value: T)
        ensures
            *final(self) == (Sensor { value, ..*old(self) }),
    {
        self.value = value;
    }
}

impl<'a, T: SensorValue> SensorRef<'a> for Sensor<'a, T> {
    open spec fn name(&self) -> Seq<char> {
        self.name@
    }

    open spec fn unique_id(&self) -> Seq<char> {
        self.unique_id@
    }

    open spec fn unit(&self) -> Seq<char> {
        self.native_unit_of_measurement@
    }

    open spec fn device_class(&self) -> DeviceClass {
        self.device_class
    }

    open spec fn state_class(&self) -> StateClass {
        self.state_class
    }

    open spec fn value_payload(&self) -> Seq<u8> {
        self.value.encoding()
    }

    fn get_name(&self) -> (r: &'a str) {
        self.name
    }

    fn get_unique_id(&self) -> (r: &'a str) {
        self.unique_id
    }

    fn get_native_unit_of_measurement(&self) -> (r: &'a str) {
        self.native_unit_of_measurement
    }

    fn get_device_class(&self) -> (r: DeviceClass) {
        self.device_class
    }

    fn get_state_class(&self) -> (r: StateClass) {
        self.state_class
    }

    fn get_payload(&self, len: &mut u8, payload: &mut [u8; 256]) {
        self.value.to_payload(len, payload)
    }
}

} // verus!
