use vstd::prelude::*;
use vstd::string::StringSliceAdditionalSpecFns;

verus! {

/// Each sensor has a `device_class` associated to it
#[derive(Clone, Copy, PartialEq, Eq, Structural)]
pub enum DeviceClass {
    Temperature,
    Switch,
}

impl DeviceClass {
    /// The name under which this class is transmitted.
    pub open spec fn spec_name(self) -> Seq<char> {
        match self {
            DeviceClass::Temperature => "DeviceClass.TEMPERATURE"@,
            DeviceClass::Switch => "SwitchDeviceClass.SWITCH"@,
        }
    }

    /// Returns the DeviceClass in string form for transmission
    pub fn as_str(&self) -> (r: &'static str)
        ensures
            r@ == self.spec_name(),
            r.spec_bytes().len() <= 255,
    {
        match self {
            DeviceClass::Temperature => {
                let r = "DeviceClass.TEMPERATURE";
                proof {
                    reveal_strlit("DeviceClass.TEMPERATURE");
                    vstd::string::is_ascii_spec_bytes(r);
                }
                r
            },
            DeviceClass::Switch => {
                let r = "SwitchDeviceClass.SWITCH";
                proof {
                    reveal_strlit("SwitchDeviceClass.SWITCH");
                    vstd::string::is_ascii_spec_bytes(r);
                }
                r
            },
        }
    }
}

/// Common shared attributes of an entity
pub trait Entity<'a> {
    /// The unique id of this entity within this device / address
    spec fn unique_id(&self) -> Seq<char>;

    /// The friendly name of this entity
    spec fn name(&self) -> Seq<char>;

    /// The device class this entity represents
    spec fn device_class(&self) -> DeviceClass;

    /// Returns the unique id of this entity within this device / address
    fn get_unique_id(&self) -> (r: &'a str)
        ensures
            r@ == self.unique_id(),
    ;

    /// Returns the name of the entity
    fn get_name(&self) -> (r: &'a str)
        ensures
            r@ == self.name(),
    ;

    /// The device class this entity represents
    fn get_device_class(&self) -> (r: DeviceClass)
        ensures
            r == self.device_class(),
    ;
}

} // verus!
