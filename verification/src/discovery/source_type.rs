use vstd::prelude::*;

verus! {

/// How a device tracker's state is obtained; it affects the state of a person
/// tracked by it.
#[derive(Debug, Clone, Copy, PartialEq, Eq, Structural)]
pub enum SourceType {
    GPS,
    Router,
    Bluetooth,
    BluetoothLE,
}

impl SourceType {
    /// The name of the source type in discovery documents.
    pub fn as_str(&self) -> (res: &'static str)
        ensures
            res@ == match *self {
                SourceType::GPS => "gps"@,
                SourceType::Router => "router"@,
                SourceType::Bluetooth => "bluetooth"@,
                SourceType::BluetoothLE => "bluetooth_le"@,
            },
    {
        match self {
            SourceType::GPS => "gps",
            SourceType::Router => "router",
            SourceType::Bluetooth => "bluetooth",
            SourceType::BluetoothLE => "bluetooth_le",
        }
    }
}

} // verus!
