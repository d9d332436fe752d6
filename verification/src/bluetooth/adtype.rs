//! The kinds of element that an advertising payload can hold, as the
//! Bluetooth assigned numbers list them.

use vstd::prelude::*;

verus! {

/// The kind of an advertising element.
#[derive(Clone, Copy, Debug, PartialEq, Eq, Structural)]
pub enum Adtype {
    Flags,
    IncompleteListOf16bitServiceClassUUIDs,
    CompleteListof16BitServiceClassUUIDs,
    IncompleteListof32BitServiceClassUUIDs,
    CompleteListof32BitServiceClassUUIDs,
    IncompleteListof128BitServiceClassUUIDs,
    CompleteListof128BitServiceClassUUIDs,
    ShortenedLocalName,
    CompleteLocalName,
    TxPowerLevel,
    ClassofDevice,
    SimplePairingHashC,
    SimplePairingRandomizerR,
    DeviceID,
    SecurityManagerOutofBandFlags,
    SlaveConnectionIntervalRange,
    Listof16BitServiceSolicitationUUIDs,
    Listof128BitServiceSolicitationUUIDs,
    ServiceData,
    PublicTargetAddress,
    RandomTargetAddress,
    Appearance,
    AdvertisingInterval,
    LEBluetoothDeviceAddress,
    LERole,
    SimplePairingHashC256,
    SimplePairingRandomizerR256,
    ListOf32BitServiceSolicitationUUIDs,
    ServiceData32BitUUID,
    ServiceData128BitUUID,
    LESecureConnectionsConfirmationValue,
    LESecureConnectionsRandomValue,
    URI,
    IndoorPositioning,
    TransportDiscoveryData,
    LESupportedFeatures,
    ChannelMapUpdateIndication,
    PBADV,
    MeshMessage,
    MeshBeacon,
    ThreeDInformationData,
    ManufacturerSpecificData,
}

impl Adtype {
    /// The assigned number of this kind.
    pub open spec fn code(self) -> u8 {
        match self {
            Adtype::Flags => 0x01,
            Adtype::IncompleteListOf16bitServiceClassUUIDs => 0x02,
            Adtype::CompleteListof16BitServiceClassUUIDs => 0x03,
            Adtype::IncompleteListof32BitServiceClassUUIDs => 0x04,
            Adtype::CompleteListof32BitServiceClassUUIDs => 0x05,
            Adtype::IncompleteListof128BitServiceClassUUIDs => 0x06,
            Adtype::CompleteListof128BitServiceClassUUIDs => 0x07,
            Adtype::ShortenedLocalName => 0x08,
            Adtype::CompleteLocalName => 0x09,
            Adtype::TxPowerLevel => 0x0a,
            Adtype::ClassofDevice => 0x0d,
            Adtype::SimplePairingHashC => 0x0e,
            Adtype::SimplePairingRandomizerR => 0x0f,
            Adtype::DeviceID => 0x10,
            Adtype::SecurityManagerOutofBandFlags => 0x11,
            Adtype::SlaveConnectionIntervalRange => 0x12,
            Adtype::Listof16BitServiceSolicitationUUIDs => 0x14,
            Adtype::Listof128BitServiceSolicitationUUIDs => 0x15,
            Adtype::ServiceData => 0x16,
            Adtype::PublicTargetAddress => 0x17,
            Adtype::RandomTargetAddress => 0x18,
            Adtype::Appearance => 0x19,
            Adtype::AdvertisingInterval => 0x1a,
            Adtype::LEBluetoothDeviceAddress => 0x1b,
            Adtype::LERole => 0x1c,
            Adtype::SimplePairingHashC256 => 0x1d,
            Adtype::SimplePairingRandomizerR256 => 0x1e,
            Adtype::ListOf32BitServiceSolicitationUUIDs => 0x1f,
            Adtype::ServiceData32BitUUID => 0x20,
            Adtype::ServiceData128BitUUID => 0x21,
            Adtype::LESecureConnectionsConfirmationValue => 0x22,
            Adtype::LESecureConnectionsRandomValue => 0x23,
            Adtype::URI => 0x24,
            Adtype::IndoorPositioning => 0x25,
            Adtype::TransportDiscoveryData => 0x26,
            Adtype::LESupportedFeatures => 0x27,
            Adtype::ChannelMapUpdateIndication => 0x28,
            Adtype::PBADV => 0x29,
            Adtype::MeshMessage => 0x2a,
            Adtype::MeshBeacon => 0x2b,
            Adtype::ThreeDInformationData => 0x3d,
            Adtype::ManufacturerSpecificData => 0xff,
        }
    }

    /// The kind with the assigned number `val`, if there is one.
    pub open spec fn of_code(val: u8) -> Option<Adtype> {
        if val == 0x01 {
            Some(Adtype::Flags)
        } else if val == 0x02 {
            Some(Adtype::IncompleteListOf16bitServiceClassUUIDs)
        } else if val == 0x03 {
            Some(Adtype::CompleteListof16BitServiceClassUUIDs)
        } else if val == 0x04 {
            Some(Adtype::IncompleteListof32BitServiceClassUUIDs)
        } else if val == 0x05 {
            Some(Adtype::CompleteListof32BitServiceClassUUIDs)
        } else if val == 0x06 {
            Some(Adtype::IncompleteListof128BitServiceClassUUIDs)
        } else if val == 0x07 {
            Some(Adtype::CompleteListof128BitServiceClassUUIDs)
        } else if val == 0x08 {
            Some(Adtype::ShortenedLocalName)
        } else if val == 0x09 {
            Some(Adtype::CompleteLocalName)
        } else if val == 0x0a {
            Some(Adtype::TxPowerLevel)
        } else if val == 0x0d {
            Some(Adtype::ClassofDevice)
        } else if val == 0x0e {
            Some(Adtype::SimplePairingHashC)
        } else if val == 0x0f {
            Some(Adtype::SimplePairingRandomizerR)
        } else if val == 0x10 {
            Some(Adtype::DeviceID)
        } else if val == 0x11 {
            Some(Adtype::SecurityManagerOutofBandFlags)
        } else if val == 0x12 {
            Some(Adtype::SlaveConnectionIntervalRange)
        } else if val == 0x14 {
            Some(Adtype::Listof16BitServiceSolicitationUUIDs)
        } else if val == 0x15 {
            Some(Adtype::Listof128BitServiceSolicitationUUIDs)
        } else if val == 0x16 {
            Some(Adtype::ServiceData)
        } else if val == 0x17 {
            Some(Adtype::PublicTargetAddress)
        } else if val == 0x18 {
            Some(Adtype::RandomTargetAddress)
        } else if val == 0x19 {
            Some(Adtype::Appearance)
        } else if val == 0x1a {
            Some(Adtype::AdvertisingInterval)
        } else if val == 0x1b {
            Some(Adtype::LEBluetoothDeviceAddress)
        } else if val == 0x1c {
            Some(Adtype::LERole)
        } else if val == 0x1d {
            Some(Adtype::SimplePairingHashC256)
        } else if val == 0x1e {
            Some(Adtype::SimplePairingRandomizerR256)
        } else if val == 0x1f {
            Some(Adtype::ListOf32BitServiceSolicitationUUIDs)
        } else if val == 0x20 {
            Some(Adtype::ServiceData32BitUUID)
        } else if val == 0x21 {
            Some(Adtype::ServiceData128BitUUID)
        } else if val == 0x22 {
            Some(Adtype::LESecureConnectionsConfirmationValue)
        } else if val == 0x23 {
            Some(Adtype::LESecureConnectionsRandomValue)
        } else if val == 0x24 {
            Some(Adtype::URI)
        } else if val == 0x25 {
            Some(Adtype::IndoorPositioning)
        } else if val == 0x26 {
            Some(Adtype::TransportDiscoveryData)
        } else if val == 0x27 {
            Some(Adtype::LESupportedFeatures)
        } else if val == 0x28 {
            Some(Adtype::ChannelMapUpdateIndication)
        } else if val == 0x29 {
            Some(Adtype::PBADV)
        } else if val == 0x2a {
            Some(Adtype::MeshMessage)
        } else if val == 0x2b {
            Some(Adtype::MeshBeacon)
        } else if val == 0x3d {
            Some(Adtype::ThreeDInformationData)
        } else if val == 0xff {
            Some(Adtype::ManufacturerSpecificData)
        } else {
            None
        }
    }

    /// The name of this kind in the assigned numbers.
    pub open spec fn name(self) -> Seq<char> {
        match self {
            Adtype::Flags => "Flags"@,
            Adtype::IncompleteListOf16bitServiceClassUUIDs => {
                "Incomplete List of 16-bit Service Class UUIDs"@
            },
            Adtype::CompleteListof16BitServiceClassUUIDs => {
                "Complete List of 16-bit Service Class UUIDs"@
            },
            Adtype::IncompleteListof32BitServiceClassUUIDs => {
                "Incomplete List of 32-bit Service Class UUIDs"@
            },
            Adtype::CompleteListof32BitServiceClassUUIDs => {
                "Complete List of 32-bit Service Class UUIDs"@
            },
            Adtype::IncompleteListof128BitServiceClassUUIDs => {
                "Incomplete List of 128-bit Service Class UUIDs"@
            },
            Adtype::CompleteListof128BitServiceClassUUIDs => {
                "Complete List of 128-bit Service Class UUIDs"@
            },
            Adtype::ShortenedLocalName => "Shortened Local Name"@,
            Adtype::CompleteLocalName => "Complete Local Name"@,
            Adtype::TxPowerLevel => "Tx Power Level"@,
            Adtype::ClassofDevice => "Class of Device"@,
            Adtype::SimplePairingHashC => "Simple Pairing Hash C/Simple Pairing Hash C-192"@,
            Adtype::SimplePairingRandomizerR => {
                "Simple Pairing Randomizer R/Simple Pairing Randomizer R-192"@
            },
            Adtype::DeviceID => "Device ID/Security Manager TK Value"@,
            Adtype::SecurityManagerOutofBandFlags => "Security Manager Out of Band Flags"@,
            Adtype::SlaveConnectionIntervalRange => "Slave Connection Interval Range"@,
            Adtype::Listof16BitServiceSolicitationUUIDs => {
                "List of 16-bit Service Solicitation UUIDs"@
            },
            Adtype::Listof128BitServiceSolicitationUUIDs => {
                "List of 128-bit Service Solicitation UUIDs"@
            },
            Adtype::ServiceData => "Service Data/Service Data - 16-bit UUID"@,
            Adtype::PublicTargetAddress => "Public Target Address"@,
            Adtype::RandomTargetAddress => "Random Target Address"@,
            Adtype::Appearance => "Appearance"@,
            Adtype::AdvertisingInterval => "Advertising Interval"@,
            Adtype::LEBluetoothDeviceAddress => "LE Bluetooth Device Address"@,
            Adtype::LERole => "LE Role"@,
            Adtype::SimplePairingHashC256 => "Simple Pairing Hash C-256"@,
            Adtype::SimplePairingRandomizerR256 => "Simple Pairing Randomizer R-256"@,
            Adtype::ListOf32BitServiceSolicitationUUIDs => {
                "List of 32-bit Service Solicitation UUIDs"@
            },
            Adtype::ServiceData32BitUUID => "Service Data - 32-bit UUID"@,
            Adtype::ServiceData128BitUUID => "Service Data - 128-bit UUID"@,
            Adtype::LESecureConnectionsConfirmationValue => {
                "LE Secure Connections Confirmation Value"@
            },
            Adtype::LESecureConnectionsRandomValue => "LE Secure Connections Random Value"@,
            Adtype::URI => "URI"@,
            Adtype::IndoorPositioning => "Indoor Positioning"@,
            Adtype::TransportDiscoveryData => "Transport Discovery Data"@,
            Adtype::LESupportedFeatures => "LE Supported Features"@,
            Adtype::ChannelMapUpdateIndication => "Channel Map Update Indication"@,
            Adtype::PBADV => "PB-ADV"@,
            Adtype::MeshMessage => "Mesh Message"@,
            Adtype::MeshBeacon => "Mesh Beacon"@,
            Adtype::ThreeDInformationData => "3D Information Data"@,
            Adtype::ManufacturerSpecificData => "Manufacturer Specific Data"@,
        }
    }

    /// The kind with the assigned number `val`, or `None` for a number that
    /// is not assigned.
    pub fn from_u8(val: u8) -> (r: Option<Adtype>)
        ensures
            r == Adtype::of_code(val),
    {
        match val {
            0x01 => Some(Adtype::Flags),
            0x02 => Some(Adtype::IncompleteListOf16bitServiceClassUUIDs),
            0x03 => Some(Adtype::CompleteListof16BitServiceClassUUIDs),
            0x04 => Some(Adtype::IncompleteListof32BitServiceClassUUIDs),
            0x05 => Some(Adtype::CompleteListof32BitServiceClassUUIDs),
            0x06 => Some(Adtype::IncompleteListof128BitServiceClassUUIDs),
            0x07 => Some(Adtype::CompleteListof128BitServiceClassUUIDs),
            0x08 => Some(Adtype::ShortenedLocalName),
            0x09 => Some(Adtype::CompleteLocalName),
            0x0a => Some(Adtype::TxPowerLevel),
            0x0d => Some(Adtype::ClassofDevice),
            0x0e => Some(Adtype::SimplePairingHashC),
            0x0f => Some(Adtype::SimplePairingRandomizerR),
            0x10 => Some(Adtype::DeviceID),
            0x11 => Some(Adtype::SecurityManagerOutofBandFlags),
            0x12 => Some(Adtype::SlaveConnectionIntervalRange),
            0x14 => Some(Adtype::Listof16BitServiceSolicitationUUIDs),
            0x15 => Some(Adtype::Listof128BitServiceSolicitationUUIDs),
            0x16 => Some(Adtype::ServiceData),
            0x17 => Some(Adtype::PublicTargetAddress),
            0x18 => Some(Adtype::RandomTargetAddress),
            0x19 => Some(Adtype::Appearance),
            0x1a => Some(Adtype::AdvertisingInterval),
            0x1b => Some(Adtype::LEBluetoothDeviceAddress),
            0x1c => Some(Adtype::LERole),
            0x1d => Some(Adtype::SimplePairingHashC256),
            0x1e => Some(Adtype::SimplePairingRandomizerR256),
            0x1f => Some(Adtype::ListOf32BitServiceSolicitationUUIDs),
            0x20 => Some(Adtype::ServiceData32BitUUID),
            0x21 => Some(Adtype::ServiceData128BitUUID),
            0x22 => Some(Adtype::LESecureConnectionsConfirmationValue),
            0x23 => Some(Adtype::LESecureConnectionsRandomValue),
            0x24 => Some(Adtype::URI),
            0x25 => Some(Adtype::IndoorPositioning),
            0x26 => Some(Adtype::TransportDiscoveryData),
            0x27 => Some(Adtype::LESupportedFeatures),
            0x28 => Some(Adtype::ChannelMapUpdateIndication),
            0x29 => Some(Adtype::PBADV),
            0x2a => Some(Adtype::MeshMessage),
            0x2b => Some(Adtype::MeshBeacon),
            0x3d => Some(Adtype::ThreeDInformationData),
            0xff => Some(Adtype::ManufacturerSpecificData),
            _ => None,
        }
    }

    /// The kind with the assigned number `val`, which must be assigned.
    pub fn from(val: u8) -> (r: Adtype)
        requires
            Adtype::of_code(val) is Some,
        ensures
            Some(r) == Adtype::of_code(val),
    {
        Adtype::from_u8(val).unwrap()
    }

    /// The assigned number of this kind.
    pub fn to_u8(&self) -> (r: u8)
        ensures
            r == self.code(),
    {
        match self {
            Adtype::Flags => 0x01,
            Adtype::IncompleteListOf16bitServiceClassUUIDs => 0x02,
            Adtype::CompleteListof16BitServiceClassUUIDs => 0x03,
            Adtype::IncompleteListof32BitServiceClassUUIDs => 0x04,
            Adtype::CompleteListof32BitServiceClassUUIDs => 0x05,
            Adtype::IncompleteListof128BitServiceClassUUIDs => 0x06,
            Adtype::CompleteListof128BitServiceClassUUIDs => 0x07,
            Adtype::ShortenedLocalName => 0x08,
            Adtype::CompleteLocalName => 0x09,
            Adtype::TxPowerLevel => 0x0a,
            Adtype::ClassofDevice => 0x0d,
            Adtype::SimplePairingHashC => 0x0e,
            Adtype::SimplePairingRandomizerR => 0x0f,
            Adtype::DeviceID => 0x10,
            Adtype::SecurityManagerOutofBandFlags => 0x11,
            Adtype::SlaveConnectionIntervalRange => 0x12,
            Adtype::Listof16BitServiceSolicitationUUIDs => 0x14,
            Adtype::Listof128BitServiceSolicitationUUIDs => 0x15,
            Adtype::ServiceData => 0x16,
            Adtype::PublicTargetAddress => 0x17,
            Adtype::RandomTargetAddress => 0x18,
            Adtype::Appearance => 0x19,
            Adtype::AdvertisingInterval => 0x1a,
            Adtype::LEBluetoothDeviceAddress => 0x1b,
            Adtype::LERole => 0x1c,
            Adtype::SimplePairingHashC256 => 0x1d,
            Adtype::SimplePairingRandomizerR256 => 0x1e,
            Adtype::ListOf32BitServiceSolicitationUUIDs => 0x1f,
            Adtype::ServiceData32BitUUID => 0x20,
            Adtype::ServiceData128BitUUID => 0x21,
            Adtype::LESecureConnectionsConfirmationValue => 0x22,
            Adtype::LESecureConnectionsRandomValue => 0x23,
            Adtype::URI => 0x24,
            Adtype::IndoorPositioning => 0x25,
            Adtype::TransportDiscoveryData => 0x26,
            Adtype::LESupportedFeatures => 0x27,
            Adtype::ChannelMapUpdateIndication => 0x28,
            Adtype::PBADV => 0x29,
            Adtype::MeshMessage => 0x2a,
            Adtype::MeshBeacon => 0x2b,
            Adtype::ThreeDInformationData => 0x3d,
            Adtype::ManufacturerSpecificData => 0xff,
        }
    }

    /// The name of this kind in the assigned numbers.
    pub fn label(&self) -> (r: &'static str)
        ensures
            r@ == self.name(),
    {
        match self {
            Adtype::Flags => "Flags",
            Adtype::IncompleteListOf16bitServiceClassUUIDs => {
                "Incomplete List of 16-bit Service Class UUIDs"
            },
            Adtype::CompleteListof16BitServiceClassUUIDs => {
                "Complete List of 16-bit Service Class UUIDs"
            },
            Adtype::IncompleteListof32BitServiceClassUUIDs => {
                "Incomplete List of 32-bit Service Class UUIDs"
            },
            Adtype::CompleteListof32BitServiceClassUUIDs => {
                "Complete List of 32-bit Service Class UUIDs"
            },
            Adtype::IncompleteListof128BitServiceClassUUIDs => {
                "Incomplete List of 128-bit Service Class UUIDs"
            },
            Adtype::CompleteListof128BitServiceClassUUIDs => {
                "Complete List of 128-bit Service Class UUIDs"
            },
            Adtype::ShortenedLocalName => "Shortened Local Name",
            Adtype::CompleteLocalName => "Complete Local Name",
            Adtype::TxPowerLevel => "Tx Power Level",
            Adtype::ClassofDevice => "Class of Device",
            Adtype::SimplePairingHashC => "Simple Pairing Hash C/Simple Pairing Hash C-192",
            Adtype::SimplePairingRandomizerR => {
                "Simple Pairing Randomizer R/Simple Pairing Randomizer R-192"
            },
            Adtype::DeviceID => "Device ID/Security Manager TK Value",
            Adtype::SecurityManagerOutofBandFlags => "Security Manager Out of Band Flags",
            Adtype::SlaveConnectionIntervalRange => "Slave Connection Interval Range",
            Adtype::Listof16BitServiceSolicitationUUIDs => {
                "List of 16-bit Service Solicitation UUIDs"
            },
            Adtype::Listof128BitServiceSolicitationUUIDs => {
                "List of 128-bit Service Solicitation UUIDs"
            },
            Adtype::ServiceData => "Service Data/Service Data - 16-bit UUID",
            Adtype::PublicTargetAddress => "Public Target Address",
            Adtype::RandomTargetAddress => "Random Target Address",
            Adtype::Appearance => "Appearance",
            Adtype::AdvertisingInterval => "Advertising Interval",
            Adtype::LEBluetoothDeviceAddress => "LE Bluetooth Device Address",
            Adtype::LERole => "LE Role",
            Adtype::SimplePairingHashC256 => "Simple Pairing Hash C-256",
            Adtype::SimplePairingRandomizerR256 => "Simple Pairing Randomizer R-256",
            Adtype::ListOf32BitServiceSolicitationUUIDs => {
                "List of 32-bit Service Solicitation UUIDs"
            },
            Adtype::ServiceData32BitUUID => "Service Data - 32-bit UUID",
            Adtype::ServiceData128BitUUID => "Service Data - 128-bit UUID",
            Adtype::LESecureConnectionsConfirmationValue => {
                "LE Secure Connections Confirmation Value"
            },
            Adtype::LESecureConnectionsRandomValue => "LE Secure Connections Random Value",
            Adtype::URI => "URI",
            Adtype::IndoorPositioning => "Indoor Positioning",
            Adtype::TransportDiscoveryData => "Transport Discovery Data",
            Adtype::LESupportedFeatures => "LE Supported Features",
            Adtype::ChannelMapUpdateIndication => "Channel Map Update Indication",
            Adtype::PBADV => "PB-ADV",
            Adtype::MeshMessage => "Mesh Message",
            Adtype::MeshBeacon => "Mesh Beacon",
            Adtype::ThreeDInformationData => "3D Information Data",
            Adtype::ManufacturerSpecificData => "Manufacturer Specific Data",
        }
    }

    /// The name of this kind in the assigned numbers, as an owned string.
    pub fn to_string(&self) -> (r: String)
        ensures
            r@ == self.name(),
    {
        self.label().to_owned()
    }
}

/// Every kind is found again by its assigned number.
pub proof fn code_identifies_kind(kind: Adtype)
    ensures
        Adtype::of_code(kind.code()) == Some(kind),
{
}

/// A number that denotes a kind is that kind's assigned number.
pub proof fn kind_has_its_code(val: u8)
    requires
        Adtype::of_code(val) is Some,
    ensures
        Adtype::of_code(val).unwrap().code() == val,
{
}

} // verus!
