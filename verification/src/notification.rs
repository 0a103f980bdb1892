//! The notifications that reach the manager, as plain values.

use vstd::prelude::*;
use crate::mac_address::{EXTENDED_MAC_ADDRESS_LEN, SHORT_MAC_ADDRESS_LEN};
use crate::measurement::{
    ExtendedAddressDlTdoaRangingMeasurement, ExtendedAddressOwrAoaRangingMeasurement,
    ExtendedAddressTwoWayRangingMeasurement, ShortAddressDlTdoaRangingMeasurement,
    ShortAddressOwrAoaRangingMeasurement, ShortAddressTwoWayRangingMeasurement,
};

verus! {

/// Most bytes of vendor data one radar sweep carries.
pub const MAX_RADAR_VENDOR_DATA_LEN: i32 = 256;

/// The kind of measurement a range data notification announces.
#[derive(Debug, PartialEq, Eq, Structural, Clone, Copy)]
pub enum RangingMeasurementType {
    OneWay,
    TwoWay,
    DlTdoa,
    OwrAoa,
}

impl RangingMeasurementType {
    /// The number the kind has on the wire.
    pub open spec fn code(self) -> i32 {
        match self {
            RangingMeasurementType::OneWay => 0,
            RangingMeasurementType::TwoWay => 1,
            RangingMeasurementType::DlTdoa => 2,
            RangingMeasurementType::OwrAoa => 3,
        }
    }

    /// The number the kind has on the wire.
    pub fn to_code(self) -> (code: i32)
        ensures
            code == self.code(),
    {
        match self {
            RangingMeasurementType::OneWay => 0,
            RangingMeasurementType::TwoWay => 1,
            RangingMeasurementType::DlTdoa => 2,
            RangingMeasurementType::OwrAoa => 3,
        }
    }
}

/// The width of the addresses in a range data notification.
#[derive(Debug, PartialEq, Eq, Structural, Clone, Copy)]
pub enum MacAddressIndicator {
    ShortAddress,
    ExtendedAddress,
}

impl MacAddressIndicator {
    /// The number the indicator has on the wire.
    pub open spec fn code(self) -> i32 {
        match self {
            MacAddressIndicator::ShortAddress => 0,
            MacAddressIndicator::ExtendedAddress => 1,
        }
    }

    /// The number the indicator has on the wire.
    pub fn to_code(self) -> (code: i32)
        ensures
            code == self.code(),
    {
        match self {
            MacAddressIndicator::ShortAddress => 0,
            MacAddressIndicator::ExtendedAddress => 1,
        }
    }
}

impl MacAddressIndicator {
    /// The number of bytes an address of this width takes.
    pub open spec fn address_len(self) -> i32 {
        match self {
            MacAddressIndicator::ShortAddress => SHORT_MAC_ADDRESS_LEN,
            MacAddressIndicator::ExtendedAddress => EXTENDED_MAC_ADDRESS_LEN,
        }
    }

    /// The number of bytes an address of this width takes.
    pub fn to_address_len(self) -> (len: i32)
        ensures
            len == self.address_len(),
    {
        match self {
            MacAddressIndicator::ShortAddress => SHORT_MAC_ADDRESS_LEN,
            MacAddressIndicator::ExtendedAddress => EXTENDED_MAC_ADDRESS_LEN,
        }
    }
}

/// The width of one radar sample.
#[derive(Debug, PartialEq, Eq, Structural, Clone, Copy)]
pub enum BitsPerSample {
    Value32Bit,
    Value48Bit,
    Value64Bit,
}

impl BitsPerSample {
    /// The number the width has on the wire.
    pub open spec fn code(self) -> i32 {
        match self {
            BitsPerSample::Value32Bit => 0,
            BitsPerSample::Value48Bit => 1,
            BitsPerSample::Value64Bit => 2,
        }
    }

    /// The number of bytes one sample of this width takes.
    pub open spec fn bytes(self) -> u8 {
        match self {
            BitsPerSample::Value32Bit => 4,
            BitsPerSample::Value48Bit => 6,
            BitsPerSample::Value64Bit => 8,
        }
    }

    /// The number the width has on the wire.
    pub fn to_code(self) -> (code: i32)
        ensures
            code == self.code(),
    {
        match self {
            BitsPerSample::Value32Bit => 0,
            BitsPerSample::Value48Bit => 1,
            BitsPerSample::Value64Bit => 2,
        }
    }
}

/// The number of bytes one radar sample of the given width takes.
pub fn radar_bytes_per_sample_value(bits_per_sample: BitsPerSample) -> (bytes: u8)
    ensures
        bytes == bits_per_sample.bytes(),
{
    match bits_per_sample {
        BitsPerSample::Value32Bit => 4,
        BitsPerSample::Value48Bit => 6,
        BitsPerSample::Value64Bit => 8,
    }
}

/// What became of one controlee in an update of the multicast list, with the
/// sub-session it belongs to.
#[derive(Debug, Clone, PartialEq, Eq)]
pub struct ControleeStatusV1 {
    pub mac_address: [u8; 2],
    pub subsession_id: u32,
    pub status: u8,
}

/// What became of one controlee in an update of the multicast list.
#[derive(Debug, Clone, PartialEq, Eq)]
pub struct ControleeStatusV2 {
    pub mac_address: [u8; 2],
    pub status: u8,
}

/// The controlees of one update of the multicast list, in either form.
#[derive(Debug, Clone, PartialEq, Eq)]
pub enum ControleeStatusList {
    V1(Vec<ControleeStatusV1>),
    V2(Vec<ControleeStatusV2>),
}

/// The measurements of one range data notification, in the shape in which
/// they arrived.
#[derive(Debug, Clone, PartialEq, Eq)]
pub enum RangingMeasurements {
    ShortAddressTwoWay(Vec<ShortAddressTwoWayRangingMeasurement>),
    ExtendedAddressTwoWay(Vec<ExtendedAddressTwoWayRangingMeasurement>),
    ShortAddressDltdoa(Vec<ShortAddressDlTdoaRangingMeasurement>),
    ExtendedAddressDltdoa(Vec<ExtendedAddressDlTdoaRangingMeasurement>),
    ShortAddressOwrAoa(ShortAddressOwrAoaRangingMeasurement),
    ExtendedAddressOwrAoa(ExtendedAddressOwrAoaRangingMeasurement),
}

impl RangingMeasurements {
    /// The width of the addresses of the measurements.
    pub open spec fn indicator(self) -> MacAddressIndicator {
        match self {
            RangingMeasurements::ShortAddressTwoWay(_) => MacAddressIndicator::ShortAddress,
            RangingMeasurements::ShortAddressDltdoa(_) => MacAddressIndicator::ShortAddress,
            RangingMeasurements::ShortAddressOwrAoa(_) => MacAddressIndicator::ShortAddress,
            RangingMeasurements::ExtendedAddressTwoWay(_) => MacAddressIndicator::ExtendedAddress,
            RangingMeasurements::ExtendedAddressDltdoa(_) => MacAddressIndicator::ExtendedAddress,
            RangingMeasurements::ExtendedAddressOwrAoa(_) => MacAddressIndicator::ExtendedAddress,
        }
    }

    /// The kind of the measurements.
    pub open spec fn kind(self) -> RangingMeasurementType {
        match self {
            RangingMeasurements::ShortAddressTwoWay(_) => RangingMeasurementType::TwoWay,
            RangingMeasurements::ExtendedAddressTwoWay(_) => RangingMeasurementType::TwoWay,
            RangingMeasurements::ShortAddressDltdoa(_) => RangingMeasurementType::DlTdoa,
            RangingMeasurements::ExtendedAddressDltdoa(_) => RangingMeasurementType::DlTdoa,
            RangingMeasurements::ShortAddressOwrAoa(_) => RangingMeasurementType::OwrAoa,
            RangingMeasurements::ExtendedAddressOwrAoa(_) => RangingMeasurementType::OwrAoa,
        }
    }
}

/// One range data notification.
#[derive(Debug, Clone, PartialEq, Eq)]
pub struct SessionRangeData {
    pub sequence_number: u32,
    pub session_token: u32,
    pub current_ranging_interval_ms: u32,
    pub ranging_measurement_type: RangingMeasurementType,
    pub ranging_measurements: RangingMeasurements,
    pub rcr_indicator: u8,
    pub raw_ranging_data: Vec<u8>,
}

/// What the chip reports of itself.
#[derive(Debug, Clone, PartialEq, Eq)]
pub enum CoreNotification {
    /// The state of the device, by its number.
    DeviceStatus(u8),
    /// An error outside any session, by its status code.
    GenericError(u8),
}

/// What the chip reports of a session.
#[derive(Debug, Clone, PartialEq, Eq)]
pub enum SessionNotification {
    Status { session_id: u32, session_token: u32, session_state: u8, reason_code: u8 },
    UpdateControllerMulticastListV1 {
        session_token: u32,
        remaining_multicast_list_size: usize,
        status_list: Vec<ControleeStatusV1>,
    },
    UpdateControllerMulticastListV2 { session_token: u32, status_list: Vec<ControleeStatusV2> },
    SessionInfo(SessionRangeData),
    DataCredit { session_token: u32, credit_availability: u8 },
    DataTransferStatus { session_token: u32, uci_sequence_number: u16, status: u8, tx_count: u8 },
    DataTransferPhaseConfig { session_token: u32, status: u8 },
}

/// A vendor message that is handed on as it came.
#[derive(Debug, Clone, PartialEq, Eq)]
pub struct RawUciMessage {
    pub gid: u32,
    pub oid: u32,
    pub payload: Vec<u8>,
}

/// The address a data packet came from.
#[derive(Debug, Clone, PartialEq, Eq)]
pub enum UwbAddress {
    Short([u8; 2]),
    Extended([u8; 8]),
}

/// A data packet that a session received.
#[derive(Debug, Clone, PartialEq, Eq)]
pub struct DataRcvNotification {
    pub session_token: u32,
    pub status: u8,
    pub uci_sequence_num: u16,
    pub source_address: UwbAddress,
    pub payload: Vec<u8>,
}

/// One sweep of radar data.
#[derive(Debug, Clone, PartialEq, Eq)]
pub struct RadarSweepData {
    pub sequence_number: u32,
    pub timestamp: u32,
    pub vendor_specific_data: Vec<u8>,
    pub sample_data: Vec<u8>,
}

/// The radar data that a session received.
#[derive(Debug, Clone, PartialEq, Eq)]
pub struct RadarDataRcvNotification {
    pub session_token: u32,
    pub status: u8,
    pub radar_data_type: u8,
    pub number_of_sweeps: u8,
    pub samples_per_sweep: u8,
    pub bits_per_sample: BitsPerSample,
    pub sweep_offset: u16,
    pub sweep_data: Vec<RadarSweepData>,
}

} // verus!
