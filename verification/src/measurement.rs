//! Ranging measurements: the six shapes in which they arrive, and the three
//! records they are normalized to.

use vstd::prelude::*;
use vstd::std_specs::convert::{FromSpec, FromSpecImpl};
use crate::mac_address::MacAddress;

verus! {

/// Most bytes an anchor location takes.
pub const MAX_ANCHOR_LOCATION_LEN: i32 = 12;

/// Most bytes the list of active ranging rounds takes.
pub const MAX_RANGING_ROUNDS_LEN: i32 = 16;

/// A two-way ranging result as it arrives from a peer with a short address.
#[derive(Debug, Clone, PartialEq, Eq)]
pub struct ShortAddressTwoWayRangingMeasurement {
    pub mac_address: u16,
    pub status: u8,
    pub nlos: u8,
    pub distance: u16,
    pub aoa_azimuth: u16,
    pub aoa_azimuth_fom: u8,
    pub aoa_elevation: u16,
    pub aoa_elevation_fom: u8,
    pub aoa_destination_azimuth: u16,
    pub aoa_destination_azimuth_fom: u8,
    pub aoa_destination_elevation: u16,
    pub aoa_destination_elevation_fom: u8,
    pub slot_index: u8,
    pub rssi: u8,
}

/// A two-way ranging result as it arrives from a peer with an extended address.
#[derive(Debug, Clone, PartialEq, Eq)]
pub struct ExtendedAddressTwoWayRangingMeasurement {
    pub mac_address: u64,
    pub status: u8,
    pub nlos: u8,
    pub distance: u16,
    pub aoa_azimuth: u16,
    pub aoa_azimuth_fom: u8,
    pub aoa_elevation: u16,
    pub aoa_elevation_fom: u8,
    pub aoa_destination_azimuth: u16,
    pub aoa_destination_azimuth_fom: u8,
    pub aoa_destination_elevation: u16,
    pub aoa_destination_elevation_fom: u8,
    pub slot_index: u8,
    pub rssi: u8,
}

/// A one-way angle-of-arrival result from a peer with a short address.
#[derive(Debug, Clone, PartialEq, Eq)]
pub struct ShortAddressOwrAoaRangingMeasurement {
    pub mac_address: u16,
    pub status: u8,
    pub nlos: u8,
    pub frame_sequence_number: u8,
    pub block_index: u16,
    pub aoa_azimuth: u16,
    pub aoa_azimuth_fom: u8,
    pub aoa_elevation: u16,
    pub aoa_elevation_fom: u8,
}

/// A one-way angle-of-arrival result from a peer with an extended address.
#[derive(Debug, Clone, PartialEq, Eq)]
pub struct ExtendedAddressOwrAoaRangingMeasurement {
    pub mac_address: u64,
    pub status: u8,
    pub nlos: u8,
    pub frame_sequence_number: u8,
    pub block_index: u16,
    pub aoa_azimuth: u16,
    pub aoa_azimuth_fom: u8,
    pub aoa_elevation: u16,
    pub aoa_elevation_fom: u8,
}

/// What a downlink time-difference-of-arrival result holds besides the
/// address of the anchor.
#[derive(Debug, Clone, PartialEq, Eq)]
pub struct DlTdoaMeasurementFields {
    pub status: u8,
    pub message_type: u8,
    pub message_control: u16,
    pub block_index: u16,
    pub round_index: u8,
    pub nlos: u8,
    pub aoa_azimuth: u16,
    pub aoa_azimuth_fom: u8,
    pub aoa_elevation: u16,
    pub aoa_elevation_fom: u8,
    pub rssi: u8,
    pub tx_timestamp: u64,
    pub rx_timestamp: u64,
    pub anchor_cfo: u16,
    pub cfo: u16,
    pub initiator_reply_time: u32,
    pub responder_reply_time: u32,
    pub initiator_responder_tof: u16,
    pub dt_anchor_location: Vec<u8>,
    pub ranging_rounds: Vec<u8>,
}

/// A downlink time-difference-of-arrival result from an anchor with a short
/// address.
#[derive(Debug, Clone, PartialEq, Eq)]
pub struct ShortAddressDlTdoaRangingMeasurement {
    pub mac_address: u16,
    pub measurement: DlTdoaMeasurementFields,
}

/// A downlink time-difference-of-arrival result from an anchor with an
/// extended address.
#[derive(Debug, Clone, PartialEq, Eq)]
pub struct ExtendedAddressDlTdoaRangingMeasurement {
    pub mac_address: u64,
    pub measurement: DlTdoaMeasurementFields,
}

/// A two-way ranging result, whatever the width of the peer's address.
#[derive(Debug, Clone, PartialEq, Eq)]
pub struct TwoWayRangingMeasurement {
    pub mac_address: MacAddress,
    pub status: u8,
    pub nlos: u8,
    pub distance: u16,
    pub aoa_azimuth: u16,
    pub aoa_azimuth_fom: u8,
    pub aoa_elevation: u16,
    pub aoa_elevation_fom: u8,
    pub aoa_destination_azimuth: u16,
    pub aoa_destination_azimuth_fom: u8,
    pub aoa_destination_elevation: u16,
    pub aoa_destination_elevation_fom: u8,
    pub slot_index: u8,
    pub rssi: u8,
}

/// A one-way angle-of-arrival result, whatever the width of the peer's address.
#[derive(Debug, Clone, PartialEq, Eq)]
pub struct OwrAoaRangingMeasurement {
    pub mac_address: MacAddress,
    pub status: u8,
    pub nlos: u8,
    pub frame_sequence_number: u8,
    pub block_index: u16,
    pub aoa_azimuth: u16,
    pub aoa_azimuth_fom: u8,
    pub aoa_elevation: u16,
    pub aoa_elevation_fom: u8,
}

/// A downlink time-difference-of-arrival result, whatever the width of the
/// anchor's address.
#[derive(Debug, Clone, PartialEq, Eq)]
pub struct DlTdoaRangingMeasurement {
    pub mac_address: MacAddress,
    pub status: u8,
    pub message_type: u8,
    pub message_control: u16,
    pub block_index: u16,
    pub round_index: u8,
    pub nlos: u8,
    pub aoa_azimuth: u16,
    pub aoa_azimuth_fom: u8,
    pub aoa_elevation: u16,
    pub aoa_elevation_fom: u8,
    pub rssi: u8,
    pub tx_timestamp: u64,
    pub rx_timestamp: u64,
    pub anchor_cfo: u16,
    pub cfo: u16,
    pub initiator_reply_time: u32,
    pub responder_reply_time: u32,
    pub initiator_responder_tof: u16,
    pub dt_anchor_location: Vec<u8>,
    pub ranging_rounds: Vec<u8>,
}

/// What a record that arrived with a short address is normalized to:
/// every field as it came, the address under the tag of its width.
pub open spec fn two_way_from_short(
    measurement: ShortAddressTwoWayRangingMeasurement,
) -> TwoWayRangingMeasurement {
    TwoWayRangingMeasurement {
        mac_address: MacAddress::Short(measurement.mac_address),
        status: measurement.status,
        nlos: measurement.nlos,
        distance: measurement.distance,
        aoa_azimuth: measurement.aoa_azimuth,
        aoa_azimuth_fom: measurement.aoa_azimuth_fom,
        aoa_elevation: measurement.aoa_elevation,
        aoa_elevation_fom: measurement.aoa_elevation_fom,
        aoa_destination_azimuth: measurement.aoa_destination_azimuth,
        aoa_destination_azimuth_fom: measurement.aoa_destination_azimuth_fom,
        aoa_destination_elevation: measurement.aoa_destination_elevation,
        aoa_destination_elevation_fom: measurement.aoa_destination_elevation_fom,
        slot_index: measurement.slot_index,
        rssi: measurement.rssi,
    }
}

impl From<ShortAddressTwoWayRangingMeasurement> for TwoWayRangingMeasurement {
    fn from(measurement: ShortAddressTwoWayRangingMeasurement) -> (normalized: Self) {
        TwoWayRangingMeasurement {
            mac_address: MacAddress::Short(measurement.mac_address),
            status: measurement.status,
            nlos: measurement.nlos,
            distance: measurement.distance,
            aoa_azimuth: measurement.aoa_azimuth,
            aoa_azimuth_fom: measurement.aoa_azimuth_fom,
            aoa_elevation: measurement.aoa_elevation,
            aoa_elevation_fom: measurement.aoa_elevation_fom,
            aoa_destination_azimuth: measurement.aoa_destination_azimuth,
            aoa_destination_azimuth_fom: measurement.aoa_destination_azimuth_fom,
            aoa_destination_elevation: measurement.aoa_destination_elevation,
            aoa_destination_elevation_fom: measurement.aoa_destination_elevation_fom,
            slot_index: measurement.slot_index,
            rssi: measurement.rssi,
        }
    }
}

impl FromSpecImpl<ShortAddressTwoWayRangingMeasurement> for TwoWayRangingMeasurement {
    open spec fn obeys_from_spec() -> bool {
        true
    }

    open spec fn from_spec(measurement: ShortAddressTwoWayRangingMeasurement) -> Self {
        two_way_from_short(measurement)
    }
}

/// What a record that arrived with an extended address is normalized to:
/// every field as it came, the address under the tag of its width.
pub open spec fn two_way_from_extended(
    measurement: ExtendedAddressTwoWayRangingMeasurement,
) -> TwoWayRangingMeasurement {
    TwoWayRangingMeasurement {
        mac_address: MacAddress::Extended(measurement.mac_address),
        status: measurement.status,
        nlos: measurement.nlos,
        distance: measurement.distance,
        aoa_azimuth: measurement.aoa_azimuth,
        aoa_azimuth_fom: measurement.aoa_azimuth_fom,
        aoa_elevation: measurement.aoa_elevation,
        aoa_elevation_fom: measurement.aoa_elevation_fom,
        aoa_destination_azimuth: measurement.aoa_destination_azimuth,
        aoa_destination_azimuth_fom: measurement.aoa_destination_azimuth_fom,
        aoa_destination_elevation: measurement.aoa_destination_elevation,
        aoa_destination_elevation_fom: measurement.aoa_destination_elevation_fom,
        slot_index: measurement.slot_index,
        rssi: measurement.rssi,
    }
}

impl From<ExtendedAddressTwoWayRangingMeasurement> for TwoWayRangingMeasurement {
    fn from(measurement: ExtendedAddressTwoWayRangingMeasurement) -> (normalized: Self) {
        TwoWayRangingMeasurement {
            mac_address: MacAddress::Extended(measurement.mac_address),
            status: measurement.status,
            nlos: measurement.nlos,
            distance: measurement.distance,
            aoa_azimuth: measurement.aoa_azimuth,
            aoa_azimuth_fom: measurement.aoa_azimuth_fom,
            aoa_elevation: measurement.aoa_elevation,
            aoa_elevation_fom: measurement.aoa_elevation_fom,
            aoa_destination_azimuth: measurement.aoa_destination_azimuth,
            aoa_destination_azimuth_fom: measurement.aoa_destination_azimuth_fom,
            aoa_destination_elevation: measurement.aoa_destination_elevation,
            aoa_destination_elevation_fom: measurement.aoa_destination_elevation_fom,
            slot_index: measurement.slot_index,
            rssi: measurement.rssi,
        }
    }
}

impl FromSpecImpl<ExtendedAddressTwoWayRangingMeasurement> for TwoWayRangingMeasurement {
    open spec fn obeys_from_spec() -> bool {
        true
    }

    open spec fn from_spec(measurement: ExtendedAddressTwoWayRangingMeasurement) -> Self {
        two_way_from_extended(measurement)
    }
}

/// What a record that arrived with a short address is normalized to:
/// every field as it came, the address under the tag of its width.
pub open spec fn owr_aoa_from_short(
    measurement: ShortAddressOwrAoaRangingMeasurement,
) -> OwrAoaRangingMeasurement {
    OwrAoaRangingMeasurement {
        mac_address: MacAddress::Short(measurement.mac_address),
        status: measurement.status,
        nlos: measurement.nlos,
        frame_sequence_number: measurement.frame_sequence_number,
        block_index: measurement.block_index,
        aoa_azimuth: measurement.aoa_azimuth,
        aoa_azimuth_fom: measurement.aoa_azimuth_fom,
        aoa_elevation: measurement.aoa_elevation,
        aoa_elevation_fom: measurement.aoa_elevation_fom,
    }
}

impl From<ShortAddressOwrAoaRangingMeasurement> for OwrAoaRangingMeasurement {
    fn from(measurement: ShortAddressOwrAoaRangingMeasurement) -> (normalized: Self) {
        OwrAoaRangingMeasurement {
            mac_address: MacAddress::Short(measurement.mac_address),
            status: measurement.status,
            nlos: measurement.nlos,
            frame_sequence_number: measurement.frame_sequence_number,
            block_index: measurement.block_index,
            aoa_azimuth: measurement.aoa_azimuth,
            aoa_azimuth_fom: measurement.aoa_azimuth_fom,
            aoa_elevation: measurement.aoa_elevation,
            aoa_elevation_fom: measurement.aoa_elevation_fom,
        }
    }
}

impl FromSpecImpl<ShortAddressOwrAoaRangingMeasurement> for OwrAoaRangingMeasurement {
    open spec fn obeys_from_spec() -> bool {
        true
    }

    open spec fn from_spec(measurement: ShortAddressOwrAoaRangingMeasurement) -> Self {
        owr_aoa_from_short(measurement)
    }
}

/// What a record that arrived with an extended address is normalized to:
/// every field as it came, the address under the tag of its width.
pub open spec fn owr_aoa_from_extended(
    measurement: ExtendedAddressOwrAoaRangingMeasurement,
) -> OwrAoaRangingMeasurement {
    OwrAoaRangingMeasurement {
        mac_address: MacAddress::Extended(measurement.mac_address),
        status: measurement.status,
        nlos: measurement.nlos,
        frame_sequence_number: measurement.frame_sequence_number,
        block_index: measurement.block_index,
        aoa_azimuth: measurement.aoa_azimuth,
        aoa_azimuth_fom: measurement.aoa_azimuth_fom,
        aoa_elevation: measurement.aoa_elevation,
        aoa_elevation_fom: measurement.aoa_elevation_fom,
    }
}

impl From<ExtendedAddressOwrAoaRangingMeasurement> for OwrAoaRangingMeasurement {
    fn from(measurement: ExtendedAddressOwrAoaRangingMeasurement) -> (normalized: Self) {
        OwrAoaRangingMeasurement {
            mac_address: MacAddress::Extended(measurement.mac_address),
            status: measurement.status,
            nlos: measurement.nlos,
            frame_sequence_number: measurement.frame_sequence_number,
            block_index: measurement.block_index,
            aoa_azimuth: measurement.aoa_azimuth,
            aoa_azimuth_fom: measurement.aoa_azimuth_fom,
            aoa_elevation: measurement.aoa_elevation,
            aoa_elevation_fom: measurement.aoa_elevation_fom,
        }
    }
}

impl FromSpecImpl<ExtendedAddressOwrAoaRangingMeasurement> for OwrAoaRangingMeasurement {
    open spec fn obeys_from_spec() -> bool {
        true
    }

    open spec fn from_spec(measurement: ExtendedAddressOwrAoaRangingMeasurement) -> Self {
        owr_aoa_from_extended(measurement)
    }
}

/// What a record that arrived with an extended address is normalized to:
/// every field as it came, the address under the tag of its width.
pub open spec fn dl_tdoa_from_extended(
    measurement: ExtendedAddressDlTdoaRangingMeasurement,
) -> DlTdoaRangingMeasurement {
    DlTdoaRangingMeasurement {
        mac_address: MacAddress::Extended(measurement.mac_address),
        status: measurement.measurement.status,
        message_type: measurement.measurement.message_type,
        message_control: measurement.measurement.message_control,
        block_index: measurement.measurement.block_index,
        round_index: measurement.measurement.round_index,
        nlos: measurement.measurement.nlos,
        aoa_azimuth: measurement.measurement.aoa_azimuth,
        aoa_azimuth_fom: measurement.measurement.aoa_azimuth_fom,
        aoa_elevation: measurement.measurement.aoa_elevation,
        aoa_elevation_fom: measurement.measurement.aoa_elevation_fom,
        rssi: measurement.measurement.rssi,
        tx_timestamp: measurement.measurement.tx_timestamp,
        rx_timestamp: measurement.measurement.rx_timestamp,
        anchor_cfo: measurement.measurement.anchor_cfo,
        cfo: measurement.measurement.cfo,
        initiator_reply_time: measurement.measurement.initiator_reply_time,
        responder_reply_time: measurement.measurement.responder_reply_time,
        initiator_responder_tof: measurement.measurement.initiator_responder_tof,
        dt_anchor_location: measurement.measurement.dt_anchor_location,
        ranging_rounds: measurement.measurement.ranging_rounds,
    }
}

impl From<ExtendedAddressDlTdoaRangingMeasurement> for DlTdoaRangingMeasurement {
    fn from(measurement: ExtendedAddressDlTdoaRangingMeasurement) -> (normalized: Self) {
        let ExtendedAddressDlTdoaRangingMeasurement { mac_address, measurement: fields } =
            measurement;
        DlTdoaRangingMeasurement {
            mac_address: MacAddress::Extended(mac_address),
            status: fields.status,
            message_type: fields.message_type,
            message_control: fields.message_control,
            block_index: fields.block_index,
            round_index: fields.round_index,
            nlos: fields.nlos,
            aoa_azimuth: fields.aoa_azimuth,
            aoa_azimuth_fom: fields.aoa_azimuth_fom,
            aoa_elevation: fields.aoa_elevation,
            aoa_elevation_fom: fields.aoa_elevation_fom,
            rssi: fields.rssi,
            tx_timestamp: fields.tx_timestamp,
            rx_timestamp: fields.rx_timestamp,
            anchor_cfo: fields.anchor_cfo,
            cfo: fields.cfo,
            initiator_reply_time: fields.initiator_reply_time,
            responder_reply_time: fields.responder_reply_time,
            initiator_responder_tof: fields.initiator_responder_tof,
            dt_anchor_location: fields.dt_anchor_location,
            ranging_rounds: fields.ranging_rounds,
        }
    }
}

impl FromSpecImpl<ExtendedAddressDlTdoaRangingMeasurement> for DlTdoaRangingMeasurement {
    open spec fn obeys_from_spec() -> bool {
        true
    }

    open spec fn from_spec(measurement: ExtendedAddressDlTdoaRangingMeasurement) -> Self {
        dl_tdoa_from_extended(measurement)
    }
}

/// What a record that arrived with a short address is normalized to:
/// every field as it came, the address under the tag of its width.
pub open spec fn dl_tdoa_from_short(
    measurement: ShortAddressDlTdoaRangingMeasurement,
) -> DlTdoaRangingMeasurement {
    DlTdoaRangingMeasurement {
        mac_address: MacAddress::Short(measurement.mac_address),
        status: measurement.measurement.status,
        message_type: measurement.measurement.message_type,
        message_control: measurement.measurement.message_control,
        block_index: measurement.measurement.block_index,
        round_index: measurement.measurement.round_index,
        nlos: measurement.measurement.nlos,
        aoa_azimuth: measurement.measurement.aoa_azimuth,
        aoa_azimuth_fom: measurement.measurement.aoa_azimuth_fom,
        aoa_elevation: measurement.measurement.aoa_elevation,
        aoa_elevation_fom: measurement.measurement.aoa_elevation_fom,
        rssi: measurement.measurement.rssi,
        tx_timestamp: measurement.measurement.tx_timestamp,
        rx_timestamp: measurement.measurement.rx_timestamp,
        anchor_cfo: measurement.measurement.anchor_cfo,
        cfo: measurement.measurement.cfo,
        initiator_reply_time: measurement.measurement.initiator_reply_time,
        responder_reply_time: measurement.measurement.responder_reply_time,
        initiator_responder_tof: measurement.measurement.initiator_responder_tof,
        dt_anchor_location: measurement.measurement.dt_anchor_location,
        ranging_rounds: measurement.measurement.ranging_rounds,
    }
}

impl From<ShortAddressDlTdoaRangingMeasurement> for DlTdoaRangingMeasurement {
    fn from(measurement: ShortAddressDlTdoaRangingMeasurement) -> (normalized: Self) {
        let ShortAddressDlTdoaRangingMeasurement { mac_address, measurement: fields } =
            measurement;
        DlTdoaRangingMeasurement {
            mac_address: MacAddress::Short(mac_address),
            status: fields.status,
            message_type: fields.message_type,
            message_control: fields.message_control,
            block_index: fields.block_index,
            round_index: fields.round_index,
            nlos: fields.nlos,
            aoa_azimuth: fields.aoa_azimuth,
            aoa_azimuth_fom: fields.aoa_azimuth_fom,
            aoa_elevation: fields.aoa_elevation,
            aoa_elevation_fom: fields.aoa_elevation_fom,
            rssi: fields.rssi,
            tx_timestamp: fields.tx_timestamp,
            rx_timestamp: fields.rx_timestamp,
            anchor_cfo: fields.anchor_cfo,
            cfo: fields.cfo,
            initiator_reply_time: fields.initiator_reply_time,
            responder_reply_time: fields.responder_reply_time,
            initiator_responder_tof: fields.initiator_responder_tof,
            dt_anchor_location: fields.dt_anchor_location,
            ranging_rounds: fields.ranging_rounds,
        }
    }
}

impl FromSpecImpl<ShortAddressDlTdoaRangingMeasurement> for DlTdoaRangingMeasurement {
    open spec fn obeys_from_spec() -> bool {
        true
    }

    open spec fn from_spec(measurement: ShortAddressDlTdoaRangingMeasurement) -> Self {
        dl_tdoa_from_short(measurement)
    }
}

/// Normalizes every record of a list, keeping their order.
pub fn normalize_all<W, M: From<W>>(wire: Vec<W>) -> (normalized: Vec<M>)
    ensures
        M::obeys_from_spec() ==> normalized@ == wire@.map_values(|w: W| M::from_spec(w)),
{
    let mut normalized: Vec<M> = Vec::new();
    for record in iter: wire.into_iter()
        invariant
            iter.seq() == wire@,
            M::obeys_from_spec() ==> normalized@ == wire@.take(iter.index() as int).map_values(
                |w: W| M::from_spec(w),
            ),
    {
        normalized.push(M::from(record));
        assert(M::obeys_from_spec() ==> normalized@ =~= wire@.take(iter.index() + 1).map_values(
            |w: W| M::from_spec(w),
        ));
    }
    assert(wire@.take(wire@.len() as int) =~= wire@);
    normalized
}

/// Normalizes a list of records that arrived with short addresses.
pub fn normalize_short_two_way(wire: Vec<ShortAddressTwoWayRangingMeasurement>) -> (normalized: Vec<
    TwoWayRangingMeasurement,
>)
    ensures
        normalized@ == wire@.map_values(
            |w: ShortAddressTwoWayRangingMeasurement| two_way_from_short(w),
        ),
{
    let normalized: Vec<TwoWayRangingMeasurement> = normalize_all(wire);
    assert(normalized@ =~= wire@.map_values(
        |w: ShortAddressTwoWayRangingMeasurement| two_way_from_short(w),
    ));
    normalized
}

/// Normalizes a list of records that arrived with extended addresses.
pub fn normalize_extended_two_way(wire: Vec<ExtendedAddressTwoWayRangingMeasurement>) -> (normalized: Vec<
    TwoWayRangingMeasurement,
>)
    ensures
        normalized@ == wire@.map_values(
            |w: ExtendedAddressTwoWayRangingMeasurement| two_way_from_extended(w),
        ),
{
    let normalized: Vec<TwoWayRangingMeasurement> = normalize_all(wire);
    assert(normalized@ =~= wire@.map_values(
        |w: ExtendedAddressTwoWayRangingMeasurement| two_way_from_extended(w),
    ));
    normalized
}

/// Normalizes a list of records that arrived with short addresses.
pub fn normalize_short_dl_tdoa(wire: Vec<ShortAddressDlTdoaRangingMeasurement>) -> (normalized: Vec<
    DlTdoaRangingMeasurement,
>)
    ensures
        normalized@ == wire@.map_values(
            |w: ShortAddressDlTdoaRangingMeasurement| dl_tdoa_from_short(w),
        ),
{
    let normalized: Vec<DlTdoaRangingMeasurement> = normalize_all(wire);
    assert(normalized@ =~= wire@.map_values(
        |w: ShortAddressDlTdoaRangingMeasurement| dl_tdoa_from_short(w),
    ));
    normalized
}

/// Normalizes a list of records that arrived with extended addresses.
pub fn normalize_extended_dl_tdoa(wire: Vec<ExtendedAddressDlTdoaRangingMeasurement>) -> (normalized: Vec<
    DlTdoaRangingMeasurement,
>)
    ensures
        normalized@ == wire@.map_values(
            |w: ExtendedAddressDlTdoaRangingMeasurement| dl_tdoa_from_extended(w),
        ),
{
    let normalized: Vec<DlTdoaRangingMeasurement> = normalize_all(wire);
    assert(normalized@ =~= wire@.map_values(
        |w: ExtendedAddressDlTdoaRangingMeasurement| dl_tdoa_from_extended(w),
    ));
    normalized
}

} // verus!
