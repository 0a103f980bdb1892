use uwb_notification::mac_address::{MacAddress, EXTENDED_MAC_ADDRESS_LEN, SHORT_MAC_ADDRESS_LEN};
use uwb_notification::measurement::{
    normalize_all, normalize_extended_dl_tdoa, normalize_extended_two_way,
    normalize_short_dl_tdoa, normalize_short_two_way, DlTdoaMeasurementFields,
    DlTdoaRangingMeasurement, ExtendedAddressDlTdoaRangingMeasurement,
    ExtendedAddressOwrAoaRangingMeasurement, ExtendedAddressTwoWayRangingMeasurement,
    OwrAoaRangingMeasurement, ShortAddressDlTdoaRangingMeasurement,
    ShortAddressOwrAoaRangingMeasurement, ShortAddressTwoWayRangingMeasurement,
    TwoWayRangingMeasurement,
};

const UCI_STATUS_OK: u8 = 0;

fn le16(bytes: &[u8]) -> u16 {
    u16::from_le_bytes([bytes[0], bytes[1]])
}

fn le32(bytes: &[u8]) -> u32 {
    u32::from_le_bytes([bytes[0], bytes[1], bytes[2], bytes[3]])
}

fn le_up_to_64(bytes: &[u8]) -> u64 {
    let mut value: u64 = 0;
    for (i, b) in bytes.iter().enumerate() {
        value |= (*b as u64) << (8 * i);
    }
    value
}

/// Reads the fields that follow the address, given how many bytes the two
/// timestamps, the anchor location and the ranging rounds take.
fn read_fields(
    bytes: &[u8],
    tx_len: usize,
    rx_len: usize,
    anchor_len: usize,
    rounds_len: usize,
) -> DlTdoaMeasurementFields {
    let tx = 15;
    let rx = tx + tx_len;
    let rest = rx + rx_len;
    let anchor = rest + 14;
    let rounds = anchor + anchor_len;
    assert_eq!(bytes.len(), rounds + rounds_len);
    DlTdoaMeasurementFields {
        status: bytes[0],
        message_type: bytes[1],
        message_control: le16(&bytes[2..4]),
        block_index: le16(&bytes[4..6]),
        round_index: bytes[6],
        nlos: bytes[7],
        aoa_azimuth: le16(&bytes[8..10]),
        aoa_azimuth_fom: bytes[10],
        aoa_elevation: le16(&bytes[11..13]),
        aoa_elevation_fom: bytes[13],
        rssi: bytes[14],
        tx_timestamp: le_up_to_64(&bytes[tx..rx]),
        rx_timestamp: le_up_to_64(&bytes[rx..rest]),
        anchor_cfo: le16(&bytes[rest..rest + 2]),
        cfo: le16(&bytes[rest + 2..rest + 4]),
        initiator_reply_time: le32(&bytes[rest + 4..rest + 8]),
        responder_reply_time: le32(&bytes[rest + 8..rest + 12]),
        initiator_responder_tof: le16(&bytes[rest + 12..rest + 14]),
        dt_anchor_location: bytes[anchor..rounds].to_vec(),
        ranging_rounds: bytes[rounds..].to_vec(),
    }
}

#[test]
fn test_get_two_way_ranigng_measurement_from_short_address_two_way_ranging_measurement() {
    let short_address_measurement = ShortAddressTwoWayRangingMeasurement {
        mac_address: 0x1234,
        status: UCI_STATUS_OK,
        nlos: 0,
        distance: 1,
        aoa_azimuth: 2,
        aoa_azimuth_fom: 3,
        aoa_elevation: 4,
        aoa_elevation_fom: 5,
        aoa_destination_azimuth: 6,
        aoa_destination_azimuth_fom: 7,
        aoa_destination_elevation: 8,
        aoa_destination_elevation_fom: 9,
        slot_index: 10,
        rssi: 11,
    };
    let measurement = TwoWayRangingMeasurement::from(short_address_measurement.clone());
    assert_eq!(measurement.mac_address, MacAddress::Short(short_address_measurement.mac_address));
    assert_eq!(measurement.status, short_address_measurement.status);
    assert_eq!(measurement.nlos, short_address_measurement.nlos);
    assert_eq!(measurement.distance, short_address_measurement.distance);
    assert_eq!(measurement.aoa_azimuth, short_address_measurement.aoa_azimuth);
    assert_eq!(measurement.aoa_azimuth_fom, short_address_measurement.aoa_azimuth_fom);
    assert_eq!(measurement.aoa_elevation, short_address_measurement.aoa_elevation);
    assert_eq!(measurement.aoa_elevation_fom, short_address_measurement.aoa_elevation_fom);
    assert_eq!(
        measurement.aoa_destination_azimuth,
        short_address_measurement.aoa_destination_azimuth
    );
    assert_eq!(
        measurement.aoa_destination_azimuth_fom,
        short_address_measurement.aoa_destination_azimuth_fom
    );
    assert_eq!(
        measurement.aoa_destination_elevation,
        short_address_measurement.aoa_destination_elevation
    );
    assert_eq!(
        measurement.aoa_destination_elevation_fom,
        short_address_measurement.aoa_destination_elevation_fom
    );
    assert_eq!(measurement.slot_index, short_address_measurement.slot_index);
    assert_eq!(measurement.rssi, short_address_measurement.rssi);
}

#[test]
fn test_get_two_way_ranigng_measurement_from_extended_address_two_way_ranging_measurement() {
    let extended_address_measurement = ExtendedAddressTwoWayRangingMeasurement {
        mac_address: 0x1234_5678,
        status: UCI_STATUS_OK,
        nlos: 0,
        distance: 1,
        aoa_azimuth: 2,
        aoa_azimuth_fom: 3,
        aoa_elevation: 4,
        aoa_elevation_fom: 5,
        aoa_destination_azimuth: 6,
        aoa_destination_azimuth_fom: 7,
        aoa_destination_elevation: 8,
        aoa_destination_elevation_fom: 9,
        slot_index: 10,
        rssi: 11,
    };
    let measurement = TwoWayRangingMeasurement::from(extended_address_measurement.clone());
    assert_eq!(
        measurement.mac_address,
        MacAddress::Extended(extended_address_measurement.mac_address)
    );
    assert_eq!(measurement.status, extended_address_measurement.status);
    assert_eq!(measurement.nlos, extended_address_measurement.nlos);
    assert_eq!(measurement.distance, extended_address_measurement.distance);
    assert_eq!(measurement.aoa_azimuth, extended_address_measurement.aoa_azimuth);
    assert_eq!(measurement.aoa_azimuth_fom, extended_address_measurement.aoa_azimuth_fom);
    assert_eq!(measurement.aoa_elevation, extended_address_measurement.aoa_elevation);
    assert_eq!(measurement.aoa_elevation_fom, extended_address_measurement.aoa_elevation_fom);
    assert_eq!(
        measurement.aoa_destination_azimuth,
        extended_address_measurement.aoa_destination_azimuth
    );
    assert_eq!(
        measurement.aoa_destination_azimuth_fom,
        extended_address_measurement.aoa_destination_azimuth_fom
    );
    assert_eq!(
        measurement.aoa_destination_elevation,
        extended_address_measurement.aoa_destination_elevation
    );
    assert_eq!(
        measurement.aoa_destination_elevation_fom,
        extended_address_measurement.aoa_destination_elevation_fom
    );
    assert_eq!(measurement.slot_index, extended_address_measurement.slot_index);
    assert_eq!(measurement.rssi, extended_address_measurement.rssi);
}

#[test]
fn test_get_owr_aoa_ranging_measurement_from_short_address_measurement() {
    let short_address_measurement = ShortAddressOwrAoaRangingMeasurement {
        mac_address: 0x1234,
        status: UCI_STATUS_OK,
        nlos: 0,
        frame_sequence_number: 1,
        block_index: 2,
        aoa_azimuth: 3,
        aoa_azimuth_fom: 4,
        aoa_elevation: 5,
        aoa_elevation_fom: 6,
    };
    let measurement = OwrAoaRangingMeasurement::from(short_address_measurement.clone());
    assert_eq!(measurement.mac_address, MacAddress::Short(short_address_measurement.mac_address));
    assert_eq!(measurement.status, short_address_measurement.status);
    assert_eq!(measurement.nlos, short_address_measurement.nlos);
    assert_eq!(
        measurement.frame_sequence_number,
        short_address_measurement.frame_sequence_number
    );
    assert_eq!(measurement.block_index, short_address_measurement.block_index);
    assert_eq!(measurement.aoa_azimuth, short_address_measurement.aoa_azimuth);
    assert_eq!(measurement.aoa_azimuth_fom, short_address_measurement.aoa_azimuth_fom);
    assert_eq!(measurement.aoa_elevation, short_address_measurement.aoa_elevation);
    assert_eq!(measurement.aoa_elevation_fom, short_address_measurement.aoa_elevation_fom);
}

#[test]
fn test_get_owr_aoa_ranging_measurement_from_extended_address_measurement() {
    let extended_address_measurement = ExtendedAddressOwrAoaRangingMeasurement {
        mac_address: 0x1234_5678,
        status: UCI_STATUS_OK,
        nlos: 0,
        frame_sequence_number: 1,
        block_index: 2,
        aoa_azimuth: 3,
        aoa_azimuth_fom: 4,
        aoa_elevation: 5,
        aoa_elevation_fom: 6,
    };
    let measurement = OwrAoaRangingMeasurement::from(extended_address_measurement.clone());
    assert_eq!(
        measurement.mac_address,
        MacAddress::Extended(extended_address_measurement.mac_address)
    );
    assert_eq!(measurement.status, extended_address_measurement.status);
    assert_eq!(measurement.nlos, extended_address_measurement.nlos);
    assert_eq!(
        measurement.frame_sequence_number,
        extended_address_measurement.frame_sequence_number
    );
    assert_eq!(measurement.block_index, extended_address_measurement.block_index);
    assert_eq!(measurement.aoa_azimuth, extended_address_measurement.aoa_azimuth);
    assert_eq!(measurement.aoa_azimuth_fom, extended_address_measurement.aoa_azimuth_fom);
    assert_eq!(measurement.aoa_elevation, extended_address_measurement.aoa_elevation);
    assert_eq!(measurement.aoa_elevation_fom, extended_address_measurement.aoa_elevation_fom);
}

#[test]
fn test_get_dl_tdoa_ranging_measurement_from_short_address_measurement() {
    let bytes = [
        // All Fields in Little Endian (LE)
        0x0a, 0x01, 0x33, 0x05, // 2(Mac address), Status, Message Type
        0x53, 0x05, 0x02, 0x05, // 2(Message control), 2(Block Index)
        0x07, 0x09, 0x0a, 0x01, // Round Index, NLoS, 2(AoA Azimuth)
        0x02, 0x05, 0x07, 0x09, // AoA Azimuth FOM, 2(AoA Elevation), AoA Elevation FOM
        0x0a, 0x01, 0x02, 0x05, // RSSI, 3(Tx Timestamp..)
        0x07, 0x09, 0x0a, 0x01, // 4(Tx Timestamp..)
        0x02, 0x05, 0x07, 0x09, // Tx Timestamp, 3(Rx Timestamp..)
        0x05, 0x07, 0x09, 0x0a, // 2(Rx Timestamp), 2(Anchor Cfo)
        0x01, 0x02, 0x05, 0x07, // 2(Cfo), 2(Initiator Reply Time..)
        0x09, 0x05, 0x07, 0x09, // 2(Initiator Reply Time), 2(Responder Reply Time..)
        0x0a, 0x01, 0x02, 0x05, // 2(Responder Reply Time), 2(Initiator-Responder ToF)
        0x07, 0x09, 0x07, 0x09, // 4(Anchor Location..)
        0x05, 0x07, 0x09, 0x0a, // 4(Anchor Location..)
        0x01, 0x02, 0x05, 0x07, // 2(Anchor Location..), 2(Active Ranging Rounds..)
        0x09, 0x0a, 0x01, 0x02, // 4(Active Ranging Rounds..)
        0x05, 0x07, 0x09, 0x05, // 4(Active Ranging Rounds)
    ];
    let short_address_measurement_vec = vec![ShortAddressDlTdoaRangingMeasurement {
        mac_address: le16(&bytes[0..2]),
        measurement: read_fields(&bytes[2..], 8, 5, 10, 10),
    }];
    let short_address_measurement = &short_address_measurement_vec[0];
    let measurement = DlTdoaRangingMeasurement::from(short_address_measurement.clone());
    assert_eq!(measurement.mac_address, MacAddress::Short(short_address_measurement.mac_address));
    assert_eq!(measurement.status, short_address_measurement.measurement.status);
    assert_eq!(measurement.message_type, short_address_measurement.measurement.message_type);
    assert_eq!(measurement.message_control, short_address_measurement.measurement.message_control);
    assert_eq!(measurement.block_index, short_address_measurement.measurement.block_index);
    assert_eq!(measurement.round_index, short_address_measurement.measurement.round_index);
    assert_eq!(measurement.nlos, short_address_measurement.measurement.nlos);
    assert_eq!(measurement.aoa_azimuth, short_address_measurement.measurement.aoa_azimuth);
    assert_eq!(measurement.aoa_azimuth_fom, short_address_measurement.measurement.aoa_azimuth_fom);
    assert_eq!(measurement.aoa_elevation, short_address_measurement.measurement.aoa_elevation);
    assert_eq!(
        measurement.aoa_elevation_fom,
        short_address_measurement.measurement.aoa_elevation_fom
    );
    assert_eq!(measurement.rssi, short_address_measurement.measurement.rssi);
    assert_eq!(measurement.tx_timestamp, short_address_measurement.measurement.tx_timestamp);
    assert_eq!(measurement.rx_timestamp, short_address_measurement.measurement.rx_timestamp);
    assert_eq!(measurement.anchor_cfo, short_address_measurement.measurement.anchor_cfo);
    assert_eq!(measurement.cfo, short_address_measurement.measurement.cfo);
    assert_eq!(
        measurement.initiator_reply_time,
        short_address_measurement.measurement.initiator_reply_time
    );
    assert_eq!(
        measurement.responder_reply_time,
        short_address_measurement.measurement.responder_reply_time
    );
    assert_eq!(
        measurement.initiator_responder_tof,
        short_address_measurement.measurement.initiator_responder_tof
    );
    assert_eq!(
        measurement.dt_anchor_location,
        short_address_measurement.measurement.dt_anchor_location
    );
    assert_eq!(measurement.ranging_rounds, short_address_measurement.measurement.ranging_rounds);
}

#[test]
fn test_get_dl_tdoa_ranging_measurement_from_extended_address_measurement() {
    let bytes = [
        // All Fields in Little Endian (LE)
        0x0a, 0x01, 0x33, 0x05, // 4(Mac address..)
        0x33, 0x05, 0x02, 0x05, // 4(Mac address)
        0x07, 0x09, 0x0a, 0x01, // Status, Message Type, 2(Message control),
        0x02, 0x05, 0x07, 0x09, // 2(Block Index), Round Index, NLoS,
        0x0a, 0x01, 0x02, 0x05, // 2(AoA Azimuth), AoA Azimuth FOM, 1(AoA Elevation..)
        0x07, 0x09, 0x0a, // 1(AoA Elevation), AoA Elevation FOM, RSSI,
        0x01, 0x02, 0x05, 0x07, // 4(Tx Timestamp..)
        0x09, 0x05, 0x07, 0x09, // 4(Tx Timestamp),
        0x0a, 0x01, 0x02, 0x05, // 4(Rx Timestamp..)
        0x07, 0x09, 0x05, 0x07, // 4(Rx Timestamp)
        0x09, 0x0a, 0x01, 0x02, // 2(Anchor Cfo), 2(Cfo),
        0x05, 0x07, 0x09, 0x05, // 4(Initiator Reply Time)
        0x07, 0x09, 0x0a, 0x01, // 4(Responder Reply Time),
        0x02, 0x05, 0x02, 0x05, // 2(Initiator-Responder ToF), 2(Active Ranging Rounds)
    ];
    let extended_address_measurement_vec = vec![ExtendedAddressDlTdoaRangingMeasurement {
        mac_address: le_up_to_64(&bytes[0..8]),
        measurement: read_fields(&bytes[8..], 8, 8, 0, 2),
    }];
    let extended_address_measurement = &extended_address_measurement_vec[0];

    let measurement = DlTdoaRangingMeasurement::from(extended_address_measurement.clone());
    assert_eq!(
        measurement.mac_address,
        MacAddress::Extended(extended_address_measurement.mac_address)
    );
    assert_eq!(measurement.status, extended_address_measurement.measurement.status);
    assert_eq!(measurement.message_type, extended_address_measurement.measurement.message_type);
    assert_eq!(
        measurement.message_control,
        extended_address_measurement.measurement.message_control
    );
    assert_eq!(measurement.block_index, extended_address_measurement.measurement.block_index);
    assert_eq!(measurement.round_index, extended_address_measurement.measurement.round_index);
    assert_eq!(measurement.nlos, extended_address_measurement.measurement.nlos);
    assert_eq!(measurement.aoa_azimuth, extended_address_measurement.measurement.aoa_azimuth);
    assert_eq!(
        measurement.aoa_azimuth_fom,
        extended_address_measurement.measurement.aoa_azimuth_fom
    );
    assert_eq!(measurement.aoa_elevation, extended_address_measurement.measurement.aoa_elevation);
    assert_eq!(
        measurement.aoa_elevation_fom,
        extended_address_measurement.measurement.aoa_elevation_fom
    );
    assert_eq!(measurement.rssi, extended_address_measurement.measurement.rssi);
    assert_eq!(measurement.tx_timestamp, extended_address_measurement.measurement.tx_timestamp);
    assert_eq!(measurement.rx_timestamp, extended_address_measurement.measurement.rx_timestamp);
    assert_eq!(measurement.anchor_cfo, extended_address_measurement.measurement.anchor_cfo);
    assert_eq!(measurement.cfo, extended_address_measurement.measurement.cfo);
    assert_eq!(
        measurement.initiator_reply_time,
        extended_address_measurement.measurement.initiator_reply_time
    );
    assert_eq!(
        measurement.responder_reply_time,
        extended_address_measurement.measurement.responder_reply_time
    );
    assert_eq!(
        measurement.initiator_responder_tof,
        extended_address_measurement.measurement.initiator_responder_tof
    );
    assert_eq!(
        measurement.dt_anchor_location,
        extended_address_measurement.measurement.dt_anchor_location
    );
    assert_eq!(measurement.ranging_rounds, extended_address_measurement.measurement.ranging_rounds);
}

#[test]
fn dl_tdoa_fixture_decodes_to_known_values() {
    let bytes = [
        0x0a, 0x01, 0x33, 0x05, 0x33, 0x05, 0x02, 0x05, 0x07, 0x09, 0x0a, 0x01, 0x02, 0x05, 0x07,
        0x09, 0x0a, 0x01, 0x02, 0x05, 0x07, 0x09, 0x0a, 0x01, 0x02, 0x05, 0x07, 0x09, 0x05, 0x07,
        0x09, 0x0a, 0x01, 0x02, 0x05, 0x07, 0x09, 0x05, 0x07, 0x09, 0x0a, 0x01, 0x02, 0x05, 0x07,
        0x09, 0x05, 0x07, 0x09, 0x0a, 0x01, 0x02, 0x05, 0x02, 0x05,
    ];
    let wire = ExtendedAddressDlTdoaRangingMeasurement {
        mac_address: le_up_to_64(&bytes[0..8]),
        measurement: read_fields(&bytes[8..], 8, 8, 0, 2),
    };
    let measurement = DlTdoaRangingMeasurement::from(wire);
    assert_eq!(measurement.mac_address, MacAddress::Extended(0x0502_0533_0533_010a));
    assert_eq!(measurement.status, 0x07);
    assert_eq!(measurement.message_type, 0x09);
    assert_eq!(measurement.message_control, 0x010a);
    assert_eq!(measurement.block_index, 0x0502);
    assert_eq!(measurement.round_index, 0x07);
    assert_eq!(measurement.nlos, 0x09);
    assert_eq!(measurement.aoa_azimuth, 0x010a);
    assert_eq!(measurement.aoa_azimuth_fom, 0x02);
    assert_eq!(measurement.aoa_elevation, 0x0705);
    assert_eq!(measurement.aoa_elevation_fom, 0x09);
    assert_eq!(measurement.rssi, 0x0a);
    assert_eq!(measurement.tx_timestamp, 0x0907_0509_0705_0201);
    assert_eq!(measurement.rx_timestamp, 0x0705_0907_0502_010a);
    assert_eq!(measurement.anchor_cfo, 0x0a09);
    assert_eq!(measurement.cfo, 0x0201);
    assert_eq!(measurement.initiator_reply_time, 0x0509_0705);
    assert_eq!(measurement.responder_reply_time, 0x010a_0907);
    assert_eq!(measurement.initiator_responder_tof, 0x0502);
    assert_eq!(measurement.dt_anchor_location, Vec::<u8>::new());
    assert_eq!(measurement.ranging_rounds, vec![0x02, 0x05]);
}

#[test]
fn short_address_serializes_to_two_native_bytes() {
    let address = MacAddress::Short(0x1234);
    assert_eq!(address.byte_len(), SHORT_MAC_ADDRESS_LEN);
    let bytes = address.into_ne_bytes();
    assert_eq!(bytes.len(), 2);
    assert_eq!(bytes, 0x1234u16.to_ne_bytes().to_vec());
    assert!(bytes == vec![0x34, 0x12] || bytes == vec![0x12, 0x34]);
}

#[test]
fn extended_address_serializes_to_eight_native_bytes() {
    let address = MacAddress::Extended(0x0102_0304_0506_0708);
    assert_eq!(address.byte_len(), EXTENDED_MAC_ADDRESS_LEN);
    let bytes = address.into_ne_bytes();
    assert_eq!(bytes.len(), 8);
    assert_eq!(bytes, 0x0102_0304_0506_0708u64.to_ne_bytes().to_vec());
    assert!(
        bytes == vec![8, 7, 6, 5, 4, 3, 2, 1] || bytes == vec![1, 2, 3, 4, 5, 6, 7, 8]
    );
}

#[test]
fn normalized_address_has_the_width_of_the_wire_record() {
    let short = ShortAddressOwrAoaRangingMeasurement {
        mac_address: 0xffff,
        status: 1,
        nlos: 2,
        frame_sequence_number: 3,
        block_index: 4,
        aoa_azimuth: 5,
        aoa_azimuth_fom: 6,
        aoa_elevation: 7,
        aoa_elevation_fom: 8,
    };
    let extended = ExtendedAddressOwrAoaRangingMeasurement {
        mac_address: 0xffff,
        status: 1,
        nlos: 2,
        frame_sequence_number: 3,
        block_index: 4,
        aoa_azimuth: 5,
        aoa_azimuth_fom: 6,
        aoa_elevation: 7,
        aoa_elevation_fom: 8,
    };
    let from_short = OwrAoaRangingMeasurement::from(short);
    let from_extended = OwrAoaRangingMeasurement::from(extended);
    assert_eq!(from_short.mac_address, MacAddress::Short(0xffff));
    assert_eq!(from_extended.mac_address, MacAddress::Extended(0xffff));
    assert_eq!(from_short.mac_address.into_ne_bytes().len(), 2);
    assert_eq!(from_extended.mac_address.into_ne_bytes().len(), 8);
}

#[test]
fn normalization_keeps_extreme_values() {
    let wire = ShortAddressTwoWayRangingMeasurement {
        mac_address: u16::MAX,
        status: u8::MAX,
        nlos: u8::MAX,
        distance: u16::MAX,
        aoa_azimuth: u16::MAX,
        aoa_azimuth_fom: u8::MAX,
        aoa_elevation: u16::MAX,
        aoa_elevation_fom: u8::MAX,
        aoa_destination_azimuth: u16::MAX,
        aoa_destination_azimuth_fom: u8::MAX,
        aoa_destination_elevation: u16::MAX,
        aoa_destination_elevation_fom: u8::MAX,
        slot_index: u8::MAX,
        rssi: u8::MAX,
    };
    let measurement = TwoWayRangingMeasurement::from(wire);
    assert_eq!(
        measurement,
        TwoWayRangingMeasurement {
            mac_address: MacAddress::Short(u16::MAX),
            status: u8::MAX,
            nlos: u8::MAX,
            distance: u16::MAX,
            aoa_azimuth: u16::MAX,
            aoa_azimuth_fom: u8::MAX,
            aoa_elevation: u16::MAX,
            aoa_elevation_fom: u8::MAX,
            aoa_destination_azimuth: u16::MAX,
            aoa_destination_azimuth_fom: u8::MAX,
            aoa_destination_elevation: u16::MAX,
            aoa_destination_elevation_fom: u8::MAX,
            slot_index: u8::MAX,
            rssi: u8::MAX,
        }
    );
}

fn two_way_short(mac_address: u16, distance: u16) -> ShortAddressTwoWayRangingMeasurement {
    ShortAddressTwoWayRangingMeasurement {
        mac_address,
        status: 0,
        nlos: 0,
        distance,
        aoa_azimuth: 0,
        aoa_azimuth_fom: 0,
        aoa_elevation: 0,
        aoa_elevation_fom: 0,
        aoa_destination_azimuth: 0,
        aoa_destination_azimuth_fom: 0,
        aoa_destination_elevation: 0,
        aoa_destination_elevation_fom: 0,
        slot_index: 0,
        rssi: 0,
    }
}

#[test]
fn lists_are_normalized_in_order() {
    let normalized = normalize_short_two_way(vec![two_way_short(1, 10), two_way_short(2, 20)]);
    assert_eq!(normalized.len(), 2);
    assert_eq!(normalized[0].mac_address, MacAddress::Short(1));
    assert_eq!(normalized[0].distance, 10);
    assert_eq!(normalized[1].mac_address, MacAddress::Short(2));
    assert_eq!(normalized[1].distance, 20);

    let generic: Vec<TwoWayRangingMeasurement> =
        normalize_all(vec![two_way_short(3, 30), two_way_short(4, 40), two_way_short(5, 50)]);
    assert_eq!(generic.len(), 3);
    assert_eq!(generic[2].mac_address, MacAddress::Short(5));
    assert_eq!(generic[2].distance, 50);

    assert_eq!(normalize_extended_two_way(Vec::new()), Vec::new());
    assert_eq!(normalize_short_dl_tdoa(Vec::new()), Vec::new());
    assert_eq!(normalize_extended_dl_tdoa(Vec::new()), Vec::new());
}
