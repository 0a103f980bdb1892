use uwb_notification::dispatch::{Delivery, NotificationManagerAndroidBuilder};
use uwb_notification::error::{JniError, UwbError};
use uwb_notification::foreign::{ForeignObject, ForeignValue, Invocation};
use uwb_notification::mac_address::MacAddress;
use uwb_notification::manager::NotificationManagerAndroid;
use uwb_notification::measurement::{
    DlTdoaMeasurementFields, ExtendedAddressDlTdoaRangingMeasurement,
    ExtendedAddressOwrAoaRangingMeasurement, ExtendedAddressTwoWayRangingMeasurement,
    ShortAddressDlTdoaRangingMeasurement, ShortAddressOwrAoaRangingMeasurement,
    ShortAddressTwoWayRangingMeasurement, TwoWayRangingMeasurement,
};
use uwb_notification::notification::{
    radar_bytes_per_sample_value, BitsPerSample, ControleeStatusList, ControleeStatusV1,
    ControleeStatusV2, CoreNotification, DataRcvNotification, MacAddressIndicator,
    RadarDataRcvNotification, RadarSweepData, RangingMeasurementType, RangingMeasurements,
    RawUciMessage, SessionNotification, SessionRangeData, UwbAddress,
};

const RANGING_DATA: &str = "com/android/server/uwb/data/UwbRangingData";
const TWO_WAY: &str = "com/android/server/uwb/data/UwbTwoWayMeasurement";
const OWR_AOA: &str = "com/android/server/uwb/data/UwbOwrAoaMeasurement";
const DL_TDOA: &str = "com/android/server/uwb/data/UwbDlTDoAMeasurement";
const MULTICAST: &str = "com/android/server/uwb/data/UwbMulticastListUpdateStatus";
const RADAR_DATA: &str = "com/android/server/uwb/data/UwbRadarData";
const RADAR_SWEEP: &str = "com/android/server/uwb/data/UwbRadarSweepData";

fn manager() -> NotificationManagerAndroid {
    NotificationManagerAndroidBuilder { chip_id: "default".to_string(), attached: true }
        .build()
        .unwrap()
}

fn text(s: &str) -> ForeignObject {
    ForeignObject::Text(s.to_string())
}

fn instance(class: usize, signature: &str, fields: Vec<ForeignValue>) -> ForeignObject {
    ForeignObject::Instance { class, signature: signature.to_string(), fields }
}

fn invocation(
    method: usize,
    lookup: bool,
    name: &str,
    signature: &str,
    args: Vec<ForeignValue>,
) -> Invocation {
    Invocation { method, lookup, name: name.to_string(), signature: signature.to_string(), args }
}

fn zeros(n: usize) -> Vec<ForeignValue> {
    vec![ForeignValue::Int(0); n]
}

fn two_way_short(mac_address: u16) -> ShortAddressTwoWayRangingMeasurement {
    ShortAddressTwoWayRangingMeasurement {
        mac_address,
        status: 1,
        nlos: 2,
        distance: 3,
        aoa_azimuth: 4,
        aoa_azimuth_fom: 5,
        aoa_elevation: 6,
        aoa_elevation_fom: 7,
        aoa_destination_azimuth: 8,
        aoa_destination_azimuth_fom: 9,
        aoa_destination_elevation: 10,
        aoa_destination_elevation_fom: 11,
        slot_index: 12,
        rssi: 13,
    }
}

fn two_way_record_fields(address: usize) -> Vec<ForeignValue> {
    let mut fields = vec![ForeignValue::Object(address)];
    for value in 1..=13 {
        fields.push(ForeignValue::Int(value));
    }
    fields
}

fn two_way_range_data(count: u16) -> SessionRangeData {
    SessionRangeData {
        sequence_number: 7,
        session_token: 0xffff_ffff,
        current_ranging_interval_ms: 200,
        ranging_measurement_type: RangingMeasurementType::TwoWay,
        ranging_measurements: RangingMeasurements::ShortAddressTwoWay(
            (0..count).map(two_way_short).collect(),
        ),
        rcr_indicator: 3,
        raw_ranging_data: vec![0xaa, 0xbb],
    }
}

fn dl_tdoa_fields() -> DlTdoaMeasurementFields {
    DlTdoaMeasurementFields {
        status: 1,
        message_type: 2,
        message_control: 3,
        block_index: 4,
        round_index: 5,
        nlos: 6,
        aoa_azimuth: 7,
        aoa_azimuth_fom: 8,
        aoa_elevation: 9,
        aoa_elevation_fom: 10,
        rssi: 11,
        tx_timestamp: u64::MAX,
        rx_timestamp: 0x8000_0000_0000_0000,
        anchor_cfo: 14,
        cfo: 15,
        initiator_reply_time: u32::MAX,
        responder_reply_time: 17,
        initiator_responder_tof: 18,
        dt_anchor_location: vec![1, 2, 3],
        ranging_rounds: vec![4, 5],
    }
}

fn dl_tdoa_record_fields(address: usize) -> Vec<ForeignValue> {
    vec![
        ForeignValue::Object(address),
        ForeignValue::Int(1),
        ForeignValue::Int(2),
        ForeignValue::Int(3),
        ForeignValue::Int(4),
        ForeignValue::Int(5),
        ForeignValue::Int(6),
        ForeignValue::Int(7),
        ForeignValue::Int(8),
        ForeignValue::Int(9),
        ForeignValue::Int(10),
        ForeignValue::Int(11),
        ForeignValue::Long(-1),
        ForeignValue::Long(i64::MIN),
        ForeignValue::Int(14),
        ForeignValue::Int(15),
        ForeignValue::Long(4_294_967_295),
        ForeignValue::Long(17),
        ForeignValue::Int(18),
        ForeignValue::Object(address + 1),
        ForeignValue::Object(address + 2),
    ]
}

fn failed(result: Result<Delivery, UwbError>) -> bool {
    matches!(result, Err(UwbError::ForeignFunctionInterface))
}

#[test]
fn builder_needs_an_attached_thread() {
    let none = NotificationManagerAndroidBuilder { chip_id: "chip".to_string(), attached: false }
        .build();
    assert!(none.is_none());
    let some =
        NotificationManagerAndroidBuilder { chip_id: "chip".to_string(), attached: true }.build();
    let manager = some.unwrap();
    assert_eq!(manager.chip_id, "chip");
    assert_eq!(manager.last_error, None);
    assert_eq!(manager.env.len(), 0);
    assert_eq!(manager.env.remaining(), 50);
    assert_eq!(manager.env.call_count(), 0);
    assert_eq!(manager.jclass_map.len(), 0);
    assert_eq!(manager.jmethod_id_map.len(), 0);
}

#[test]
fn cached_call_checks_the_number_of_arguments() {
    let mut manager = manager();
    let args = vec![ForeignValue::Long(1), ForeignValue::Int(2)];
    assert_eq!(manager.cached_jni_call("onThing", "(JI)V", args.clone()), Ok(()));
    assert_eq!(manager.env.call_count(), 1);
    assert_eq!(manager.env.call_at(0), &invocation(0, true, "onThing", "(JI)V", args.clone()));
    assert_eq!(manager.jmethod_id_map.key_at(0).as_str(), "onThing(JI)V");

    assert_eq!(
        manager.cached_jni_call("onThing", "(JII)V", args.clone()),
        Err(JniError::EncodingContract)
    );
    assert_eq!(
        manager.cached_jni_call("onThing", "(J)V", args.clone()),
        Err(JniError::EncodingContract)
    );
    assert_eq!(manager.cached_jni_call("onThing", "()V", args), Err(JniError::EncodingContract));
    assert_eq!(manager.env.call_count(), 1);
    assert_eq!(manager.jmethod_id_map.len(), 1);
}

#[test]
fn cached_call_refuses_what_is_no_signature() {
    let mut manager = manager();
    assert_eq!(manager.cached_jni_call("onThing", "JI", vec![]), Err(JniError::EncodingContract));
    assert_eq!(manager.cached_jni_call("onThing", "", vec![]), Err(JniError::EncodingContract));
    assert_eq!(
        manager.cached_jni_call("onThing", "(Ljava/lang/String)V", vec![ForeignValue::Object(0)]),
        Err(JniError::EncodingContract)
    );
    assert_eq!(manager.env.call_count(), 0);
    assert_eq!(manager.jmethod_id_map.len(), 0);
}

#[test]
fn cached_call_refuses_a_signature_without_end() {
    let mut manager = manager();
    let mut nested = String::from("(");
    for _ in 0..100_000 {
        nested.push('[');
    }
    nested.push_str("I)V");
    assert_eq!(
        manager.cached_jni_call("onThing", &nested, vec![ForeignValue::Object(0)]),
        Err(JniError::EncodingContract)
    );
    let longest = format!("({})V", "I".repeat(253));
    assert_eq!(longest.len(), 256);
    assert_eq!(manager.cached_jni_call("onThing", &longest, zeros(253)), Ok(()));
    let too_long = format!("({})V", "I".repeat(254));
    assert_eq!(
        manager.cached_jni_call("onThing", &too_long, zeros(254)),
        Err(JniError::EncodingContract)
    );
    assert_eq!(manager.env.call_count(), 1);
}

#[test]
fn cached_call_counts_objects_and_arrays_as_one_argument_each() {
    let mut manager = manager();
    let args = vec![
        ForeignValue::Object(0),
        ForeignValue::Object(1),
        ForeignValue::Object(2),
        ForeignValue::Int(3),
    ];
    assert_eq!(
        manager.cached_jni_call("onThing", "(Ljava/lang/String;[B[Lcom/example/Thing;I)V", args),
        Ok(())
    );
    assert_eq!(manager.cached_jni_call("onNothing", "()V", vec![]), Ok(()));
    assert_eq!(manager.env.call_count(), 2);
    assert_eq!(manager.env.call_at(1), &invocation(1, true, "onNothing", "()V", vec![]));
}

#[test]
fn method_handles_are_looked_up_once() {
    let mut manager = manager();
    manager.cached_jni_call("onThing", "(I)V", vec![ForeignValue::Int(1)]).unwrap();
    manager.cached_jni_call("onOther", "(I)V", vec![ForeignValue::Int(2)]).unwrap();
    manager.cached_jni_call("onThing", "(I)V", vec![ForeignValue::Int(3)]).unwrap();
    manager.cached_jni_call("onThing", "(J)V", vec![ForeignValue::Long(4)]).unwrap();
    assert_eq!(manager.env.call_at(0).method, 0);
    assert!(manager.env.call_at(0).lookup);
    assert_eq!(manager.env.call_at(1).method, 1);
    assert!(manager.env.call_at(1).lookup);
    assert_eq!(manager.env.call_at(2).method, 0);
    assert!(!manager.env.call_at(2).lookup);
    assert_eq!(manager.env.call_at(3).method, 2);
    assert!(manager.env.call_at(3).lookup);
    assert_eq!(manager.jmethod_id_map.len(), 3);
}

#[test]
fn parsed_arity_decides_the_invocation() {
    let mut manager = manager();
    let args = vec![ForeignValue::Int(1)];
    assert_eq!(manager.invoke_parsed("onThing", "(I)V", args.clone(), Some(1)), Ok(()));
    assert_eq!(
        manager.invoke_parsed("onThing", "(I)V", args.clone(), Some(2)),
        Err(JniError::EncodingContract)
    );
    assert_eq!(
        manager.invoke_parsed("onThing", "(I)V", args.clone(), Some(0)),
        Err(JniError::EncodingContract)
    );
    assert_eq!(
        manager.invoke_parsed("onThing", "(I)V", args, None),
        Err(JniError::EncodingContract)
    );
    assert_eq!(manager.invoke_parsed("onThing", "()V", vec![], Some(0)), Ok(()));
    assert_eq!(manager.env.call_count(), 2);
}

#[test]
fn classes_are_found_once() {
    let mut manager = manager();
    let first =
        NotificationManagerAndroid::find_local_class(&mut manager.jclass_map, &mut manager.env, TWO_WAY);
    assert_eq!(first, Ok(0));
    assert_eq!(manager.env.len(), 2);
    assert_eq!(manager.env.object_at(0), &text(TWO_WAY));
    assert_eq!(manager.env.object_at(1), &ForeignObject::LoadedClass { slot: 0, name: 0 });
    let second =
        NotificationManagerAndroid::find_local_class(&mut manager.jclass_map, &mut manager.env, TWO_WAY);
    assert_eq!(second, Ok(0));
    assert_eq!(manager.env.len(), 2);
    let other = NotificationManagerAndroid::find_local_class(
        &mut manager.jclass_map,
        &mut manager.env,
        RANGING_DATA,
    );
    assert_eq!(other, Ok(1));
    assert_eq!(manager.env.len(), 4);
    assert_eq!(manager.env.object_at(2), &text(RANGING_DATA));
    assert_eq!(manager.env.object_at(3), &ForeignObject::LoadedClass { slot: 1, name: 2 });
    assert_eq!(manager.jclass_map.len(), 2);
}

#[test]
fn resolving_a_class_or_a_method_twice_asks_the_host_once() {
    let mut manager = manager();
    assert_eq!(manager.resolve_class(RADAR_SWEEP), Ok(0));
    assert_eq!(manager.resolve_class(RADAR_SWEEP), Ok(0));
    assert_eq!(manager.resolve_class(RADAR_DATA), Ok(1));
    assert_eq!(manager.resolve_class(RADAR_SWEEP), Ok(0));
    let lookups = (0..manager.env.len())
        .filter(|i| matches!(manager.env.object_at(*i), ForeignObject::LoadedClass { .. }))
        .count();
    assert_eq!(lookups, 2);
    assert_eq!(manager.env.len(), 4);

    let first = manager.resolve_method("onThing", "(I)V");
    let second = manager.resolve_method("onThing", "(I)V");
    assert_eq!((first.slot, first.fresh), (0, true));
    assert_eq!((second.slot, second.fresh), (0, false));
    let other = manager.resolve_method("onThing", "(J)V");
    assert_eq!((other.slot, other.fresh), (1, true));
    // The key is the name and the signature together.
    let joined = manager.resolve_method("onThing(", "I)V");
    assert_eq!((joined.slot, joined.fresh), (0, false));
    assert_eq!(manager.jmethod_id_map.len(), 2);
    assert_eq!(manager.env.call_count(), 0);
}

#[test]
fn class_lookup_needs_room_for_two_objects() {
    let mut manager = manager();
    for _ in 0..49 {
        manager.env.allocate(ForeignObject::ZeroedByteArray(1)).unwrap();
    }
    let r = NotificationManagerAndroid::find_local_class(
        &mut manager.jclass_map,
        &mut manager.env,
        TWO_WAY,
    );
    assert_eq!(r, Err(JniError::CapacityExceeded));
    assert_eq!(manager.env.len(), 49);
    assert_eq!(manager.jclass_map.len(), 0);
}

#[test]
fn session_status_is_four_numbers() {
    let mut manager = manager();
    assert_eq!(manager.on_session_status_notification(u32::MAX, u32::MAX, 2, 255), Ok(()));
    assert_eq!(manager.env.len(), 0);
    assert_eq!(
        manager.env.call_at(0),
        &invocation(
            0,
            true,
            "onSessionStatusNotificationReceived",
            "(JIII)V",
            vec![
                ForeignValue::Long(4_294_967_295),
                ForeignValue::Int(-1),
                ForeignValue::Int(2),
                ForeignValue::Int(255),
            ],
        )
    );
}

#[test]
fn data_transfer_status_is_four_numbers() {
    let mut manager = manager();
    assert_eq!(manager.on_data_transfer_status_notification(0x1234_5678, 0xfffe, 4, 9), Ok(()));
    assert_eq!(
        manager.env.call_at(0),
        &invocation(
            0,
            true,
            "onDataSendStatus",
            "(JIJI)V",
            vec![
                ForeignValue::Long(0x1234_5678),
                ForeignValue::Int(4),
                ForeignValue::Long(0xfffe),
                ForeignValue::Int(9),
            ],
        )
    );
}

#[test]
fn data_transfer_phase_config_is_two_numbers() {
    let mut manager = manager();
    assert_eq!(manager.on_data_transfer_phase_config_notification(5, 0), Ok(()));
    assert_eq!(
        manager.env.call_at(0),
        &invocation(
            0,
            true,
            "onDataTransferPhaseConfigNotificationReceived",
            "(JI)V",
            vec![ForeignValue::Long(5), ForeignValue::Int(0)],
        )
    );
}

#[test]
fn core_notifications_carry_the_chip() {
    let mut manager = manager();
    let delivery = manager.on_core_notification(CoreNotification::DeviceStatus(2)).unwrap();
    assert_eq!(delivery.objects, vec![text("default")]);
    assert_eq!(
        delivery.invocation,
        invocation(
            0,
            true,
            "onDeviceStatusNotificationReceived",
            "(ILjava/lang/String;)V",
            vec![ForeignValue::Int(2), ForeignValue::Object(0)],
        )
    );
    assert_eq!(manager.last_error, None);
    assert_eq!(manager.env.len(), 0);
    assert_eq!(manager.env.call_count(), 0);
    manager.settle(0, true, None).unwrap();

    let delivery = manager.on_core_notification(CoreNotification::GenericError(0x0a)).unwrap();
    assert_eq!(delivery.objects, vec![text("default")]);
    assert_eq!(
        delivery.invocation,
        invocation(
            1,
            true,
            "onCoreGenericErrorNotificationReceived",
            "(ILjava/lang/String;)V",
            vec![ForeignValue::Int(10), ForeignValue::Object(0)],
        )
    );
}

#[test]
fn vendor_messages_carry_their_payload() {
    let mut manager = manager();
    let delivery = manager
        .on_vendor_notification(RawUciMessage { gid: 9, oid: 0x7fff_ffff, payload: vec![1, 2, 3] })
        .unwrap();
    assert_eq!(delivery.objects, vec![ForeignObject::ByteArray(vec![1, 2, 3])]);
    assert_eq!(
        delivery.invocation,
        invocation(
            0,
            true,
            "onVendorUciNotificationReceived",
            "(II[B)V",
            vec![ForeignValue::Int(9), ForeignValue::Int(i32::MAX), ForeignValue::Object(0)],
        )
    );
}

#[test]
fn vendor_groups_beyond_the_signed_range_are_refused() {
    let mut manager = manager();
    let r = manager.on_vendor_notification(RawUciMessage {
        gid: 0x8000_0000,
        oid: 1,
        payload: vec![1],
    });
    assert!(failed(r));
    assert_eq!(manager.last_error, Some(JniError::EncodingContract));
    let r = manager.on_vendor_notification(RawUciMessage { gid: 1, oid: u32::MAX, payload: vec![] });
    assert!(failed(r));
    assert_eq!(manager.last_error, Some(JniError::EncodingContract));
    assert_eq!(manager.jmethod_id_map.len(), 0);
    let ok = manager.on_vendor_notification(RawUciMessage { gid: 1, oid: 1, payload: vec![] });
    assert!(ok.is_ok());
    assert_eq!(manager.last_error, None);
}

#[test]
fn received_data_carries_its_source_address() {
    let mut manager = manager();
    let delivery = manager
        .on_data_rcv_notification(DataRcvNotification {
            session_token: 0x8000_0001,
            status: 3,
            uci_sequence_num: 0xffff,
            source_address: UwbAddress::Short([0x12, 0x34]),
            payload: vec![9, 8, 7],
        })
        .unwrap();
    assert_eq!(
        delivery.objects,
        vec![ForeignObject::ByteArray(vec![0x12, 0x34]), ForeignObject::ByteArray(vec![9, 8, 7])]
    );
    assert_eq!(
        delivery.invocation,
        invocation(
            0,
            true,
            "onDataReceived",
            "(JIJ[B[B)V",
            vec![
                ForeignValue::Long(0x8000_0001),
                ForeignValue::Int(3),
                ForeignValue::Long(0xffff),
                ForeignValue::Object(0),
                ForeignValue::Object(1),
            ],
        )
    );
    manager.settle(0, true, None).unwrap();

    let delivery = manager
        .on_data_rcv_notification(DataRcvNotification {
            session_token: 1,
            status: 0,
            uci_sequence_num: 0,
            source_address: UwbAddress::Extended([1, 2, 3, 4, 5, 6, 7, 8]),
            payload: vec![],
        })
        .unwrap();
    assert_eq!(
        delivery.objects,
        vec![
            ForeignObject::ByteArray(vec![1, 2, 3, 4, 5, 6, 7, 8]),
            ForeignObject::ByteArray(vec![]),
        ]
    );
    assert!(!delivery.invocation.lookup);
    assert_eq!(delivery.invocation.method, 0);
}

#[test]
fn addresses_have_two_or_eight_bytes() {
    assert_eq!(UwbAddress::Short([0xab, 0xcd]).to_bytes(), vec![0xab, 0xcd]);
    assert_eq!(
        UwbAddress::Extended([8, 7, 6, 5, 4, 3, 2, 1]).to_bytes(),
        vec![8, 7, 6, 5, 4, 3, 2, 1]
    );
}

#[test]
fn session_notifications_of_numbers_go_to_their_callbacks() {
    let mut manager = manager();
    let delivery = manager
        .on_session_notification(SessionNotification::Status {
            session_id: 1,
            session_token: 2,
            session_state: 3,
            reason_code: 4,
        })
        .unwrap();
    assert!(delivery.objects.is_empty());
    assert_eq!(delivery.invocation.name, "onSessionStatusNotificationReceived");
    assert_eq!(
        delivery.invocation.args,
        vec![
            ForeignValue::Long(1),
            ForeignValue::Int(2),
            ForeignValue::Int(3),
            ForeignValue::Int(4),
        ]
    );
    let delivery = manager
        .on_session_notification(SessionNotification::DataTransferStatus {
            session_token: 1,
            uci_sequence_number: 2,
            status: 3,
            tx_count: 4,
        })
        .unwrap();
    assert_eq!(delivery.invocation.name, "onDataSendStatus");
    assert_eq!(
        delivery.invocation.args,
        vec![
            ForeignValue::Long(1),
            ForeignValue::Int(3),
            ForeignValue::Long(2),
            ForeignValue::Int(4),
        ]
    );
    let delivery = manager
        .on_session_notification(SessionNotification::DataTransferPhaseConfig {
            session_token: 6,
            status: 1,
        })
        .unwrap();
    assert_eq!(delivery.invocation.name, "onDataTransferPhaseConfigNotificationReceived");
    assert_eq!(delivery.invocation.args, vec![ForeignValue::Long(6), ForeignValue::Int(1)]);
}

#[test]
fn data_credit_is_never_delivered() {
    let mut manager = manager();
    let r = manager.on_session_notification(SessionNotification::DataCredit {
        session_token: 1,
        credit_availability: 1,
    });
    assert!(failed(r));
    assert_eq!(manager.last_error, Some(JniError::UnexpectedVariant));
    assert_eq!(manager.jmethod_id_map.len(), 0);
    assert_eq!(manager.env.call_count(), 0);

    let inner = manager.deliver_session_notification(SessionNotification::DataCredit {
        session_token: 1,
        credit_availability: 0,
    });
    assert_eq!(inner, Err(JniError::UnexpectedVariant));
    assert_eq!(manager.env.call_count(), 0);
    assert_eq!(manager.env.len(), 0);
}

#[test]
fn multicast_update_with_subsessions() {
    let mut manager = manager();
    let delivery = manager
        .on_session_notification(SessionNotification::UpdateControllerMulticastListV1 {
            session_token: 0x8000_0000,
            remaining_multicast_list_size: 5,
            status_list: vec![
                ControleeStatusV1 { mac_address: [0x01, 0x02], subsession_id: u32::MAX, status: 0 },
                ControleeStatusV1 { mac_address: [0xfe, 0xff], subsession_id: 7, status: 255 },
            ],
        })
        .unwrap();
    assert_eq!(
        delivery.objects,
        vec![
            ForeignObject::LongArray(vec![4_294_967_295, 7]),
            ForeignObject::IntArray(vec![0, 255]),
            ForeignObject::ByteArray(vec![0x01, 0x02, 0xfe, 0xff]),
            text(MULTICAST),
            ForeignObject::LoadedClass { slot: 0, name: 3 },
            instance(
                0,
                "(JII[B[J[I)V",
                vec![
                    ForeignValue::Long(0x8000_0000),
                    ForeignValue::Int(5),
                    ForeignValue::Int(2),
                    ForeignValue::Object(2),
                    ForeignValue::Object(0),
                    ForeignValue::Object(1),
                ],
            ),
        ]
    );
    assert_eq!(
        delivery.invocation,
        invocation(
            0,
            true,
            "onMulticastListUpdateNotificationReceived",
            "(Lcom/android/server/uwb/data/UwbMulticastListUpdateStatus;)V",
            vec![ForeignValue::Object(5)],
        )
    );
}

#[test]
fn multicast_update_without_subsessions() {
    let mut manager = manager();
    let delivery = manager
        .on_session_notification(SessionNotification::UpdateControllerMulticastListV2 {
            session_token: 3,
            status_list: vec![ControleeStatusV2 { mac_address: [0xaa, 0xbb], status: 1 }],
        })
        .unwrap();
    assert_eq!(
        delivery.objects,
        vec![
            ForeignObject::LongArray(vec![0]),
            ForeignObject::IntArray(vec![1]),
            ForeignObject::ByteArray(vec![0xaa, 0xbb]),
            text(MULTICAST),
            ForeignObject::LoadedClass { slot: 0, name: 3 },
            instance(
                0,
                "(JII[B[J[I)V",
                vec![
                    ForeignValue::Long(3),
                    ForeignValue::Int(0),
                    ForeignValue::Int(1),
                    ForeignValue::Object(2),
                    ForeignValue::Object(0),
                    ForeignValue::Object(1),
                ],
            ),
        ]
    );
}

#[test]
fn multicast_update_of_no_controlee() {
    let mut manager = manager();
    let r = manager.on_session_update_multicast_notification(
        1,
        0,
        ControleeStatusList::V1(Vec::new()),
    );
    assert_eq!(r, Ok(()));
    assert_eq!(manager.env.object_at(0), &ForeignObject::LongArray(vec![]));
    assert_eq!(manager.env.object_at(1), &ForeignObject::IntArray(vec![]));
    assert_eq!(manager.env.object_at(2), &ForeignObject::ByteArray(vec![]));
    assert_eq!(manager.env.len(), 6);
}

#[test]
fn multicast_update_with_too_many_remaining_is_refused() {
    let mut manager = manager();
    let r = manager.on_session_update_multicast_notification(
        1,
        0x8000_0000,
        ControleeStatusList::V2(Vec::new()),
    );
    assert_eq!(r, Err(JniError::EncodingContract));
    assert_eq!(manager.env.len(), 0);
    assert_eq!(manager.env.call_count(), 0);
    let ok = manager.on_session_update_multicast_notification(
        1,
        0x7fff_ffff,
        ControleeStatusList::V2(Vec::new()),
    );
    assert_eq!(ok, Ok(()));
}

#[test]
fn two_way_range_data_with_a_cold_cache() {
    let mut manager = manager();
    let delivery =
        manager.on_session_notification(SessionNotification::SessionInfo(two_way_range_data(1))).unwrap();
    let mut filler = vec![ForeignValue::Object(3)];
    filler.extend(zeros(13));
    assert_eq!(
        delivery.objects,
        vec![
            ForeignObject::ByteArray(vec![0xaa, 0xbb]),
            text(TWO_WAY),
            ForeignObject::LoadedClass { slot: 0, name: 1 },
            ForeignObject::ZeroedByteArray(2),
            instance(0, "([BIIIIIIIIIIIII)V", filler),
            ForeignObject::ByteArray(0u16.to_ne_bytes().to_vec()),
            instance(0, "([BIIIIIIIIIIIII)V", two_way_record_fields(5)),
            ForeignObject::InstanceArray { class: 0, length: 1, fill: 4, elements: vec![6] },
            text(RANGING_DATA),
            ForeignObject::LoadedClass { slot: 1, name: 8 },
            instance(
                1,
                "(JJIJIII[Lcom/android/server/uwb/data/UwbTwoWayMeasurement;[B)V",
                vec![
                    ForeignValue::Long(7),
                    ForeignValue::Long(4_294_967_295),
                    ForeignValue::Int(3),
                    ForeignValue::Long(200),
                    ForeignValue::Int(1),
                    ForeignValue::Int(0),
                    ForeignValue::Int(1),
                    ForeignValue::Object(7),
                    ForeignValue::Object(0),
                ],
            ),
        ]
    );
    assert_eq!(
        delivery.invocation,
        invocation(
            0,
            true,
            "onRangeDataNotificationReceived",
            "(Lcom/android/server/uwb/data/UwbRangingData;)V",
            vec![ForeignValue::Object(10)],
        )
    );
    assert_eq!(manager.jclass_map.len(), 2);
    assert_eq!(manager.jclass_map.find(TWO_WAY), Some(0));
    assert_eq!(manager.jclass_map.find(RANGING_DATA), Some(1));
}

#[test]
fn two_way_range_data_with_a_warm_cache() {
    let mut manager = manager();
    manager.on_session_notification(SessionNotification::SessionInfo(two_way_range_data(1))).unwrap();
    manager.settle(2, true, None).unwrap();
    let mut data = two_way_range_data(0);
    data.ranging_measurements = RangingMeasurements::ExtendedAddressTwoWay(vec![
        ExtendedAddressTwoWayRangingMeasurement {
            mac_address: 0x0102_0304_0506_0708,
            status: 1,
            nlos: 2,
            distance: 3,
            aoa_azimuth: 4,
            aoa_azimuth_fom: 5,
            aoa_elevation: 6,
            aoa_elevation_fom: 7,
            aoa_destination_azimuth: 8,
            aoa_destination_azimuth_fom: 9,
            aoa_destination_elevation: 10,
            aoa_destination_elevation_fom: 11,
            slot_index: 12,
            rssi: 13,
        },
        ExtendedAddressTwoWayRangingMeasurement {
            mac_address: 1,
            status: 1,
            nlos: 2,
            distance: 3,
            aoa_azimuth: 4,
            aoa_azimuth_fom: 5,
            aoa_elevation: 6,
            aoa_elevation_fom: 7,
            aoa_destination_azimuth: 8,
            aoa_destination_azimuth_fom: 9,
            aoa_destination_elevation: 10,
            aoa_destination_elevation_fom: 11,
            slot_index: 12,
            rssi: 13,
        },
    ]);
    let delivery = manager.on_session_notification(SessionNotification::SessionInfo(data)).unwrap();
    let mut filler = vec![ForeignValue::Object(1)];
    filler.extend(zeros(13));
    assert_eq!(
        delivery.objects,
        vec![
            ForeignObject::ByteArray(vec![0xaa, 0xbb]),
            ForeignObject::ZeroedByteArray(8),
            instance(0, "([BIIIIIIIIIIIII)V", filler),
            ForeignObject::ByteArray(0x0102_0304_0506_0708u64.to_ne_bytes().to_vec()),
            instance(0, "([BIIIIIIIIIIIII)V", two_way_record_fields(3)),
            ForeignObject::ByteArray(1u64.to_ne_bytes().to_vec()),
            instance(0, "([BIIIIIIIIIIIII)V", two_way_record_fields(5)),
            ForeignObject::InstanceArray { class: 0, length: 2, fill: 2, elements: vec![4, 6] },
            instance(
                1,
                "(JJIJIII[Lcom/android/server/uwb/data/UwbTwoWayMeasurement;[B)V",
                vec![
                    ForeignValue::Long(7),
                    ForeignValue::Long(4_294_967_295),
                    ForeignValue::Int(3),
                    ForeignValue::Long(200),
                    ForeignValue::Int(1),
                    ForeignValue::Int(1),
                    ForeignValue::Int(2),
                    ForeignValue::Object(7),
                    ForeignValue::Object(0),
                ],
            ),
        ]
    );
    assert_eq!(
        delivery.invocation,
        invocation(
            0,
            false,
            "onRangeDataNotificationReceived",
            "(Lcom/android/server/uwb/data/UwbRangingData;)V",
            vec![ForeignValue::Object(8)],
        )
    );
}

#[test]
fn two_way_array_alone() {
    let mut manager = manager();
    let measurements = vec![TwoWayRangingMeasurement::from(two_way_short(0x1234))];
    let array = manager.on_two_way_range_data_notification(2, 1, measurements);
    assert_eq!(array, Ok(6));
    assert_eq!(manager.env.len(), 7);
    assert_eq!(
        manager.env.object_at(4),
        &ForeignObject::ByteArray(MacAddress::Short(0x1234).into_ne_bytes())
    );
    assert_eq!(
        manager.env.object_at(6),
        &ForeignObject::InstanceArray { class: 0, length: 1, fill: 3, elements: vec![5] }
    );
    assert_eq!(manager.env.call_count(), 0);
}

#[test]
fn range_data_of_another_kind_than_announced_is_refused() {
    let kinds = [
        RangingMeasurementType::OneWay,
        RangingMeasurementType::DlTdoa,
        RangingMeasurementType::OwrAoa,
    ];
    for kind in kinds {
        let mut manager = manager();
        let mut data = two_way_range_data(2);
        data.ranging_measurement_type = kind;
        let r = manager.on_session_notification(SessionNotification::SessionInfo(data));
        assert!(failed(r));
        assert_eq!(manager.last_error, Some(JniError::UnexpectedVariant));
        assert_eq!(manager.jclass_map.len(), 0);
        assert_eq!(manager.jmethod_id_map.len(), 0);
    }
}

#[test]
fn each_path_refuses_the_measurements_of_the_others() {
    let mut manager = manager();
    assert_eq!(
        manager.on_session_dl_tdoa_range_data_notification(two_way_range_data(1)),
        Err(JniError::UnexpectedVariant)
    );
    assert_eq!(
        manager.on_session_owr_aoa_range_data_notification(two_way_range_data(1)),
        Err(JniError::UnexpectedVariant)
    );
    let mut announced = two_way_range_data(1);
    announced.ranging_measurement_type = RangingMeasurementType::DlTdoa;
    assert_eq!(
        manager.on_session_dl_tdoa_range_data_notification(announced),
        Err(JniError::UnexpectedVariant)
    );
    let mut owr = two_way_range_data(0);
    owr.ranging_measurements =
        RangingMeasurements::ShortAddressOwrAoa(ShortAddressOwrAoaRangingMeasurement {
            mac_address: 1,
            status: 0,
            nlos: 0,
            frame_sequence_number: 0,
            block_index: 0,
            aoa_azimuth: 0,
            aoa_azimuth_fom: 0,
            aoa_elevation: 0,
            aoa_elevation_fom: 0,
        });
    assert_eq!(
        manager.on_session_two_way_range_data_notification(owr.clone()),
        Err(JniError::UnexpectedVariant)
    );
    assert_eq!(
        manager.on_session_owr_aoa_range_data_notification(owr),
        Err(JniError::UnexpectedVariant)
    );
    assert_eq!(manager.env.len(), 0);
    assert_eq!(manager.env.call_count(), 0);
    assert_eq!(manager.jclass_map.len(), 0);
}

#[test]
fn owr_aoa_range_data() {
    let mut manager = manager();
    let data = SessionRangeData {
        sequence_number: u32::MAX,
        session_token: 2,
        current_ranging_interval_ms: u32::MAX,
        ranging_measurement_type: RangingMeasurementType::OwrAoa,
        ranging_measurements: RangingMeasurements::ExtendedAddressOwrAoa(
            ExtendedAddressOwrAoaRangingMeasurement {
                mac_address: 0x1122_3344_5566_7788,
                status: 1,
                nlos: 2,
                frame_sequence_number: 3,
                block_index: 0xffff,
                aoa_azimuth: 5,
                aoa_azimuth_fom: 6,
                aoa_elevation: 7,
                aoa_elevation_fom: 8,
            },
        ),
        rcr_indicator: 255,
        raw_ranging_data: vec![1],
    };
    let delivery = manager.on_session_notification(SessionNotification::SessionInfo(data)).unwrap();
    assert_eq!(
        delivery.objects,
        vec![
            ForeignObject::ByteArray(vec![1]),
            ForeignObject::ByteArray(0x1122_3344_5566_7788u64.to_ne_bytes().to_vec()),
            text(OWR_AOA),
            ForeignObject::LoadedClass { slot: 0, name: 2 },
            instance(
                0,
                "([BIIIIIIII)V",
                vec![
                    ForeignValue::Object(1),
                    ForeignValue::Int(1),
                    ForeignValue::Int(2),
                    ForeignValue::Int(3),
                    ForeignValue::Int(65535),
                    ForeignValue::Int(5),
                    ForeignValue::Int(6),
                    ForeignValue::Int(7),
                    ForeignValue::Int(8),
                ],
            ),
            text(RANGING_DATA),
            ForeignObject::LoadedClass { slot: 1, name: 5 },
            instance(
                1,
                "(JJIJIIILcom/android/server/uwb/data/UwbOwrAoaMeasurement;[B)V",
                vec![
                    ForeignValue::Long(4_294_967_295),
                    ForeignValue::Long(2),
                    ForeignValue::Int(255),
                    ForeignValue::Long(4_294_967_295),
                    ForeignValue::Int(3),
                    ForeignValue::Int(1),
                    ForeignValue::Int(1),
                    ForeignValue::Object(4),
                    ForeignValue::Object(0),
                ],
            ),
        ]
    );
    assert_eq!(delivery.invocation.args, vec![ForeignValue::Object(7)]);
    assert_eq!(delivery.invocation.name, "onRangeDataNotificationReceived");
}

#[test]
fn dl_tdoa_range_data() {
    let mut manager = manager();
    let data = SessionRangeData {
        sequence_number: 1,
        session_token: 2,
        current_ranging_interval_ms: 3,
        ranging_measurement_type: RangingMeasurementType::DlTdoa,
        ranging_measurements: RangingMeasurements::ShortAddressDltdoa(vec![
            ShortAddressDlTdoaRangingMeasurement { mac_address: 0xbeef, measurement: dl_tdoa_fields() },
        ]),
        rcr_indicator: 4,
        raw_ranging_data: vec![5, 6],
    };
    let delivery = manager.on_session_notification(SessionNotification::SessionInfo(data)).unwrap();
    let signature = "([BIIIIIIIIIIIJJIIJJI[B[B)V";
    let filler = vec![
        ForeignValue::Object(3),
        ForeignValue::Int(0),
        ForeignValue::Int(0),
        ForeignValue::Int(0),
        ForeignValue::Int(0),
        ForeignValue::Int(0),
        ForeignValue::Int(0),
        ForeignValue::Int(0),
        ForeignValue::Int(0),
        ForeignValue::Int(0),
        ForeignValue::Int(0),
        ForeignValue::Int(0),
        ForeignValue::Long(0),
        ForeignValue::Long(0),
        ForeignValue::Int(0),
        ForeignValue::Int(0),
        ForeignValue::Long(0),
        ForeignValue::Long(0),
        ForeignValue::Int(0),
        ForeignValue::Object(4),
        ForeignValue::Object(5),
    ];
    assert_eq!(
        delivery.objects,
        vec![
            ForeignObject::ByteArray(vec![5, 6]),
            text(DL_TDOA),
            ForeignObject::LoadedClass { slot: 0, name: 1 },
            ForeignObject::ZeroedByteArray(2),
            ForeignObject::ZeroedByteArray(12),
            ForeignObject::ZeroedByteArray(16),
            instance(0, signature, filler),
            ForeignObject::ByteArray(0xbeefu16.to_ne_bytes().to_vec()),
            ForeignObject::ByteArray(vec![1, 2, 3]),
            ForeignObject::ByteArray(vec![4, 5]),
            instance(0, signature, dl_tdoa_record_fields(7)),
            ForeignObject::InstanceArray { class: 0, length: 1, fill: 6, elements: vec![10] },
            text(RANGING_DATA),
            ForeignObject::LoadedClass { slot: 1, name: 12 },
            instance(
                1,
                "(JJIJIII[Lcom/android/server/uwb/data/UwbDlTDoAMeasurement;[B)V",
                vec![
                    ForeignValue::Long(1),
                    ForeignValue::Long(2),
                    ForeignValue::Int(4),
                    ForeignValue::Long(3),
                    ForeignValue::Int(2),
                    ForeignValue::Int(0),
                    ForeignValue::Int(1),
                    ForeignValue::Object(11),
                    ForeignValue::Object(0),
                ],
            ),
        ]
    );
    assert_eq!(delivery.invocation.args, vec![ForeignValue::Object(14)]);
}

#[test]
fn dl_tdoa_range_data_with_extended_addresses_and_no_measurement() {
    let mut manager = manager();
    let data = SessionRangeData {
        sequence_number: 1,
        session_token: 2,
        current_ranging_interval_ms: 3,
        ranging_measurement_type: RangingMeasurementType::DlTdoa,
        ranging_measurements: RangingMeasurements::ExtendedAddressDltdoa(Vec::new()),
        rcr_indicator: 4,
        raw_ranging_data: Vec::new(),
    };
    let delivery = manager.on_session_notification(SessionNotification::SessionInfo(data)).unwrap();
    assert_eq!(delivery.objects.len(), 11);
    assert_eq!(delivery.objects[3], ForeignObject::ZeroedByteArray(8));
    assert_eq!(
        delivery.objects[7],
        ForeignObject::InstanceArray { class: 0, length: 0, fill: 6, elements: vec![] }
    );
    let one = SessionRangeData {
        sequence_number: 1,
        session_token: 2,
        current_ranging_interval_ms: 3,
        ranging_measurement_type: RangingMeasurementType::DlTdoa,
        ranging_measurements: RangingMeasurements::ExtendedAddressDltdoa(vec![
            ExtendedAddressDlTdoaRangingMeasurement { mac_address: 9, measurement: dl_tdoa_fields() },
        ]),
        rcr_indicator: 4,
        raw_ranging_data: Vec::new(),
    };
    manager.settle(2, true, None).unwrap();
    let delivery = manager.on_session_notification(SessionNotification::SessionInfo(one)).unwrap();
    assert_eq!(delivery.objects.len(), 11);
    assert_eq!(delivery.objects[5], ForeignObject::ByteArray(9u64.to_ne_bytes().to_vec()));
    assert_eq!(
        delivery.objects[8],
        instance(0, "([BIIIIIIIIIIIJJIIJJI[B[B)V", dl_tdoa_record_fields(5))
    );
}

#[test]
fn a_notification_that_does_not_fit_the_scope_is_given_up() {
    let mut manager = manager();
    // Cold cache: 5 objects, 4 for the two classes, 2 for each measurement.
    let fits = manager.on_session_notification(SessionNotification::SessionInfo(two_way_range_data(20)));
    assert_eq!(fits.unwrap().objects.len(), 49);
    manager.settle(0, false, Some(JniError::LookupFailure)).unwrap_err();

    let r = manager.on_session_notification(SessionNotification::SessionInfo(two_way_range_data(21)));
    assert!(failed(r));
    assert_eq!(manager.last_error, Some(JniError::CapacityExceeded));
    assert_eq!(manager.env.len(), 0);
    assert_eq!(manager.env.remaining(), 50);
    assert_eq!(manager.jclass_map.len(), 0);
    assert_eq!(manager.jmethod_id_map.len(), 0);

    let r = manager.on_session_notification(SessionNotification::SessionInfo(two_way_range_data(23)));
    assert!(failed(r));
    assert_eq!(manager.last_error, Some(JniError::CapacityExceeded));
}

#[test]
fn a_warm_cache_leaves_room_for_two_more_measurements() {
    let mut manager = manager();
    manager.on_session_notification(SessionNotification::SessionInfo(two_way_range_data(1))).unwrap();
    manager.settle(2, true, None).unwrap();
    let fits = manager.on_session_notification(SessionNotification::SessionInfo(two_way_range_data(22)));
    assert_eq!(fits.unwrap().objects.len(), 49);
    let r = manager.on_session_notification(SessionNotification::SessionInfo(two_way_range_data(23)));
    assert!(failed(r));
    assert_eq!(manager.last_error, Some(JniError::CapacityExceeded));
    assert_eq!(manager.jclass_map.len(), 2);
    assert_eq!(manager.jmethod_id_map.len(), 1);
}

fn radar_notification(sweeps: usize) -> RadarDataRcvNotification {
    RadarDataRcvNotification {
        session_token: 1,
        status: 0,
        radar_data_type: 0,
        number_of_sweeps: sweeps as u8,
        samples_per_sweep: 1,
        bits_per_sample: BitsPerSample::Value32Bit,
        sweep_offset: 0,
        sweep_data: (0..sweeps)
            .map(|i| RadarSweepData {
                sequence_number: i as u32,
                timestamp: 0,
                vendor_specific_data: vec![],
                sample_data: vec![0, 0, 0, 0],
            })
            .collect(),
    }
}

fn dl_tdoa_range_data_of(count: u16) -> SessionRangeData {
    SessionRangeData {
        sequence_number: 1,
        session_token: 2,
        current_ranging_interval_ms: 3,
        ranging_measurement_type: RangingMeasurementType::DlTdoa,
        ranging_measurements: RangingMeasurements::ShortAddressDltdoa(
            (0..count)
                .map(|mac_address| ShortAddressDlTdoaRangingMeasurement {
                    mac_address,
                    measurement: dl_tdoa_fields(),
                })
                .collect(),
        ),
        rcr_indicator: 4,
        raw_ranging_data: Vec::new(),
    }
}

#[test]
fn radar_data_fills_a_scope_with_fifteen_sweeps() {
    let mut manager = manager();
    // Cold cache: 5 objects, 4 for the two classes, 3 for each sweep.
    assert_eq!(manager.on_radar_data_rcv_notification(radar_notification(13)).unwrap().objects.len(), 48);
    assert!(failed(manager.on_radar_data_rcv_notification(radar_notification(14))));
    assert_eq!(manager.last_error, Some(JniError::CapacityExceeded));
    manager.on_radar_data_rcv_notification(radar_notification(1)).unwrap();
    manager.settle(2, true, None).unwrap();
    assert_eq!(manager.on_radar_data_rcv_notification(radar_notification(15)).unwrap().objects.len(), 50);
    assert!(failed(manager.on_radar_data_rcv_notification(radar_notification(16))));
    assert_eq!(manager.last_error, Some(JniError::CapacityExceeded));
    assert_eq!(manager.env.len(), 0);
}

#[test]
fn downlink_range_data_fills_a_scope_with_ten_measurements() {
    let mut manager = manager();
    // Cold cache: 7 objects, 4 for the two classes, 4 for each measurement.
    let fits = manager.on_session_notification(SessionNotification::SessionInfo(dl_tdoa_range_data_of(9)));
    assert_eq!(fits.unwrap().objects.len(), 47);
    let r = manager.on_session_notification(SessionNotification::SessionInfo(dl_tdoa_range_data_of(10)));
    assert!(failed(r));
    assert_eq!(manager.last_error, Some(JniError::CapacityExceeded));
    manager.on_session_notification(SessionNotification::SessionInfo(dl_tdoa_range_data_of(0))).unwrap();
    manager.settle(2, true, None).unwrap();
    let fits = manager.on_session_notification(SessionNotification::SessionInfo(dl_tdoa_range_data_of(10)));
    assert_eq!(fits.unwrap().objects.len(), 47);
    let r = manager.on_session_notification(SessionNotification::SessionInfo(dl_tdoa_range_data_of(11)));
    assert!(failed(r));
    assert_eq!(manager.last_error, Some(JniError::CapacityExceeded));
}

#[test]
fn the_scope_never_holds_more_than_its_capacity() {
    let mut manager = manager();
    let r = manager.on_session_two_way_range_data_notification(two_way_range_data(40));
    assert_eq!(r, Err(JniError::CapacityExceeded));
    assert!(manager.env.len() <= 50);
    assert_eq!(manager.env.call_count(), 0);
    assert_eq!(manager.jmethod_id_map.len(), 0);
}

#[test]
fn a_failure_of_the_host_is_recorded_and_forgotten_lookups_are_repeated() {
    let mut manager = manager();
    let first =
        manager.on_session_notification(SessionNotification::SessionInfo(two_way_range_data(1))).unwrap();
    assert!(first.invocation.lookup);
    // The host found the first class, then failed to find the second.
    assert_eq!(
        manager.settle(1, false, Some(JniError::LookupFailure)),
        Err(UwbError::ForeignFunctionInterface)
    );
    assert_eq!(manager.last_error, Some(JniError::LookupFailure));
    assert_eq!(manager.jclass_map.len(), 1);
    assert_eq!(manager.jclass_map.find(TWO_WAY), Some(0));
    assert_eq!(manager.jclass_map.find(RANGING_DATA), None);
    assert_eq!(manager.jmethod_id_map.len(), 0);

    let second =
        manager.on_session_notification(SessionNotification::SessionInfo(two_way_range_data(1))).unwrap();
    assert_eq!(second.objects.len(), 9);
    assert_eq!(second.objects[6], text(RANGING_DATA));
    assert_eq!(second.objects[7], ForeignObject::LoadedClass { slot: 1, name: 6 });
    assert!(second.invocation.lookup);
    assert_eq!(manager.last_error, None);
    assert_eq!(
        manager.settle(1, true, Some(JniError::ForeignInvocation)),
        Err(UwbError::ForeignFunctionInterface)
    );
    assert_eq!(manager.last_error, Some(JniError::ForeignInvocation));
    assert_eq!(manager.jclass_map.len(), 2);
    assert_eq!(manager.jmethod_id_map.len(), 1);
}

#[test]
fn a_delivery_that_was_never_settled_is_forgotten() {
    let mut manager = manager();
    manager.on_session_notification(SessionNotification::SessionInfo(two_way_range_data(1))).unwrap();
    assert_eq!(manager.jclass_map.len(), 2);
    let again =
        manager.on_session_notification(SessionNotification::SessionInfo(two_way_range_data(1))).unwrap();
    assert_eq!(again.objects.len(), 11);
    assert!(again.invocation.lookup);
    assert_eq!(again.invocation.method, 0);
}

#[test]
fn radar_data() {
    let mut manager = manager();
    let delivery = manager
        .on_radar_data_rcv_notification(RadarDataRcvNotification {
            session_token: 0xffff_ffff,
            status: 1,
            radar_data_type: 2,
            number_of_sweeps: 2,
            samples_per_sweep: 255,
            bits_per_sample: BitsPerSample::Value48Bit,
            sweep_offset: 0xffff,
            sweep_data: vec![
                RadarSweepData {
                    sequence_number: u32::MAX,
                    timestamp: 10,
                    vendor_specific_data: vec![1],
                    sample_data: vec![2, 3],
                },
                RadarSweepData {
                    sequence_number: 1,
                    timestamp: u32::MAX,
                    vendor_specific_data: vec![],
                    sample_data: vec![4],
                },
            ],
        })
        .unwrap();
    assert_eq!(
        delivery.objects,
        vec![
            text(RADAR_SWEEP),
            ForeignObject::LoadedClass { slot: 0, name: 0 },
            ForeignObject::ZeroedByteArray(6 * 255),
            ForeignObject::ZeroedByteArray(256),
            instance(
                0,
                "(JJ[B[B)V",
                vec![
                    ForeignValue::Long(0),
                    ForeignValue::Long(0),
                    ForeignValue::Object(3),
                    ForeignValue::Object(2),
                ],
            ),
            ForeignObject::ByteArray(vec![1]),
            ForeignObject::ByteArray(vec![2, 3]),
            instance(
                0,
                "(JJ[B[B)V",
                vec![
                    ForeignValue::Long(4_294_967_295),
                    ForeignValue::Long(10),
                    ForeignValue::Object(5),
                    ForeignValue::Object(6),
                ],
            ),
            ForeignObject::ByteArray(vec![]),
            ForeignObject::ByteArray(vec![4]),
            instance(
                0,
                "(JJ[B[B)V",
                vec![
                    ForeignValue::Long(1),
                    ForeignValue::Long(4_294_967_295),
                    ForeignValue::Object(8),
                    ForeignValue::Object(9),
                ],
            ),
            ForeignObject::InstanceArray { class: 0, length: 2, fill: 4, elements: vec![7, 10] },
            text(RADAR_DATA),
            ForeignObject::LoadedClass { slot: 1, name: 12 },
            instance(
                1,
                "(JIIIII[Lcom/android/server/uwb/data/UwbRadarSweepData;)V",
                vec![
                    ForeignValue::Long(4_294_967_295),
                    ForeignValue::Int(1),
                    ForeignValue::Int(2),
                    ForeignValue::Int(255),
                    ForeignValue::Int(1),
                    ForeignValue::Int(65535),
                    ForeignValue::Object(11),
                ],
            ),
        ]
    );
    assert_eq!(
        delivery.invocation,
        invocation(
            0,
            true,
            "onRadarDataMessageReceived",
            "(Lcom/android/server/uwb/data/UwbRadarData;)V",
            vec![ForeignValue::Object(14)],
        )
    );
}

#[test]
fn radar_samples_take_four_six_or_eight_bytes() {
    assert_eq!(radar_bytes_per_sample_value(BitsPerSample::Value32Bit), 4);
    assert_eq!(radar_bytes_per_sample_value(BitsPerSample::Value48Bit), 6);
    assert_eq!(radar_bytes_per_sample_value(BitsPerSample::Value64Bit), 8);
}

#[test]
fn wire_numbers_of_the_kinds() {
    assert_eq!(RangingMeasurementType::OneWay.to_code(), 0);
    assert_eq!(RangingMeasurementType::TwoWay.to_code(), 1);
    assert_eq!(RangingMeasurementType::DlTdoa.to_code(), 2);
    assert_eq!(RangingMeasurementType::OwrAoa.to_code(), 3);
    assert_eq!(MacAddressIndicator::ShortAddress.to_code(), 0);
    assert_eq!(MacAddressIndicator::ExtendedAddress.to_code(), 1);
    assert_eq!(MacAddressIndicator::ShortAddress.to_address_len(), 2);
    assert_eq!(MacAddressIndicator::ExtendedAddress.to_address_len(), 8);
    assert_eq!(BitsPerSample::Value32Bit.to_code(), 0);
    assert_eq!(BitsPerSample::Value48Bit.to_code(), 1);
    assert_eq!(BitsPerSample::Value64Bit.to_code(), 2);
}

#[test]
fn every_success_is_one_invocation() {
    let mut manager = manager();
    manager.on_session_status_notification(1, 2, 3, 4).unwrap();
    assert_eq!(manager.env.call_count(), 1);
    manager.on_session_two_way_range_data_notification(two_way_range_data(2)).unwrap();
    assert_eq!(manager.env.call_count(), 2);
    manager
        .deliver_vendor_notification(RawUciMessage { gid: 1, oid: 2, payload: vec![] })
        .unwrap();
    assert_eq!(manager.env.call_count(), 3);
    manager.deliver_core_notification(CoreNotification::DeviceStatus(1)).unwrap();
    assert_eq!(manager.env.call_count(), 4);
    manager
        .deliver_vendor_notification(RawUciMessage { gid: u32::MAX, oid: 2, payload: vec![] })
        .unwrap_err();
    assert_eq!(manager.env.call_count(), 4);
}
