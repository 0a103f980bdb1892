//! Downlink time-difference-of-arrival measurements on their way to the host.

use vstd::prelude::*;
use crate::arena::LocalFrame;
use crate::error::JniError;
use crate::foreign::{long_from_u64, reinterpret_i64, ForeignObject, ForeignObjectView, ForeignValue};
use crate::cache::{keys_after, slot_after};
use crate::foreign::{fits_int, int_from_usize};
use crate::jclass_name::{UWB_DL_TDOA_MEASUREMENT_CLASS, UWB_RANGING_DATA_CLASS};
use crate::manager::NotificationManagerAndroid;
use crate::measurement::{
    dl_tdoa_from_extended, dl_tdoa_from_short, normalize_extended_dl_tdoa,
    normalize_short_dl_tdoa, DlTdoaRangingMeasurement, ExtendedAddressDlTdoaRangingMeasurement,
    ShortAddressDlTdoaRangingMeasurement, MAX_ANCHOR_LOCATION_LEN, MAX_RANGING_ROUNDS_LEN,
};
use crate::notification::{
    MacAddressIndicator, RangingMeasurementType, RangingMeasurements, SessionRangeData,
};
use crate::range_data::{
    array_constructor, array_constructor_signature, header_of, object_callback_signature, range_data_fields,
    range_data_tail, RangeDataHeader, RANGE_DATA_CALLBACK,
};
use crate::shape::class_shapes;
use crate::shape::{
    allots, lemma_allots_chain, lemma_allots_nothing, put_address_next, put_next, Shape,
};

verus! {

/// Signature of the constructor of a measurement on the host.
pub const DL_TDOA_MEASUREMENT_SIGNATURE: &'static str = "([BIIIIIIIIIIIJJIIJJI[B[B)V";

/// The constructor arguments of a measurement whose address, anchor location
/// and ranging rounds are the objects at the given positions.
pub open spec fn dl_tdoa_fields(
    m: DlTdoaRangingMeasurement,
    address: usize,
    anchor: usize,
    rounds: usize,
) -> Seq<ForeignValue> {
    seq![
        ForeignValue::Object(address),
        ForeignValue::Int(m.status as i32),
        ForeignValue::Int(m.message_type as i32),
        ForeignValue::Int(m.message_control as i32),
        ForeignValue::Int(m.block_index as i32),
        ForeignValue::Int(m.round_index as i32),
        ForeignValue::Int(m.nlos as i32),
        ForeignValue::Int(m.aoa_azimuth as i32),
        ForeignValue::Int(m.aoa_azimuth_fom as i32),
        ForeignValue::Int(m.aoa_elevation as i32),
        ForeignValue::Int(m.aoa_elevation_fom as i32),
        ForeignValue::Int(m.rssi as i32),
        ForeignValue::Long(reinterpret_i64(m.tx_timestamp)),
        ForeignValue::Long(reinterpret_i64(m.rx_timestamp)),
        ForeignValue::Int(m.anchor_cfo as i32),
        ForeignValue::Int(m.cfo as i32),
        ForeignValue::Long(m.initiator_reply_time as i64),
        ForeignValue::Long(m.responder_reply_time as i64),
        ForeignValue::Int(m.initiator_responder_tof as i32),
        ForeignValue::Object(anchor),
        ForeignValue::Object(rounds),
    ]
}

/// The constructor arguments of the measurement that fills an array before
/// its elements are set: every number zero.
pub open spec fn dl_tdoa_zero_fields(address: usize, anchor: usize, rounds: usize) -> Seq<
    ForeignValue,
> {
    seq![
        ForeignValue::Object(address),
        ForeignValue::Int(0),
        ForeignValue::Int(0),
        ForeignValue::Int(0),
        ForeignValue::Int(0),
        ForeignValue::Int(0),
        ForeignValue::Int(0),
        ForeignValue::Int(0),
        ForeignValue::Int(0),
        ForeignValue::Int(0),
        ForeignValue::Int(0),
        ForeignValue::Int(0),
        ForeignValue::Long(0),
        ForeignValue::Long(0),
        ForeignValue::Int(0),
        ForeignValue::Int(0),
        ForeignValue::Long(0),
        ForeignValue::Long(0),
        ForeignValue::Int(0),
        ForeignValue::Object(anchor),
        ForeignValue::Object(rounds),
    ]
}

/// The four objects of one measurement whose first is at position `base`:
/// address, anchor location, ranging rounds, and the measurement made of them.
pub open spec fn dl_tdoa_record_shapes(m: DlTdoaRangingMeasurement, class: usize, base: nat) -> Seq<
    Shape,
> {
    seq![
        Shape::Address(m.mac_address),
        Shape::Exactly(ForeignObjectView::ByteArray(m.dt_anchor_location@)),
        Shape::Exactly(ForeignObjectView::ByteArray(m.ranging_rounds@)),
        Shape::Exactly(
            ForeignObjectView::Instance {
                class,
                signature: DL_TDOA_MEASUREMENT_SIGNATURE@,
                fields: dl_tdoa_fields(
                    m,
                    base as usize,
                    (base + 1) as usize,
                    (base + 2) as usize,
                ),
            },
        ),
    ]
}

/// The objects of a list of measurements whose first is at position `base`,
/// four for each, in the order of the list.
pub open spec fn dl_tdoa_list_shapes(
    ms: Seq<DlTdoaRangingMeasurement>,
    class: usize,
    base: nat,
) -> Seq<Shape>
    decreases ms.len(),
{
    if ms.len() == 0 {
        Seq::empty()
    } else {
        dl_tdoa_list_shapes(ms.drop_last(), class, base) + dl_tdoa_record_shapes(
            ms.last(),
            class,
            base + 4 * (ms.len() - 1) as nat,
        )
    }
}

/// The positions of the measurements among the objects of a list of `count`
/// of them whose first object is at position `base`.
pub open spec fn dl_tdoa_elements(count: nat, base: nat) -> Seq<usize> {
    Seq::new(count, |i: int| (base + 4 * i + 3) as usize)
}

/// A list of measurements takes four objects for each of them.
pub proof fn lemma_dl_tdoa_list_len(ms: Seq<DlTdoaRangingMeasurement>, class: usize, base: nat)
    ensures
        dl_tdoa_list_shapes(ms, class, base).len() == 4 * ms.len(),
    decreases ms.len(),
{
    if ms.len() > 0 {
        lemma_dl_tdoa_list_len(ms.drop_last(), class, base);
    }
}

/// The three empty byte arrays and the measurement made of them that fills
/// an array of measurements at first, the first of them at position `base`.
pub open spec fn dl_tdoa_filler_shapes(class: usize, address_len: i32, base: nat) -> Seq<Shape> {
    seq![
        Shape::Exactly(ForeignObjectView::ZeroedByteArray(address_len)),
        Shape::Exactly(
            ForeignObjectView::ZeroedByteArray(MAX_ANCHOR_LOCATION_LEN),
        ),
        Shape::Exactly(
            ForeignObjectView::ZeroedByteArray(MAX_RANGING_ROUNDS_LEN),
        ),
        Shape::Exactly(
            ForeignObjectView::Instance {
                class,
                signature: DL_TDOA_MEASUREMENT_SIGNATURE@,
                fields: dl_tdoa_zero_fields(
                    base as usize,
                    (base + 1) as usize,
                    (base + 2) as usize,
                ),
            },
        ),
    ]
}

/// Allocates one measurement: its address, its two buffers with the bytes
/// they hold and no more, and the measurement itself.
pub fn encode_dl_tdoa_record(env: &mut LocalFrame, class: usize, m: DlTdoaRangingMeasurement) -> (r:
    Result<usize, JniError>)
    requires
        old(env).wf(),
    ensures
        final(env).wf(),
        allots(
            old(env),
            final(env),
            r is Ok,
            dl_tdoa_record_shapes(m, class, old(env).objects().len()),
        ),
        r is Ok ==> r->Ok_0 == old(env).objects().len() + 3,
        r is Err ==> r->Err_0 == JniError::CapacityExceeded,
{
    let ghost shapes = dl_tdoa_record_shapes(m, class, old(env).objects().len());
    let ghost origin = *env;
    proof {
        lemma_allots_nothing(&origin);
    }
    let address = put_address_next(env, m.mac_address, Ghost(origin), Ghost(Seq::empty()))?;
    let mut fields = vec![
        ForeignValue::Object(address),
        ForeignValue::Int(m.status as i32),
        ForeignValue::Int(m.message_type as i32),
        ForeignValue::Int(m.message_control as i32),
        ForeignValue::Int(m.block_index as i32),
        ForeignValue::Int(m.round_index as i32),
        ForeignValue::Int(m.nlos as i32),
        ForeignValue::Int(m.aoa_azimuth as i32),
        ForeignValue::Int(m.aoa_azimuth_fom as i32),
        ForeignValue::Int(m.aoa_elevation as i32),
        ForeignValue::Int(m.aoa_elevation_fom as i32),
        ForeignValue::Int(m.rssi as i32),
        ForeignValue::Long(long_from_u64(m.tx_timestamp)),
        ForeignValue::Long(long_from_u64(m.rx_timestamp)),
        ForeignValue::Int(m.anchor_cfo as i32),
        ForeignValue::Int(m.cfo as i32),
        ForeignValue::Long(m.initiator_reply_time as i64),
        ForeignValue::Long(m.responder_reply_time as i64),
        ForeignValue::Int(m.initiator_responder_tof as i32),
    ];
    let anchor = put_next(
        env,
        ForeignObject::ByteArray(m.dt_anchor_location),
        Ghost(origin),
        Ghost(shapes.take(1)),
    )?;
    let rounds = put_next(
        env,
        ForeignObject::ByteArray(m.ranging_rounds),
        Ghost(origin),
        Ghost(shapes.take(2)),
    )?;
    fields.push(ForeignValue::Object(anchor));
    fields.push(ForeignValue::Object(rounds));
    assert(fields@ =~= dl_tdoa_fields(m, address, anchor, rounds));
    let record = ForeignObject::Instance {
        class,
        signature: DL_TDOA_MEASUREMENT_SIGNATURE.to_owned(),
        fields,
    };
    let made = put_next(env, record, Ghost(origin), Ghost(shapes.take(3)));
    assert(shapes.take(3).push(Shape::Exactly(record@)) =~= shapes);
    made
}

/// Allocates the measurements of a list, one after the other, and returns
/// where each of them stands.
pub fn encode_dl_tdoa_list(env: &mut LocalFrame, class: usize, ms: Vec<DlTdoaRangingMeasurement>) -> (r:
    Result<Vec<usize>, JniError>)
    requires
        old(env).wf(),
    ensures
        final(env).wf(),
        allots(
            old(env),
            final(env),
            r is Ok,
            dl_tdoa_list_shapes(ms@, class, old(env).objects().len()),
        ),
        r is Ok ==> r->Ok_0@ == dl_tdoa_elements(ms@.len(), old(env).objects().len()),
        r is Err ==> r->Err_0 == JniError::CapacityExceeded,
{
    let ghost origin = *env;
    let ghost base = origin.objects().len();
    let mut elements: Vec<usize> = Vec::new();
    proof {
        lemma_allots_nothing(&origin);
        assert(ms@.take(0) =~= Seq::<DlTdoaRangingMeasurement>::empty());
        assert(elements@ =~= dl_tdoa_elements(0, base));
    }
    for m in iter: ms.into_iter()
        invariant
            iter.seq() == ms@,
            env.wf(),
            origin.wf(),
            origin == *old(env),
            base == origin.objects().len(),
            allots(&origin, env, true, dl_tdoa_list_shapes(ms@.take(iter.index() as int), class, base)),
            elements@ == dl_tdoa_elements(iter.index() as nat, base),
    {
        let ghost i = iter.index() as int;
        let ghost before = *env;
        let ghost done = dl_tdoa_list_shapes(ms@.take(i), class, base);
        proof {
            assert(0 <= i < ms@.len());
            assert(ms@.take(i + 1).len() == i + 1);
            lemma_dl_tdoa_list_len(ms@.take(i), class, base);
            lemma_dl_tdoa_list_len(ms@.take(i + 1), class, base);
            lemma_dl_tdoa_list_len(ms@, class, base);
            assert(before.objects().skip(base as int).len() == done.len());
            assert(ms@.take(i + 1).drop_last() =~= ms@.take(i));
            assert(ms@.take(i + 1).last() == m);
        }
        let made = encode_dl_tdoa_record(env, class, m);
        proof {
            lemma_allots_chain(
                &origin,
                &before,
                env,
                true,
                done,
                made is Ok,
                dl_tdoa_record_shapes(m, class, before.objects().len()),
            );
        }
        match made {
            Ok(position) => {
                elements.push(position);
                assert(elements@ =~= dl_tdoa_elements((i + 1) as nat, base));
            },
            Err(e) => {
                assert(dl_tdoa_list_shapes(ms@.take(i + 1), class, base).len()
                    <= dl_tdoa_list_shapes(ms@, class, base).len());
                return Err(e);
            },
        }
    }
    assert(ms@.take(ms@.len() as int) =~= ms@);
    Ok(elements)
}

/// The measurements of a payload of this kind, normalized; none for a
/// payload of another kind.
pub open spec fn dl_tdoa_normalized(payload: RangingMeasurements) -> Seq<DlTdoaRangingMeasurement> {
    match payload {
        RangingMeasurements::ShortAddressDltdoa(v) => v@.map_values(
            |w: ShortAddressDlTdoaRangingMeasurement| dl_tdoa_from_short(w),
        ),
        RangingMeasurements::ExtendedAddressDltdoa(v) => v@.map_values(
            |w: ExtendedAddressDlTdoaRangingMeasurement| dl_tdoa_from_extended(w),
        ),
        _ => Seq::empty(),
    }
}

/// Whether the length of both buffers of every measurement fits 32 signed
/// bits.
pub open spec fn dl_tdoa_buffers_fit(ms: Seq<DlTdoaRangingMeasurement>) -> bool {
    forall|i: int|
        0 <= i < ms.len() ==> (#[trigger] ms[i]).dt_anchor_location@.len() <= i32::MAX
            && ms[i].ranging_rounds@.len() <= i32::MAX
}

/// Tells whether the length of both buffers of every measurement fits 32
/// signed bits.
pub fn check_dl_tdoa_buffers(ms: &Vec<DlTdoaRangingMeasurement>) -> (fit: bool)
    ensures
        fit == dl_tdoa_buffers_fit(ms@),
{
    let mut i: usize = 0;
    while i < ms.len()
        invariant
            i <= ms.len(),
            dl_tdoa_buffers_fit(ms@.take(i as int)),
        decreases ms.len() - i,
    {
        if !fits_int(ms[i].dt_anchor_location.len()) || !fits_int(ms[i].ranging_rounds.len()) {
            return false;
        }
        i += 1;
    }
    assert(ms@.take(ms.len() as int) =~= ms@);
    true
}

/// Why a range data notification cannot be delivered as one of this kind, if
/// it cannot: it announces another kind or holds another, or the number of
/// its measurements, of its bytes, or of the bytes of a buffer of one of
/// its measurements does not fit 32 signed bits.
pub open spec fn dl_tdoa_rejection(range_data: SessionRangeData) -> Option<JniError> {
    if range_data.ranging_measurement_type != RangingMeasurementType::DlTdoa
        || range_data.ranging_measurements.kind() != RangingMeasurementType::DlTdoa {
        Some(JniError::UnexpectedVariant)
    } else if dl_tdoa_normalized(range_data.ranging_measurements).len() > i32::MAX
        || range_data.raw_ranging_data@.len() > i32::MAX || !dl_tdoa_buffers_fit(
        dl_tdoa_normalized(range_data.ranging_measurements),
    ) {
        Some(JniError::EncodingContract)
    } else {
        None
    }
}

/// The objects of a range data notification of this kind, the first of them
/// at position `base`, given the keys the class cache holds: the
/// notification as it came; the class of the measurements; the measurement
/// that fills the array at first; the measurements; their array; the class
/// of the record and the record.
pub open spec fn dl_tdoa_delivery_shapes(
    header: RangeDataHeader,
    indicator: MacAddressIndicator,
    ms: Seq<DlTdoaRangingMeasurement>,
    raw: Seq<u8>,
    keys: Seq<Seq<char>>,
    base: nat,
) -> Seq<Shape> {
    let lookup = class_shapes(keys, UWB_DL_TDOA_MEASUREMENT_CLASS@, base + 1);
    let class = slot_after(keys, UWB_DL_TDOA_MEASUREMENT_CLASS@) as usize;
    let filler_at = base + 1 + lookup.len();
    let list_at = filler_at + 4;
    let array_at = list_at + 4 * ms.len();
    seq![Shape::Exactly(ForeignObjectView::ByteArray(raw))] + lookup + dl_tdoa_filler_shapes(
        class,
        indicator.address_len(),
        filler_at,
    ) + dl_tdoa_list_shapes(ms, class, list_at) + seq![
        Shape::Exactly(
            ForeignObjectView::InstanceArray {
                class,
                length: ms.len() as i32,
                fill: (filler_at + 3) as usize,
                elements: dl_tdoa_elements(ms.len(), list_at),
            },
        ),
    ] + range_data_tail(
        keys_after(keys, UWB_DL_TDOA_MEASUREMENT_CLASS@),
        array_constructor_signature(UWB_DL_TDOA_MEASUREMENT_CLASS@),
        range_data_fields(header, indicator, ms.len() as i32, array_at as usize, base as usize),
        array_at + 1,
    )
}

/// The objects of a range data notification of this kind, the first of them
/// at position `base`, given the keys the class cache holds.
pub open spec fn dl_tdoa_shapes(range_data: SessionRangeData, keys: Seq<Seq<char>>, base: nat) -> Seq<
    Shape,
> {
    dl_tdoa_delivery_shapes(
        header_of(range_data),
        range_data.ranging_measurements.indicator(),
        dl_tdoa_normalized(range_data.ranging_measurements),
        range_data.raw_ranging_data@,
        keys,
        base,
    )
}

impl NotificationManagerAndroid {
    /// Delivers a range data notification of downlink time-difference-of-
    /// arrival measurements. A notification that announces or holds another
    /// kind is refused before anything is allocated, and so is one with more
    /// measurements, or more bytes in one buffer, than 32 signed bits can
    /// say. Any other is
    /// normalized and handed to the callback in one record, or given up where
    /// the scope has no room for its objects.
    pub fn on_session_dl_tdoa_range_data_notification(&mut self, range_data: SessionRangeData) -> (r:
        Result<(), JniError>)
        requires
            old(self).wf(),
        ensures
            final(self).wf(),
            dl_tdoa_rejection(range_data) matches Some(e) ==> r == Err::<(), JniError>(e) && old(
                self,
            ).unchanged(final(self)),
            dl_tdoa_rejection(range_data) is None ==> old(self).delivers(
                final(self),
                r,
                dl_tdoa_shapes(
                    range_data,
                    old(self).jclass_map.keys(),
                    old(self).env.objects().len(),
                ),
                keys_after(
                    keys_after(old(self).jclass_map.keys(), UWB_DL_TDOA_MEASUREMENT_CLASS@),
                    UWB_RANGING_DATA_CLASS@,
                ),
                RANGE_DATA_CALLBACK@,
                object_callback_signature(UWB_RANGING_DATA_CLASS@),
                seq![
                    ForeignValue::Object(
                        (old(self).env.objects().len() + dl_tdoa_shapes(
                            range_data,
                            old(self).jclass_map.keys(),
                            old(self).env.objects().len(),
                        ).len() - 1) as usize,
                    ),
                ],
            ),
    {
        let header = RangeDataHeader {
            sequence_number: range_data.sequence_number,
            session_token: range_data.session_token,
            rcr_indicator: range_data.rcr_indicator,
            current_ranging_interval_ms: range_data.current_ranging_interval_ms,
            ranging_measurement_type: range_data.ranging_measurement_type,
        };
        if range_data.ranging_measurement_type != RangingMeasurementType::DlTdoa {
            return Err(JniError::UnexpectedVariant);
        }
        let (indicator, measurements): (
            MacAddressIndicator,
            Vec<DlTdoaRangingMeasurement>,
        ) = match range_data.ranging_measurements {
            RangingMeasurements::ShortAddressDltdoa(v) => (
                MacAddressIndicator::ShortAddress,
                normalize_short_dl_tdoa(v),
            ),
            RangingMeasurements::ExtendedAddressDltdoa(v) => (
                MacAddressIndicator::ExtendedAddress,
                normalize_extended_dl_tdoa(v),
            ),
            _ => {
                return Err(JniError::UnexpectedVariant);
            },
        };
        let count = int_from_usize(measurements.len())?;
        if !fits_int(range_data.raw_ranging_data.len()) || !check_dl_tdoa_buffers(&measurements) {
            return Err(JniError::EncodingContract);
        }
        self.deliver_dl_tdoa(header, indicator, count, measurements, range_data.raw_ranging_data)
    }

    /// Delivers normalized measurements of this kind with the header and the
    /// bytes of the notification they came in.
    pub(crate) fn deliver_dl_tdoa(
        &mut self,
        header: RangeDataHeader,
        indicator: MacAddressIndicator,
        count: i32,
        measurements: Vec<DlTdoaRangingMeasurement>,
        raw_ranging_data: Vec<u8>,
    ) -> (r: Result<(), JniError>)
        requires
            old(self).wf(),
            count == measurements@.len(),
        ensures
            final(self).wf(),
            old(self).delivers(
                final(self),
                r,
                dl_tdoa_delivery_shapes(
                    header,
                    indicator,
                    measurements@,
                    raw_ranging_data@,
                    old(self).jclass_map.keys(),
                    old(self).env.objects().len(),
                ),
                keys_after(
                    keys_after(old(self).jclass_map.keys(), UWB_DL_TDOA_MEASUREMENT_CLASS@),
                    UWB_RANGING_DATA_CLASS@,
                ),
                RANGE_DATA_CALLBACK@,
                object_callback_signature(UWB_RANGING_DATA_CLASS@),
                seq![
                    ForeignValue::Object(
                        (old(self).env.objects().len() + dl_tdoa_delivery_shapes(
                            header,
                            indicator,
                            measurements@,
                            raw_ranging_data@,
                            old(self).jclass_map.keys(),
                            old(self).env.objects().len(),
                        ).len() - 1) as usize,
                    ),
                ],
            ),
    {
        let ghost origin = *self;
        let ghost keys = self.jclass_map.keys();
        let ghost base = self.env.objects().len();
        let ghost ms = measurements@;
        let ghost total = dl_tdoa_delivery_shapes(
            header,
            indicator,
            ms,
            raw_ranging_data@,
            keys,
            base,
        );
        proof {
            origin.lemma_stages_nothing();
        }
        let ghost s0 = Seq::<Shape>::empty();
        let raw = self.put_object(
            ForeignObject::ByteArray(raw_ranging_data),
            Ghost(origin),
            Ghost(s0),
        )?;
        let ghost s1 = s0.push(Shape::Exactly(ForeignObjectView::ByteArray(raw_ranging_data@)));
        let class = self.find_class_next(UWB_DL_TDOA_MEASUREMENT_CLASS, Ghost(origin), Ghost(s1))?;
        let ghost s2 = s1 + class_shapes(keys, UWB_DL_TDOA_MEASUREMENT_CLASS@, base + 1);
        let ghost filler_at = self.env.objects().len();
        let ghost filler = dl_tdoa_filler_shapes(class, indicator.address_len(), filler_at);
        let address = self.put_object(
            ForeignObject::ZeroedByteArray(indicator.to_address_len()),
            Ghost(origin),
            Ghost(s2),
        )?;
        let anchor = self.put_object(
            ForeignObject::ZeroedByteArray(MAX_ANCHOR_LOCATION_LEN),
            Ghost(origin),
            Ghost(s2 + filler.take(1)),
        )?;
        let rounds = self.put_object(
            ForeignObject::ZeroedByteArray(MAX_RANGING_ROUNDS_LEN),
            Ghost(origin),
            Ghost(s2 + filler.take(2)),
        )?;
        let zero = ForeignValue::Int(0);
        let zero_long = ForeignValue::Long(0);
        let fields = vec![
            ForeignValue::Object(address),
            zero,
            zero,
            zero,
            zero,
            zero,
            zero,
            zero,
            zero,
            zero,
            zero,
            zero,
            zero_long,
            zero_long,
            zero,
            zero,
            zero_long,
            zero_long,
            zero,
            ForeignValue::Object(anchor),
            ForeignValue::Object(rounds),
        ];
        assert(fields@ =~= dl_tdoa_zero_fields(address, anchor, rounds));
        let fill = self.put_object(
            ForeignObject::Instance {
                class,
                signature: DL_TDOA_MEASUREMENT_SIGNATURE.to_owned(),
                fields,
            },
            Ghost(origin),
            Ghost(s2 + filler.take(3)),
        )?;
        let ghost s3 = s2 + filler;
        assert((s2 + filler.take(3)).push(filler[3]) =~= s3);
        let ghost before = *self;
        let ghost list_at = self.env.objects().len();
        let ghost list = dl_tdoa_list_shapes(ms, class, list_at);
        let encoded = encode_dl_tdoa_list(&mut self.env, class, measurements);
        proof {
            lemma_dl_tdoa_list_len(ms, class, list_at);
            lemma_allots_chain(&origin.env, &before.env, &self.env, true, s3, encoded is Ok, list);
        }
        let elements = encoded?;
        let ghost s4 = s3 + list;
        let array = self.put_object(
            ForeignObject::InstanceArray { class, length: count, fill, elements },
            Ghost(origin),
            Ghost(s4),
        )?;
        let ghost s5 = s4.push(
            Shape::Exactly(
                ForeignObjectView::InstanceArray {
                    class,
                    length: count,
                    fill,
                    elements: dl_tdoa_elements(ms.len(), list_at),
                },
            ),
        );
        let signature = array_constructor(UWB_DL_TDOA_MEASUREMENT_CLASS);
        assert(s5 + range_data_tail(
            self.jclass_map.keys(),
            signature@,
            range_data_fields(header, indicator, count, array, raw),
            self.env.objects().len(),
        ) =~= total);
        self.deliver_range_data(
            header,
            indicator,
            count,
            array,
            raw,
            signature,
            Ghost(origin),
            Ghost(s5),
        )
    }
}

} // verus!
