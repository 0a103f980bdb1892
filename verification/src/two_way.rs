//! Two-way ranging measurements on their way to the host.

use vstd::prelude::*;
use crate::arena::LocalFrame;
use crate::cache::{keys_after, slot_after};
use crate::error::JniError;
use crate::foreign::{
    fits_int, int_from_usize, ForeignObject, ForeignObjectView, ForeignValue,
};
use crate::jclass_name::{UWB_RANGING_DATA_CLASS, UWB_TWO_WAY_MEASUREMENT_CLASS};
use crate::manager::NotificationManagerAndroid;
use crate::measurement::{
    normalize_extended_two_way, normalize_short_two_way, two_way_from_extended,
    two_way_from_short, ExtendedAddressTwoWayRangingMeasurement,
    ShortAddressTwoWayRangingMeasurement, TwoWayRangingMeasurement,
};
use crate::notification::{
    MacAddressIndicator, RangingMeasurementType, RangingMeasurements, SessionRangeData,
};
use crate::range_data::{
    array_constructor, array_constructor_signature, header_of, object_callback_signature, range_data_fields,
    range_data_tail, RangeDataHeader, RANGE_DATA_CALLBACK,
};
use crate::shape::{
    allots, class_shapes, lemma_allots_chain, lemma_allots_nothing, put_address_next, put_next,
    Shape,
};

verus! {

/// Signature of the constructor of a measurement on the host.
pub const TWO_WAY_MEASUREMENT_SIGNATURE: &'static str = "([BIIIIIIIIIIIII)V";

/// The constructor arguments of a measurement whose address is the object at
/// the given position.
pub open spec fn two_way_fields(m: TwoWayRangingMeasurement, address: usize) -> Seq<ForeignValue> {
    seq![
        ForeignValue::Object(address),
        ForeignValue::Int(m.status as i32),
        ForeignValue::Int(m.nlos as i32),
        ForeignValue::Int(m.distance as i32),
        ForeignValue::Int(m.aoa_azimuth as i32),
        ForeignValue::Int(m.aoa_azimuth_fom as i32),
        ForeignValue::Int(m.aoa_elevation as i32),
        ForeignValue::Int(m.aoa_elevation_fom as i32),
        ForeignValue::Int(m.aoa_destination_azimuth as i32),
        ForeignValue::Int(m.aoa_destination_azimuth_fom as i32),
        ForeignValue::Int(m.aoa_destination_elevation as i32),
        ForeignValue::Int(m.aoa_destination_elevation_fom as i32),
        ForeignValue::Int(m.slot_index as i32),
        ForeignValue::Int(m.rssi as i32),
    ]
}

/// The constructor arguments of the measurement that fills an array before
/// its elements are set: every number zero.
pub open spec fn two_way_zero_fields(address: usize) -> Seq<ForeignValue> {
    seq![
        ForeignValue::Object(address),
        ForeignValue::Int(0),
        ForeignValue::Int(0),
        ForeignValue::Int(0),
        ForeignValue::Int(0),
        ForeignValue::Int(0),
        ForeignValue::Int(0),
        ForeignValue::Int(0),
        ForeignValue::Int(0),
        ForeignValue::Int(0),
        ForeignValue::Int(0),
        ForeignValue::Int(0),
        ForeignValue::Int(0),
        ForeignValue::Int(0),
    ]
}

/// The two objects of one measurement whose first is at position `base`: the
/// address, and the measurement made of it.
pub open spec fn two_way_record_shapes(m: TwoWayRangingMeasurement, class: usize, base: nat) -> Seq<
    Shape,
> {
    seq![
        Shape::Address(m.mac_address),
        Shape::Exactly(
            ForeignObjectView::Instance {
                class,
                signature: TWO_WAY_MEASUREMENT_SIGNATURE@,
                fields: two_way_fields(m, base as usize),
            },
        ),
    ]
}

/// The objects of a list of measurements whose first is at position `base`,
/// two for each, in the order of the list.
pub open spec fn two_way_list_shapes(
    ms: Seq<TwoWayRangingMeasurement>,
    class: usize,
    base: nat,
) -> Seq<Shape>
    decreases ms.len(),
{
    if ms.len() == 0 {
        Seq::empty()
    } else {
        two_way_list_shapes(ms.drop_last(), class, base) + two_way_record_shapes(
            ms.last(),
            class,
            base + 2 * (ms.len() - 1) as nat,
        )
    }
}

/// The positions of the measurements among the objects of a list of `count`
/// of them whose first object is at position `base`.
pub open spec fn two_way_elements(count: nat, base: nat) -> Seq<usize> {
    Seq::new(count, |i: int| (base + 2 * i + 1) as usize)
}

/// A list of measurements takes two objects for each of them.
pub proof fn lemma_two_way_list_len(ms: Seq<TwoWayRangingMeasurement>, class: usize, base: nat)
    ensures
        two_way_list_shapes(ms, class, base).len() == 2 * ms.len(),
    decreases ms.len(),
{
    if ms.len() > 0 {
        lemma_two_way_list_len(ms.drop_last(), class, base);
    }
}

/// The objects of an array of measurements, the first of them at position
/// `base`, given the keys the class cache holds: the class of the
/// measurements; an empty address and the measurement made of it, which
/// fills the array at first; the measurements; their array.
pub open spec fn two_way_array_shapes(
    bytearray_len: i32,
    measurement_count: i32,
    ms: Seq<TwoWayRangingMeasurement>,
    keys: Seq<Seq<char>>,
    base: nat,
) -> Seq<Shape> {
    let lookup = class_shapes(keys, UWB_TWO_WAY_MEASUREMENT_CLASS@, base);
    let class = slot_after(keys, UWB_TWO_WAY_MEASUREMENT_CLASS@) as usize;
    let filler_at = base + lookup.len();
    let list_at = filler_at + 2;
    lookup + seq![
        Shape::Exactly(ForeignObjectView::ZeroedByteArray(bytearray_len)),
        Shape::Exactly(
            ForeignObjectView::Instance {
                class,
                signature: TWO_WAY_MEASUREMENT_SIGNATURE@,
                fields: two_way_zero_fields(filler_at as usize),
            },
        ),
    ] + two_way_list_shapes(ms, class, list_at) + seq![
        Shape::Exactly(
            ForeignObjectView::InstanceArray {
                class,
                length: measurement_count,
                fill: (filler_at + 1) as usize,
                elements: two_way_elements(ms.len(), list_at),
            },
        ),
    ]
}

/// An array of measurements takes an object for itself, two that fill it at
/// first, two for each measurement, and what finding the class takes.
pub proof fn lemma_two_way_array_len(
    bytearray_len: i32,
    measurement_count: i32,
    ms: Seq<TwoWayRangingMeasurement>,
    keys: Seq<Seq<char>>,
    base: nat,
)
    ensures
        two_way_array_shapes(bytearray_len, measurement_count, ms, keys, base).len()
            == class_shapes(keys, UWB_TWO_WAY_MEASUREMENT_CLASS@, base).len() + 3 + 2 * ms.len(),
{
    let lookup = class_shapes(keys, UWB_TWO_WAY_MEASUREMENT_CLASS@, base);
    lemma_two_way_list_len(
        ms,
        slot_after(keys, UWB_TWO_WAY_MEASUREMENT_CLASS@) as usize,
        base + lookup.len() + 2,
    );
}

/// The measurements of a payload of this kind, normalized; none for a
/// payload of another kind.
pub open spec fn two_way_normalized(payload: RangingMeasurements) -> Seq<TwoWayRangingMeasurement> {
    match payload {
        RangingMeasurements::ShortAddressTwoWay(v) => v@.map_values(
            |w: ShortAddressTwoWayRangingMeasurement| two_way_from_short(w),
        ),
        RangingMeasurements::ExtendedAddressTwoWay(v) => v@.map_values(
            |w: ExtendedAddressTwoWayRangingMeasurement| two_way_from_extended(w),
        ),
        _ => Seq::empty(),
    }
}

/// Why a range data notification cannot be delivered as one of this kind, if
/// it cannot: it announces another kind or holds another, or the number of
/// its measurements or of its bytes does not fit 32 signed bits.
pub open spec fn two_way_rejection(range_data: SessionRangeData) -> Option<JniError> {
    if range_data.ranging_measurement_type != RangingMeasurementType::TwoWay
        || range_data.ranging_measurements.kind() != RangingMeasurementType::TwoWay {
        Some(JniError::UnexpectedVariant)
    } else if two_way_normalized(range_data.ranging_measurements).len() > i32::MAX
        || range_data.raw_ranging_data@.len() > i32::MAX {
        Some(JniError::EncodingContract)
    } else {
        None
    }
}

/// The objects of a range data notification of this kind, the first of them
/// at position `base`, given the keys the class cache holds: the
/// notification as it came; the array of the measurements with all that it
/// takes; the class of the record and the record.
pub open spec fn two_way_shapes(range_data: SessionRangeData, keys: Seq<Seq<char>>, base: nat) -> Seq<
    Shape,
> {
    let ms = two_way_normalized(range_data.ranging_measurements);
    let indicator = range_data.ranging_measurements.indicator();
    let array = two_way_array_shapes(indicator.address_len(), ms.len() as i32, ms, keys, base + 1);
    let array_at = base + array.len();
    seq![Shape::Exactly(ForeignObjectView::ByteArray(range_data.raw_ranging_data@))] + array
        + range_data_tail(
        keys_after(keys, UWB_TWO_WAY_MEASUREMENT_CLASS@),
        array_constructor_signature(UWB_TWO_WAY_MEASUREMENT_CLASS@),
        range_data_fields(
            header_of(range_data),
            indicator,
            ms.len() as i32,
            array_at as usize,
            base as usize,
        ),
        array_at + 1,
    )
}

/// Allocates one measurement: its address and the measurement itself.
pub fn encode_two_way_record(env: &mut LocalFrame, class: usize, m: TwoWayRangingMeasurement) -> (r:
    Result<usize, JniError>)
    requires
        old(env).wf(),
    ensures
        final(env).wf(),
        allots(
            old(env),
            final(env),
            r is Ok,
            two_way_record_shapes(m, class, old(env).objects().len()),
        ),
        r is Ok ==> r->Ok_0 == old(env).objects().len() + 1,
        r is Err ==> r->Err_0 == JniError::CapacityExceeded,
{
    let ghost shapes = two_way_record_shapes(m, class, old(env).objects().len());
    let ghost origin = *env;
    proof {
        lemma_allots_nothing(&origin);
    }
    let address = put_address_next(env, m.mac_address, Ghost(origin), Ghost(Seq::empty()))?;
    let fields = vec![
        ForeignValue::Object(address),
        ForeignValue::Int(m.status as i32),
        ForeignValue::Int(m.nlos as i32),
        ForeignValue::Int(m.distance as i32),
        ForeignValue::Int(m.aoa_azimuth as i32),
        ForeignValue::Int(m.aoa_azimuth_fom as i32),
        ForeignValue::Int(m.aoa_elevation as i32),
        ForeignValue::Int(m.aoa_elevation_fom as i32),
        ForeignValue::Int(m.aoa_destination_azimuth as i32),
        ForeignValue::Int(m.aoa_destination_azimuth_fom as i32),
        ForeignValue::Int(m.aoa_destination_elevation as i32),
        ForeignValue::Int(m.aoa_destination_elevation_fom as i32),
        ForeignValue::Int(m.slot_index as i32),
        ForeignValue::Int(m.rssi as i32),
    ];
    assert(fields@ =~= two_way_fields(m, address));
    let record = ForeignObject::Instance {
        class,
        signature: TWO_WAY_MEASUREMENT_SIGNATURE.to_owned(),
        fields,
    };
    let made = put_next(env, record, Ghost(origin), Ghost(shapes.take(1)));
    assert(shapes.take(1).push(Shape::Exactly(record@)) =~= shapes);
    made
}

/// Allocates the measurements of a list, one after the other, and returns
/// where each of them stands.
pub fn encode_two_way_list(env: &mut LocalFrame, class: usize, ms: Vec<TwoWayRangingMeasurement>) -> (r:
    Result<Vec<usize>, JniError>)
    requires
        old(env).wf(),
    ensures
        final(env).wf(),
        allots(
            old(env),
            final(env),
            r is Ok,
            two_way_list_shapes(ms@, class, old(env).objects().len()),
        ),
        r is Ok ==> r->Ok_0@ == two_way_elements(ms@.len(), old(env).objects().len()),
        r is Err ==> r->Err_0 == JniError::CapacityExceeded,
{
    let ghost origin = *env;
    let ghost base = origin.objects().len();
    let mut elements: Vec<usize> = Vec::new();
    proof {
        lemma_allots_nothing(&origin);
        assert(ms@.take(0) =~= Seq::<TwoWayRangingMeasurement>::empty());
        assert(elements@ =~= two_way_elements(0, base));
    }
    for m in iter: ms.into_iter()
        invariant
            iter.seq() == ms@,
            env.wf(),
            origin.wf(),
            origin == *old(env),
            base == origin.objects().len(),
            allots(&origin, env, true, two_way_list_shapes(ms@.take(iter.index() as int), class, base)),
            elements@ == two_way_elements(iter.index() as nat, base),
    {
        let ghost i = iter.index() as int;
        let ghost before = *env;
        let ghost done = two_way_list_shapes(ms@.take(i), class, base);
        proof {
            assert(0 <= i < ms@.len());
            assert(ms@.take(i + 1).len() == i + 1);
            lemma_two_way_list_len(ms@.take(i), class, base);
            lemma_two_way_list_len(ms@.take(i + 1), class, base);
            lemma_two_way_list_len(ms@, class, base);
            assert(before.objects().skip(base as int).len() == done.len());
            assert(ms@.take(i + 1).drop_last() =~= ms@.take(i));
            assert(ms@.take(i + 1).last() == m);
        }
        let made = encode_two_way_record(env, class, m);
        proof {
            lemma_allots_chain(
                &origin,
                &before,
                env,
                true,
                done,
                made is Ok,
                two_way_record_shapes(m, class, before.objects().len()),
            );
        }
        match made {
            Ok(position) => {
                elements.push(position);
                assert(elements@ =~= two_way_elements((i + 1) as nat, base));
            },
            Err(e) => {
                assert(two_way_list_shapes(ms@.take(i + 1), class, base).len()
                    <= two_way_list_shapes(ms@, class, base).len());
                return Err(e);
            },
        }
    }
    assert(ms@.take(ms@.len() as int) =~= ms@);
    Ok(elements)
}

impl NotificationManagerAndroid {
    /// Allocates an array of two-way measurements and returns where it
    /// stands: an array of `measurement_count` elements, filled at first
    /// with a measurement of zeros whose address has `bytearray_len` bytes,
    /// its leading elements then set to `measurements`.
    pub fn on_two_way_range_data_notification(
        &mut self,
        bytearray_len: i32,
        measurement_count: i32,
        measurements: Vec<TwoWayRangingMeasurement>,
    ) -> (r: Result<usize, JniError>)
        requires
            old(self).wf(),
        ensures
            final(self).wf(),
            old(self).stages(
                final(self),
                r is Ok,
                two_way_array_shapes(
                    bytearray_len,
                    measurement_count,
                    measurements@,
                    old(self).jclass_map.keys(),
                    old(self).env.objects().len(),
                ),
            ),
            r is Ok ==> {
                &&& r->Ok_0 == old(self).env.objects().len() + two_way_array_shapes(
                    bytearray_len,
                    measurement_count,
                    measurements@,
                    old(self).jclass_map.keys(),
                    old(self).env.objects().len(),
                ).len() - 1
                &&& final(self).jclass_map.keys() == keys_after(
                    old(self).jclass_map.keys(),
                    UWB_TWO_WAY_MEASUREMENT_CLASS@,
                )
            },
            r is Err ==> r->Err_0 == JniError::CapacityExceeded,
    {
        let ghost origin = *self;
        let ghost keys = self.jclass_map.keys();
        let ghost base = self.env.objects().len();
        let ghost total = two_way_array_shapes(
            bytearray_len,
            measurement_count,
            measurements@,
            keys,
            base,
        );
        proof {
            origin.lemma_stages_nothing();
        }
        let class = self.find_class_next(
            UWB_TWO_WAY_MEASUREMENT_CLASS,
            Ghost(origin),
            Ghost(Seq::empty()),
        )?;
        let ghost s1 = Seq::<Shape>::empty() + class_shapes(
            keys,
            UWB_TWO_WAY_MEASUREMENT_CLASS@,
            base,
        );
        let address = self.put_object(
            ForeignObject::ZeroedByteArray(bytearray_len),
            Ghost(origin),
            Ghost(s1),
        )?;
        let ghost s2 = s1.push(Shape::Exactly(ForeignObjectView::ZeroedByteArray(bytearray_len)));
        let zero = ForeignValue::Int(0);
        let fields = vec![
            ForeignValue::Object(address),
            zero,
            zero,
            zero,
            zero,
            zero,
            zero,
            zero,
            zero,
            zero,
            zero,
            zero,
            zero,
            zero,
        ];
        assert(fields@ =~= two_way_zero_fields(address));
        let filler = ForeignObject::Instance {
            class,
            signature: TWO_WAY_MEASUREMENT_SIGNATURE.to_owned(),
            fields,
        };
        let fill = self.put_object(filler, Ghost(origin), Ghost(s2))?;
        let ghost s3 = s2.push(Shape::Exactly(filler@));
        let ghost before = *self;
        let ghost list_at = self.env.objects().len();
        let ghost list = two_way_list_shapes(measurements@, class, list_at);
        let encoded = encode_two_way_list(&mut self.env, class, measurements);
        proof {
            lemma_allots_chain(&origin.env, &before.env, &self.env, true, s3, encoded is Ok, list);
        }
        let elements = encoded?;
        let array = ForeignObject::InstanceArray { class, length: measurement_count, fill, elements };
        let made = self.put_object(array, Ghost(origin), Ghost(s3 + list));
        assert((s3 + list).push(Shape::Exactly(array@)) =~= total);
        made
    }

    /// Delivers a range data notification of two-way measurements. A
    /// notification that announces or holds another kind is refused before
    /// anything is allocated, and so is one with more measurements or more
    /// bytes than 32 signed bits can say. Any other is normalized and handed to the
    /// callback in one record, or given up where the scope has no room for
    /// its objects.
    pub fn on_session_two_way_range_data_notification(&mut self, range_data: SessionRangeData) -> (r:
        Result<(), JniError>)
        requires
            old(self).wf(),
        ensures
            final(self).wf(),
            two_way_rejection(range_data) matches Some(e) ==> r == Err::<(), JniError>(e) && old(
                self,
            ).unchanged(final(self)),
            two_way_rejection(range_data) is None ==> old(self).delivers(
                final(self),
                r,
                two_way_shapes(
                    range_data,
                    old(self).jclass_map.keys(),
                    old(self).env.objects().len(),
                ),
                keys_after(
                    keys_after(old(self).jclass_map.keys(), UWB_TWO_WAY_MEASUREMENT_CLASS@),
                    UWB_RANGING_DATA_CLASS@,
                ),
                RANGE_DATA_CALLBACK@,
                object_callback_signature(UWB_RANGING_DATA_CLASS@),
                seq![
                    ForeignValue::Object(
                        (old(self).env.objects().len() + two_way_shapes(
                            range_data,
                            old(self).jclass_map.keys(),
                            old(self).env.objects().len(),
                        ).len() - 1) as usize,
                    ),
                ],
            ),
    {
        let ghost origin = *self;
        let ghost keys = self.jclass_map.keys();
        let ghost base = self.env.objects().len();
        let ghost total = two_way_shapes(range_data, keys, base);
        let ghost ms = two_way_normalized(range_data.ranging_measurements);
        let header = RangeDataHeader {
            sequence_number: range_data.sequence_number,
            session_token: range_data.session_token,
            rcr_indicator: range_data.rcr_indicator,
            current_ranging_interval_ms: range_data.current_ranging_interval_ms,
            ranging_measurement_type: range_data.ranging_measurement_type,
        };
        if range_data.ranging_measurement_type != RangingMeasurementType::TwoWay {
            return Err(JniError::UnexpectedVariant);
        }
        let (indicator, measurements): (
            MacAddressIndicator,
            Vec<TwoWayRangingMeasurement>,
        ) = match range_data.ranging_measurements {
            RangingMeasurements::ShortAddressTwoWay(v) => (
                MacAddressIndicator::ShortAddress,
                normalize_short_two_way(v),
            ),
            RangingMeasurements::ExtendedAddressTwoWay(v) => (
                MacAddressIndicator::ExtendedAddress,
                normalize_extended_two_way(v),
            ),
            _ => {
                return Err(JniError::UnexpectedVariant);
            },
        };
        assert(measurements@ == ms);
        let count = int_from_usize(measurements.len())?;
        if !fits_int(range_data.raw_ranging_data.len()) {
            return Err(JniError::EncodingContract);
        }
        proof {
            origin.lemma_stages_nothing();
        }
        let raw = self.put_object(
            ForeignObject::ByteArray(range_data.raw_ranging_data),
            Ghost(origin),
            Ghost(Seq::empty()),
        )?;
        let ghost s1 = seq![
            Shape::Exactly(ForeignObjectView::ByteArray(range_data.raw_ranging_data@)),
        ];
        assert(Seq::<Shape>::empty().push(s1[0]) =~= s1);
        let ghost before = *self;
        let ghost made = two_way_array_shapes(indicator.address_len(), count, ms, keys, base + 1);
        let array = self.on_two_way_range_data_notification(
            indicator.to_address_len(),
            count,
            measurements,
        );
        proof {
            origin.lemma_stages_chain(&before, self, s1, array is Ok, made);
        }
        let array = array?;
        let signature = array_constructor(UWB_TWO_WAY_MEASUREMENT_CLASS);
        assert(s1 + made + range_data_tail(
            self.jclass_map.keys(),
            signature@,
            range_data_fields(header, indicator, count, array, raw),
            self.env.objects().len(),
        ) =~= total);
        self.deliver_range_data(
            header,
            indicator,
            count,
            array,
            raw,
            signature,
            Ghost(origin),
            Ghost(s1 + made),
        )
    }
}

} // verus!
