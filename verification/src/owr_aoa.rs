//! One-way angle-of-arrival measurements on their way to the host.

use vstd::prelude::*;
use crate::cache::{keys_after, slot_after};
use crate::error::JniError;
use crate::foreign::{fits_int, ForeignObject, ForeignObjectView, ForeignValue};
use crate::jclass_name::{UWB_OWR_AOA_MEASUREMENT_CLASS, UWB_RANGING_DATA_CLASS};
use crate::manager::NotificationManagerAndroid;
use crate::measurement::{owr_aoa_from_extended, owr_aoa_from_short, OwrAoaRangingMeasurement};
use crate::notification::{
    MacAddressIndicator, RangingMeasurementType, RangingMeasurements, SessionRangeData,
};
use crate::range_data::{
    header_of, object_callback_signature, range_data_fields, range_data_tail, single_constructor,
    single_constructor_signature, RangeDataHeader, RANGE_DATA_CALLBACK,
};
use crate::shape::{class_shapes, lemma_allots_chain, put_address, Shape};

verus! {

/// Signature of the constructor of a measurement on the host.
pub const OWR_AOA_MEASUREMENT_SIGNATURE: &'static str = "([BIIIIIIII)V";

/// The constructor arguments of a measurement whose address is the object at
/// the given position.
pub open spec fn owr_aoa_fields(m: OwrAoaRangingMeasurement, address: usize) -> Seq<ForeignValue> {
    seq![
        ForeignValue::Object(address),
        ForeignValue::Int(m.status as i32),
        ForeignValue::Int(m.nlos as i32),
        ForeignValue::Int(m.frame_sequence_number as i32),
        ForeignValue::Int(m.block_index as i32),
        ForeignValue::Int(m.aoa_azimuth as i32),
        ForeignValue::Int(m.aoa_azimuth_fom as i32),
        ForeignValue::Int(m.aoa_elevation as i32),
        ForeignValue::Int(m.aoa_elevation_fom as i32),
    ]
}

/// The measurement of a payload of this kind, normalized.
pub open spec fn owr_aoa_normalized(payload: RangingMeasurements) -> OwrAoaRangingMeasurement
    recommends
        payload.kind() == RangingMeasurementType::OwrAoa,
{
    match payload {
        RangingMeasurements::ShortAddressOwrAoa(w) => owr_aoa_from_short(w),
        RangingMeasurements::ExtendedAddressOwrAoa(w) => owr_aoa_from_extended(w),
        _ => arbitrary(),
    }
}

/// Why a range data notification cannot be delivered as one of this kind, if
/// it cannot: it announces another kind or holds another, or the number of
/// its bytes does not fit 32 signed bits.
pub open spec fn owr_aoa_rejection(range_data: SessionRangeData) -> Option<JniError> {
    if range_data.ranging_measurement_type != RangingMeasurementType::OwrAoa
        || range_data.ranging_measurements.kind() != RangingMeasurementType::OwrAoa {
        Some(JniError::UnexpectedVariant)
    } else if range_data.raw_ranging_data@.len() > i32::MAX {
        Some(JniError::EncodingContract)
    } else {
        None
    }
}

/// The objects of a range data notification of this kind, the first of them
/// at position `base`, given the keys the class cache holds: the
/// notification as it came; the address; the class of the measurement; the
/// measurement; the class of the record and the record.
pub open spec fn owr_aoa_shapes(range_data: SessionRangeData, keys: Seq<Seq<char>>, base: nat) -> Seq<
    Shape,
> {
    let m = owr_aoa_normalized(range_data.ranging_measurements);
    let lookup = class_shapes(keys, UWB_OWR_AOA_MEASUREMENT_CLASS@, base + 2);
    let record_at = base + 2 + lookup.len();
    seq![
        Shape::Exactly(ForeignObjectView::ByteArray(range_data.raw_ranging_data@)),
        Shape::Address(m.mac_address),
    ] + lookup + seq![
        Shape::Exactly(
            ForeignObjectView::Instance {
                class: slot_after(keys, UWB_OWR_AOA_MEASUREMENT_CLASS@) as usize,
                signature: OWR_AOA_MEASUREMENT_SIGNATURE@,
                fields: owr_aoa_fields(m, (base + 1) as usize),
            },
        ),
    ] + range_data_tail(
        keys_after(keys, UWB_OWR_AOA_MEASUREMENT_CLASS@),
        single_constructor_signature(UWB_OWR_AOA_MEASUREMENT_CLASS@),
        range_data_fields(
            header_of(range_data),
            range_data.ranging_measurements.indicator(),
            1,
            record_at as usize,
            base as usize,
        ),
        record_at + 1,
    )
}

impl NotificationManagerAndroid {
    /// Delivers a range data notification of a one-way angle-of-arrival
    /// measurement. A notification that announces or holds another kind is
    /// refused before anything is allocated, and so is one with more bytes
    /// than 32 signed bits can say. Any other is normalized and
    /// handed to the callback in one record, or given up where the scope has
    /// no room for its objects.
    pub fn on_session_owr_aoa_range_data_notification(&mut self, range_data: SessionRangeData) -> (r:
        Result<(), JniError>)
        requires
            old(self).wf(),
        ensures
            final(self).wf(),
            owr_aoa_rejection(range_data) matches Some(e) ==> r == Err::<(), JniError>(e) && old(
                self,
            ).unchanged(final(self)),
            owr_aoa_rejection(range_data) is None ==> old(self).delivers(
                final(self),
                r,
                owr_aoa_shapes(
                    range_data,
                    old(self).jclass_map.keys(),
                    old(self).env.objects().len(),
                ),
                keys_after(
                    keys_after(old(self).jclass_map.keys(), UWB_OWR_AOA_MEASUREMENT_CLASS@),
                    UWB_RANGING_DATA_CLASS@,
                ),
                RANGE_DATA_CALLBACK@,
                object_callback_signature(UWB_RANGING_DATA_CLASS@),
                seq![
                    ForeignValue::Object(
                        (old(self).env.objects().len() + owr_aoa_shapes(
                            range_data,
                            old(self).jclass_map.keys(),
                            old(self).env.objects().len(),
                        ).len() - 1) as usize,
                    ),
                ],
            ),
    {
        let ghost origin = *self;
        let ghost keys = self.jclass_map.keys();
        let ghost base = self.env.objects().len();
        let ghost total = owr_aoa_shapes(range_data, keys, base);
        let header = RangeDataHeader {
            sequence_number: range_data.sequence_number,
            session_token: range_data.session_token,
            rcr_indicator: range_data.rcr_indicator,
            current_ranging_interval_ms: range_data.current_ranging_interval_ms,
            ranging_measurement_type: range_data.ranging_measurement_type,
        };
        if range_data.ranging_measurement_type != RangingMeasurementType::OwrAoa {
            return Err(JniError::UnexpectedVariant);
        }
        let (indicator, measurement): (
            MacAddressIndicator,
            OwrAoaRangingMeasurement,
        ) = match range_data.ranging_measurements {
            RangingMeasurements::ExtendedAddressOwrAoa(m) => (
                MacAddressIndicator::ExtendedAddress,
                OwrAoaRangingMeasurement::from(m),
            ),
            RangingMeasurements::ShortAddressOwrAoa(m) => (
                MacAddressIndicator::ShortAddress,
                OwrAoaRangingMeasurement::from(m),
            ),
            _ => {
                return Err(JniError::UnexpectedVariant);
            },
        };
        assert(measurement == owr_aoa_normalized(range_data.ranging_measurements));
        if !fits_int(range_data.raw_ranging_data.len()) {
            return Err(JniError::EncodingContract);
        }
        proof {
            origin.lemma_stages_nothing();
        }
        let raw = self.put_object(
            ForeignObject::ByteArray(range_data.raw_ranging_data),
            Ghost(origin),
            Ghost(Seq::empty()),
        )?;
        let ghost s1 = seq![
            Shape::Exactly(ForeignObjectView::ByteArray(range_data.raw_ranging_data@)),
        ];
        assert(Seq::<Shape>::empty().push(s1[0]) =~= s1);
        let ghost before = *self;
        let address = put_address(&mut self.env, measurement.mac_address);
        proof {
            lemma_allots_chain(
                &origin.env,
                &before.env,
                &self.env,
                true,
                s1,
                address is Ok,
                seq![Shape::Address(measurement.mac_address)],
            );
        }
        let address = address?;
        let ghost s2 = s1 + seq![Shape::Address(measurement.mac_address)];
        let class = self.find_class_next(UWB_OWR_AOA_MEASUREMENT_CLASS, Ghost(origin), Ghost(s2))?;
        let ghost s3 = s2 + class_shapes(keys, UWB_OWR_AOA_MEASUREMENT_CLASS@, base + 2);
        let fields = vec![
            ForeignValue::Object(address),
            ForeignValue::Int(measurement.status as i32),
            ForeignValue::Int(measurement.nlos as i32),
            ForeignValue::Int(measurement.frame_sequence_number as i32),
            ForeignValue::Int(measurement.block_index as i32),
            ForeignValue::Int(measurement.aoa_azimuth as i32),
            ForeignValue::Int(measurement.aoa_azimuth_fom as i32),
            ForeignValue::Int(measurement.aoa_elevation as i32),
            ForeignValue::Int(measurement.aoa_elevation_fom as i32),
        ];
        assert(fields@ =~= owr_aoa_fields(measurement, address));
        let record = ForeignObject::Instance {
            class,
            signature: OWR_AOA_MEASUREMENT_SIGNATURE.to_owned(),
            fields,
        };
        let position = self.put_object(record, Ghost(origin), Ghost(s3))?;
        let ghost s4 = s3.push(Shape::Exactly(record@));
        let signature = single_constructor(UWB_OWR_AOA_MEASUREMENT_CLASS);
        assert(s4 + range_data_tail(
            self.jclass_map.keys(),
            signature@,
            range_data_fields(header, indicator, 1, position, raw),
            self.env.objects().len(),
        ) =~= total);
        self.deliver_range_data(
            header,
            indicator,
            1,
            position,
            raw,
            signature,
            Ghost(origin),
            Ghost(s4),
        )
    }
}

} // verus!
