//! What the three kinds of range data have in common: the record that
//! carries the measurements, and the callback that receives it.

use vstd::prelude::*;
use vstd::string::StringExecFns;
use crate::cache::{keys_after, slot_after};
use crate::error::JniError;
use crate::foreign::{ForeignObject, ForeignObjectView, ForeignValue};
use crate::jclass_name::UWB_RANGING_DATA_CLASS;
use crate::manager::NotificationManagerAndroid;
use crate::notification::{MacAddressIndicator, RangingMeasurementType, SessionRangeData};
use crate::shape::{class_shapes, Shape};

verus! {

/// Name of the callback that receives range data.
pub const RANGE_DATA_CALLBACK: &'static str = "onRangeDataNotificationReceived";

/// What a range data notification holds besides its measurements.
#[derive(Debug, PartialEq, Eq, Structural, Clone, Copy)]
pub struct RangeDataHeader {
    pub sequence_number: u32,
    pub session_token: u32,
    pub rcr_indicator: u8,
    pub current_ranging_interval_ms: u32,
    pub ranging_measurement_type: RangingMeasurementType,
}

/// The header of a range data notification.
pub open spec fn header_of(range_data: SessionRangeData) -> RangeDataHeader {
    RangeDataHeader {
        sequence_number: range_data.sequence_number,
        session_token: range_data.session_token,
        rcr_indicator: range_data.rcr_indicator,
        current_ranging_interval_ms: range_data.current_ranging_interval_ms,
        ranging_measurement_type: range_data.ranging_measurement_type,
    }
}

/// The constructor arguments of the record that carries the measurements:
/// the header, the width of the addresses, the number of measurements, the
/// measurements and the notification as it came.
pub open spec fn range_data_fields(
    header: RangeDataHeader,
    indicator: MacAddressIndicator,
    count: i32,
    measurements: usize,
    raw: usize,
) -> Seq<ForeignValue> {
    seq![
        ForeignValue::Long(header.sequence_number as i64),
        ForeignValue::Long(header.session_token as i64),
        ForeignValue::Int(header.rcr_indicator as i32),
        ForeignValue::Long(header.current_ranging_interval_ms as i64),
        ForeignValue::Int(header.ranging_measurement_type.code()),
        ForeignValue::Int(indicator.code()),
        ForeignValue::Int(count),
        ForeignValue::Object(measurements),
        ForeignValue::Object(raw),
    ]
}

/// Signature of the constructor that takes an array of measurements of the
/// class `class`.
pub open spec fn array_constructor_signature(class: Seq<char>) -> Seq<char> {
    "(JJIJIII[L"@ + class + ";[B)V"@
}

/// Signature of the constructor that takes one measurement of the class
/// `class`.
pub open spec fn single_constructor_signature(class: Seq<char>) -> Seq<char> {
    "(JJIJIIIL"@ + class + ";[B)V"@
}

/// Signature of a callback that takes one object of the class `class`.
pub open spec fn object_callback_signature(class: Seq<char>) -> Seq<char> {
    "(L"@ + class + ";)V"@
}

/// The objects that close a range data notification, the first of them at
/// position `base`: what finding the class of the record takes, and the
/// record.
pub open spec fn range_data_tail(
    keys: Seq<Seq<char>>,
    signature: Seq<char>,
    fields: Seq<ForeignValue>,
    base: nat,
) -> Seq<Shape> {
    class_shapes(keys, UWB_RANGING_DATA_CLASS@, base).push(
        Shape::Exactly(
            ForeignObjectView::Instance {
                class: slot_after(keys, UWB_RANGING_DATA_CLASS@) as usize,
                signature,
                fields,
            },
        ),
    )
}

/// The position of the record among the objects of `range_data_tail`.
pub open spec fn range_data_position(keys: Seq<Seq<char>>, base: nat) -> nat {
    base + class_shapes(keys, UWB_RANGING_DATA_CLASS@, base).len()
}

/// The signature of a callback that takes one object of the class `class`.
pub fn object_callback(class: &str) -> (signature: String)
    ensures
        signature@ == object_callback_signature(class@),
{
    let mut signature = "(L".to_owned();
    signature.append(class);
    signature.append(";)V");
    signature
}

/// The signature of the constructor that takes an array of measurements of
/// the class `class`.
pub fn array_constructor(class: &str) -> (signature: String)
    ensures
        signature@ == array_constructor_signature(class@),
{
    let mut signature = "(JJIJIII[L".to_owned();
    signature.append(class);
    signature.append(";[B)V");
    signature
}

/// The signature of the constructor that takes one measurement of the class
/// `class`.
pub fn single_constructor(class: &str) -> (signature: String)
    ensures
        signature@ == single_constructor_signature(class@),
{
    let mut signature = "(JJIJIIIL".to_owned();
    signature.append(class);
    signature.append(";[B)V");
    signature
}

impl NotificationManagerAndroid {
    /// Closes a range data notification that began at `origin` and has
    /// allocated objects of the shapes `sofar` since: makes the record that
    /// carries the measurements and hands it to the callback.
    pub(crate) fn deliver_range_data(
        &mut self,
        header: RangeDataHeader,
        indicator: MacAddressIndicator,
        count: i32,
        measurements: usize,
        raw: usize,
        signature: String,
        Ghost(origin): Ghost<Self>,
        Ghost(sofar): Ghost<Seq<Shape>>,
    ) -> (r: Result<(), JniError>)
        requires
            old(self).wf(),
            origin.wf(),
            origin.stages(old(self), true, sofar),
        ensures
            final(self).wf(),
            origin.delivers(
                final(self),
                r,
                sofar + range_data_tail(
                    old(self).jclass_map.keys(),
                    signature@,
                    range_data_fields(header, indicator, count, measurements, raw),
                    old(self).env.objects().len(),
                ),
                keys_after(old(self).jclass_map.keys(), UWB_RANGING_DATA_CLASS@),
                RANGE_DATA_CALLBACK@,
                object_callback_signature(UWB_RANGING_DATA_CLASS@),
                seq![
                    ForeignValue::Object(
                        range_data_position(
                            old(self).jclass_map.keys(),
                            old(self).env.objects().len(),
                        ) as usize,
                    ),
                ],
            ),
    {
        let ghost keys = self.jclass_map.keys();
        let ghost base = self.env.objects().len();
        let ghost lookup = class_shapes(keys, UWB_RANGING_DATA_CLASS@, base);
        let ghost fields_spec = range_data_fields(header, indicator, count, measurements, raw);
        let ghost total = sofar + range_data_tail(keys, signature@, fields_spec, base);
        let class = self.find_class_next(UWB_RANGING_DATA_CLASS, Ghost(origin), Ghost(sofar))?;
        let fields = vec![
            ForeignValue::Long(header.sequence_number as i64),
            ForeignValue::Long(header.session_token as i64),
            ForeignValue::Int(header.rcr_indicator as i32),
            ForeignValue::Long(header.current_ranging_interval_ms as i64),
            ForeignValue::Int(header.ranging_measurement_type.to_code()),
            ForeignValue::Int(indicator.to_code()),
            ForeignValue::Int(count),
            ForeignValue::Object(measurements),
            ForeignValue::Object(raw),
        ];
        assert(fields@ =~= fields_spec);
        let record = ForeignObject::Instance { class, signature, fields };
        let position = self.put_object(record, Ghost(origin), Ghost(sofar + lookup))?;
        assert((sofar + lookup).push(Shape::Exactly(record@)) =~= total);
        let callback = object_callback(UWB_RANGING_DATA_CLASS);
        let args = vec![ForeignValue::Object(position)];
        assert(args@ =~= seq![ForeignValue::Object(range_data_position(keys, base) as usize)]);
        self.finish(RANGE_DATA_CALLBACK, callback.as_str(), args, Ghost(origin), Ghost(total))
    }
}

} // verus!
