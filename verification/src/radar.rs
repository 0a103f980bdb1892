//! Radar data on its way to the host.

use vstd::prelude::*;
use vstd::string::StringExecFns;
use crate::arena::LocalFrame;
use crate::cache::{keys_after, slot_after};
use crate::error::JniError;
use crate::foreign::{
    fits_int, int_from_usize, ForeignObject, ForeignObjectView, ForeignValue,
};
use crate::jclass_name::{UWB_RADAR_DATA_CLASS, UWB_RADAR_SWEEP_DATA_CLASS};
use crate::manager::NotificationManagerAndroid;
use crate::notification::{
    radar_bytes_per_sample_value, RadarDataRcvNotification, RadarSweepData,
    MAX_RADAR_VENDOR_DATA_LEN,
};
use crate::range_data::{object_callback, object_callback_signature};
use crate::shape::{
    allots, class_shapes, lemma_allots_chain, lemma_allots_nothing, put_next, Shape,
};

verus! {

/// Name of the callback that receives radar data.
pub const RADAR_DATA_CALLBACK: &'static str = "onRadarDataMessageReceived";

/// Signature of the constructor of a sweep on the host.
pub const RADAR_SWEEP_SIGNATURE: &'static str = "(JJ[B[B)V";

/// Signature of the constructor of the record that carries the sweeps.
pub open spec fn radar_data_signature() -> Seq<char> {
    "(JIIIII[L"@ + UWB_RADAR_SWEEP_DATA_CLASS@ + ";)V"@
}

/// The constructor arguments of a sweep whose vendor data and samples are
/// the objects at the given positions.
pub open spec fn sweep_fields(sweep: RadarSweepData, vendor: usize, sample: usize) -> Seq<
    ForeignValue,
> {
    seq![
        ForeignValue::Long(sweep.sequence_number as i64),
        ForeignValue::Long(sweep.timestamp as i64),
        ForeignValue::Object(vendor),
        ForeignValue::Object(sample),
    ]
}

/// The three objects of one sweep whose first is at position `base`: its
/// vendor data and its samples, each as long as the data is, and the sweep
/// made of them.
pub open spec fn sweep_record_shapes(sweep: RadarSweepData, class: usize, base: nat) -> Seq<Shape> {
    seq![
        Shape::Exactly(ForeignObjectView::ByteArray(sweep.vendor_specific_data@)),
        Shape::Exactly(ForeignObjectView::ByteArray(sweep.sample_data@)),
        Shape::Exactly(
            ForeignObjectView::Instance {
                class,
                signature: RADAR_SWEEP_SIGNATURE@,
                fields: sweep_fields(sweep, base as usize, (base + 1) as usize),
            },
        ),
    ]
}

/// The objects of a list of sweeps whose first is at position `base`, three
/// for each, in the order of the list.
pub open spec fn sweep_list_shapes(sweeps: Seq<RadarSweepData>, class: usize, base: nat) -> Seq<
    Shape,
>
    decreases sweeps.len(),
{
    if sweeps.len() == 0 {
        Seq::empty()
    } else {
        sweep_list_shapes(sweeps.drop_last(), class, base) + sweep_record_shapes(
            sweeps.last(),
            class,
            base + 3 * (sweeps.len() - 1) as nat,
        )
    }
}

/// The positions of the sweeps among the objects of a list of `count` of
/// them whose first object is at position `base`.
pub open spec fn sweep_elements(count: nat, base: nat) -> Seq<usize> {
    Seq::new(count, |i: int| (base + 3 * i + 2) as usize)
}

/// A list of sweeps takes three objects for each of them.
pub proof fn lemma_sweep_list_len(sweeps: Seq<RadarSweepData>, class: usize, base: nat)
    ensures
        sweep_list_shapes(sweeps, class, base).len() == 3 * sweeps.len(),
    decreases sweeps.len(),
{
    if sweeps.len() > 0 {
        lemma_sweep_list_len(sweeps.drop_last(), class, base);
    }
}

/// The most bytes the samples of one sweep take.
pub open spec fn max_sample_data_len(notification: RadarDataRcvNotification) -> i32 {
    (notification.bits_per_sample.bytes() * notification.samples_per_sweep) as i32
}

/// The constructor arguments of the record that carries the sweeps, which
/// are the array at the given position.
pub open spec fn radar_data_fields(notification: RadarDataRcvNotification, sweeps: usize) -> Seq<
    ForeignValue,
> {
    seq![
        ForeignValue::Long(notification.session_token as i64),
        ForeignValue::Int(notification.status as i32),
        ForeignValue::Int(notification.radar_data_type as i32),
        ForeignValue::Int(notification.samples_per_sweep as i32),
        ForeignValue::Int(notification.bits_per_sample.code()),
        ForeignValue::Int(notification.sweep_offset as i32),
        ForeignValue::Object(sweeps),
    ]
}

/// Whether the length of both buffers of every sweep fits 32 signed bits.
pub open spec fn sweep_buffers_fit(sweeps: Seq<RadarSweepData>) -> bool {
    forall|i: int|
        0 <= i < sweeps.len() ==> (#[trigger] sweeps[i]).vendor_specific_data@.len() <= i32::MAX
            && sweeps[i].sample_data@.len() <= i32::MAX
}

/// Tells whether the length of both buffers of every sweep fits 32 signed
/// bits.
pub fn check_sweep_buffers(sweeps: &Vec<RadarSweepData>) -> (fit: bool)
    ensures
        fit == sweep_buffers_fit(sweeps@),
{
    let mut i: usize = 0;
    while i < sweeps.len()
        invariant
            i <= sweeps.len(),
            sweep_buffers_fit(sweeps@.take(i as int)),
        decreases sweeps.len() - i,
    {
        if !fits_int(sweeps[i].vendor_specific_data.len()) || !fits_int(
            sweeps[i].sample_data.len(),
        ) {
            return false;
        }
        i += 1;
    }
    assert(sweeps@.take(sweeps.len() as int) =~= sweeps@);
    true
}

/// Why a radar data notification cannot be delivered, if it cannot: the
/// number of its sweeps, or of the bytes of a buffer of one of its sweeps,
/// does not fit 32 signed bits.
pub open spec fn radar_rejection(notification: RadarDataRcvNotification) -> Option<JniError> {
    if notification.sweep_data@.len() > i32::MAX || !sweep_buffers_fit(notification.sweep_data@) {
        Some(JniError::EncodingContract)
    } else {
        None
    }
}

/// The objects of an array of sweeps, the first of them at position `base`,
/// given the keys the class cache holds: the class of the sweeps; two empty
/// buffers of the greatest size and the sweep made of them, which fills the
/// array at first; the sweeps; their array.
pub open spec fn sweeps_array_shapes(
    max_sample_len: i32,
    count: i32,
    sweeps: Seq<RadarSweepData>,
    keys: Seq<Seq<char>>,
    base: nat,
) -> Seq<Shape> {
    let lookup = class_shapes(keys, UWB_RADAR_SWEEP_DATA_CLASS@, base);
    let class = slot_after(keys, UWB_RADAR_SWEEP_DATA_CLASS@) as usize;
    let filler_at = base + lookup.len();
    let list_at = filler_at + 3;
    lookup + seq![
        Shape::Exactly(ForeignObjectView::ZeroedByteArray(max_sample_len)),
        Shape::Exactly(ForeignObjectView::ZeroedByteArray(MAX_RADAR_VENDOR_DATA_LEN)),
        Shape::Exactly(
            ForeignObjectView::Instance {
                class,
                signature: RADAR_SWEEP_SIGNATURE@,
                fields: seq![
                    ForeignValue::Long(0),
                    ForeignValue::Long(0),
                    ForeignValue::Object((filler_at + 1) as usize),
                    ForeignValue::Object(filler_at as usize),
                ],
            },
        ),
    ] + sweep_list_shapes(sweeps, class, list_at) + seq![
        Shape::Exactly(
            ForeignObjectView::InstanceArray {
                class,
                length: count,
                fill: (filler_at + 2) as usize,
                elements: sweep_elements(sweeps.len(), list_at),
            },
        ),
    ]
}

/// An array of sweeps takes an object for itself, three that fill it at
/// first, three for each sweep, and what finding the class takes.
pub proof fn lemma_sweeps_array_len(
    max_sample_len: i32,
    count: i32,
    sweeps: Seq<RadarSweepData>,
    keys: Seq<Seq<char>>,
    base: nat,
)
    ensures
        sweeps_array_shapes(max_sample_len, count, sweeps, keys, base).len() == class_shapes(
            keys,
            UWB_RADAR_SWEEP_DATA_CLASS@,
            base,
        ).len() + 4 + 3 * sweeps.len(),
{
    let lookup = class_shapes(keys, UWB_RADAR_SWEEP_DATA_CLASS@, base);
    lemma_sweep_list_len(
        sweeps,
        slot_after(keys, UWB_RADAR_SWEEP_DATA_CLASS@) as usize,
        base + lookup.len() + 3,
    );
}

/// The objects of a radar data notification, the first of them at position
/// `base`, given the keys the class cache holds: the array of the sweeps
/// with all that it takes; the class of the record and the record.
pub open spec fn radar_shapes(
    notification: RadarDataRcvNotification,
    keys: Seq<Seq<char>>,
    base: nat,
) -> Seq<Shape> {
    let sweeps = notification.sweep_data@;
    let array = sweeps_array_shapes(
        max_sample_data_len(notification),
        sweeps.len() as i32,
        sweeps,
        keys,
        base,
    );
    let keys1 = keys_after(keys, UWB_RADAR_SWEEP_DATA_CLASS@);
    let array_at = base + array.len() - 1;
    array + class_shapes(keys1, UWB_RADAR_DATA_CLASS@, (array_at + 1) as nat).push(
        Shape::Exactly(
            ForeignObjectView::Instance {
                class: slot_after(keys1, UWB_RADAR_DATA_CLASS@) as usize,
                signature: radar_data_signature(),
                fields: radar_data_fields(notification, array_at as usize),
            },
        ),
    )
}

/// Allocates one sweep: its two buffers with the bytes they hold and no
/// more, and the sweep itself.
pub fn encode_sweep(env: &mut LocalFrame, class: usize, sweep: RadarSweepData) -> (r: Result<
    usize,
    JniError,
>)
    requires
        old(env).wf(),
    ensures
        final(env).wf(),
        allots(old(env), final(env), r is Ok, sweep_record_shapes(sweep, class, old(env).objects().len())),
        r is Ok ==> r->Ok_0 == old(env).objects().len() + 2,
        r is Err ==> r->Err_0 == JniError::CapacityExceeded,
{
    let ghost shapes = sweep_record_shapes(sweep, class, old(env).objects().len());
    let ghost origin = *env;
    proof {
        lemma_allots_nothing(&origin);
    }
    let sequence_number = sweep.sequence_number;
    let timestamp = sweep.timestamp;
    let vendor = put_next(
        env,
        ForeignObject::ByteArray(sweep.vendor_specific_data),
        Ghost(origin),
        Ghost(Seq::empty()),
    )?;
    assert(Seq::<Shape>::empty().push(shapes[0]) =~= shapes.take(1));
    let sample = put_next(
        env,
        ForeignObject::ByteArray(sweep.sample_data),
        Ghost(origin),
        Ghost(shapes.take(1)),
    )?;
    let fields = vec![
        ForeignValue::Long(sequence_number as i64),
        ForeignValue::Long(timestamp as i64),
        ForeignValue::Object(vendor),
        ForeignValue::Object(sample),
    ];
    assert(fields@ =~= sweep_fields(sweep, vendor, sample));
    let record = ForeignObject::Instance {
        class,
        signature: RADAR_SWEEP_SIGNATURE.to_owned(),
        fields,
    };
    let made = put_next(env, record, Ghost(origin), Ghost(shapes.take(2)));
    assert(shapes.take(2).push(Shape::Exactly(record@)) =~= shapes);
    made
}

/// Allocates the sweeps of a list, one after the other, and returns where
/// each of them stands.
pub fn encode_sweep_list(env: &mut LocalFrame, class: usize, sweeps: Vec<RadarSweepData>) -> (r:
    Result<Vec<usize>, JniError>)
    requires
        old(env).wf(),
    ensures
        final(env).wf(),
        allots(
            old(env),
            final(env),
            r is Ok,
            sweep_list_shapes(sweeps@, class, old(env).objects().len()),
        ),
        r is Ok ==> r->Ok_0@ == sweep_elements(sweeps@.len(), old(env).objects().len()),
        r is Err ==> r->Err_0 == JniError::CapacityExceeded,
{
    let ghost origin = *env;
    let ghost base = origin.objects().len();
    let mut elements: Vec<usize> = Vec::new();
    proof {
        lemma_allots_nothing(&origin);
        assert(sweeps@.take(0) =~= Seq::<RadarSweepData>::empty());
        assert(elements@ =~= sweep_elements(0, base));
    }
    for sweep in iter: sweeps.into_iter()
        invariant
            iter.seq() == sweeps@,
            env.wf(),
            origin.wf(),
            origin == *old(env),
            base == origin.objects().len(),
            allots(&origin, env, true, sweep_list_shapes(sweeps@.take(iter.index() as int), class, base)),
            elements@ == sweep_elements(iter.index() as nat, base),
    {
        let ghost i = iter.index() as int;
        let ghost before = *env;
        let ghost done = sweep_list_shapes(sweeps@.take(i), class, base);
        proof {
            assert(0 <= i < sweeps@.len());
            assert(sweeps@.take(i + 1).len() == i + 1);
            lemma_sweep_list_len(sweeps@.take(i), class, base);
            lemma_sweep_list_len(sweeps@.take(i + 1), class, base);
            lemma_sweep_list_len(sweeps@, class, base);
            assert(before.objects().skip(base as int).len() == done.len());
            assert(sweeps@.take(i + 1).drop_last() =~= sweeps@.take(i));
            assert(sweeps@.take(i + 1).last() == sweep);
        }
        let made = encode_sweep(env, class, sweep);
        proof {
            lemma_allots_chain(
                &origin,
                &before,
                env,
                true,
                done,
                made is Ok,
                sweep_record_shapes(sweep, class, before.objects().len()),
            );
        }
        match made {
            Ok(position) => {
                elements.push(position);
                assert(elements@ =~= sweep_elements((i + 1) as nat, base));
            },
            Err(e) => {
                assert(sweep_list_shapes(sweeps@.take(i + 1), class, base).len()
                    <= sweep_list_shapes(sweeps@, class, base).len());
                return Err(e);
            },
        }
    }
    assert(sweeps@.take(sweeps@.len() as int) =~= sweeps@);
    Ok(elements)
}

/// The signature of the constructor of the record that carries the sweeps.
pub fn radar_data_constructor() -> (signature: String)
    ensures
        signature@ == radar_data_signature(),
{
    let mut signature = "(JIIIII[L".to_owned();
    signature.append(UWB_RADAR_SWEEP_DATA_CLASS);
    signature.append(";)V");
    signature
}

impl NotificationManagerAndroid {
    /// Delivers radar data: every sweep with buffers as long as its data,
    /// all of them in one array, the array in one record, the record in one
    /// callback. A notification with more sweeps, or more bytes in one
    /// buffer, than 32 signed bits can say is refused before anything is
    /// allocated; any other is given up where the scope has no room for its
    /// objects.
    pub fn deliver_radar_data(&mut self, notification: RadarDataRcvNotification) -> (r: Result<
        (),
        JniError,
    >)
        requires
            old(self).wf(),
        ensures
            final(self).wf(),
            radar_rejection(notification) matches Some(e) ==> r == Err::<(), JniError>(e) && old(
                self,
            ).unchanged(final(self)),
            radar_rejection(notification) is None ==> old(self).delivers(
                final(self),
                r,
                radar_shapes(
                    notification,
                    old(self).jclass_map.keys(),
                    old(self).env.objects().len(),
                ),
                keys_after(
                    keys_after(old(self).jclass_map.keys(), UWB_RADAR_SWEEP_DATA_CLASS@),
                    UWB_RADAR_DATA_CLASS@,
                ),
                RADAR_DATA_CALLBACK@,
                object_callback_signature(UWB_RADAR_DATA_CLASS@),
                seq![
                    ForeignValue::Object(
                        (old(self).env.objects().len() + radar_shapes(
                            notification,
                            old(self).jclass_map.keys(),
                            old(self).env.objects().len(),
                        ).len() - 1) as usize,
                    ),
                ],
            ),
    {
        let ghost origin = *self;
        let ghost keys = self.jclass_map.keys();
        let ghost base = self.env.objects().len();
        let ghost total = radar_shapes(notification, keys, base);
        let ghost sweeps = notification.sweep_data@;
        let count = int_from_usize(notification.sweep_data.len())?;
        if !check_sweep_buffers(&notification.sweep_data) {
            return Err(JniError::EncodingContract);
        }
        let session_token = notification.session_token;
        let status = notification.status;
        let radar_data_type = notification.radar_data_type;
        let samples_per_sweep = notification.samples_per_sweep;
        let bits_per_sample = notification.bits_per_sample;
        let sweep_offset = notification.sweep_offset;
        let bytes_per_sample = radar_bytes_per_sample_value(bits_per_sample);
        assert(bytes_per_sample * samples_per_sweep <= 8 * 255) by (nonlinear_arith)
            requires
                bytes_per_sample <= 8,
                samples_per_sweep <= 255,
        ;
        let max_sample_data_length: i32 = (bytes_per_sample as i32) * (samples_per_sweep as i32);
        let ghost made = sweeps_array_shapes(max_sample_data_length, count, sweeps, keys, base);
        let array = self.encode_sweeps_array(
            max_sample_data_length,
            count,
            notification.sweep_data,
        )?;
        let ghost keys1 = self.jclass_map.keys();
        let data_class = self.find_class_next(UWB_RADAR_DATA_CLASS, Ghost(origin), Ghost(made))?;
        let ghost s1 = made + class_shapes(keys1, UWB_RADAR_DATA_CLASS@, (array + 1) as nat);
        let fields = vec![
            ForeignValue::Long(session_token as i64),
            ForeignValue::Int(status as i32),
            ForeignValue::Int(radar_data_type as i32),
            ForeignValue::Int(samples_per_sweep as i32),
            ForeignValue::Int(bits_per_sample.to_code()),
            ForeignValue::Int(sweep_offset as i32),
            ForeignValue::Object(array),
        ];
        assert(fields@ =~= radar_data_fields(notification, array));
        let record = ForeignObject::Instance {
            class: data_class,
            signature: radar_data_constructor(),
            fields,
        };
        let position = self.put_object(record, Ghost(origin), Ghost(s1))?;
        assert(s1.push(Shape::Exactly(record@)) =~= total);
        let callback = object_callback(UWB_RADAR_DATA_CLASS);
        let args = vec![ForeignValue::Object(position)];
        assert(args@ =~= seq![ForeignValue::Object((base + total.len() - 1) as usize)]);
        self.finish(RADAR_DATA_CALLBACK, callback.as_str(), args, Ghost(origin), Ghost(total))
    }

    /// Allocates an array of sweeps and returns where it stands: an array
    /// of `count` elements, filled at first with a sweep of zeros whose
    /// sample buffer has `max_sample_len` bytes, its leading elements then
    /// set to `sweeps`.
    pub fn encode_sweeps_array(
        &mut self,
        max_sample_len: i32,
        count: i32,
        sweeps: Vec<RadarSweepData>,
    ) -> (r: Result<usize, JniError>)
        requires
            old(self).wf(),
        ensures
            final(self).wf(),
            old(self).stages(
                final(self),
                r is Ok,
                sweeps_array_shapes(
                    max_sample_len,
                    count,
                    sweeps@,
                    old(self).jclass_map.keys(),
                    old(self).env.objects().len(),
                ),
            ),
            r is Ok ==> {
                &&& r->Ok_0 == old(self).env.objects().len() + sweeps_array_shapes(
                    max_sample_len,
                    count,
                    sweeps@,
                    old(self).jclass_map.keys(),
                    old(self).env.objects().len(),
                ).len() - 1
                &&& final(self).jclass_map.keys() == keys_after(
                    old(self).jclass_map.keys(),
                    UWB_RADAR_SWEEP_DATA_CLASS@,
                )
            },
            r is Err ==> r->Err_0 == JniError::CapacityExceeded,
    {
        let ghost origin = *self;
        let ghost keys = self.jclass_map.keys();
        let ghost base = self.env.objects().len();
        let ghost total = sweeps_array_shapes(max_sample_len, count, sweeps@, keys, base);
        proof {
            origin.lemma_stages_nothing();
        }
        let class = self.find_class_next(
            UWB_RADAR_SWEEP_DATA_CLASS,
            Ghost(origin),
            Ghost(Seq::empty()),
        )?;
        let ghost s1 = Seq::<Shape>::empty() + class_shapes(keys, UWB_RADAR_SWEEP_DATA_CLASS@, base);
        let sample = self.put_object(
            ForeignObject::ZeroedByteArray(max_sample_len),
            Ghost(origin),
            Ghost(s1),
        )?;
        let ghost s2 = s1.push(Shape::Exactly(ForeignObjectView::ZeroedByteArray(max_sample_len)));
        let vendor = self.put_object(
            ForeignObject::ZeroedByteArray(MAX_RADAR_VENDOR_DATA_LEN),
            Ghost(origin),
            Ghost(s2),
        )?;
        let ghost s3 = s2.push(
            Shape::Exactly(ForeignObjectView::ZeroedByteArray(MAX_RADAR_VENDOR_DATA_LEN)),
        );
        let filler = ForeignObject::Instance {
            class,
            signature: RADAR_SWEEP_SIGNATURE.to_owned(),
            fields: vec![
                ForeignValue::Long(0),
                ForeignValue::Long(0),
                ForeignValue::Object(vendor),
                ForeignValue::Object(sample),
            ],
        };
        let fill = self.put_object(filler, Ghost(origin), Ghost(s3))?;
        let ghost s4 = s3.push(Shape::Exactly(filler@));
        let ghost before = *self;
        let ghost list_at = self.env.objects().len();
        let ghost list = sweep_list_shapes(sweeps@, class, list_at);
        let encoded = encode_sweep_list(&mut self.env, class, sweeps);
        proof {
            lemma_allots_chain(&origin.env, &before.env, &self.env, true, s4, encoded is Ok, list);
        }
        let elements = encoded?;
        let array = ForeignObject::InstanceArray { class, length: count, fill, elements };
        let made = self.put_object(array, Ghost(origin), Ghost(s4 + list));
        assert((s4 + list).push(Shape::Exactly(array@)) =~= total);
        made
    }
}

} // verus!
