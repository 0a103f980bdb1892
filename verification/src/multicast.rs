//! Updates of the multicast list on their way to the host.

use vstd::prelude::*;
use crate::cache::{keys_after, slot_after};
use crate::error::JniError;
use crate::foreign::{int_from_usize, ForeignObject, ForeignObjectView, ForeignValue};
use crate::jclass_name::MULTICAST_LIST_UPDATE_STATUS_CLASS;
use crate::manager::NotificationManagerAndroid;
use crate::notification::{ControleeStatusList, ControleeStatusV1, ControleeStatusV2};
use crate::range_data::{object_callback, object_callback_signature};
use crate::shape::{class_shapes, Shape};

verus! {

/// Name of the callback that receives updates of the multicast list.
pub const MULTICAST_CALLBACK: &'static str = "onMulticastListUpdateNotificationReceived";

/// Signature of the constructor of an update on the host.
pub const MULTICAST_UPDATE_SIGNATURE: &'static str = "(JII[B[J[I)V";

/// One controlee of an update, whichever form it came in: its address, its
/// sub-session (zero where the form has none) and its status.
pub struct Controlee {
    pub mac_address: Seq<u8>,
    pub subsession_id: i64,
    pub status: i32,
}

/// The controlees of an update, in the order in which they came.
pub open spec fn controlees(list: ControleeStatusList) -> Seq<Controlee> {
    match list {
        ControleeStatusList::V1(v) => v@.map_values(
            |c: ControleeStatusV1|
                Controlee {
                    mac_address: c.mac_address@,
                    subsession_id: c.subsession_id as i64,
                    status: c.status as i32,
                },
        ),
        ControleeStatusList::V2(v) => v@.map_values(
            |c: ControleeStatusV2|
                Controlee { mac_address: c.mac_address@, subsession_id: 0, status: c.status as i32 },
        ),
    }
}

/// The addresses of the controlees, two bytes each, one after the other.
pub open spec fn controlee_addresses(cs: Seq<Controlee>) -> Seq<u8> {
    Seq::new(2 * cs.len(), |k: int| cs[k / 2].mac_address[k % 2])
}

/// The sub-sessions of the controlees.
pub open spec fn controlee_subsessions(cs: Seq<Controlee>) -> Seq<i64> {
    cs.map_values(|c: Controlee| c.subsession_id)
}

/// The statuses of the controlees.
pub open spec fn controlee_statuses(cs: Seq<Controlee>) -> Seq<i32> {
    cs.map_values(|c: Controlee| c.status)
}

/// The three parallel arrays of an update.
pub struct ControleeArrays {
    pub addresses: Vec<u8>,
    pub subsessions: Vec<i64>,
    pub statuses: Vec<i32>,
}

/// Splits the controlees of an update into three parallel arrays.
pub fn split_controlees(list: &ControleeStatusList) -> (arrays: ControleeArrays)
    ensures
        arrays.addresses@ == controlee_addresses(controlees(*list)),
        arrays.subsessions@ == controlee_subsessions(controlees(*list)),
        arrays.statuses@ == controlee_statuses(controlees(*list)),
{
    let mut addresses: Vec<u8> = Vec::new();
    let mut subsessions: Vec<i64> = Vec::new();
    let mut statuses: Vec<i32> = Vec::new();
    let ghost cs = controlees(*list);
    match list {
        ControleeStatusList::V1(v) => {
            let mut i: usize = 0;
            while i < v.len()
                invariant
                    i <= v.len(),
                    cs == controlees(*list),
                    *list == ControleeStatusList::V1(*v),
                    addresses@ == controlee_addresses(cs.take(i as int)),
                    subsessions@ == controlee_subsessions(cs.take(i as int)),
                    statuses@ == controlee_statuses(cs.take(i as int)),
                decreases v.len() - i,
            {
                let c = &v[i];
                addresses.push(c.mac_address[0]);
                addresses.push(c.mac_address[1]);
                subsessions.push(c.subsession_id as i64);
                statuses.push(c.status as i32);
                i += 1;
                proof {
                    assert(cs.take(i as int).drop_last() =~= cs.take(i - 1));
                    assert(addresses@ =~= controlee_addresses(cs.take(i as int)));
                    assert(subsessions@ =~= controlee_subsessions(cs.take(i as int)));
                    assert(statuses@ =~= controlee_statuses(cs.take(i as int)));
                }
            }
            assert(cs.take(v.len() as int) =~= cs);
        },
        ControleeStatusList::V2(v) => {
            let mut i: usize = 0;
            while i < v.len()
                invariant
                    i <= v.len(),
                    cs == controlees(*list),
                    *list == ControleeStatusList::V2(*v),
                    addresses@ == controlee_addresses(cs.take(i as int)),
                    subsessions@ == controlee_subsessions(cs.take(i as int)),
                    statuses@ == controlee_statuses(cs.take(i as int)),
                decreases v.len() - i,
            {
                let c = &v[i];
                addresses.push(c.mac_address[0]);
                addresses.push(c.mac_address[1]);
                subsessions.push(0);
                statuses.push(c.status as i32);
                i += 1;
                proof {
                    assert(cs.take(i as int).drop_last() =~= cs.take(i - 1));
                    assert(addresses@ =~= controlee_addresses(cs.take(i as int)));
                    assert(subsessions@ =~= controlee_subsessions(cs.take(i as int)));
                    assert(statuses@ =~= controlee_statuses(cs.take(i as int)));
                }
            }
            assert(cs.take(v.len() as int) =~= cs);
        },
    }
    proof {
        assert(addresses@ =~= controlee_addresses(cs));
    }
    ControleeArrays { addresses, subsessions, statuses }
}

/// Why an update of the multicast list cannot be delivered, if it cannot: the
/// number of controlees that remain, or the number of bytes that the
/// addresses of those it holds take, two each, does not fit 32 signed bits.
pub open spec fn multicast_rejection(
    remaining_multicast_list_size: usize,
    status_list: ControleeStatusList,
) -> Option<JniError> {
    if remaining_multicast_list_size > i32::MAX || 2 * controlees(status_list).len() > i32::MAX {
        Some(JniError::EncodingContract)
    } else {
        None
    }
}

/// The constructor arguments of an update whose three arrays are the objects
/// at `base` and behind it.
pub open spec fn multicast_fields(
    session_id: u32,
    remaining_multicast_list_size: usize,
    count: nat,
    base: nat,
) -> Seq<ForeignValue> {
    seq![
        ForeignValue::Long(session_id as i64),
        ForeignValue::Int(remaining_multicast_list_size as i32),
        ForeignValue::Int(count as i32),
        ForeignValue::Object((base + 2) as usize),
        ForeignValue::Object(base as usize),
        ForeignValue::Object((base + 1) as usize),
    ]
}

/// The objects of an update of the multicast list, the first of them at
/// position `base`, given the keys the class cache holds: the sub-sessions,
/// the statuses and the addresses of the controlees, each in an array of its
/// own; the class of the update; the update.
pub open spec fn multicast_shapes(
    session_id: u32,
    remaining_multicast_list_size: usize,
    status_list: ControleeStatusList,
    keys: Seq<Seq<char>>,
    base: nat,
) -> Seq<Shape> {
    let cs = controlees(status_list);
    seq![
        Shape::Exactly(ForeignObjectView::LongArray(controlee_subsessions(cs))),
        Shape::Exactly(ForeignObjectView::IntArray(controlee_statuses(cs))),
        Shape::Exactly(ForeignObjectView::ByteArray(controlee_addresses(cs))),
    ] + class_shapes(keys, MULTICAST_LIST_UPDATE_STATUS_CLASS@, base + 3).push(
        Shape::Exactly(
            ForeignObjectView::Instance {
                class: slot_after(keys, MULTICAST_LIST_UPDATE_STATUS_CLASS@) as usize,
                signature: MULTICAST_UPDATE_SIGNATURE@,
                fields: multicast_fields(session_id, remaining_multicast_list_size, cs.len(), base),
            },
        ),
    )
}

impl NotificationManagerAndroid {
    /// Delivers an update of the multicast list: three parallel arrays of as
    /// many elements as the update has controlees, one record made of them,
    /// one callback. An update whose counts, or the length of whose arrays,
    /// do not fit 32 signed bits is refused before anything is allocated; any
    /// other is given up where the scope has no room for its objects.
    pub fn on_session_update_multicast_notification(
        &mut self,
        session_id: u32,
        remaining_multicast_list_size: usize,
        status_list: ControleeStatusList,
    ) -> (r: Result<(), JniError>)
        requires
            old(self).wf(),
        ensures
            final(self).wf(),
            multicast_rejection(remaining_multicast_list_size, status_list) matches Some(e) ==> r
                == Err::<(), JniError>(e) && old(self).unchanged(final(self)),
            multicast_rejection(remaining_multicast_list_size, status_list) is None ==> old(
                self,
            ).delivers(
                final(self),
                r,
                multicast_shapes(
                    session_id,
                    remaining_multicast_list_size,
                    status_list,
                    old(self).jclass_map.keys(),
                    old(self).env.objects().len(),
                ),
                keys_after(old(self).jclass_map.keys(), MULTICAST_LIST_UPDATE_STATUS_CLASS@),
                MULTICAST_CALLBACK@,
                object_callback_signature(MULTICAST_LIST_UPDATE_STATUS_CLASS@),
                seq![
                    ForeignValue::Object(
                        (old(self).env.objects().len() + multicast_shapes(
                            session_id,
                            remaining_multicast_list_size,
                            status_list,
                            old(self).jclass_map.keys(),
                            old(self).env.objects().len(),
                        ).len() - 1) as usize,
                    ),
                ],
            ),
    {
        let ghost origin = *self;
        let ghost keys = self.jclass_map.keys();
        let ghost base = self.env.objects().len();
        let ghost cs = controlees(status_list);
        let ghost total = multicast_shapes(
            session_id,
            remaining_multicast_list_size,
            status_list,
            keys,
            base,
        );
        let remaining = int_from_usize(remaining_multicast_list_size)?;
        let len = match &status_list {
            ControleeStatusList::V1(v) => v.len(),
            ControleeStatusList::V2(v) => v.len(),
        };
        let count = int_from_usize(len)?;
        if len > 0x3fff_ffff {
            return Err(JniError::EncodingContract);
        }
        let arrays = split_controlees(&status_list);
        proof {
            origin.lemma_stages_nothing();
        }
        let subsessions = self.put_object(
            ForeignObject::LongArray(arrays.subsessions),
            Ghost(origin),
            Ghost(Seq::empty()),
        )?;
        let ghost s1 = Seq::<Shape>::empty().push(
            Shape::Exactly(ForeignObjectView::LongArray(controlee_subsessions(cs))),
        );
        let statuses = self.put_object(
            ForeignObject::IntArray(arrays.statuses),
            Ghost(origin),
            Ghost(s1),
        )?;
        let ghost s2 = s1.push(Shape::Exactly(ForeignObjectView::IntArray(controlee_statuses(cs))));
        let addresses = self.put_object(
            ForeignObject::ByteArray(arrays.addresses),
            Ghost(origin),
            Ghost(s2),
        )?;
        let ghost s3 = s2.push(
            Shape::Exactly(ForeignObjectView::ByteArray(controlee_addresses(cs))),
        );
        let class = self.find_class_next(
            MULTICAST_LIST_UPDATE_STATUS_CLASS,
            Ghost(origin),
            Ghost(s3),
        )?;
        let ghost s4 = s3 + class_shapes(keys, MULTICAST_LIST_UPDATE_STATUS_CLASS@, base + 3);
        let fields = vec![
            ForeignValue::Long(session_id as i64),
            ForeignValue::Int(remaining),
            ForeignValue::Int(count),
            ForeignValue::Object(addresses),
            ForeignValue::Object(subsessions),
            ForeignValue::Object(statuses),
        ];
        assert(fields@ =~= multicast_fields(
            session_id,
            remaining_multicast_list_size,
            cs.len(),
            base,
        ));
        let record = ForeignObject::Instance {
            class,
            signature: MULTICAST_UPDATE_SIGNATURE.to_owned(),
            fields,
        };
        let position = self.put_object(record, Ghost(origin), Ghost(s4))?;
        assert(s4.push(Shape::Exactly(record@)) =~= total);
        let callback = object_callback(MULTICAST_LIST_UPDATE_STATUS_CLASS);
        let args = vec![ForeignValue::Object(position)];
        assert(args@ =~= seq![ForeignValue::Object((base + total.len() - 1) as usize)]);
        self.finish(MULTICAST_CALLBACK, callback.as_str(), args, Ghost(origin), Ghost(total))
    }
}

} // verus!
