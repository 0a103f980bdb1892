//! The five entrances of the manager. Each opens a scope, delivers one
//! notification in it, closes the scope and hands out what the host has to
//! do, or the one failure callers get to see.

use vstd::prelude::*;
use crate::arena::LocalFrame;
use crate::cache::{keys_after, kept, slot_after, HandleCache};
use crate::error::{JniError, UwbError};
use crate::foreign::{
    ForeignObject, ForeignObjectView, ForeignValue, Invocation, InvocationView,
    MAX_JAVA_OBJECTS_CAPACITY,
};
use crate::manager::NotificationManagerAndroid;
use crate::notification::{
    CoreNotification, DataRcvNotification, RadarDataRcvNotification, RawUciMessage,
    SessionNotification,
};
use crate::packets::{
    address_bytes, core_callback, core_code, data_rcv_rejection, data_received_args,
    vendor_rejection, CORE_SIGNATURE,
    DATA_RECEIVED_CALLBACK, DATA_RECEIVED_SIGNATURE, VENDOR_CALLBACK, VENDOR_SIGNATURE,
};
use crate::jclass_name::{UWB_RADAR_DATA_CLASS, UWB_RADAR_SWEEP_DATA_CLASS};
use crate::radar::{radar_rejection, radar_shapes, RADAR_DATA_CALLBACK};
use crate::range_data::object_callback_signature;
use crate::session::{
    session_args, session_callback, session_classes, session_rejection, session_shapes,
    session_signature,
};
use crate::shape::{fit_all, Shape};
use crate::signature::declared_arity;

verus! {

/// What the host has to do for one notification: allocate the objects, in
/// their order, and invoke the callback once.
#[derive(Debug)]
pub struct Delivery {
    pub objects: Vec<ForeignObject>,
    pub invocation: Invocation,
}

impl Delivery {
    /// The objects of the delivery, as mathematical values.
    pub open spec fn objects_view(&self) -> Seq<ForeignObjectView> {
        self.objects@.map_values(|o: ForeignObject| o@)
    }
}

/// Why a notification fails before the host sees anything of it, if it
/// does: it cannot be delivered at all; or it takes more objects than one
/// scope may hold; or the signature of its callback does not declare as many
/// arguments as the callback is given.
pub open spec fn failure(
    rejection: Option<JniError>,
    shapes: Seq<Shape>,
    signature: Seq<char>,
    args: Seq<ForeignValue>,
) -> Option<JniError> {
    match rejection {
        Some(e) => Some(e),
        None => if shapes.len() > MAX_JAVA_OBJECTS_CAPACITY {
            Some(JniError::CapacityExceeded)
        } else if declared_arity(signature) != Some(args.len()) {
            Some(JniError::EncodingContract)
        } else {
            None
        },
    }
}

/// The keys of a cache that the host has confirmed.
pub open spec fn settled_keys(cache: &HandleCache) -> Seq<Seq<char>> {
    cache.keys().take(cache.settled() as int)
}

/// What it takes to make the manager of one chip.
pub struct NotificationManagerAndroidBuilder {
    /// Name of the chip.
    pub chip_id: String,
    /// Whether the thread that will deliver the notifications is attached to
    /// the host.
    pub attached: bool,
}

impl NotificationManagerAndroidBuilder {
    /// Makes the manager, with empty caches and an empty scope, where the
    /// thread is attached to the host; else none.
    pub fn build(self) -> (manager: Option<NotificationManagerAndroid>)
        ensures
            manager is Some <==> self.attached,
            manager matches Some(m) ==> {
                &&& m.wf()
                &&& m.chip_id@ == self.chip_id@
                &&& m.last_error is None
                &&& m.idle()
                &&& m.jclass_map.keys() == Seq::<Seq<char>>::empty()
                &&& m.jmethod_id_map.keys() == Seq::<Seq<char>>::empty()
            },
    {
        if self.attached {
            Some(
                NotificationManagerAndroid {
                    chip_id: self.chip_id,
                    env: LocalFrame::new(MAX_JAVA_OBJECTS_CAPACITY),
                    jmethod_id_map: HandleCache::new(),
                    jclass_map: HandleCache::new(),
                    last_error: None,
                },
            )
        } else {
            None
        }
    }
}

impl NotificationManagerAndroid {
    /// Between two notifications the scope is empty and as large as a scope
    /// may be.
    pub open spec fn idle(&self) -> bool {
        &&& self.env.capacity() == MAX_JAVA_OBJECTS_CAPACITY
        &&& self.env.objects() == Seq::<ForeignObjectView>::empty()
        &&& self.env.calls() == Seq::<InvocationView>::empty()
    }

    /// What one entrance makes of `self`, for a notification that is
    /// delivered in objects of the given shapes and one invocation of the
    /// callback `name`, unless it is rejected. The scope is closed either
    /// way. A failure is recorded by its kind, collapsed for the caller, and
    /// leaves of both caches what the host had confirmed. A success hands
    /// out the objects and the invocation, and the caches hold the keys that
    /// were looked up.
    pub open spec fn concludes(
        &self,
        post: &Self,
        r: Result<Delivery, UwbError>,
        rejection: Option<JniError>,
        shapes: Seq<Shape>,
        classes: Seq<Seq<char>>,
        name: Seq<char>,
        signature: Seq<char>,
        args: Seq<ForeignValue>,
    ) -> bool {
        let methods = settled_keys(&self.jmethod_id_map);
        &&& post.chip_id@ == self.chip_id@
        &&& post.idle()
        &&& post.jclass_map.settled() == self.jclass_map.settled()
        &&& post.jmethod_id_map.settled() == self.jmethod_id_map.settled()
        &&& match failure(rejection, shapes, signature, args) {
            Some(kind) => {
                &&& r == Err::<Delivery, UwbError>(UwbError::ForeignFunctionInterface)
                &&& post.last_error == Some(kind)
                &&& post.jclass_map.keys() == settled_keys(&self.jclass_map)
                &&& post.jmethod_id_map.keys() == methods
            },
            None => {
                &&& r is Ok
                &&& post.last_error is None
                &&& fit_all(r->Ok_0.objects_view(), shapes)
                &&& r->Ok_0.invocation@ == InvocationView {
                    method: slot_after(methods, name + signature) as usize,
                    lookup: !methods.contains(name + signature),
                    name,
                    signature,
                    args,
                }
                &&& post.jclass_map.keys() == classes
                &&& post.jmethod_id_map.keys() == keys_after(methods, name + signature)
            },
        }
    }

    /// Opens the scope of a notification: an empty one of the full capacity.
    /// Keys that an earlier delivery left unconfirmed are forgotten first.
    pub fn open_scope(&mut self)
        requires
            old(self).wf(),
        ensures
            final(self).wf(),
            final(self).idle(),
            final(self).chip_id@ == old(self).chip_id@,
            final(self).last_error == old(self).last_error,
            final(self).jclass_map.keys() == settled_keys(&old(self).jclass_map),
            final(self).jclass_map.settled() == old(self).jclass_map.settled(),
            final(self).jmethod_id_map.keys() == settled_keys(&old(self).jmethod_id_map),
            final(self).jmethod_id_map.settled() == old(self).jmethod_id_map.settled(),
    {
        self.jclass_map.discard_unsettled();
        self.jmethod_id_map.discard_unsettled();
        self.env = LocalFrame::new(MAX_JAVA_OBJECTS_CAPACITY);
    }

    /// Closes the scope of a notification that was delivered with the
    /// outcome `outcome` since the scope was opened at `begun`.
    pub(crate) fn close_scope(
        &mut self,
        outcome: Result<(), JniError>,
        Ghost(begun): Ghost<Self>,
        Ghost(rejection): Ghost<Option<JniError>>,
        Ghost(shapes): Ghost<Seq<Shape>>,
        Ghost(classes): Ghost<Seq<Seq<char>>>,
        Ghost(name): Ghost<Seq<char>>,
        Ghost(signature): Ghost<Seq<char>>,
        Ghost(args): Ghost<Seq<ForeignValue>>,
    ) -> (r: Result<Delivery, UwbError>)
        requires
            old(self).wf(),
            begun.wf(),
            begun.idle(),
            begun.jclass_map.settled() == begun.jclass_map.keys().len(),
            begun.jmethod_id_map.settled() == begun.jmethod_id_map.keys().len(),
            rejection matches Some(e) ==> outcome == Err::<(), JniError>(e) && begun.unchanged(
                old(self),
            ),
            rejection is None ==> begun.delivers(
                old(self),
                outcome,
                shapes,
                classes,
                name,
                signature,
                args,
            ),
        ensures
            final(self).wf(),
            begun.concludes(final(self), r, rejection, shapes, classes, name, signature, args),
    {
        let mut frame = LocalFrame::new(MAX_JAVA_OBJECTS_CAPACITY);
        core::mem::swap(&mut self.env, &mut frame);
        let ghost held = frame;
        let (objects, mut calls) = frame.release();
        proof {
            let n = begun.jclass_map.keys().len() as int;
            assert(begun.jclass_map.keys().take(n) =~= begun.jclass_map.keys());
            let m = begun.jmethod_id_map.keys().len() as int;
            assert(begun.jmethod_id_map.keys().take(m) =~= begun.jmethod_id_map.keys());
            assert(held.objects().skip(0) =~= held.objects());
        }
        let ghost issued = calls@;
        match outcome {
            Ok(()) => {
                match calls.pop() {
                    Some(invocation) => {
                        proof {
                            assert(held.calls().len() == 1);
                            assert(issued.map_values(|c: Invocation| c@)[0] == issued[0]@);
                            assert(invocation@ == held.calls()[0]);
                        }
                        self.last_error = None;
                        Ok(Delivery { objects, invocation })
                    },
                    None => {
                        proof {
                            assert(held.calls().len() == 1);
                            assert(false);
                        }
                        Err(UwbError::ForeignFunctionInterface)
                    },
                }
            },
            Err(kind) => {
                self.jclass_map.discard_unsettled();
                self.jmethod_id_map.discard_unsettled();
                self.last_error = Some(kind);
                Err(kind.collapse())
            },
        }
    }

    /// After `open_scope` every key that is held is a confirmed one.
    pub proof fn lemma_opened(&self, begun: &Self)
        requires
            self.wf(),
            begun.jclass_map.keys() == settled_keys(&self.jclass_map),
            begun.jclass_map.settled() == self.jclass_map.settled(),
            begun.jmethod_id_map.keys() == settled_keys(&self.jmethod_id_map),
            begun.jmethod_id_map.settled() == self.jmethod_id_map.settled(),
        ensures
            begun.jclass_map.settled() == begun.jclass_map.keys().len(),
            begun.jmethod_id_map.settled() == begun.jmethod_id_map.keys().len(),
            settled_keys(&begun.jclass_map) == settled_keys(&self.jclass_map),
            settled_keys(&begun.jmethod_id_map) == settled_keys(&self.jmethod_id_map),
    {
        assert(settled_keys(&begun.jclass_map) =~= settled_keys(&self.jclass_map));
        assert(settled_keys(&begun.jmethod_id_map) =~= settled_keys(&self.jmethod_id_map));
    }

    /// Delivers a core notification in a scope of its own.
    pub fn on_core_notification(&mut self, core_notification: CoreNotification) -> (r: Result<
        Delivery,
        UwbError,
    >)
        requires
            old(self).wf(),
        ensures
            final(self).wf(),
            old(self).concludes(
                final(self),
                r,
                None,
                seq![Shape::Exactly(ForeignObjectView::Text(old(self).chip_id@))],
                settled_keys(&old(self).jclass_map),
                core_callback(core_notification),
                CORE_SIGNATURE@,
                seq![ForeignValue::Int(core_code(core_notification)), ForeignValue::Object(0)],
            ),
    {
        self.open_scope();
        let ghost begun = *self;
        proof {
            old(self).lemma_opened(&begun);
        }
        let ghost shapes = seq![Shape::Exactly(ForeignObjectView::Text(begun.chip_id@))];
        let ghost args = seq![
            ForeignValue::Int(core_code(core_notification)),
            ForeignValue::Object(0),
        ];
        let outcome = self.deliver_core_notification(core_notification);
        self.close_scope(
            outcome,
            Ghost(begun),
            Ghost(None),
            Ghost(shapes),
            Ghost(begun.jclass_map.keys()),
            Ghost(core_callback(core_notification)),
            Ghost(CORE_SIGNATURE@),
            Ghost(args),
        )
    }

    /// Delivers a session notification in a scope of its own. Exactly one
    /// callback is invoked where this succeeds, and none where it fails.
    pub fn on_session_notification(&mut self, session_notification: SessionNotification) -> (r:
        Result<Delivery, UwbError>)
        requires
            old(self).wf(),
        ensures
            final(self).wf(),
            old(self).concludes(
                final(self),
                r,
                session_rejection(session_notification),
                session_shapes(session_notification, settled_keys(&old(self).jclass_map), 0),
                session_classes(session_notification, settled_keys(&old(self).jclass_map)),
                session_callback(session_notification),
                session_signature(session_notification),
                session_args(session_notification, settled_keys(&old(self).jclass_map), 0),
            ),
    {
        self.open_scope();
        let ghost begun = *self;
        let ghost keys = begun.jclass_map.keys();
        proof {
            old(self).lemma_opened(&begun);
        }
        let outcome = self.deliver_session_notification(session_notification);
        self.close_scope(
            outcome,
            Ghost(begun),
            Ghost(session_rejection(session_notification)),
            Ghost(session_shapes(session_notification, keys, 0)),
            Ghost(session_classes(session_notification, keys)),
            Ghost(session_callback(session_notification)),
            Ghost(session_signature(session_notification)),
            Ghost(session_args(session_notification, keys, 0)),
        )
    }

    /// Delivers a vendor message in a scope of its own.
    pub fn on_vendor_notification(&mut self, vendor_notification: RawUciMessage) -> (r: Result<
        Delivery,
        UwbError,
    >)
        requires
            old(self).wf(),
        ensures
            final(self).wf(),
            old(self).concludes(
                final(self),
                r,
                vendor_rejection(vendor_notification),
                seq![Shape::Exactly(ForeignObjectView::ByteArray(vendor_notification.payload@))],
                settled_keys(&old(self).jclass_map),
                VENDOR_CALLBACK@,
                VENDOR_SIGNATURE@,
                seq![
                    ForeignValue::Int(vendor_notification.gid as i32),
                    ForeignValue::Int(vendor_notification.oid as i32),
                    ForeignValue::Object(0),
                ],
            ),
    {
        self.open_scope();
        let ghost begun = *self;
        proof {
            old(self).lemma_opened(&begun);
        }
        let ghost shapes = seq![
            Shape::Exactly(ForeignObjectView::ByteArray(vendor_notification.payload@)),
        ];
        let ghost args = seq![
            ForeignValue::Int(vendor_notification.gid as i32),
            ForeignValue::Int(vendor_notification.oid as i32),
            ForeignValue::Object(0),
        ];
        let outcome = self.deliver_vendor_notification(vendor_notification);
        self.close_scope(
            outcome,
            Ghost(begun),
            Ghost(vendor_rejection(vendor_notification)),
            Ghost(shapes),
            Ghost(begun.jclass_map.keys()),
            Ghost(VENDOR_CALLBACK@),
            Ghost(VENDOR_SIGNATURE@),
            Ghost(args),
        )
    }

    /// Delivers received data in a scope of its own.
    pub fn on_data_rcv_notification(&mut self, data_rcv_notification: DataRcvNotification) -> (r:
        Result<Delivery, UwbError>)
        requires
            old(self).wf(),
        ensures
            final(self).wf(),
            old(self).concludes(
                final(self),
                r,
                data_rcv_rejection(data_rcv_notification),
                seq![
                    Shape::Exactly(
                        ForeignObjectView::ByteArray(
                            address_bytes(data_rcv_notification.source_address),
                        ),
                    ),
                    Shape::Exactly(ForeignObjectView::ByteArray(data_rcv_notification.payload@)),
                ],
                settled_keys(&old(self).jclass_map),
                DATA_RECEIVED_CALLBACK@,
                DATA_RECEIVED_SIGNATURE@,
                data_received_args(data_rcv_notification, 0),
            ),
    {
        self.open_scope();
        let ghost begun = *self;
        proof {
            old(self).lemma_opened(&begun);
        }
        let ghost shapes = seq![
            Shape::Exactly(
                ForeignObjectView::ByteArray(address_bytes(data_rcv_notification.source_address)),
            ),
            Shape::Exactly(ForeignObjectView::ByteArray(data_rcv_notification.payload@)),
        ];
        let outcome = self.deliver_data_rcv_notification(data_rcv_notification);
        self.close_scope(
            outcome,
            Ghost(begun),
            Ghost(data_rcv_rejection(data_rcv_notification)),
            Ghost(shapes),
            Ghost(begun.jclass_map.keys()),
            Ghost(DATA_RECEIVED_CALLBACK@),
            Ghost(DATA_RECEIVED_SIGNATURE@),
            Ghost(data_received_args(data_rcv_notification, 0)),
        )
    }

    /// Delivers radar data in a scope of its own.
    pub fn on_radar_data_rcv_notification(
        &mut self,
        radar_data_rcv_notification: RadarDataRcvNotification,
    ) -> (r: Result<Delivery, UwbError>)
        requires
            old(self).wf(),
        ensures
            final(self).wf(),
            old(self).concludes(
                final(self),
                r,
                radar_rejection(radar_data_rcv_notification),
                radar_shapes(radar_data_rcv_notification, settled_keys(&old(self).jclass_map), 0),
                keys_after(
                    keys_after(settled_keys(&old(self).jclass_map), UWB_RADAR_SWEEP_DATA_CLASS@),
                    UWB_RADAR_DATA_CLASS@,
                ),
                RADAR_DATA_CALLBACK@,
                object_callback_signature(UWB_RADAR_DATA_CLASS@),
                seq![
                    ForeignValue::Object(
                        (radar_shapes(
                            radar_data_rcv_notification,
                            settled_keys(&old(self).jclass_map),
                            0,
                        ).len() - 1) as usize,
                    ),
                ],
            ),
    {
        self.open_scope();
        let ghost begun = *self;
        let ghost keys = begun.jclass_map.keys();
        proof {
            old(self).lemma_opened(&begun);
        }
        let ghost shapes = radar_shapes(radar_data_rcv_notification, keys, 0);
        let ghost args = seq![ForeignValue::Object((shapes.len() - 1) as usize)];
        let outcome = self.deliver_radar_data(radar_data_rcv_notification);
        self.close_scope(
            outcome,
            Ghost(begun),
            Ghost(radar_rejection(radar_data_rcv_notification)),
            Ghost(shapes),
            Ghost(
                keys_after(
                    keys_after(keys, UWB_RADAR_SWEEP_DATA_CLASS@),
                    UWB_RADAR_DATA_CLASS@,
                ),
            ),
            Ghost(RADAR_DATA_CALLBACK@),
            Ghost(object_callback_signature(UWB_RADAR_DATA_CLASS@)),
            Ghost(args),
        )
    }

    /// Takes in what the host made of the last delivery. Of the classes it
    /// had to find, the first `classes_resolved` were found; the method was
    /// found or not; and `failure` says why the host gave up, if it did.
    /// What was found is confirmed and stays. What was not is forgotten, so
    /// that a later notification looks it up again. A failure is recorded by
    /// its kind and collapsed for the caller.
    pub fn settle(
        &mut self,
        classes_resolved: usize,
        method_resolved: bool,
        failure: Option<JniError>,
    ) -> (r: Result<(), UwbError>)
        requires
            old(self).wf(),
        ensures
            final(self).wf(),
            final(self).chip_id@ == old(self).chip_id@,
            final(self).env.capacity() == old(self).env.capacity(),
            final(self).env.objects() == old(self).env.objects(),
            final(self).env.calls() == old(self).env.calls(),
            final(self).jclass_map.keys() == old(self).jclass_map.keys().take(
                kept(
                    old(self).jclass_map.keys().len(),
                    old(self).jclass_map.settled(),
                    classes_resolved as nat,
                ) as int,
            ),
            final(self).jclass_map.settled() == final(self).jclass_map.keys().len(),
            final(self).jmethod_id_map.keys() == old(self).jmethod_id_map.keys().take(
                kept(
                    old(self).jmethod_id_map.keys().len(),
                    old(self).jmethod_id_map.settled(),
                    if method_resolved {
                        1
                    } else {
                        0
                    },
                ) as int,
            ),
            final(self).jmethod_id_map.settled() == final(self).jmethod_id_map.keys().len(),
            failure matches Some(kind) ==> r == Err::<(), UwbError>(
                UwbError::ForeignFunctionInterface,
            ) && final(self).last_error == Some(kind),
            failure is None ==> r == Ok::<(), UwbError>(()) && final(self).last_error == old(
                self,
            ).last_error,
    {
        self.jclass_map.settle(classes_resolved);
        self.jmethod_id_map.settle(
            if method_resolved {
                1
            } else {
                0
            },
        );
        match failure {
            Some(kind) => {
                self.last_error = Some(kind);
                Err(kind.collapse())
            },
            None => Ok(()),
        }
    }
}

} // verus!
