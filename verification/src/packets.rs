//! Core notifications, vendor messages and received data on their way to the
//! host: a buffer or two, and one callback.

use vstd::prelude::*;
use crate::error::JniError;
use crate::foreign::{
    fits_int, int_from_u32_checked, ForeignObject, ForeignObjectView, ForeignValue,
};
use crate::mac_address::bytes_of;
use crate::manager::NotificationManagerAndroid;
use crate::notification::{CoreNotification, DataRcvNotification, RawUciMessage, UwbAddress};
use crate::shape::Shape;

verus! {

/// Name of the callback that receives the state of the device.
pub const DEVICE_STATUS_CALLBACK: &'static str = "onDeviceStatusNotificationReceived";

/// Name of the callback that receives errors outside any session.
pub const GENERIC_ERROR_CALLBACK: &'static str = "onCoreGenericErrorNotificationReceived";

/// Signature of both callbacks for core notifications.
pub const CORE_SIGNATURE: &'static str = "(ILjava/lang/String;)V";

/// Name of the callback that receives vendor messages.
pub const VENDOR_CALLBACK: &'static str = "onVendorUciNotificationReceived";

/// Signature of the callback for vendor messages.
pub const VENDOR_SIGNATURE: &'static str = "(II[B)V";

/// Name of the callback that receives data.
pub const DATA_RECEIVED_CALLBACK: &'static str = "onDataReceived";

/// Signature of the callback for received data.
pub const DATA_RECEIVED_SIGNATURE: &'static str = "(JIJ[B[B)V";

/// The callback that a core notification goes to.
pub open spec fn core_callback(notification: CoreNotification) -> Seq<char> {
    match notification {
        CoreNotification::DeviceStatus(_) => DEVICE_STATUS_CALLBACK@,
        CoreNotification::GenericError(_) => GENERIC_ERROR_CALLBACK@,
    }
}

/// The number a core notification carries.
pub open spec fn core_code(notification: CoreNotification) -> i32 {
    match notification {
        CoreNotification::DeviceStatus(state) => state as i32,
        CoreNotification::GenericError(status) => status as i32,
    }
}

/// Why a vendor message cannot be delivered, if it cannot: its group, its
/// operation or the length of its payload does not fit 32 signed bits.
pub open spec fn vendor_rejection(message: RawUciMessage) -> Option<JniError> {
    if message.gid > i32::MAX || message.oid > i32::MAX || message.payload@.len() > i32::MAX {
        Some(JniError::EncodingContract)
    } else {
        None
    }
}

/// Why received data cannot be delivered, if it cannot: the length of its
/// payload does not fit 32 signed bits.
pub open spec fn data_rcv_rejection(notification: DataRcvNotification) -> Option<JniError> {
    if notification.payload@.len() > i32::MAX {
        Some(JniError::EncodingContract)
    } else {
        None
    }
}

/// The bytes of an address, two or eight.
pub open spec fn address_bytes(address: UwbAddress) -> Seq<u8> {
    match address {
        UwbAddress::Short(bytes) => bytes@,
        UwbAddress::Extended(bytes) => bytes@,
    }
}

/// The arguments of the callback for received data whose source address and
/// payload are the objects at `base` and behind it.
pub open spec fn data_received_args(notification: DataRcvNotification, base: nat) -> Seq<
    ForeignValue,
> {
    seq![
        ForeignValue::Long(notification.session_token as i64),
        ForeignValue::Int(notification.status as i32),
        ForeignValue::Long(notification.uci_sequence_num as i64),
        ForeignValue::Object(base as usize),
        ForeignValue::Object((base + 1) as usize),
    ]
}

impl UwbAddress {
    /// The bytes of the address, two or eight.
    pub fn to_bytes(&self) -> (bytes: Vec<u8>)
        ensures
            bytes@ == address_bytes(*self),
            bytes@.len() == 2 || bytes@.len() == 8,
    {
        match self {
            UwbAddress::Short(a) => bytes_of(a),
            UwbAddress::Extended(a) => bytes_of(a),
        }
    }
}

impl NotificationManagerAndroid {
    /// Delivers a core notification: the name of the chip as a string, and
    /// one callback with the number of the notification and that string.
    pub fn deliver_core_notification(&mut self, core_notification: CoreNotification) -> (r: Result<
        (),
        JniError,
    >)
        requires
            old(self).wf(),
        ensures
            final(self).wf(),
            old(self).delivers(
                final(self),
                r,
                seq![Shape::Exactly(ForeignObjectView::Text(old(self).chip_id@))],
                old(self).jclass_map.keys(),
                core_callback(core_notification),
                CORE_SIGNATURE@,
                seq![
                    ForeignValue::Int(core_code(core_notification)),
                    ForeignValue::Object(old(self).env.objects().len() as usize),
                ],
            ),
    {
        let ghost origin = *self;
        let ghost total = seq![Shape::Exactly(ForeignObjectView::Text(self.chip_id@))];
        proof {
            origin.lemma_stages_nothing();
        }
        let chip_id = self.put_object(
            ForeignObject::Text(self.chip_id.clone()),
            Ghost(origin),
            Ghost(Seq::empty()),
        )?;
        assert(Seq::<Shape>::empty().push(total[0]) =~= total);
        match core_notification {
            CoreNotification::DeviceStatus(device_state) => {
                let args = vec![
                    ForeignValue::Int(device_state as i32),
                    ForeignValue::Object(chip_id),
                ];
                assert(args@ =~= seq![
                    ForeignValue::Int(core_code(core_notification)),
                    ForeignValue::Object(chip_id),
                ]);
                self.finish(
                    DEVICE_STATUS_CALLBACK,
                    CORE_SIGNATURE,
                    args,
                    Ghost(origin),
                    Ghost(total),
                )
            },
            CoreNotification::GenericError(generic_error) => {
                let args = vec![
                    ForeignValue::Int(generic_error as i32),
                    ForeignValue::Object(chip_id),
                ];
                assert(args@ =~= seq![
                    ForeignValue::Int(core_code(core_notification)),
                    ForeignValue::Object(chip_id),
                ]);
                self.finish(
                    GENERIC_ERROR_CALLBACK,
                    CORE_SIGNATURE,
                    args,
                    Ghost(origin),
                    Ghost(total),
                )
            },
        }
    }

    /// Delivers a vendor message: its payload as a byte array, and one
    /// callback with its group, its operation and that array. A message whose
    /// group, operation or length does not fit 32 signed bits is refused
    /// before anything is allocated.
    pub fn deliver_vendor_notification(&mut self, vendor_notification: RawUciMessage) -> (r: Result<
        (),
        JniError,
    >)
        requires
            old(self).wf(),
        ensures
            final(self).wf(),
            vendor_rejection(vendor_notification) matches Some(e) ==> r == Err::<(), JniError>(e)
                && old(self).unchanged(final(self)),
            vendor_rejection(vendor_notification) is None ==> old(self).delivers(
                final(self),
                r,
                seq![Shape::Exactly(ForeignObjectView::ByteArray(vendor_notification.payload@))],
                old(self).jclass_map.keys(),
                VENDOR_CALLBACK@,
                VENDOR_SIGNATURE@,
                seq![
                    ForeignValue::Int(vendor_notification.gid as i32),
                    ForeignValue::Int(vendor_notification.oid as i32),
                    ForeignValue::Object(old(self).env.objects().len() as usize),
                ],
            ),
    {
        let ghost origin = *self;
        let ghost total = seq![
            Shape::Exactly(ForeignObjectView::ByteArray(vendor_notification.payload@)),
        ];
        let gid = int_from_u32_checked(vendor_notification.gid)?;
        let oid = int_from_u32_checked(vendor_notification.oid)?;
        if !fits_int(vendor_notification.payload.len()) {
            return Err(JniError::EncodingContract);
        }
        proof {
            origin.lemma_stages_nothing();
        }
        let payload = self.put_object(
            ForeignObject::ByteArray(vendor_notification.payload),
            Ghost(origin),
            Ghost(Seq::empty()),
        )?;
        assert(Seq::<Shape>::empty().push(total[0]) =~= total);
        let args = vec![ForeignValue::Int(gid), ForeignValue::Int(oid), ForeignValue::Object(payload)];
        assert(args@ =~= seq![
            ForeignValue::Int(vendor_notification.gid as i32),
            ForeignValue::Int(vendor_notification.oid as i32),
            ForeignValue::Object(payload),
        ]);
        self.finish(VENDOR_CALLBACK, VENDOR_SIGNATURE, args, Ghost(origin), Ghost(total))
    }

    /// Delivers received data: the source address in an array of two or
    /// eight bytes, the payload in another, and one callback with the numbers
    /// of the notification and both arrays. Data whose length does not fit
    /// 32 signed bits is refused before anything is allocated.
    pub fn deliver_data_rcv_notification(&mut self, data_rcv_notification: DataRcvNotification) -> (r:
        Result<(), JniError>)
        requires
            old(self).wf(),
        ensures
            final(self).wf(),
            data_rcv_rejection(data_rcv_notification) matches Some(e) ==> r == Err::<(), JniError>(
                e,
            ) && old(self).unchanged(final(self)),
            data_rcv_rejection(data_rcv_notification) is None ==> old(self).delivers(
                final(self),
                r,
                seq![
                    Shape::Exactly(
                        ForeignObjectView::ByteArray(
                            address_bytes(data_rcv_notification.source_address),
                        ),
                    ),
                    Shape::Exactly(ForeignObjectView::ByteArray(data_rcv_notification.payload@)),
                ],
                old(self).jclass_map.keys(),
                DATA_RECEIVED_CALLBACK@,
                DATA_RECEIVED_SIGNATURE@,
                data_received_args(data_rcv_notification, old(self).env.objects().len()),
            ),
    {
        let ghost origin = *self;
        let ghost total = seq![
            Shape::Exactly(
                ForeignObjectView::ByteArray(address_bytes(data_rcv_notification.source_address)),
            ),
            Shape::Exactly(ForeignObjectView::ByteArray(data_rcv_notification.payload@)),
        ];
        if !fits_int(data_rcv_notification.payload.len()) {
            return Err(JniError::EncodingContract);
        }
        proof {
            origin.lemma_stages_nothing();
        }
        let source_address = self.put_object(
            ForeignObject::ByteArray(data_rcv_notification.source_address.to_bytes()),
            Ghost(origin),
            Ghost(Seq::empty()),
        )?;
        assert(Seq::<Shape>::empty().push(total[0]) =~= total.take(1));
        let payload = self.put_object(
            ForeignObject::ByteArray(data_rcv_notification.payload),
            Ghost(origin),
            Ghost(total.take(1)),
        )?;
        assert(total.take(1).push(total[1]) =~= total);
        let args = vec![
            ForeignValue::Long(data_rcv_notification.session_token as i64),
            ForeignValue::Int(data_rcv_notification.status as i32),
            ForeignValue::Long(data_rcv_notification.uci_sequence_num as i64),
            ForeignValue::Object(source_address),
            ForeignValue::Object(payload),
        ];
        assert(args@ =~= data_received_args(data_rcv_notification, origin.env.objects().len()));
        self.finish(
            DATA_RECEIVED_CALLBACK,
            DATA_RECEIVED_SIGNATURE,
            args,
            Ghost(origin),
            Ghost(total),
        )
    }
}

} // verus!
