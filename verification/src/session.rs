//! Session notifications: which path each kind takes, and what it leaves.

use vstd::prelude::*;
use crate::cache::keys_after;
use crate::dl_tdoa::{dl_tdoa_rejection, dl_tdoa_shapes};
use crate::error::JniError;
use crate::foreign::ForeignValue;
use crate::jclass_name::{
    MULTICAST_LIST_UPDATE_STATUS_CLASS, UWB_DL_TDOA_MEASUREMENT_CLASS,
    UWB_OWR_AOA_MEASUREMENT_CLASS, UWB_RANGING_DATA_CLASS, UWB_TWO_WAY_MEASUREMENT_CLASS,
};
use crate::manager::NotificationManagerAndroid;
use crate::multicast::{multicast_rejection, multicast_shapes, MULTICAST_CALLBACK};
use crate::notification::{
    ControleeStatusList, RangingMeasurementType, RangingMeasurements, SessionNotification,
    SessionRangeData,
};
use crate::owr_aoa::{owr_aoa_rejection, owr_aoa_shapes};
use crate::range_data::{object_callback_signature, RANGE_DATA_CALLBACK};
use crate::scalar::{
    data_transfer_phase_config_args, data_transfer_status_args, session_status_args,
};
use crate::shape::Shape;
use crate::two_way::{two_way_rejection, two_way_shapes};

verus! {

/// Why a range data notification cannot be delivered, if it cannot. The
/// kind of the measurements it holds decides the path, and every path
/// refuses a notification that announces another kind than it holds.
pub open spec fn range_data_rejection(range_data: SessionRangeData) -> Option<JniError> {
    match range_data.ranging_measurements.kind() {
        RangingMeasurementType::DlTdoa => dl_tdoa_rejection(range_data),
        RangingMeasurementType::OwrAoa => owr_aoa_rejection(range_data),
        _ => two_way_rejection(range_data),
    }
}

/// The objects of a range data notification, by the kind of the measurements
/// it holds.
pub open spec fn range_data_shapes(range_data: SessionRangeData, keys: Seq<Seq<char>>, base: nat) -> Seq<
    Shape,
> {
    match range_data.ranging_measurements.kind() {
        RangingMeasurementType::DlTdoa => dl_tdoa_shapes(range_data, keys, base),
        RangingMeasurementType::OwrAoa => owr_aoa_shapes(range_data, keys, base),
        _ => two_way_shapes(range_data, keys, base),
    }
}

/// The class of the measurements of a range data notification.
pub open spec fn measurement_class(range_data: SessionRangeData) -> Seq<char> {
    match range_data.ranging_measurements.kind() {
        RangingMeasurementType::DlTdoa => UWB_DL_TDOA_MEASUREMENT_CLASS@,
        RangingMeasurementType::OwrAoa => UWB_OWR_AOA_MEASUREMENT_CLASS@,
        _ => UWB_TWO_WAY_MEASUREMENT_CLASS@,
    }
}

/// The update of the multicast list that a session notification holds, in the
/// form and with the number of remaining controlees it is delivered with.
pub open spec fn multicast_update(notification: SessionNotification) -> (usize, ControleeStatusList)
    recommends
        notification is UpdateControllerMulticastListV1
            || notification is UpdateControllerMulticastListV2,
{
    match notification {
        SessionNotification::UpdateControllerMulticastListV1 {
            remaining_multicast_list_size,
            status_list,
            ..
        } => (remaining_multicast_list_size, ControleeStatusList::V1(status_list)),
        SessionNotification::UpdateControllerMulticastListV2 { status_list, .. } => (
            0usize,
            ControleeStatusList::V2(status_list),
        ),
        _ => arbitrary(),
    }
}

/// Why a session notification cannot be delivered, if it cannot. A
/// notification of data credit is never delivered: it is refused for what
/// it is.
pub open spec fn session_rejection(notification: SessionNotification) -> Option<JniError> {
    match notification {
        SessionNotification::UpdateControllerMulticastListV1 { .. } => multicast_rejection(
            multicast_update(notification).0,
            multicast_update(notification).1,
        ),
        SessionNotification::UpdateControllerMulticastListV2 { .. } => multicast_rejection(
            multicast_update(notification).0,
            multicast_update(notification).1,
        ),
        SessionNotification::SessionInfo(range_data) => range_data_rejection(range_data),
        SessionNotification::DataCredit { .. } => Some(JniError::UnexpectedVariant),
        _ => None,
    }
}

/// The objects of a session notification, the first of them at position
/// `base`, given the keys the class cache holds.
pub open spec fn session_shapes(
    notification: SessionNotification,
    keys: Seq<Seq<char>>,
    base: nat,
) -> Seq<Shape> {
    match notification {
        SessionNotification::UpdateControllerMulticastListV1 { session_token, .. } => multicast_shapes(
            session_token,
            multicast_update(notification).0,
            multicast_update(notification).1,
            keys,
            base,
        ),
        SessionNotification::UpdateControllerMulticastListV2 { session_token, .. } => multicast_shapes(
            session_token,
            multicast_update(notification).0,
            multicast_update(notification).1,
            keys,
            base,
        ),
        SessionNotification::SessionInfo(range_data) => range_data_shapes(range_data, keys, base),
        _ => Seq::empty(),
    }
}

/// The keys the class cache holds after a session notification was
/// delivered.
pub open spec fn session_classes(notification: SessionNotification, keys: Seq<Seq<char>>) -> Seq<
    Seq<char>,
> {
    match notification {
        SessionNotification::UpdateControllerMulticastListV1 { .. } => keys_after(
            keys,
            MULTICAST_LIST_UPDATE_STATUS_CLASS@,
        ),
        SessionNotification::UpdateControllerMulticastListV2 { .. } => keys_after(
            keys,
            MULTICAST_LIST_UPDATE_STATUS_CLASS@,
        ),
        SessionNotification::SessionInfo(range_data) => keys_after(
            keys_after(keys, measurement_class(range_data)),
            UWB_RANGING_DATA_CLASS@,
        ),
        _ => keys,
    }
}

/// The callback that a session notification goes to.
pub open spec fn session_callback(notification: SessionNotification) -> Seq<char> {
    match notification {
        SessionNotification::Status { .. } => "onSessionStatusNotificationReceived"@,
        SessionNotification::UpdateControllerMulticastListV1 { .. } => MULTICAST_CALLBACK@,
        SessionNotification::UpdateControllerMulticastListV2 { .. } => MULTICAST_CALLBACK@,
        SessionNotification::SessionInfo(_) => RANGE_DATA_CALLBACK@,
        SessionNotification::DataTransferStatus { .. } => "onDataSendStatus"@,
        SessionNotification::DataTransferPhaseConfig { .. } =>
            "onDataTransferPhaseConfigNotificationReceived"@,
        SessionNotification::DataCredit { .. } => Seq::empty(),
    }
}

/// The signature of the callback that a session notification goes to.
pub open spec fn session_signature(notification: SessionNotification) -> Seq<char> {
    match notification {
        SessionNotification::Status { .. } => "(JIII)V"@,
        SessionNotification::UpdateControllerMulticastListV1 { .. } => object_callback_signature(
            MULTICAST_LIST_UPDATE_STATUS_CLASS@,
        ),
        SessionNotification::UpdateControllerMulticastListV2 { .. } => object_callback_signature(
            MULTICAST_LIST_UPDATE_STATUS_CLASS@,
        ),
        SessionNotification::SessionInfo(_) => object_callback_signature(UWB_RANGING_DATA_CLASS@),
        SessionNotification::DataTransferStatus { .. } => "(JIJI)V"@,
        SessionNotification::DataTransferPhaseConfig { .. } => "(JI)V"@,
        SessionNotification::DataCredit { .. } => Seq::empty(),
    }
}

/// The arguments of the callback that a session notification goes to: its
/// numbers where it is made of numbers, else the last of its objects, which
/// holds all the others.
pub open spec fn session_args(
    notification: SessionNotification,
    keys: Seq<Seq<char>>,
    base: nat,
) -> Seq<ForeignValue> {
    match notification {
        SessionNotification::Status { session_id, session_token, session_state, reason_code } =>
            session_status_args(session_id, session_token, session_state, reason_code),
        SessionNotification::DataTransferStatus {
            session_token,
            uci_sequence_number,
            status,
            tx_count,
        } => data_transfer_status_args(session_token, uci_sequence_number, status, tx_count),
        SessionNotification::DataTransferPhaseConfig { session_token, status } =>
            data_transfer_phase_config_args(session_token, status),
        _ => seq![
            ForeignValue::Object(
                (base + session_shapes(notification, keys, base).len() - 1) as usize,
            ),
        ],
    }
}

impl NotificationManagerAndroid {
    /// What the delivery of a session notification makes of `self`: a
    /// notification that cannot be delivered leaves the failure and nothing
    /// else, any other what `delivers` says of its objects and its callback.
    pub open spec fn handles_session(
        &self,
        post: &Self,
        r: Result<(), JniError>,
        notification: SessionNotification,
    ) -> bool {
        match session_rejection(notification) {
            Some(e) => r == Err::<(), JniError>(e) && self.unchanged(post),
            None => self.delivers(
                post,
                r,
                session_shapes(
                    notification,
                    self.jclass_map.keys(),
                    self.env.objects().len(),
                ),
                session_classes(notification, self.jclass_map.keys()),
                session_callback(notification),
                session_signature(notification),
                session_args(notification, self.jclass_map.keys(), self.env.objects().len()),
            ),
        }
    }

    /// Where nothing is allocated, `issues` and `delivers` say the same.
    pub proof fn lemma_issues_delivers(
        &self,
        post: &Self,
        r: Result<(), JniError>,
        name: Seq<char>,
        signature: Seq<char>,
        args: Seq<ForeignValue>,
    )
        requires
            self.wf(),
            self.issues(post, r, name, signature, args),
        ensures
            self.delivers(
                post,
                r,
                Seq::<Shape>::empty(),
                self.jclass_map.keys(),
                name,
                signature,
                args,
            ),
    {
        let len = self.env.objects().len() as int;
        assert(self.env.objects().take(len) =~= self.env.objects());
        assert(self.jclass_map.keys().take(self.jclass_map.keys().len() as int)
            =~= self.jclass_map.keys());
    }

    /// Delivers one session notification by the path of its kind. Range data
    /// goes by the kind of the measurements it holds, not by the kind it
    /// announces; the path then refuses a notification in which the two
    /// differ. A notification of data credit is refused for what it is.
    pub fn deliver_session_notification(&mut self, session_notification: SessionNotification) -> (r:
        Result<(), JniError>)
        requires
            old(self).wf(),
        ensures
            final(self).wf(),
            old(self).handles_session(final(self), r, session_notification),
    {
        match session_notification {
            SessionNotification::Status { session_id, session_token, session_state, reason_code } => {
                let r = self.on_session_status_notification(
                    session_id,
                    session_token,
                    session_state,
                    reason_code,
                );
                proof {
                    old(self).lemma_issues_delivers(
                        self,
                        r,
                        session_callback(session_notification),
                        session_signature(session_notification),
                        session_status_args(session_id, session_token, session_state, reason_code),
                    );
                }
                r
            },
            SessionNotification::UpdateControllerMulticastListV1 {
                session_token,
                remaining_multicast_list_size,
                status_list,
            } => self.on_session_update_multicast_notification(
                session_token,
                remaining_multicast_list_size,
                ControleeStatusList::V1(status_list),
            ),
            SessionNotification::UpdateControllerMulticastListV2 { session_token, status_list } =>
                self.on_session_update_multicast_notification(
                    session_token,
                    0usize,
                    ControleeStatusList::V2(status_list),
                ),
            SessionNotification::SessionInfo(range_data) => {
                match range_data.ranging_measurements {
                    RangingMeasurements::ShortAddressTwoWay(_) =>
                        self.on_session_two_way_range_data_notification(range_data),
                    RangingMeasurements::ExtendedAddressTwoWay(_) =>
                        self.on_session_two_way_range_data_notification(range_data),
                    RangingMeasurements::ShortAddressOwrAoa(_) =>
                        self.on_session_owr_aoa_range_data_notification(range_data),
                    RangingMeasurements::ExtendedAddressOwrAoa(_) =>
                        self.on_session_owr_aoa_range_data_notification(range_data),
                    RangingMeasurements::ShortAddressDltdoa(_) =>
                        self.on_session_dl_tdoa_range_data_notification(range_data),
                    RangingMeasurements::ExtendedAddressDltdoa(_) =>
                        self.on_session_dl_tdoa_range_data_notification(range_data),
                }
            },
            SessionNotification::DataTransferStatus {
                session_token,
                uci_sequence_number,
                status,
                tx_count,
            } => {
                let r = self.on_data_transfer_status_notification(
                    session_token,
                    uci_sequence_number,
                    status,
                    tx_count,
                );
                proof {
                    old(self).lemma_issues_delivers(
                        self,
                        r,
                        session_callback(session_notification),
                        session_signature(session_notification),
                        data_transfer_status_args(session_token, uci_sequence_number, status, tx_count),
                    );
                }
                r
            },
            SessionNotification::DataCredit { session_token, credit_availability } => Err(
                JniError::UnexpectedVariant,
            ),
            SessionNotification::DataTransferPhaseConfig { session_token, status } => {
                let r = self.on_data_transfer_phase_config_notification(session_token, status);
                proof {
                    old(self).lemma_issues_delivers(
                        self,
                        r,
                        session_callback(session_notification),
                        session_signature(session_notification),
                        data_transfer_phase_config_args(session_token, status),
                    );
                }
                r
            },
        }
    }
}

} // verus!
