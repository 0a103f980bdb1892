//! Notifications that are made of numbers alone: each becomes one callback
//! with its fields as arguments.

use vstd::prelude::*;
use crate::error::JniError;
use crate::foreign::{int_from_u32, reinterpret_i32, ForeignValue};
use crate::manager::NotificationManagerAndroid;

verus! {

/// The arguments of the callback for a change of a session's state.
pub open spec fn session_status_args(
    session_id: u32,
    session_token: u32,
    session_state: u8,
    reason_code: u8,
) -> Seq<ForeignValue> {
    seq![
        ForeignValue::Long(session_id as i64),
        ForeignValue::Int(reinterpret_i32(session_token)),
        ForeignValue::Int(session_state as i32),
        ForeignValue::Int(reason_code as i32),
    ]
}

/// The arguments of the callback for the outcome of a data transfer.
pub open spec fn data_transfer_status_args(
    session_id: u32,
    uci_sequence_number: u16,
    status_code: u8,
    tx_count: u8,
) -> Seq<ForeignValue> {
    seq![
        ForeignValue::Long(session_id as i64),
        ForeignValue::Int(status_code as i32),
        ForeignValue::Long(uci_sequence_number as i64),
        ForeignValue::Int(tx_count as i32),
    ]
}

/// The arguments of the callback for the configuration of a data transfer
/// phase.
pub open spec fn data_transfer_phase_config_args(session_id: u32, status_code: u8) -> Seq<
    ForeignValue,
> {
    seq![ForeignValue::Long(session_id as i64), ForeignValue::Int(status_code as i32)]
}

impl NotificationManagerAndroid {
    /// Reports a change of a session's state: one callback, no object.
    pub fn on_session_status_notification(
        &mut self,
        session_id: u32,
        session_token: u32,
        session_state: u8,
        reason_code: u8,
    ) -> (r: Result<(), JniError>)
        requires
            old(self).wf(),
        ensures
            final(self).wf(),
            old(self).issues(
                final(self),
                r,
                "onSessionStatusNotificationReceived"@,
                "(JIII)V"@,
                session_status_args(session_id, session_token, session_state, reason_code),
            ),
    {
        let args = vec![
            ForeignValue::Long(session_id as i64),
            ForeignValue::Int(int_from_u32(session_token)),
            ForeignValue::Int(session_state as i32),
            ForeignValue::Int(reason_code as i32),
        ];
        assert(args@ =~= session_status_args(
            session_id,
            session_token,
            session_state,
            reason_code,
        ));
        self.cached_jni_call("onSessionStatusNotificationReceived", "(JIII)V", args)
    }

    /// Reports the outcome of a data transfer: one callback, no object.
    pub fn on_data_transfer_status_notification(
        &mut self,
        session_id: u32,
        uci_sequence_number: u16,
        status_code: u8,
        tx_count: u8,
    ) -> (r: Result<(), JniError>)
        requires
            old(self).wf(),
        ensures
            final(self).wf(),
            old(self).issues(
                final(self),
                r,
                "onDataSendStatus"@,
                "(JIJI)V"@,
                data_transfer_status_args(session_id, uci_sequence_number, status_code, tx_count),
            ),
    {
        let args = vec![
            ForeignValue::Long(session_id as i64),
            ForeignValue::Int(status_code as i32),
            ForeignValue::Long(uci_sequence_number as i64),
            ForeignValue::Int(tx_count as i32),
        ];
        assert(args@ =~= data_transfer_status_args(
            session_id,
            uci_sequence_number,
            status_code,
            tx_count,
        ));
        self.cached_jni_call("onDataSendStatus", "(JIJI)V", args)
    }

    /// Reports the configuration of a data transfer phase: one callback, no
    /// object.
    pub fn on_data_transfer_phase_config_notification(
        &mut self,
        session_id: u32,
        status_code: u8,
    ) -> (r: Result<(), JniError>)
        requires
            old(self).wf(),
        ensures
            final(self).wf(),
            old(self).issues(
                final(self),
                r,
                "onDataTransferPhaseConfigNotificationReceived"@,
                "(JI)V"@,
                data_transfer_phase_config_args(session_id, status_code),
            ),
    {
        let args = vec![
            ForeignValue::Long(session_id as i64),
            ForeignValue::Int(status_code as i32),
        ];
        assert(args@ =~= data_transfer_phase_config_args(session_id, status_code));
        self.cached_jni_call("onDataTransferPhaseConfigNotificationReceived", "(JI)V", args)
    }
}

} // verus!
