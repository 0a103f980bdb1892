//! What holds of every notification, stated once and proved.

use vstd::prelude::*;
use crate::cache::{distinct, kept, keys_after, lemma_resolve_idempotent, slot_after};
use crate::dispatch::failure;
use crate::dl_tdoa::{
    dl_tdoa_normalized, dl_tdoa_rejection, dl_tdoa_shapes, lemma_dl_tdoa_list_len,
};
use crate::error::JniError;
use crate::foreign::{ForeignValue, MAX_JAVA_OBJECTS_CAPACITY};
use crate::jclass_name::{
    UWB_DL_TDOA_MEASUREMENT_CLASS, UWB_RADAR_DATA_CLASS, UWB_RADAR_SWEEP_DATA_CLASS,
    UWB_RANGING_DATA_CLASS, UWB_TWO_WAY_MEASUREMENT_CLASS,
};
use crate::mac_address::MacAddress;
use crate::manager::NotificationManagerAndroid;
use crate::measurement::{
    dl_tdoa_from_extended, dl_tdoa_from_short, owr_aoa_from_extended, owr_aoa_from_short,
    two_way_from_extended, two_way_from_short, ExtendedAddressDlTdoaRangingMeasurement,
    ExtendedAddressOwrAoaRangingMeasurement, ExtendedAddressTwoWayRangingMeasurement,
    ShortAddressDlTdoaRangingMeasurement, ShortAddressOwrAoaRangingMeasurement,
    ShortAddressTwoWayRangingMeasurement,
};
use crate::notification::{RadarDataRcvNotification, SessionNotification, SessionRangeData};
use crate::radar::{lemma_sweeps_array_len, max_sample_data_len, radar_rejection, radar_shapes};
use crate::session::{
    range_data_rejection, session_args, session_rejection, session_shapes, session_signature,
};
use crate::shape::{class_shapes, Shape};
use crate::two_way::{
    lemma_two_way_array_len, two_way_normalized, two_way_rejection, two_way_shapes,
};

verus! {

/// A record that arrived with a short address is normalized to one whose
/// address is tagged short and serializes to two bytes.
pub proof fn lemma_short_address_stays_short(
    two_way: ShortAddressTwoWayRangingMeasurement,
    owr_aoa: ShortAddressOwrAoaRangingMeasurement,
    dl_tdoa: ShortAddressDlTdoaRangingMeasurement,
)
    ensures
        two_way_from_short(two_way).mac_address == MacAddress::Short(two_way.mac_address),
        owr_aoa_from_short(owr_aoa).mac_address == MacAddress::Short(owr_aoa.mac_address),
        dl_tdoa_from_short(dl_tdoa).mac_address == MacAddress::Short(dl_tdoa.mac_address),
        two_way_from_short(two_way).mac_address.width() == 2,
        owr_aoa_from_short(owr_aoa).mac_address.width() == 2,
        dl_tdoa_from_short(dl_tdoa).mac_address.width() == 2,
{
}

/// A record that arrived with an extended address is normalized to one whose
/// address is tagged extended and serializes to eight bytes.
pub proof fn lemma_extended_address_stays_extended(
    two_way: ExtendedAddressTwoWayRangingMeasurement,
    owr_aoa: ExtendedAddressOwrAoaRangingMeasurement,
    dl_tdoa: ExtendedAddressDlTdoaRangingMeasurement,
)
    ensures
        two_way_from_extended(two_way).mac_address == MacAddress::Extended(two_way.mac_address),
        owr_aoa_from_extended(owr_aoa).mac_address == MacAddress::Extended(owr_aoa.mac_address),
        dl_tdoa_from_extended(dl_tdoa).mac_address == MacAddress::Extended(dl_tdoa.mac_address),
        two_way_from_extended(two_way).mac_address.width() == 8,
        owr_aoa_from_extended(owr_aoa).mac_address.width() == 8,
        dl_tdoa_from_extended(dl_tdoa).mac_address.width() == 8,
{
}

/// Normalizing loses nothing: every number of a record that arrived with a
/// short address is found unchanged in the normalized record, and so are
/// the bytes of both buffers of a downlink measurement.
pub proof fn lemma_normalization_keeps_fields(
    two_way: ShortAddressTwoWayRangingMeasurement,
    owr_aoa: ShortAddressOwrAoaRangingMeasurement,
    dl_tdoa: ShortAddressDlTdoaRangingMeasurement,
)
    ensures
        ({
            let n = two_way_from_short(two_way);
            &&& n.status == two_way.status
            &&& n.nlos == two_way.nlos
            &&& n.distance == two_way.distance
            &&& n.aoa_azimuth == two_way.aoa_azimuth
            &&& n.aoa_azimuth_fom == two_way.aoa_azimuth_fom
            &&& n.aoa_elevation == two_way.aoa_elevation
            &&& n.aoa_elevation_fom == two_way.aoa_elevation_fom
            &&& n.aoa_destination_azimuth == two_way.aoa_destination_azimuth
            &&& n.aoa_destination_azimuth_fom == two_way.aoa_destination_azimuth_fom
            &&& n.aoa_destination_elevation == two_way.aoa_destination_elevation
            &&& n.aoa_destination_elevation_fom == two_way.aoa_destination_elevation_fom
            &&& n.slot_index == two_way.slot_index
            &&& n.rssi == two_way.rssi
        }),
        ({
            let n = owr_aoa_from_short(owr_aoa);
            &&& n.status == owr_aoa.status
            &&& n.nlos == owr_aoa.nlos
            &&& n.frame_sequence_number == owr_aoa.frame_sequence_number
            &&& n.block_index == owr_aoa.block_index
            &&& n.aoa_azimuth == owr_aoa.aoa_azimuth
            &&& n.aoa_azimuth_fom == owr_aoa.aoa_azimuth_fom
            &&& n.aoa_elevation == owr_aoa.aoa_elevation
            &&& n.aoa_elevation_fom == owr_aoa.aoa_elevation_fom
        }),
        ({
            let n = dl_tdoa_from_short(dl_tdoa);
            let w = dl_tdoa.measurement;
            &&& n.status == w.status
            &&& n.message_type == w.message_type
            &&& n.message_control == w.message_control
            &&& n.block_index == w.block_index
            &&& n.round_index == w.round_index
            &&& n.nlos == w.nlos
            &&& n.aoa_azimuth == w.aoa_azimuth
            &&& n.aoa_azimuth_fom == w.aoa_azimuth_fom
            &&& n.aoa_elevation == w.aoa_elevation
            &&& n.aoa_elevation_fom == w.aoa_elevation_fom
            &&& n.rssi == w.rssi
            &&& n.tx_timestamp == w.tx_timestamp
            &&& n.rx_timestamp == w.rx_timestamp
            &&& n.anchor_cfo == w.anchor_cfo
            &&& n.cfo == w.cfo
            &&& n.initiator_reply_time == w.initiator_reply_time
            &&& n.responder_reply_time == w.responder_reply_time
            &&& n.initiator_responder_tof == w.initiator_responder_tof
            &&& n.dt_anchor_location@ == w.dt_anchor_location@
            &&& n.ranging_rounds@ == w.ranging_rounds@
        }),
{
}

/// A class that was found once is found again without a lookup: the cache
/// holds it, resolving it again changes nothing, and finding it again
/// allocates nothing.
pub proof fn lemma_second_lookup_is_free(keys: Seq<Seq<char>>, name: Seq<char>, base: nat)
    requires
        distinct(keys),
    ensures
        keys_after(keys, name).contains(name),
        keys_after(keys_after(keys, name), name) == keys_after(keys, name),
        class_shapes(keys_after(keys, name), name, base) == Seq::<Shape>::empty(),
{
    lemma_resolve_idempotent(keys, name);
}

/// What the host has confirmed is never forgotten: whatever it reports of a
/// later delivery, the keys that were settled keep their handles, and no
/// fewer keys are settled afterwards.
pub proof fn lemma_settled_keys_stay(keys: Seq<Seq<char>>, settled: nat, confirmed: nat)
    requires
        settled <= keys.len(),
    ensures
        settled <= kept(keys.len(), settled, confirmed) <= keys.len(),
        keys.take(kept(keys.len(), settled, confirmed) as int).take(settled as int) == keys.take(
            settled as int,
        ),
        confirmed == 0 ==> kept(keys.len(), settled, confirmed) == settled,
{
    let k = kept(keys.len(), settled, confirmed) as int;
    assert(keys.take(k).take(settled as int) =~= keys.take(settled as int));
}

/// Range data that announces another kind of measurement than it holds is
/// refused as an unexpected variant, whatever else is true of it, and so is
/// the session notification that carries it.
pub proof fn lemma_mismatch_is_refused(range_data: SessionRangeData)
    requires
        range_data.ranging_measurement_type != range_data.ranging_measurements.kind(),
    ensures
        range_data_rejection(range_data) == Some(JniError::UnexpectedVariant),
        session_rejection(SessionNotification::SessionInfo(range_data)) == Some(
            JniError::UnexpectedVariant,
        ),
        forall|keys: Seq<Seq<char>>|
            #![trigger session_shapes(SessionNotification::SessionInfo(range_data), keys, 0)]
            failure(
                session_rejection(SessionNotification::SessionInfo(range_data)),
                session_shapes(SessionNotification::SessionInfo(range_data), keys, 0),
                session_signature(SessionNotification::SessionInfo(range_data)),
                session_args(SessionNotification::SessionInfo(range_data), keys, 0),
            ) == Some(JniError::UnexpectedVariant),
{
}

/// A notification of data credit is refused as an unexpected variant.
pub proof fn lemma_data_credit_is_refused(notification: SessionNotification)
    requires
        notification is DataCredit,
    ensures
        session_rejection(notification) == Some(JniError::UnexpectedVariant),
        forall|keys: Seq<Seq<char>>|
            #![trigger session_shapes(notification, keys, 0)]
            failure(
                session_rejection(notification),
                session_shapes(notification, keys, 0),
                session_signature(notification),
                session_args(notification, keys, 0),
            ) == Some(JniError::UnexpectedVariant),
{
}

/// A delivery invokes exactly one callback where it succeeds, and none where
/// it fails, whatever the notification.
pub proof fn lemma_delivery_invokes_once(
    pre: &NotificationManagerAndroid,
    post: &NotificationManagerAndroid,
    r: Result<(), JniError>,
    shapes: Seq<Shape>,
    classes: Seq<Seq<char>>,
    name: Seq<char>,
    signature: Seq<char>,
    args: Seq<ForeignValue>,
)
    requires
        pre.wf(),
        pre.delivers(post, r, shapes, classes, name, signature, args),
    ensures
        r is Ok ==> post.env.calls().len() == pre.env.calls().len() + 1
            && post.env.calls().drop_last() == pre.env.calls()
            && post.env.calls().last().name == name
            && post.env.calls().last().signature == signature
            && post.env.calls().last().args == args,
        r is Err ==> post.env.calls() == pre.env.calls() && post.jmethod_id_map.keys()
            == pre.jmethod_id_map.keys(),
{
    if r is Ok {
        assert(post.env.calls().drop_last() =~= pre.env.calls());
    }
}

/// A session notification invokes exactly one callback where its delivery
/// succeeds, and none where it fails; and a notification that is refused
/// leaves no trace at all.
pub proof fn lemma_one_invocation_or_none(
    pre: &NotificationManagerAndroid,
    post: &NotificationManagerAndroid,
    r: Result<(), JniError>,
    notification: SessionNotification,
)
    requires
        pre.wf(),
        pre.handles_session(post, r, notification),
    ensures
        r is Ok ==> post.env.calls().len() == pre.env.calls().len() + 1
            && post.env.calls().drop_last() == pre.env.calls(),
        r is Err ==> post.env.calls() == pre.env.calls() && post.jmethod_id_map.keys()
            == pre.jmethod_id_map.keys(),
        session_rejection(notification) is Some ==> r is Err && pre.unchanged(post),
{
    if r is Ok {
        assert(post.env.calls().drop_last() =~= pre.env.calls());
    }
}

/// A delivery that takes more objects than the scope has room for fails for
/// want of capacity, invokes nothing, and leaves no more objects in the
/// scope than it may hold.
pub proof fn lemma_capacity_is_a_ceiling(
    pre: &NotificationManagerAndroid,
    post: &NotificationManagerAndroid,
    r: Result<(), JniError>,
    shapes: Seq<Shape>,
    classes: Seq<Seq<char>>,
    name: Seq<char>,
    signature: Seq<char>,
    args: Seq<ForeignValue>,
)
    requires
        pre.wf(),
        post.wf(),
        pre.delivers(post, r, shapes, classes, name, signature, args),
        shapes.len() > pre.env.room(),
    ensures
        r == Err::<(), JniError>(JniError::CapacityExceeded),
        post.env.calls() == pre.env.calls(),
        post.env.capacity() == pre.env.capacity(),
        post.env.objects().len() <= post.env.capacity(),
{
}

/// Range data of two-way measurements takes five objects, two more for each
/// measurement, and two more for each of its two classes that is not cached:
/// with twenty-three measurements or more it does not fit a scope.
pub proof fn lemma_two_way_does_not_fit(range_data: SessionRangeData, keys: Seq<Seq<char>>)
    requires
        two_way_rejection(range_data) is None,
    ensures
        two_way_shapes(range_data, keys, 0).len() == 5 + 2 * two_way_normalized(
            range_data.ranging_measurements,
        ).len() + class_shapes(keys, UWB_TWO_WAY_MEASUREMENT_CLASS@, 1).len() + class_shapes(
            keys_after(keys, UWB_TWO_WAY_MEASUREMENT_CLASS@),
            UWB_RANGING_DATA_CLASS@,
            0,
        ).len(),
        two_way_normalized(range_data.ranging_measurements).len() >= 23 ==> two_way_shapes(
            range_data,
            keys,
            0,
        ).len() > MAX_JAVA_OBJECTS_CAPACITY,
{
    let ms = two_way_normalized(range_data.ranging_measurements);
    lemma_two_way_array_len(
        range_data.ranging_measurements.indicator().address_len(),
        ms.len() as i32,
        ms,
        keys,
        1,
    );
}

/// Range data of downlink measurements takes seven objects, four more for
/// each measurement, and two more for each of its two classes that is not
/// cached: with eleven measurements or more it does not fit a scope.
pub proof fn lemma_dl_tdoa_does_not_fit(range_data: SessionRangeData, keys: Seq<Seq<char>>)
    requires
        dl_tdoa_rejection(range_data) is None,
    ensures
        dl_tdoa_shapes(range_data, keys, 0).len() == 7 + 4 * dl_tdoa_normalized(
            range_data.ranging_measurements,
        ).len() + class_shapes(keys, UWB_DL_TDOA_MEASUREMENT_CLASS@, 1).len() + class_shapes(
            keys_after(keys, UWB_DL_TDOA_MEASUREMENT_CLASS@),
            UWB_RANGING_DATA_CLASS@,
            0,
        ).len(),
        dl_tdoa_normalized(range_data.ranging_measurements).len() >= 11 ==> dl_tdoa_shapes(
            range_data,
            keys,
            0,
        ).len() > MAX_JAVA_OBJECTS_CAPACITY,
{
    let ms = dl_tdoa_normalized(range_data.ranging_measurements);
    let lookup = class_shapes(keys, UWB_DL_TDOA_MEASUREMENT_CLASS@, 1);
    lemma_dl_tdoa_list_len(
        ms,
        slot_after(keys, UWB_DL_TDOA_MEASUREMENT_CLASS@) as usize,
        1 + lookup.len() + 4,
    );
}

/// Radar data takes five objects, three more for each sweep, and two more
/// for each of its two classes that is not cached: with sixteen sweeps or
/// more it does not fit a scope.
pub proof fn lemma_radar_does_not_fit(notification: RadarDataRcvNotification, keys: Seq<Seq<char>>)
    requires
        radar_rejection(notification) is None,
    ensures
        radar_shapes(notification, keys, 0).len() == 5 + 3 * notification.sweep_data@.len()
            + class_shapes(keys, UWB_RADAR_SWEEP_DATA_CLASS@, 0).len() + class_shapes(
            keys_after(keys, UWB_RADAR_SWEEP_DATA_CLASS@),
            UWB_RADAR_DATA_CLASS@,
            0,
        ).len(),
        notification.sweep_data@.len() >= 16 ==> radar_shapes(notification, keys, 0).len()
            > MAX_JAVA_OBJECTS_CAPACITY,
{
    let sweeps = notification.sweep_data@;
    lemma_sweeps_array_len(
        max_sample_data_len(notification),
        sweeps.len() as i32,
        sweeps,
        keys,
        0,
    );
}

} // verus!
