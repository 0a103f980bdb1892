//! Names of the host classes that the notifications are delivered in.

use vstd::prelude::*;

verus! {

pub const UWB_RANGING_DATA_CLASS: &'static str = "com/android/server/uwb/data/UwbRangingData";

pub const UWB_TWO_WAY_MEASUREMENT_CLASS: &'static str =
    "com/android/server/uwb/data/UwbTwoWayMeasurement";

pub const UWB_OWR_AOA_MEASUREMENT_CLASS: &'static str =
    "com/android/server/uwb/data/UwbOwrAoaMeasurement";

pub const UWB_DL_TDOA_MEASUREMENT_CLASS: &'static str =
    "com/android/server/uwb/data/UwbDlTDoAMeasurement";

pub const MULTICAST_LIST_UPDATE_STATUS_CLASS: &'static str =
    "com/android/server/uwb/data/UwbMulticastListUpdateStatus";

pub const UWB_RADAR_DATA_CLASS: &'static str = "com/android/server/uwb/data/UwbRadarData";

pub const UWB_RADAR_SWEEP_DATA_CLASS: &'static str =
    "com/android/server/uwb/data/UwbRadarSweepData";

} // verus!
