//! Marshalling of UWB Command Interface notifications into the fixed-layout
//! records that a host runtime without unsigned integers receives.
//!
//! A notification is normalized (`measurement`), laid out as the objects the
//! host has to allocate and the one callback it has to invoke (`foreign`,
//! `shape`), inside a scope that bounds the number of objects (`arena`), with
//! the handles of classes and methods remembered from one notification to
//! the next (`cache`). The manager (`manager`, `dispatch`) hands each
//! notification out as a `Delivery`; the host performs it and reports back
//! through `settle`. Nothing here touches the host itself.

pub mod arena;
pub mod cache;
pub mod dispatch;
pub mod dl_tdoa;
pub mod error;
pub mod foreign;
pub mod jclass_name;
pub mod laws;
pub mod mac_address;
pub mod manager;
pub mod measurement;
pub mod multicast;
pub mod notification;
pub mod owr_aoa;
pub mod packets;
pub mod radar;
pub mod range_data;
pub mod scalar;
pub mod session;
pub mod shape;
pub mod signature;
pub mod two_way;
