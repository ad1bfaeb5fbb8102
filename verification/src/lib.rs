//! Verified core of a Bluetooth Classic discovery engine and of the bridge
//! that lets asynchronous callers drive a blocking HCI controller.

pub mod address;
pub mod bridge;
pub mod codec;
pub mod coordinator;
pub mod dedup;
pub mod dispatch;
pub mod eir;
