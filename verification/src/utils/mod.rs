//! Shared data types and helpers of the relay.

pub mod adapter;
pub mod delay_adapter;
pub mod discover;
pub mod iv;
pub mod logging_utils;
pub mod lora_serial;
pub mod lora_types;
pub mod mavlink_utils;
pub mod types;
