//! Zigbee gateway core: the deCONZ serial protocol (SLIP framing, frames,
//! APS/ZDO/ZCL payloads), the request/response bookkeeping of the serial
//! transport, the device inventory of the network manager, and the
//! automation engine's rules (conditions, triggers, scheduling).

pub mod cluster;
pub mod commands;
pub mod device;
pub mod engine;
pub mod error;
pub mod evaluator;
pub mod executor;
pub mod frame;
pub mod hex;
pub mod model;
pub mod network;
pub mod scheduler;
pub mod slip;
pub mod transport;
pub mod types;
pub mod wire;
