pub mod check_result;
pub mod config;
pub mod log_position;
pub mod object_store;
pub mod timestamp;
pub mod hello;
pub mod certification;
pub mod update_object;
pub mod rpc;
