//! Verified core of an SSH automation library for network devices.
pub mod error;
pub mod settings;
pub mod config;
pub mod sync;
pub mod semaphore;
pub mod buffer_pool;
pub mod text;
pub mod keyed;
pub mod autodetect;
pub mod device;
pub mod vendor_error_patterns;
pub mod command_result;
pub mod session;
pub mod config_run;
pub mod enable_run;
pub mod channel;
pub mod retry;
pub mod pool;
pub mod juniper;
pub mod parallel_execution;
pub mod api;
