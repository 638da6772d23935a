//! Management of the global HTTP proxy setting of an Android device through
//! the `adb` bridge tool: the commands it is sent, how its replies are read,
//! and the decisions taken around them.
pub mod text;
pub mod error;
pub mod commands;
pub mod execution;
pub mod device;
pub mod proxy;
pub mod laws;
pub mod manager;
pub mod cli;
pub mod workflow;
