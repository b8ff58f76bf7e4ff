//! App Locker: the verified core of a Windows application locker. Locked executables
//! are redirected through Image File Execution Options to an interceptor that asks for
//! a master password; a Windows service checks the password and unlocks the
//! executable for a moment.
pub mod cli;
pub mod config;
pub mod ifeo;
pub mod interceptor;
pub mod ipc;
pub mod panel;
pub mod password;
pub mod process;
pub mod service;
pub mod text;
