//! Background coordination for a desktop quick-launcher: the window control
//! plane, the dual-origin hotkey detector, the clipboard history and the
//! remote-control protocol, each as a state machine with a proved contract.

pub mod apps;
pub mod backend;
pub mod cli;
pub mod clipboard;
pub mod commands;
pub mod control_trace;
pub mod desktop;
pub mod files;
pub mod hotkey;
pub mod ipc;
pub mod launcher;
pub mod order;
pub mod rpc;
pub mod shell;
pub mod text;
pub mod tools;
