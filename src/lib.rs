//! A chat bot core that supervises an ngrok tunnel: access gates, command
//! dispatch, the tunnel process state machine and tunnel discovery.
pub mod access;
pub mod cmds;
pub mod config;
pub mod discovery;
pub mod dispatch;
pub mod keyboard;
pub mod supervisor;
pub mod text;
