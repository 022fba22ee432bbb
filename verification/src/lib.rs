//! Launcher-side logic of the Kyber LAN launcher: reading a process
//! environment block, picking the game process after a LAN launch,
//! LSX event filtering, login-override parsing and the conversions of
//! service-layer player records.

pub mod env_block;
pub mod text;
pub mod lan_pid;
pub mod error;
pub mod login;
pub mod player;
pub mod game;
pub mod lsx;
pub mod injection_env;
