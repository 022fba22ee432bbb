//! The errors that the launcher reports to its caller.
use vstd::prelude::*;

verus! {

/// Why a launcher request failed.
#[derive(Debug)]
pub enum LauncherError {
    /// The game library could not be queried; holds the library's message.
    LibraryLookup(String),
    /// The game is not in the library.
    GameNotFound,
    /// The game is in the library but not installed.
    GameNotInstalled,
    /// A LAN launch was asked for without a game path.
    LanPathOverrideRequired,
    /// No game process settled within the scan budget of a LAN launch.
    LanGameTimeout,
    /// A player search found nobody.
    UserNotFound,
    /// The login flow ended without an authorization code.
    LoginFailed,
}

/// The message reported for an error.
pub open spec fn spec_error_message(e: LauncherError) -> Seq<char> {
    match e {
        LauncherError::LibraryLookup(m) => m@,
        LauncherError::GameNotFound => "Game not found"@,
        LauncherError::GameNotInstalled => "Game not installed"@,
        LauncherError::LanPathOverrideRequired => "LAN mode requires game path override"@,
        LauncherError::LanGameTimeout => "LAN mode: timed out (3min) waiting for game with >=1GB memory"@,
        LauncherError::UserNotFound => "User not found"@,
        LauncherError::LoginFailed => "Login failed!"@,
    }
}

impl LauncherError {
    /// The text reported for this error.
    pub fn message(&self) -> (r: String)
        ensures
            r@ == spec_error_message(*self),
    {
        match self {
            LauncherError::LibraryLookup(m) => m.clone(),
            LauncherError::GameNotFound => "Game not found".to_owned(),
            LauncherError::GameNotInstalled => "Game not installed".to_owned(),
            LauncherError::LanPathOverrideRequired => "LAN mode requires game path override".to_owned(),
            LauncherError::LanGameTimeout => "LAN mode: timed out (3min) waiting for game with >=1GB memory".to_owned(),
            LauncherError::UserNotFound => "User not found".to_owned(),
            LauncherError::LoginFailed => "Login failed!".to_owned(),
        }
    }
}

} // verus!
