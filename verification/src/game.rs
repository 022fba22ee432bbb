//! Decisions about the game: whether it is owned and installed, and how it
//! is launched.
use vstd::prelude::*;
use crate::error::LauncherError;

verus! {

/// What a library lookup of the game by its slug gave.
#[derive(Debug)]
pub enum GameLookup {
    /// The lookup failed; holds the library's message.
    Failed(String),
    /// The library has no such game.
    Missing,
    /// The library has the game.
    Found { installed: bool, offer_id: String },
}

/// How the game is started.
#[derive(Debug)]
pub enum LaunchModeChoice {
    /// Without the store's online services, for the given content id.
    Offline(String),
    /// Through the store, for the given offer id.
    Online(String),
}

/// The content id of the game used for offline launches.
pub open spec fn offline_content_id() -> Seq<char> {
    "1035052"@
}

/// Whether a LAN-mode setting holds: it is set and reads exactly `true`.
pub open spec fn spec_is_lan_mode(value: Option<Seq<char>>) -> bool {
    value == Some("true"@)
}

/// Reads the LAN-mode setting from the value of its environment variable,
/// where it is set.
pub fn is_lan_mode(value: Option<String>) -> (r: bool)
    ensures
        r == spec_is_lan_mode(match value {
            Some(v) => Some(v@),
            None => None,
        }),
{
    match value {
        Some(v) => crate::text::str_equal(v.as_str(), "true"),
        None => false,
    }
}

/// The result of the installation check for a lookup: the lookup's error,
/// `GameNotFound`, `GameNotInstalled`, or success.
pub open spec fn installation_checked(lookup: GameLookup, r: Result<(), LauncherError>) -> bool {
    match lookup {
        GameLookup::Failed(m) => r matches Err(LauncherError::LibraryLookup(e)) && e@ == m@,
        GameLookup::Missing => r matches Err(LauncherError::GameNotFound),
        GameLookup::Found { installed, .. } => if installed {
            r is Ok
        } else {
            r matches Err(LauncherError::GameNotInstalled)
        },
    }
}

/// Checks that the game is in the library and installed.
pub fn check_game_installation(lookup: &GameLookup) -> (r: Result<(), LauncherError>)
    ensures
        installation_checked(*lookup, r),
{
    match lookup {
        GameLookup::Failed(m) => Err(LauncherError::LibraryLookup(m.clone())),
        GameLookup::Missing => Err(LauncherError::GameNotFound),
        GameLookup::Found { installed, .. } => if *installed {
            Ok(())
        } else {
            Err(LauncherError::GameNotInstalled)
        },
    }
}

/// Checks whether the game is owned: the lookup's error, else whether the
/// library has it (installed or not).
pub fn check_game_ownership(lookup: &GameLookup) -> (r: Result<bool, LauncherError>)
    ensures
        match *lookup {
            GameLookup::Failed(m) => r matches Err(LauncherError::LibraryLookup(e)) && e@ == m@,
            GameLookup::Missing => r == Ok::<bool, LauncherError>(false),
            GameLookup::Found { .. } => r == Ok::<bool, LauncherError>(true),
        },
{
    match lookup {
        GameLookup::Failed(m) => Err(LauncherError::LibraryLookup(m.clone())),
        GameLookup::Missing => Ok(false),
        GameLookup::Found { .. } => Ok(true),
    }
}

/// The launch mode of a LAN launch: offline, which needs a game path.
pub fn lan_launch_mode(path_override: &Option<String>) -> (r: Result<LaunchModeChoice, LauncherError>)
    ensures
        path_override is None <==> r matches Err(LauncherError::LanPathOverrideRequired),
        path_override is Some ==> (r matches Ok(LaunchModeChoice::Offline(id)) && id@
            == offline_content_id()),
{
    match path_override {
        None => Err(LauncherError::LanPathOverrideRequired),
        Some(_) => Ok(LaunchModeChoice::Offline("1035052".to_owned())),
    }
}

/// The launch mode of an online launch: through the store, for the offer
/// of the installed game.
pub fn online_launch_mode(lookup: &GameLookup) -> (r: Result<LaunchModeChoice, LauncherError>)
    ensures
        match *lookup {
            GameLookup::Found { installed, offer_id } => if installed {
                r matches Ok(LaunchModeChoice::Online(id)) && id@ == offer_id@
            } else {
                r matches Err(LauncherError::GameNotInstalled)
            },
            GameLookup::Failed(m) => r matches Err(LauncherError::LibraryLookup(e)) && e@ == m@,
            GameLookup::Missing => r matches Err(LauncherError::GameNotFound),
        },
{
    match check_game_installation(lookup) {
        Err(e) => Err(e),
        Ok(()) => match lookup {
            GameLookup::Found { offer_id, .. } => Ok(LaunchModeChoice::Online(offer_id.clone())),
            _ => {
                assert(false);
                Err(LauncherError::GameNotFound)
            },
        },
    }
}

/// The game directory as reported to the UI: the path the registry holds
/// for the game, or an empty string where it holds none.
pub fn get_game_dir(game_path: Option<String>) -> (r: String)
    ensures
        r@ == match game_path {
            Some(p) => p@,
            None => Seq::<char>::empty(),
        },
{
    match game_path {
        Some(p) => p,
        None => String::new(),
    }
}

} // verus!
