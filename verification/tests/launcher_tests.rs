use kyber_launcher::error::LauncherError;
use kyber_launcher::game::{
    check_game_installation, check_game_ownership, get_game_dir, is_lan_mode, lan_launch_mode,
    online_launch_mode, GameLookup, LaunchModeChoice,
};
use kyber_launcher::injection_env::{forwarded_env_keys, injection_env};
use kyber_launcher::login::{auth_token_or_empty, needs_login, parse_login_override, LoginOverride};
use kyber_launcher::lsx::{challenge_response_pid, lsx_poll_interval_ms, request_names_for_pid, LsxEvent};
use kyber_launcher::player::{
    convert_service_player, convert_service_players, first_search_result, player_ids, AvatarRecord,
    ImageRecord, PlayerRecord,
};

fn image(h: u16, path: &str) -> ImageRecord {
    ImageRecord { height: Some(h), width: None, path: path.to_string() }
}

fn player(id: &str, with_avatar: bool) -> PlayerRecord {
    PlayerRecord {
        id: id.to_string(),
        pd: format!("pd-{id}"),
        psd: format!("psd-{id}"),
        display_name: format!("Display {id}"),
        unique_name: format!("unique_{id}"),
        nickname: format!("nick_{id}"),
        avatar: if with_avatar {
            Some(AvatarRecord { small: image(40, "s.png"), medium: image(208, "m.png"), large: image(416, "l.png") })
        } else {
            None
        },
        relationship: "FRIEND".to_string(),
    }
}

#[test]
fn player_fields_are_copied() {
    let p = convert_service_player(&player("7", true));
    assert_eq!(p.id, "7");
    assert_eq!(p.pd, "pd-7");
    assert_eq!(p.psd, "psd-7");
    assert_eq!(p.display_name, "Display 7");
    assert_eq!(p.unique_name, "unique_7");
    assert_eq!(p.nickname, "nick_7");
    assert_eq!(p.relationship, "FRIEND");
    let a = p.avatar.expect("avatar");
    assert_eq!(a.small.height, Some(40));
    assert_eq!(a.medium.path, "m.png");
    assert_eq!(a.large.width, None);
    assert!(convert_service_player(&player("8", false)).avatar.is_none());
}

#[test]
fn friend_list_keeps_order() {
    let list = vec![player("a", false), player("b", true)];
    let out = convert_service_players(&list);
    assert_eq!(out.len(), 2);
    assert_eq!(out[0].id, "a");
    assert_eq!(out[1].id, "b");
    assert_eq!(player_ids(&list), vec!["a", "b"]);
}

#[test]
fn search_takes_first_or_fails() {
    match first_search_result(&vec![player("x", false), player("y", false)]) {
        Ok(p) => assert_eq!(p.id, "x"),
        Err(_) => panic!("expected a player"),
    }
    match first_search_result(&Vec::new()) {
        Err(e) => assert_eq!(e.message(), "User not found"),
        Ok(_) => panic!("expected an error"),
    }
}

#[test]
fn login_override_with_colon_is_credentials() {
    match parse_login_override("alice:s3cret") {
        Some(LoginOverride::Credentials { persona, password }) => {
            assert_eq!(persona, "alice");
            assert_eq!(password, "s3cret");
        }
        other => panic!("unexpected {other:?}"),
    }
}

#[test]
fn login_override_splits_at_last_colon() {
    match parse_login_override("a:b:c") {
        Some(LoginOverride::Credentials { persona, password }) => {
            assert_eq!(persona, "a:b");
            assert_eq!(password, "c");
        }
        other => panic!("unexpected {other:?}"),
    }
    match parse_login_override(":") {
        Some(LoginOverride::Credentials { persona, password }) => {
            assert_eq!(persona, "");
            assert_eq!(password, "");
        }
        other => panic!("unexpected {other:?}"),
    }
}

#[test]
fn login_override_without_match_is_token() {
    match parse_login_override("eyJhbGciOi.token") {
        Some(LoginOverride::AccessToken(t)) => assert_eq!(t, "eyJhbGciOi.token"),
        other => panic!("unexpected {other:?}"),
    }
    match parse_login_override("line\nbreak:pw") {
        Some(LoginOverride::AccessToken(t)) => assert_eq!(t, "line\nbreak:pw"),
        other => panic!("unexpected {other:?}"),
    }
}

#[test]
fn login_decisions() {
    assert!(needs_login(false, false));
    assert!(needs_login(true, true));
    assert!(!needs_login(true, false));
    assert_eq!(auth_token_or_empty(Some("tok".to_string())), "tok");
    assert_eq!(auth_token_or_empty(None), "");
}

#[test]
fn lan_mode_needs_exact_true() {
    assert!(is_lan_mode(Some("true".to_string())));
    assert!(!is_lan_mode(Some("TRUE".to_string())));
    assert!(!is_lan_mode(Some("1".to_string())));
    assert!(!is_lan_mode(None));
}

#[test]
fn installation_check_outcomes() {
    assert!(check_game_installation(&GameLookup::Found { installed: true, offer_id: "o".into() }).is_ok());
    let msg = |r: Result<(), LauncherError>| r.err().map(|e| e.message());
    assert_eq!(msg(check_game_installation(&GameLookup::Missing)), Some("Game not found".to_string()));
    assert_eq!(
        msg(check_game_installation(&GameLookup::Found { installed: false, offer_id: "o".into() })),
        Some("Game not installed".to_string())
    );
    assert_eq!(msg(check_game_installation(&GameLookup::Failed("offline".into()))), Some("offline".to_string()));
}

#[test]
fn ownership_check_outcomes() {
    assert!(matches!(check_game_ownership(&GameLookup::Missing), Ok(false)));
    assert!(matches!(check_game_ownership(&GameLookup::Found { installed: false, offer_id: "o".into() }), Ok(true)));
    assert!(matches!(check_game_ownership(&GameLookup::Failed("x".into())), Err(LauncherError::LibraryLookup(_))));
}

#[test]
fn launch_modes() {
    match lan_launch_mode(&Some("C:\\Games\\SWBF2".to_string())) {
        Ok(LaunchModeChoice::Offline(id)) => assert_eq!(id, "1035052"),
        other => panic!("unexpected {other:?}"),
    }
    match lan_launch_mode(&None) {
        Err(e) => assert_eq!(e.message(), "LAN mode requires game path override"),
        other => panic!("unexpected {other:?}"),
    }
    match online_launch_mode(&GameLookup::Found { installed: true, offer_id: "Origin.OFR.50.0002148".into() }) {
        Ok(LaunchModeChoice::Online(id)) => assert_eq!(id, "Origin.OFR.50.0002148"),
        other => panic!("unexpected {other:?}"),
    }
    assert!(matches!(online_launch_mode(&GameLookup::Missing), Err(LauncherError::GameNotFound)));
}

#[test]
fn game_dir_defaults_to_empty() {
    assert_eq!(get_game_dir(Some("C:\\Games".to_string())), "C:\\Games");
    assert_eq!(get_game_dir(None), "");
}

#[test]
fn error_messages() {
    assert_eq!(LauncherError::LanGameTimeout.message(), "LAN mode: timed out (3min) waiting for game with >=1GB memory");
    assert_eq!(LauncherError::LoginFailed.message(), "Login failed!");
}

#[test]
fn challenge_response_is_found() {
    let events = vec![
        LsxEvent::Other,
        LsxEvent::Request { pid: 5, name: "GetConfig".into() },
        LsxEvent::Request { pid: 9, name: "ChallengeResponse".into() },
        LsxEvent::Request { pid: 7, name: "ChallengeResponse".into() },
    ];
    assert_eq!(challenge_response_pid(&events), Some(9));
    assert_eq!(challenge_response_pid(&events[..2].iter().map(|_| LsxEvent::Other).collect()), None);
}

#[test]
fn requests_are_filtered_by_pid() {
    let events = vec![
        LsxEvent::Request { pid: 5, name: "A".into() },
        LsxEvent::Request { pid: 6, name: "B".into() },
        LsxEvent::Other,
        LsxEvent::Request { pid: 5, name: "C".into() },
    ];
    assert_eq!(request_names_for_pid(&events, 5), vec!["A", "C"]);
    assert_eq!(request_names_for_pid(&events, 8), Vec::<String>::new());
    assert_eq!(lsx_poll_interval_ms(None), 25);
    assert_eq!(lsx_poll_interval_ms(Some(false)), 100);
}

#[test]
fn injection_env_keeps_set_variables() {
    let keys = forwarded_env_keys();
    assert_eq!(keys.len(), 23);
    assert_eq!(keys[0], "KYBER_API_TOKEN");
    assert_eq!(keys[22], "GRPC_VERBOSITY");
    let mut values: Vec<Option<String>> = vec![None; keys.len()];
    values[0] = Some("tok".into());
    values[6] = Some("true".into());
    assert_eq!(
        injection_env(&values),
        vec![
            ("KYBER_API_TOKEN".to_string(), "tok".to_string()),
            ("KYBER_LAN_MODE".to_string(), "true".to_string())
        ]
    );
}
