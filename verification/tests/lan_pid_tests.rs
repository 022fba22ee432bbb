use kyber_launcher::lan_pid::{
    is_game_process_name, launch_reference_time, newest_game_process, pid_to_u32, GameProcess,
    PidStabilizer, ProcessSample, MAX_SCAN_ATTEMPTS, MIN_GAME_MEMORY_BYTES,
};

fn sample(pid: usize, name: &str, start_time: u64, memory: u64) -> ProcessSample {
    ProcessSample { pid, name: name.to_string(), start_time, memory }
}

#[test]
fn game_name_is_matched_case_insensitively() {
    assert!(is_game_process_name("starwarsbattlefrontii.exe"));
    assert!(is_game_process_name("StarWarsBattlefrontII.EXE"));
    assert!(is_game_process_name("STARWARSBATTLEFRONTII"));
    assert!(!is_game_process_name("starwarsbattlefront.exe"));
    assert!(!is_game_process_name("steam.exe"));
    assert!(!is_game_process_name(" starwarsbattlefrontii.exe"));
}

#[test]
fn reference_time_is_thirty_seconds_back() {
    assert_eq!(launch_reference_time(Some(1000)), 970);
    assert_eq!(launch_reference_time(Some(10)), 0);
    assert_eq!(launch_reference_time(None), 0);
}

#[test]
fn pid_conversion_saturates_to_zero() {
    assert_eq!(pid_to_u32(4242), 4242);
    assert_eq!(pid_to_u32(u32::MAX as usize), u32::MAX);
    if usize::BITS > 32 {
        assert_eq!(pid_to_u32((u32::MAX as usize) + 1), 0);
    }
}

#[test]
fn newest_candidate_is_picked() {
    let gb = MIN_GAME_MEMORY_BYTES;
    let samples = vec![
        sample(10, "StarWarsBattlefrontII.exe", 1000, 300 * 1024 * 1024),
        sample(11, "starwarsbattlefrontii.exe", 1001, 3 * gb),
        sample(12, "explorer.exe", 2000, 4 * gb),
        sample(13, "starwarsbattlefrontii", 1005, gb),
        sample(14, "starwarsbattlefrontii.exe", 900, 5 * gb),
    ];
    assert_eq!(
        newest_game_process(&samples, 970),
        Some(GameProcess { pid: 13, start_time: 1005, memory: gb })
    );
}

#[test]
fn first_of_equal_start_times_wins() {
    let gb = MIN_GAME_MEMORY_BYTES;
    let samples = vec![
        sample(21, "starwarsbattlefrontii.exe", 500, 2 * gb),
        sample(22, "starwarsbattlefrontii.exe", 500, 3 * gb),
    ];
    assert_eq!(
        newest_game_process(&samples, 0),
        Some(GameProcess { pid: 21, start_time: 500, memory: 2 * gb })
    );
}

#[test]
fn no_candidate_gives_none() {
    let samples = vec![
        sample(1, "starwarsbattlefrontii.exe", 100, MIN_GAME_MEMORY_BYTES - 1),
        sample(2, "starwarsbattlefrontii.exe", 99, MIN_GAME_MEMORY_BYTES),
    ];
    assert_eq!(newest_game_process(&samples, 100), None);
    assert_eq!(newest_game_process(&Vec::new(), 0), None);
}

#[test]
fn pid_is_accepted_after_two_agreeing_scans() {
    let mut t = PidStabilizer::new();
    assert!(t.should_scan());
    assert_eq!(t.observe(Some(5)), None);
    assert_eq!(t.observe(Some(6)), None);
    assert_eq!(t.observe(None), None);
    assert_eq!(t.observe(Some(6)), None);
    assert_eq!(t.observe(Some(6)), Some(6));
}

#[test]
fn scans_stop_after_budget() {
    let mut t = PidStabilizer::new();
    let mut scans = 0;
    while t.should_scan() {
        assert_eq!(t.observe(Some(scans)), None);
        scans += 1;
    }
    assert_eq!(scans, MAX_SCAN_ATTEMPTS);
}
