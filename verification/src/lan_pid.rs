//! Finding the real game process after a LAN launch.
//!
//! The store front spawns a short-lived wrapper with the same executable
//! name before the real game starts. A process counts as the game when its
//! name matches, it started after the launch reference time and it holds at
//! least 1 GiB; among those the one that started last is taken, and it is
//! accepted once two consecutive scans agree on it.
use vstd::prelude::*;
use crate::text::{lowercase_of, to_lowercase, str_equal};

verus! {

/// Smallest resident memory of the real game process (1 GiB).
pub const MIN_GAME_MEMORY_BYTES: u64 = 1073741824;

/// How many process scans are made before giving up (one every 500 ms).
pub const MAX_SCAN_ATTEMPTS: u32 = 360;

/// How far before the launch request a game process may have started.
pub const LAUNCH_SLACK_SECS: u64 = 30;

/// One process as a scan of the process table reports it.
pub struct ProcessSample {
    pub pid: usize,
    pub name: String,
    /// Start time, in seconds since the Unix epoch.
    pub start_time: u64,
    /// Resident memory, in bytes.
    pub memory: u64,
}

/// The game process chosen by one scan.
#[derive(Clone, Copy, Debug, PartialEq, Eq)]
pub struct GameProcess {
    pub pid: u32,
    pub start_time: u64,
    pub memory: u64,
}

/// Whether a lowercased process name is the game's executable name.
pub open spec fn is_game_exe_name(lower: Seq<char>) -> bool {
    lower == "starwarsbattlefrontii.exe"@ || lower == "starwarsbattlefrontii"@
}

/// Whether a process qualifies as the game for a launch at `launch_ref`.
pub open spec fn is_game_candidate(p: ProcessSample, launch_ref: u64) -> bool {
    &&& is_game_exe_name(lowercase_of(p.name@))
    &&& p.start_time >= launch_ref
    &&& p.memory >= MIN_GAME_MEMORY_BYTES
}

/// The process id as a `u32`, or 0 where it does not fit.
pub open spec fn pid_as_u32(pid: usize) -> u32 {
    if pid <= u32::MAX as usize { pid as u32 } else { 0 }
}

/// The game process record of a sample.
pub open spec fn game_process_of(p: ProcessSample) -> GameProcess {
    GameProcess { pid: pid_as_u32(p.pid), start_time: p.start_time, memory: p.memory }
}

/// The launch reference time: 30 s before `now`, or 0 where the clock
/// could not be read.
pub open spec fn spec_launch_reference_time(now_secs: Option<u64>) -> u64 {
    match now_secs {
        Some(t) => if t >= LAUNCH_SLACK_SECS { (t - LAUNCH_SLACK_SECS) as u64 } else { 0 },
        None => 0,
    }
}

/// Computes the launch reference time from the current time, if known.
pub fn launch_reference_time(now_secs: Option<u64>) -> (r: u64)
    ensures
        r == spec_launch_reference_time(now_secs),
{
    let now: u64 = match now_secs {
        Some(t) => t,
        None => 0,
    };
    now.saturating_sub(LAUNCH_SLACK_SECS)
}

/// Converts a process id to `u32`, giving 0 where it does not fit.
pub fn pid_to_u32(pid: usize) -> (r: u32)
    ensures
        r == pid_as_u32(pid),
{
    if pid <= u32::MAX as usize {
        pid as u32
    } else {
        0
    }
}

/// Whether `name`, lowercased, is the game's executable name.
pub fn is_game_process_name(name: &str) -> (r: bool)
    ensures
        r == is_game_exe_name(lowercase_of(name@)),
{
    let lower = to_lowercase(name);
    str_equal(lower.as_str(), "starwarsbattlefrontii.exe") || str_equal(
        lower.as_str(),
        "starwarsbattlefrontii",
    )
}

/// Whether `sample` qualifies as the game for a launch at `launch_ref`.
pub fn is_game_candidate_sample(sample: &ProcessSample, launch_ref: u64) -> (r: bool)
    ensures
        r == is_game_candidate(*sample, launch_ref),
{
    is_game_process_name(sample.name.as_str()) && sample.start_time >= launch_ref
        && sample.memory >= MIN_GAME_MEMORY_BYTES
}

/// Index `i` is the one a scan picks: a candidate that started no earlier
/// than any candidate, and strictly later than every candidate before it.
pub open spec fn is_newest_candidate(samples: Seq<ProcessSample>, launch_ref: u64, i: int) -> bool {
    &&& 0 <= i < samples.len()
    &&& is_game_candidate(samples[i], launch_ref)
    &&& forall|j: int|
        0 <= j < samples.len() && is_game_candidate(#[trigger] samples[j], launch_ref)
            ==> samples[j].start_time <= samples[i].start_time
    &&& forall|j: int|
        0 <= j < i && is_game_candidate(#[trigger] samples[j], launch_ref)
            ==> samples[j].start_time < samples[i].start_time
}

/// Picks, from one scan, the game candidate that started last (the first
/// such in scan order where several started at the same second).
pub fn newest_game_process(samples: &Vec<ProcessSample>, launch_ref: u64) -> (r: Option<GameProcess>)
    ensures
        r is None <==> forall|j: int|
            0 <= j < samples@.len() ==> !is_game_candidate(#[trigger] samples@[j], launch_ref),
        r matches Some(g) ==> exists|i: int|
            is_newest_candidate(samples@, launch_ref, i) && g == game_process_of(
                #[trigger] samples@[i],
            ),
{
    let mut newest: Option<GameProcess> = None;
    let ghost mut best: int = -1;
    let mut k: usize = 0;
    while k < samples.len()
        invariant
            k <= samples.len(),
            -1 <= best < k,
            (best == -1) <==> (newest is None),
            best == -1 ==> forall|j: int|
                0 <= j < k ==> !is_game_candidate(#[trigger] samples@[j], launch_ref),
            best >= 0 ==> {
                &&& newest == Some(game_process_of(samples@[best]))
                &&& is_game_candidate(samples@[best], launch_ref)
                &&& forall|j: int|
                    0 <= j < k && is_game_candidate(#[trigger] samples@[j], launch_ref)
                        ==> samples@[j].start_time <= samples@[best].start_time
                &&& forall|j: int|
                    0 <= j < best && is_game_candidate(#[trigger] samples@[j], launch_ref)
                        ==> samples@[j].start_time < samples@[best].start_time
            },
        decreases samples.len() - k,
    {
        let s = &samples[k];
        if is_game_candidate_sample(s, launch_ref) {
            let replace = match newest {
                None => true,
                Some(g) => s.start_time > g.start_time,
            };
            if replace {
                newest = Some(GameProcess { pid: pid_to_u32(s.pid), start_time: s.start_time, memory: s.memory });
                proof {
                    best = k as int;
                }
            }
        }
        k = k + 1;
    }
    proof {
        if best >= 0 {
            assert(is_newest_candidate(samples@, launch_ref, best));
        }
    }
    newest
}

/// At most one index of a scan is the one picked, so the pick of
/// `newest_game_process` is determined by the scan.
pub proof fn lemma_newest_candidate_unique(samples: Seq<ProcessSample>, launch_ref: u64, i: int, j: int)
    requires
        is_newest_candidate(samples, launch_ref, i),
        is_newest_candidate(samples, launch_ref, j),
    ensures
        i == j,
{
    if i < j {
        assert(is_game_candidate(samples[i], launch_ref));
        assert(samples[i].start_time < samples[j].start_time);
        assert(samples[i].start_time >= samples[j].start_time);
    } else if j < i {
        assert(is_game_candidate(samples[j], launch_ref));
        assert(samples[j].start_time < samples[i].start_time);
        assert(samples[j].start_time >= samples[i].start_time);
    }
}

/// Tracks successive scans until the same game process is seen twice in a row.
pub struct PidStabilizer {
    attempts: u32,
    last_pid: Option<u32>,
}

impl PidStabilizer {
    /// The number of scans observed so far.
    pub closed spec fn scans(&self) -> nat {
        self.attempts as nat
    }

    /// The game process id that the previous scan picked, if any.
    pub closed spec fn previous(&self) -> Option<u32> {
        self.last_pid
    }

    #[verifier::type_invariant]
    spec fn within_budget(&self) -> bool {
        self.attempts <= MAX_SCAN_ATTEMPTS
    }

    /// A tracker that has seen no scan.
    pub fn new() -> (s: Self)
        ensures
            s.scans() == 0,
            s.previous() is None,
    {
        PidStabilizer { attempts: 0, last_pid: None }
    }

    /// Whether another scan is due; false once all scans are spent.
    pub fn should_scan(&self) -> (r: bool)
        ensures
            r == (self.scans() < MAX_SCAN_ATTEMPTS),
            self.scans() <= MAX_SCAN_ATTEMPTS,
    {
        proof {
            use_type_invariant(self);
        }
        self.attempts < MAX_SCAN_ATTEMPTS
    }

    /// Records the game process id that a scan picked (`None` where none
    /// qualified). Gives the id back when the previous scan picked the same.
    pub fn observe(&mut self, newest: Option<u32>) -> (found: Option<u32>)
        requires
            old(self).scans() < MAX_SCAN_ATTEMPTS,
        ensures
            final(self).scans() == old(self).scans() + 1,
            final(self).previous() == newest,
            found == (if newest is Some && old(self).previous() == newest {
                newest
            } else {
                None
            }),
    {
        proof {
            use_type_invariant(&*self);
        }
        let found = match (newest, self.last_pid) {
            (Some(p), Some(q)) => if p == q { Some(p) } else { None },
            _ => None,
        };
        self.attempts = self.attempts + 1;
        self.last_pid = newest;
        found
    }
}

} // verus!
