//! Filtering the events that the local LSX server reports.
use vstd::prelude::*;
use crate::text::str_equal;

verus! {

/// An event of the launcher core.
#[derive(Debug)]
pub enum LsxEvent {
    /// A game process sent an LSX request of the given name.
    Request { pid: u32, name: String },
    /// Any other event.
    Other,
}

/// The request that a started game sends once it is running.
pub open spec fn challenge_response_name() -> Seq<char> {
    "ChallengeResponse"@
}

/// Whether an event is a challenge response.
pub open spec fn is_challenge_response(e: LsxEvent) -> bool {
    e matches LsxEvent::Request { name, .. } && name@ == challenge_response_name()
}

/// The process that sent the first challenge response among `events`.
pub fn challenge_response_pid(events: &Vec<LsxEvent>) -> (r: Option<u32>)
    ensures
        r is None <==> forall|j: int| 0 <= j < events@.len() ==> !is_challenge_response(#[trigger] events@[j]),
        r matches Some(pid) ==> exists|i: int|
            {
                &&& 0 <= i < events@.len()
                &&& is_challenge_response(#[trigger] events@[i])
                &&& events@[i] matches LsxEvent::Request { pid: p, .. } && p == pid
                &&& forall|j: int| 0 <= j < i ==> !is_challenge_response(#[trigger] events@[j])
            },
{
    let mut i: usize = 0;
    while i < events.len()
        invariant
            i <= events@.len(),
            forall|j: int| 0 <= j < i ==> !is_challenge_response(#[trigger] events@[j]),
        decreases events@.len() - i,
    {
        match &events[i] {
            LsxEvent::Request { pid, name } => {
                if str_equal(name.as_str(), "ChallengeResponse") {
                    assert(is_challenge_response(events@[i as int]));
                    return Some(*pid);
                }
            },
            LsxEvent::Other => {},
        }
        i = i + 1;
    }
    None
}

/// The names of the requests among `events` that process `pid` sent, in order.
pub open spec fn requests_from(events: Seq<LsxEvent>, pid: u32) -> Seq<Seq<char>>
    decreases events.len(),
{
    if events.len() == 0 {
        Seq::empty()
    } else {
        let r = requests_from(events.drop_last(), pid);
        match events.last() {
            LsxEvent::Request { pid: p, name } => if p == pid {
                r.push(name@)
            } else {
                r
            },
            LsxEvent::Other => r,
        }
    }
}

/// Whether an event is a request sent by process `pid`.
pub open spec fn sent_by(pid: u32) -> spec_fn(LsxEvent) -> bool {
    |e: LsxEvent| e matches LsxEvent::Request { pid: p, .. } && p == pid
}

/// The requests that process `pid` sent are reported one for one: there are
/// as many names as there are request events from `pid`, and the k-th name
/// is the name of the k-th such event (a repeated request is reported again).
pub proof fn lemma_requests_from_one_for_one(events: Seq<LsxEvent>, pid: u32)
    ensures
        requests_from(events, pid).len() == events.filter(sent_by(pid)).len(),
        forall|k: int|
            0 <= k < requests_from(events, pid).len() ==> #[trigger] requests_from(events, pid)[k]
                == events.filter(sent_by(pid))[k]->name@,
    decreases events.len(),
{
    reveal(Seq::filter);
    if events.len() > 0 {
        lemma_requests_from_one_for_one(events.drop_last(), pid);
        let r = requests_from(events.drop_last(), pid);
        let f = events.drop_last().filter(sent_by(pid));
        assert(events.filter(sent_by(pid)) == if sent_by(pid)(events.last()) {
            f.push(events.last())
        } else {
            f
        });
        if sent_by(pid)(events.last()) {
            assert forall|k: int| 0 <= k < r.len() + 1 implies #[trigger] r.push(
                events.last()->name@,
            )[k] == f.push(events.last())[k]->name@ by {
                if k < r.len() {
                    assert(r.push(events.last()->name@)[k] == r[k]);
                    assert(f.push(events.last())[k] == f[k]);
                }
            }
        }
    }
}

/// The names of the requests that process `pid` sent, in the order of the events.
pub fn request_names_for_pid(events: &Vec<LsxEvent>, pid: u32) -> (names: Vec<String>)
    ensures
        names@.map_values(|s: String| s@) == requests_from(events@, pid),
        names@.len() == events@.filter(sent_by(pid)).len(),
        forall|k: int|
            0 <= k < names@.len() ==> #[trigger] names@[k]@ == events@.filter(sent_by(pid))[k]->name@,
{
    let mut names: Vec<String> = Vec::new();
    let mut i: usize = 0;
    while i < events.len()
        invariant
            i <= events@.len(),
            names@.map_values(|s: String| s@) == requests_from(events@.take(i as int), pid),
        decreases events@.len() - i,
    {
        assert(events@.take(i + 1).drop_last() =~= events@.take(i as int));
        let ghost old_names = names@;
        match &events[i] {
            LsxEvent::Request { pid: p, name } => {
                if *p == pid {
                    names.push(name.clone());
                    assert(names@.map_values(|s: String| s@) =~= old_names.map_values(|s: String| s@).push(name@));
                }
            },
            LsxEvent::Other => {},
        }
        i = i + 1;
    }
    assert(events@.take(events@.len() as int) =~= events@);
    proof {
        lemma_requests_from_one_for_one(events@, pid);
        assert forall|k: int| 0 <= k < names@.len() implies #[trigger] names@[k]@
            == events@.filter(sent_by(pid))[k]->name@ by {
            assert(names@.map_values(|s: String| s@)[k] == names@[k]@);
        }
    }
    names
}

/// Milliseconds between two polls of the event queue: 25 when no startup
/// flag was given, 100 otherwise.
pub fn lsx_poll_interval_ms(is_startup: Option<bool>) -> (ms: u64)
    ensures
        ms == (if is_startup is None { 25u64 } else { 100u64 }),
{
    match is_startup {
        None => 25,
        Some(_) => 100,
    }
}

} // verus!
