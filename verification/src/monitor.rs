//! Watching for a launcher process that listens on its port: which processes are
//! candidates, which of them is reported, and how long to wait before looking again.
//! Times are nanoseconds on a monotonic clock; the caller lists the processes, reads
//! their TCP tables and sleeps.
use crate::text::{contains_text, occurs_in};
use std::collections::HashMap;
use vstd::prelude::*;

verus! {

broadcast use vstd::std_specs::hash::group_hash_axioms;

/// The port on which the launcher listens for passwords by default (that of the
/// default target address).
pub const LAUNCHER_PORT: u16 = 4646;

/// A process as listed: its id and its command name.
pub struct ProcInfo {
    pub pid: i32,
    pub comm: String,
}

/// What reading a candidate's TCP table gave: the local ports of its entries, or
/// `None` when the table could not be read.
pub struct PortReport {
    pub pid: i32,
    pub local_ports: Option<Vec<u16>>,
}

/// What the watcher does next.
#[derive(Debug, PartialEq, Eq)]
pub enum MonitorStep {
    /// Read the TCP tables of these processes, then call `check_ports`.
    CheckPorts(Vec<i32>),
    /// This process listens on the port: it is reported.
    Found(i32),
    /// Nothing found: sleep this many nanoseconds, then list the processes again.
    Sleep(u128),
}

/// Remembers, for each process reported, when it was reported, so that a process
/// is not reported again before the check interval has passed.
pub struct ProcMonitor {
    cooldowns: HashMap<i32, u128>,
}

impl View for ProcMonitor {
    type V = Map<i32, u128>;

    closed spec fn view(&self) -> Map<i32, u128> {
        self.cooldowns@
    }
}

/// Time from `since` to `now`, zero when `since` is later (`Instant::duration_since`).
pub open spec fn elapsed(now: u128, since: u128) -> int {
    if now >= since {
        now - since
    } else {
        0
    }
}

/// Whether process `pid` was reported less than `interval` before `now`.
pub open spec fn on_cooldown(m: Map<i32, u128>, pid: i32, now: u128, interval: u128) -> bool {
    m.contains_key(pid) && elapsed(now, m[pid]) < interval
}

/// Whether a listed process is a candidate: its command name contains `name` and it
/// is not on cooldown.
pub open spec fn is_candidate(
    m: Map<i32, u128>,
    pid: i32,
    comm: Seq<char>,
    name: Seq<char>,
    now: u128,
    interval: u128,
) -> bool {
    occurs_in(name, comm) && !on_cooldown(m, pid, now, interval)
}

/// The ids of the candidates among listed processes, in their order.
pub open spec fn candidates(
    m: Map<i32, u128>,
    procs: Seq<(i32, Seq<char>)>,
    name: Seq<char>,
    now: u128,
    interval: u128,
) -> Seq<i32>
    decreases procs.len(),
{
    if procs.len() == 0 {
        Seq::empty()
    } else {
        let rest = candidates(m, procs.drop_last(), name, now, interval);
        let p = procs.last();
        if is_candidate(m, p.0, p.1, name, now, interval) {
            rest.push(p.0)
        } else {
            rest
        }
    }
}

/// The listed processes as ids and command names.
pub open spec fn proc_list(procs: Seq<ProcInfo>) -> Seq<(i32, Seq<char>)> {
    procs.map_values(|p: ProcInfo| (p.pid, p.comm@))
}

/// Whether a TCP table read has an entry on `port`.
pub open spec fn listens(ports: Option<Vec<u16>>, port: u16) -> bool {
    ports matches Some(ps) && ps@.contains(port)
}

/// The index of the first report that listens on `port`, if any.
pub open spec fn first_listening(reports: Seq<PortReport>, port: u16) -> Option<int> {
    if exists|i: int| 0 <= i < reports.len() && listens(#[trigger] reports[i].local_ports, port) {
        Some(
            choose|i: int|
                0 <= i < reports.len() && listens(#[trigger] reports[i].local_ports, port) && (
                forall|j: int| 0 <= j < i ==> !listens(#[trigger] reports[j].local_ports, port)),
        )
    } else {
        None
    }
}

/// Whether `ports` holds `port`.
fn holds_port(ports: &Vec<u16>, port: u16) -> (r: bool)
    ensures
        r == ports@.contains(port),
{
    let mut i: usize = 0;
    while i < ports.len()
        invariant
            i <= ports.len(),
            forall|j: int| 0 <= j < i ==> ports@[j] != port,
        decreases ports.len() - i,
    {
        if ports[i] == port {
            assert(ports@[i as int] == port);
            return true;
        }
        i = i + 1;
    }
    false
}

impl ProcMonitor {
    /// A watcher that has reported nothing yet.
    pub fn new() -> (r: ProcMonitor)
        ensures
            r@ == Map::<i32, u128>::empty(),
    {
        ProcMonitor { cooldowns: HashMap::new() }
    }

    /// Whether process `pid` was reported less than `interval` before `now`.
    pub fn is_on_cooldown(&self, pid: i32, now: u128, interval: u128) -> (r: bool)
        ensures
            r == on_cooldown(self@, pid, now, interval),
    {
        match self.cooldowns.get(&pid) {
            Some(seen) => {
                let e: u128 = if now >= *seen {
                    now - *seen
                } else {
                    0
                };
                e < interval
            },
            None => false,
        }
    }

    /// The first decision of a round: among the listed processes, the candidates
    /// (command name containing `name`, not on cooldown). With none, sleep the check
    /// interval; else read their TCP tables.
    pub fn scan_processes(&self, procs: &Vec<ProcInfo>, name: &str, now: u128, interval: u128) -> (r: MonitorStep)
        ensures
            ({
                let c = candidates(self@, proc_list(procs@), name@, now, interval);
                if c.len() == 0 {
                    r == MonitorStep::Sleep(interval)
                } else {
                    r matches MonitorStep::CheckPorts(v) && v@ == c
                }
            }),
    {
        let mut found: Vec<i32> = Vec::new();
        let mut i: usize = 0;
        while i < procs.len()
            invariant
                i <= procs.len(),
                found@ == candidates(self@, proc_list(procs@.take(i as int)), name@, now, interval),
            decreases procs.len() - i,
        {
            let p = &procs[i];
            proof {
                assert(proc_list(procs@.take(i + 1)).drop_last() =~= proc_list(procs@.take(i as int)));
                assert(proc_list(procs@.take(i + 1)).last() == (p.pid, p.comm@));
            }
            if contains_text(p.comm.as_str(), name) && !self.is_on_cooldown(p.pid, now, interval) {
                found.push(p.pid);
            }
            i = i + 1;
        }
        proof {
            assert(procs@.take(procs@.len() as int) =~= procs@);
        }
        if found.len() == 0 {
            MonitorStep::Sleep(interval)
        } else {
            MonitorStep::CheckPorts(found)
        }
    }

    /// The second decision of a round, on the TCP tables read for the candidates:
    /// the first candidate whose table has an entry on `port` is reported and put on
    /// cooldown from `now`; with none, sleep the shorter interval (or the check
    /// interval when there were no candidates).
    pub fn check_ports(&mut self, reports: &Vec<PortReport>, port: u16, now: u128, interval: u128, found_interval: u128) -> (r: MonitorStep)
        ensures
            match first_listening(reports@, port) {
                Some(i) => r == MonitorStep::Found(reports@[i].pid) && final(self)@ == old(
                    self,
                )@.insert(reports@[i].pid, now),
                None => final(self)@ == old(self)@ && r == MonitorStep::Sleep(
                    if reports@.len() > 0 {
                        found_interval
                    } else {
                        interval
                    },
                ),
            },
    {
        let mut i: usize = 0;
        while i < reports.len()
            invariant
                i <= reports.len(),
                self@ == old(self)@,
                forall|j: int| 0 <= j < i ==> !listens(#[trigger] reports@[j].local_ports, port),
            decreases reports.len() - i,
        {
            let hit = match &reports[i].local_ports {
                Some(ps) => holds_port(ps, port),
                None => false,
            };
            if hit {
                let pid = reports[i].pid;
                self.cooldowns.insert(pid, now);
                proof {
                    assert(listens(reports@[i as int].local_ports, port));
                    let k = choose|k: int|
                        0 <= k < reports@.len() && listens(#[trigger] reports@[k].local_ports, port)
                            && (forall|j: int|
                            0 <= j < k ==> !listens(#[trigger] reports@[j].local_ports, port));
                    if k < i {
                    } else if k > i {
                        assert(!listens(reports@[i as int].local_ports, port));
                    }
                }
                return MonitorStep::Found(pid);
            }
            i = i + 1;
        }
        if reports.len() > 0 {
            MonitorStep::Sleep(found_interval)
        } else {
            MonitorStep::Sleep(interval)
        }
    }
}

/// A process reported at `at` is a candidate again only once `interval` has passed
/// since: at a later reading `later` it is a candidate only if `later - at >= interval`.
/// (With a zero interval and a clock that goes back, the elapsed time saturates at
/// zero and the process is a candidate at once; that case is left out.)
pub proof fn lemma_reported_not_candidate_again(
    m: Map<i32, u128>,
    pid: i32,
    at: u128,
    later: u128,
    interval: u128,
    comm: Seq<char>,
    name: Seq<char>,
)
    requires
        interval > 0 || at <= later,
    ensures
        is_candidate(m.insert(pid, at), pid, comm, name, later, interval) ==> later >= at && later
            - at >= interval,
{
}

/// Whether `pid` is the id of a listed process that is a candidate.
pub open spec fn listed_candidate(
    m: Map<i32, u128>,
    procs: Seq<(i32, Seq<char>)>,
    name: Seq<char>,
    now: u128,
    interval: u128,
    pid: i32,
) -> bool {
    exists|i: int|
        0 <= i < procs.len() && #[trigger] procs[i].0 == pid && is_candidate(
            m,
            procs[i].0,
            procs[i].1,
            name,
            now,
            interval,
        )
}

/// A process that is not a candidate never reaches the port check: each id among
/// the candidates of a scan is that of a listed process whose command name contains
/// `name` and that is not on cooldown.
pub proof fn lemma_candidates_are_matching(
    m: Map<i32, u128>,
    procs: Seq<(i32, Seq<char>)>,
    name: Seq<char>,
    now: u128,
    interval: u128,
)
    ensures
        forall|k: int|
            0 <= k < candidates(m, procs, name, now, interval).len() ==> listed_candidate(
                m,
                procs,
                name,
                now,
                interval,
                #[trigger] candidates(m, procs, name, now, interval)[k],
            ),
    decreases procs.len(),
{
    if procs.len() > 0 {
        let init = procs.drop_last();
        lemma_candidates_are_matching(m, init, name, now, interval);
        let rest = candidates(m, init, name, now, interval);
        let c = candidates(m, procs, name, now, interval);
        let p = procs.last();
        assert forall|k: int| 0 <= k < c.len() implies listed_candidate(
            m,
            procs,
            name,
            now,
            interval,
            #[trigger] c[k],
        ) by {
            if k < rest.len() {
                assert(c[k] == rest[k]);
                assert(listed_candidate(m, init, name, now, interval, rest[k]));
                let i = choose|i: int|
                    0 <= i < init.len() && #[trigger] init[i].0 == rest[k] && is_candidate(
                        m,
                        init[i].0,
                        init[i].1,
                        name,
                        now,
                        interval,
                    );
                assert(procs[i] == init[i]);
                assert(procs[i].0 == c[k]);
            } else {
                let i = procs.len() - 1;
                assert(is_candidate(m, p.0, p.1, name, now, interval));
                assert(c == rest.push(p.0));
                assert(procs[i] == p);
                assert(procs[i].0 == c[k]);
            }
        }
    }
}

/// A scan does not hand on a process reported at `at` for the port check before
/// `interval` has passed: if its id is among the candidates of a scan at `later`,
/// however the processes are listed, then `later - at >= interval`.
pub proof fn lemma_reported_pid_not_rescanned(
    m: Map<i32, u128>,
    pid: i32,
    at: u128,
    procs: Seq<(i32, Seq<char>)>,
    name: Seq<char>,
    later: u128,
    interval: u128,
)
    requires
        interval > 0 || at <= later,
    ensures
        candidates(m.insert(pid, at), procs, name, later, interval).contains(pid) ==> later >= at
            && later - at >= interval,
{
    let m2 = m.insert(pid, at);
    let c = candidates(m2, procs, name, later, interval);
    if c.contains(pid) {
        let k = choose|k: int| 0 <= k < c.len() && c[k] == pid;
        lemma_candidates_are_matching(m2, procs, name, later, interval);
        assert(listed_candidate(m2, procs, name, later, interval, c[k]));
        let i = choose|i: int|
            0 <= i < procs.len() && #[trigger] procs[i].0 == pid && is_candidate(
                m2,
                procs[i].0,
                procs[i].1,
                name,
                later,
                interval,
            );
        lemma_reported_not_candidate_again(m, pid, at, later, interval, procs[i].1, name);
    }
}

/// When report `i` listens on `port`, some report no later than `i` is the first
/// that listens.
proof fn lemma_least_listening(reports: Seq<PortReport>, port: u16, i: int)
    requires
        0 <= i < reports.len(),
        listens(reports[i].local_ports, port),
    ensures
        exists|j: int|
            0 <= j <= i && listens(#[trigger] reports[j].local_ports, port) && (forall|l: int|
                0 <= l < j ==> !listens(#[trigger] reports[l].local_ports, port)),
    decreases i,
{
    if exists|l: int| 0 <= l < i && listens(#[trigger] reports[l].local_ports, port) {
        let l = choose|l: int| 0 <= l < i && listens(#[trigger] reports[l].local_ports, port);
        lemma_least_listening(reports, port, l);
    } else {
        assert(0 <= i <= i && listens(reports[i].local_ports, port));
    }
}

/// Any entry of a TCP table counts, wherever it stands: when some report's table has
/// an entry on `port`, at any position, a report is found, no later than that one;
/// and the report found has an entry on `port`.
pub proof fn lemma_any_entry_on_port_is_found(reports: Seq<PortReport>, port: u16, i: int, k: int)
    requires
        0 <= i < reports.len(),
        reports[i].local_ports matches Some(ps) && 0 <= k < ps@.len() && ps@[k] == port,
    ensures
        first_listening(reports, port) matches Some(j) && 0 <= j <= i && (reports[j].local_ports matches Some(
            qs,
        ) && exists|l: int| 0 <= l < qs@.len() && qs@[l] == port),
{
    match reports[i].local_ports {
        Some(ps) => {
            assert(ps@[k] == port);
            assert(ps@.contains(port));
        },
        None => {},
    }
    assert(listens(reports[i].local_ports, port));
    lemma_least_listening(reports, port, i);
    let j = first_listening(reports, port)->0;
    if j > i {
        assert(!listens(reports[i].local_ports, port));
    }
    assert(listens(reports[j].local_ports, port));
    let qs = reports[j].local_ports->0;
    assert(qs@.contains(port));
    let l = choose|l: int| 0 <= l < qs@.len() && qs@[l] == port;
    assert(0 <= l < qs@.len() && qs@[l] == port);
}

} // verus!
