use vstd::prelude::*;

verus! {

/// Minimum time between two checks of the local interfaces, in milliseconds.
pub const CHECK_DEBOUNCE_MILLIS: u64 = 5000;

/// What a call of `NetworkMonitor::is_network_changed` concluded.
#[derive(PartialEq, Eq, Structural, Clone, Copy, Debug)]
pub enum NetworkCheck {
    /// Nothing changed, or the check was skipped.
    Unchanged,
    /// The set of local addresses differs from the stored baseline.
    Changed,
    /// The addresses are the same; the relays must be probed to decide.
    ProbeRelays,
}

/// Tracks the local IPv4 addresses to notice when the network changes.
///
/// Time is a monotonic reading in milliseconds supplied by the caller, and
/// each address is an IPv4 address in host byte order. The baseline is
/// `None` until the first successful interface query.
pub struct NetworkMonitor {
    pub last_check_millis: u64,
    pub last_ip_addresses: Option<Vec<u32>>,
}

/// The abstract state of a monitor: when it last checked, and the baseline
/// set of addresses, if one was taken.
pub struct MonitorView {
    pub last_check_millis: u64,
    pub addresses: Option<Set<u32>>,
}

impl View for NetworkMonitor {
    type V = MonitorView;

    open spec fn view(&self) -> MonitorView {
        MonitorView {
            last_check_millis: self.last_check_millis,
            addresses: match self.last_ip_addresses {
                Some(v) => Some(v@.to_set()),
                None => None,
            },
        }
    }
}

/// Milliseconds from `since` to `now`, zero if the clock reads earlier.
pub open spec fn elapsed_millis(since: u64, now: u64) -> nat {
    if now >= since {
        (now - since) as nat
    } else {
        0
    }
}

/// The outcome of checking at time `now`, given the addresses the interface
/// query found (`None` when the query failed), as the next state and the
/// verdict.
pub open spec fn check_outcome(m: MonitorView, now: u64, current: Option<Set<u32>>) -> (
    MonitorView,
    NetworkCheck,
) {
    if elapsed_millis(m.last_check_millis, now) < CHECK_DEBOUNCE_MILLIS {
        (m, NetworkCheck::Unchanged)
    } else {
        match current {
            None => (MonitorView { last_check_millis: now, ..m }, NetworkCheck::Unchanged),
            Some(s) => match m.addresses {
                None => (
                    MonitorView { last_check_millis: now, addresses: Some(s) },
                    NetworkCheck::Unchanged,
                ),
                Some(b) => if s != b {
                    (MonitorView { last_check_millis: now, addresses: Some(s) }, NetworkCheck::Changed)
                } else {
                    (MonitorView { last_check_millis: now, ..m }, NetworkCheck::ProbeRelays)
                },
            },
        }
    }
}

pub open spec fn addresses_of(current: Option<Vec<u32>>) -> Option<Set<u32>> {
    match current {
        None => None,
        Some(v) => Some(v@.to_set()),
    }
}

fn contains_address(v: &Vec<u32>, a: u32) -> (r: bool)
    ensures
        r == v@.contains(a),
{
    let mut i: usize = 0;
    while i < v.len()
        invariant
            i <= v.len(),
            forall|j: int| 0 <= j < i ==> v@[j] != a,
        decreases v.len() - i,
    {
        if v[i] == a {
            return true;
        }
        i = i + 1;
    }
    false
}

fn includes_all(v: &Vec<u32>, w: &Vec<u32>) -> (r: bool)
    ensures
        r == (forall|a: u32| w@.contains(a) ==> v@.contains(a)),
{
    let mut i: usize = 0;
    while i < w.len()
        invariant
            i <= w.len(),
            forall|j: int| 0 <= j < i ==> v@.contains(#[trigger] w@[j]),
        decreases w.len() - i,
    {
        if !contains_address(v, w[i]) {
            return false;
        }
        i = i + 1;
    }
    true
}

/// Whether two address lists hold the same set of addresses.
pub fn same_addresses(v: &Vec<u32>, w: &Vec<u32>) -> (r: bool)
    ensures
        r == (v@.to_set() == w@.to_set()),
{
    let vw = includes_all(v, w);
    let wv = includes_all(w, v);
    if vw && wv {
        assert(v@.to_set() =~= w@.to_set());
    } else if !vw {
        let ghost a = choose|a: u32| w@.contains(a) && !v@.contains(a);
        assert(w@.to_set().contains(a) && !v@.to_set().contains(a));
    } else {
        let ghost a = choose|a: u32| v@.contains(a) && !w@.contains(a);
        assert(v@.to_set().contains(a) && !w@.to_set().contains(a));
    }
    vw && wv
}

impl NetworkMonitor {
    /// A monitor created at time `now_millis`, with no baseline yet.
    pub fn new(now_millis: u64) -> (r: Self)
        ensures
            r@.last_check_millis == now_millis,
            r@.addresses is None,
    {
        NetworkMonitor { last_check_millis: now_millis, last_ip_addresses: None }
    }

    /// Whether a check at `now_millis` would run, that is, whether five
    /// seconds have passed since the last one. When it would not, the caller
    /// need not query the interfaces at all.
    pub fn needs_check(&self, now_millis: u64) -> (r: bool)
        ensures
            r == (elapsed_millis(self@.last_check_millis, now_millis) >= CHECK_DEBOUNCE_MILLIS),
            !r ==> forall|found: Option<Set<u32>>|
                #[trigger] check_outcome(self@, now_millis, found) == (self@, NetworkCheck::Unchanged),
    {
        let elapsed = if now_millis >= self.last_check_millis {
            now_millis - self.last_check_millis
        } else {
            0
        };
        elapsed >= CHECK_DEBOUNCE_MILLIS
    }

    /// Decides at time `now_millis` whether the network changed, given the
    /// non-loopback IPv4 addresses found on the local interfaces (`None` when
    /// the interface query failed). Within five seconds of the last check it
    /// answers `Unchanged` and changes nothing; the first successful query sets
    /// the baseline; when the addresses are unchanged the caller is to probe
    /// the relays and hand the result to `relays_probed`.
    pub fn is_network_changed(&mut self, now_millis: u64, current: Option<Vec<u32>>) -> (r:
        NetworkCheck)
        ensures
            (final(self)@, r) == check_outcome(old(self)@, now_millis, addresses_of(current)),
    {
        let elapsed = if now_millis >= self.last_check_millis {
            now_millis - self.last_check_millis
        } else {
            0
        };
        if elapsed < CHECK_DEBOUNCE_MILLIS {
            return NetworkCheck::Unchanged;
        }
        match current {
            None => {
                self.last_check_millis = now_millis;
                NetworkCheck::Unchanged
            },
            Some(ips) => {
                let changed = match &self.last_ip_addresses {
                    None => None,
                    Some(base) => Some(!same_addresses(&ips, base)),
                };
                match changed {
                    None => {
                        self.last_ip_addresses = Some(ips);
                        self.last_check_millis = now_millis;
                        NetworkCheck::Unchanged
                    },
                    Some(true) => {
                        self.last_ip_addresses = Some(ips);
                        self.last_check_millis = now_millis;
                        NetworkCheck::Changed
                    },
                    Some(false) => {
                        self.last_check_millis = now_millis;
                        NetworkCheck::ProbeRelays
                    },
                }
            },
        }
    }

    /// Records the result of probing the relays after `ProbeRelays` at time
    /// `now_millis`; the network counts as changed when no relay answered.
    pub fn relays_probed(&mut self, now_millis: u64, reachable: bool) -> (r: bool)
        ensures
            r == !reachable,
            final(self)@ == (MonitorView { last_check_millis: now_millis, ..old(self)@ }),
    {
        self.last_check_millis = now_millis;
        !reachable
    }
}

/// Number of reachability polls made while waiting for the network.
pub const WAIT_POLLS: u32 = 30;

/// Pause after each failed poll while waiting for the network, in milliseconds.
pub const WAIT_POLL_INTERVAL_MILLIS: u64 = 1000;

/// Whether any relay answered, given one probe result per relay probed:
/// the network counts as up while at least one relay is reachable.
pub fn any_reachable(probes: &Vec<bool>) -> (r: bool)
    ensures
        r == exists|i: int| 0 <= i < probes@.len() && probes@[i],
{
    let mut i: usize = 0;
    while i < probes.len()
        invariant
            i <= probes.len(),
            forall|j: int| 0 <= j < i ==> !probes@[j],
        decreases probes.len() - i,
    {
        if probes[i] {
            return true;
        }
        i = i + 1;
    }
    false
}

/// Which relay to probe next, given the results of the probes made so far
/// in order over `relay_count` relays: the next one in order, until one has
/// answered or every relay was probed once.
pub fn next_probe(probes: &Vec<bool>, relay_count: usize) -> (r: Option<usize>)
    ensures
        r == (if (exists|i: int| 0 <= i < probes@.len() && probes@[i]) || probes@.len()
            >= relay_count {
            None
        } else {
            Some(probes@.len() as usize)
        }),
{
    if any_reachable(probes) || probes.len() >= relay_count {
        None
    } else {
        Some(probes.len())
    }
}

/// The arguments of the `ping` command that sends one echo request to
/// `host` and waits at most one second for the answer, in the Windows form
/// when `windows` holds.
pub fn ping_args(host: &str, windows: bool) -> (r: Vec<String>)
    ensures
        r@.len() == 5,
        r@[0]@ == (if windows { "-n"@ } else { "-c"@ }),
        r@[1]@ == "1"@,
        r@[2]@ == (if windows { "-w"@ } else { "-W"@ }),
        r@[3]@ == (if windows { "1000"@ } else { "1"@ }),
        r@[4]@ == host@,
{
    let mut r: Vec<String> = Vec::new();
    if windows {
        r.push(String::from_str("-n"));
        r.push(String::from_str("1"));
        r.push(String::from_str("-w"));
        r.push(String::from_str("1000"));
    } else {
        r.push(String::from_str("-c"));
        r.push(String::from_str("1"));
        r.push(String::from_str("-W"));
        r.push(String::from_str("1"));
    }
    r.push(String::from_str(host));
    r
}

/// What to do after a reachability poll while waiting for the network.
#[derive(PartialEq, Eq, Structural, Clone, Copy, Debug)]
pub enum WaitAction {
    /// A relay answered: the network is up.
    Ready,
    /// Pause, then poll again.
    PauseThenPoll,
    /// Pause, then give up: the network stayed down.
    PauseThenGiveUp,
}

/// Polls the relays once a second, up to thirty times, until one answers.
pub struct NetworkWait {
    pub polls: u32,
}

impl NetworkWait {
    pub fn new() -> (r: Self)
        ensures
            r.polls == 0,
    {
        NetworkWait { polls: 0 }
    }

    /// Records the result of one poll and says what comes next.
    pub fn poll_result(&mut self, reachable: bool) -> (r: WaitAction)
        requires
            old(self).polls < WAIT_POLLS,
        ensures
            final(self).polls == old(self).polls + 1,
            reachable ==> r == WaitAction::Ready,
            !reachable && final(self).polls < WAIT_POLLS ==> r == WaitAction::PauseThenPoll,
            !reachable && final(self).polls == WAIT_POLLS ==> r == WaitAction::PauseThenGiveUp,
    {
        self.polls = self.polls + 1;
        if reachable {
            WaitAction::Ready
        } else if self.polls < WAIT_POLLS {
            WaitAction::PauseThenPoll
        } else {
            WaitAction::PauseThenGiveUp
        }
    }
}

/// A check made within five seconds of a check that actually ran answers
/// `Unchanged`, whatever the interfaces report.
pub proof fn lemma_debounce(
    m: MonitorView,
    first: u64,
    first_found: Option<Set<u32>>,
    second: u64,
    second_found: Option<Set<u32>>,
)
    requires
        elapsed_millis(m.last_check_millis, first) >= CHECK_DEBOUNCE_MILLIS,
        first <= second,
        second - first < CHECK_DEBOUNCE_MILLIS,
    ensures
        check_outcome(check_outcome(m, first, first_found).0, second, second_found).1
            == NetworkCheck::Unchanged,
{
}

/// The first check of a monitor that has no baseline yet answers `Unchanged`.
pub proof fn lemma_first_check_unchanged(m: MonitorView, now: u64, found: Option<Set<u32>>)
    requires
        m.addresses is None,
    ensures
        check_outcome(m, now, found).1 == NetworkCheck::Unchanged,
{
}

/// When the addresses differ from the baseline (empty or not) at a
/// well-spaced check, the check answers `Changed` and the baseline becomes
/// the new set; checking again right away answers `Unchanged`, and checking
/// the same set again later does not report a change of addresses.
pub proof fn lemma_change_detected(
    m: MonitorView,
    now: u64,
    baseline: Set<u32>,
    found: Set<u32>,
    again: u64,
    later: u64,
)
    requires
        m.addresses == Some(baseline),
        found != baseline,
        elapsed_millis(m.last_check_millis, now) >= CHECK_DEBOUNCE_MILLIS,
        now <= again < now + CHECK_DEBOUNCE_MILLIS,
        later >= now + CHECK_DEBOUNCE_MILLIS,
    ensures
        check_outcome(m, now, Some(found)).1 == NetworkCheck::Changed,
        check_outcome(m, now, Some(found)).0.addresses == Some(found),
        check_outcome(check_outcome(m, now, Some(found)).0, again, Some(found)).1
            == NetworkCheck::Unchanged,
        check_outcome(check_outcome(m, now, Some(found)).0, later, Some(found)).1
            != NetworkCheck::Changed,
{
}

} // verus!
