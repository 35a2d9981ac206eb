use crate::backoff::{
    base_interval, calculate_backoff, jittered_millis, lemma_jittered_delay_bounds,
    JITTER_MAX_PERMILLE, JITTER_MIN_PERMILLE, MAX_RETRY_MILLIS,
};
use crate::reporter::{Country, ForwardEntry, ForwardInfo};
use vstd::prelude::*;

verus! {

/// Host name under which the forwarded services are reached locally.
pub const LOCALHOST: &'static str = "localhost";

/// The default relay.
pub const FORWARD_SERVER: &'static str = "rustdesk.ntsports.tech";

/// The regional alternate relay.
pub const FORWARD_JP_SERVER: &'static str = "jpm.holomotion.tech";

/// Shared secret passed to the tunnel transport.
pub const FORWARD_SECRET: &'static str = "hm#CD888";

/// Country code of the home region, served by the default relay.
pub const HOME_COUNTRY: &'static str = "CN";

/// Hardware address that identifies nothing.
pub const NIL_MAC_ADDRESS: &'static str = "00:00:00:00:00:00";

/// Local port of the SSH service, forwarded first.
pub const SSH_PORT: u16 = 22;

/// Local port of the management console, forwarded second.
pub const COCKPIT_PORT: u16 = 9090;

/// The relay that serves a client in `country`: the default relay for the
/// home country, the alternate relay elsewhere.
pub open spec fn relay_for(country: Seq<char>) -> Seq<char> {
    if country == HOME_COUNTRY@ {
        FORWARD_SERVER@
    } else {
        FORWARD_JP_SERVER@
    }
}

/// The relay and country code chosen from a geolocation lookup (`None`
/// when the lookup failed).
pub open spec fn selection_for(lookup: Option<Country>) -> (Seq<char>, Seq<char>) {
    match lookup {
        Some(c) => (relay_for(c.country@), c.country@),
        None => (FORWARD_SERVER@, HOME_COUNTRY@),
    }
}

/// The relay host names, in the order they are probed.
pub fn relays() -> (r: Vec<String>)
    ensures
        r@.len() == 2,
        r@[0]@ == FORWARD_SERVER@,
        r@[1]@ == FORWARD_JP_SERVER@,
{
    let mut r: Vec<String> = Vec::new();
    r.push(String::from_str(FORWARD_SERVER));
    r.push(String::from_str(FORWARD_JP_SERVER));
    r
}

/// Chooses the relay and the country code from a geolocation lookup: the
/// alternate relay when the lookup gives a country other than the home
/// country, else the default relay; the home country when the lookup failed.
pub fn select_relay(lookup: &Option<Country>) -> (r: (String, String))
    ensures
        (r.0@, r.1@) == selection_for(*lookup),
{
    match lookup {
        Some(c) => {
            let home = String::from_str(HOME_COUNTRY);
            let relay = if c.country == home {
                String::from_str(FORWARD_SERVER)
            } else {
                String::from_str(FORWARD_JP_SERVER)
            };
            (relay, c.country.clone())
        },
        None => (String::from_str(FORWARD_SERVER), String::from_str(HOME_COUNTRY)),
    }
}

/// The text of each string in `v`.
pub open spec fn texts(v: Seq<String>) -> Seq<Seq<char>> {
    v.map_values(|s: String| s@)
}

/// Whether a hardware address identifies the machine: every address but
/// the all-zero one does.
pub open spec fn is_identifying_mac(a: Seq<char>) -> bool {
    a != NIL_MAC_ADDRESS@
}

/// The hardware addresses in `all` that identify the machine, in order.
pub fn identifying_mac_addresses(all: &Vec<String>) -> (r: Vec<String>)
    ensures
        texts(r@) == texts(all@).filter(|a: Seq<char>| is_identifying_mac(a)),
{
    let nil = String::from_str(NIL_MAC_ADDRESS);
    let mut r: Vec<String> = Vec::new();
    let mut i: usize = 0;
    while i < all.len()
        invariant
            i <= all.len(),
            nil@ == NIL_MAC_ADDRESS@,
            texts(r@) == texts(all@).subrange(0, i as int).filter(
                |a: Seq<char>| is_identifying_mac(a),
            ),
        decreases all.len() - i,
    {
        let ghost pred = |a: Seq<char>| is_identifying_mac(a);
        let ghost before = texts(all@).subrange(0, i as int);
        let ghost after = texts(all@).subrange(0, i + 1);
        assert(after.drop_last() =~= before);
        assert(after.last() == all@[i as int]@);
        proof {
            reveal_with_fuel(Seq::filter, 1);
        }
        if all[i] != nil {
            r.push(all[i].clone());
            assert(texts(r@) =~= before.filter(pred).push(all@[i as int]@));
        }
        i = i + 1;
    }
    assert(texts(all@).subrange(0, all@.len() as int) =~= texts(all@));
    r
}

/// The state shared between the session manager and the orchestrator: the
/// metadata to report and the relay currently selected. The sessions
/// themselves are held by the tasks that run them.
pub struct ForwarderState {
    pub forward_info: ForwardInfo,
    pub server_address: String,
}

/// Establishes the sessions of one initialization, in the fixed order: SSH
/// first, then the console. It stops at the first failure.
pub struct SessionPlan {
    pub remote_ports: Vec<u16>,
    pub failed: bool,
}

/// The local port of the service to connect next, if any.
pub open spec fn next_service(plan: SessionPlan) -> Option<u16> {
    if plan.failed {
        None
    } else if plan.remote_ports@.len() == 0 {
        Some(SSH_PORT)
    } else if plan.remote_ports@.len() == 1 {
        Some(COCKPIT_PORT)
    } else {
        None
    }
}

/// Whether every session of the plan was established.
pub open spec fn plan_complete(plan: SessionPlan) -> bool {
    !plan.failed && plan.remote_ports@.len() == 2
}

/// The forward entries for the given remote ports of the SSH and console
/// sessions.
pub open spec fn entries_match(entries: Seq<ForwardEntry>, ssh_remote: u16, cockpit_remote: u16) -> bool {
    &&& entries.len() == 2
    &&& entries[0].local_host@ == LOCALHOST@
    &&& entries[0].local_port == SSH_PORT
    &&& entries[0].remote_port == ssh_remote
    &&& entries[1].local_host@ == LOCALHOST@
    &&& entries[1].local_port == COCKPIT_PORT
    &&& entries[1].remote_port == cockpit_remote
}

impl SessionPlan {
    /// A plan with no session established yet.
    pub fn new() -> (r: Self)
        ensures
            r.remote_ports@.len() == 0,
            !r.failed,
            next_service(r) == Some(SSH_PORT),
    {
        SessionPlan { remote_ports: Vec::new(), failed: false }
    }

    /// The local port of the service to connect next; `None` once every
    /// session is up or one of them failed.
    pub fn next_service(&self) -> (r: Option<u16>)
        ensures
            r == next_service(*self),
    {
        if self.failed {
            None
        } else if self.remote_ports.len() == 0 {
            Some(SSH_PORT)
        } else if self.remote_ports.len() == 1 {
            Some(COCKPIT_PORT)
        } else {
            None
        }
    }

    /// Records the outcome of connecting the next service: the remote port
    /// the relay assigned, or `None` when the connection failed.
    pub fn record(&mut self, remote_port: Option<u16>)
        requires
            next_service(*old(self)) is Some,
        ensures
            match remote_port {
                Some(p) => final(self).remote_ports@ == old(self).remote_ports@.push(p)
                    && !final(self).failed,
                None => final(self).remote_ports@ == old(self).remote_ports@
                    && final(self).failed,
            },
    {
        match remote_port {
            Some(p) => self.remote_ports.push(p),
            None => self.failed = true,
        }
    }
}

impl ForwarderState {
    /// The state at start-up: no forward entries yet, and the relay chosen
    /// from the geolocation lookup.
    pub fn new(forward_info: ForwardInfo, server_address: String) -> (r: Self)
        ensures
            r.forward_info == forward_info,
            r.server_address == server_address,
    {
        ForwarderState { forward_info, server_address }
    }

    /// Ends an initialization. When both sessions were established the
    /// forward entries are replaced by those of the new sessions and the
    /// result is `true`; otherwise nothing changes and the result is `false`.
    pub fn apply_sessions(&mut self, plan: &SessionPlan) -> (r: bool)
        ensures
            r == plan_complete(*plan),
            r ==> entries_match(
                final(self).forward_info.forward_entries@,
                plan.remote_ports@[0],
                plan.remote_ports@[1],
            ),
            r ==> final(self).server_address == old(self).server_address,
            r ==> (ForwardInfo { forward_entries: old(self).forward_info.forward_entries, ..final(self).forward_info }) == old(self).forward_info,
            !r ==> *final(self) == *old(self),
    {
        if plan.failed || plan.remote_ports.len() != 2 {
            return false;
        }
        let mut entries: Vec<ForwardEntry> = Vec::new();
        entries.push(
            ForwardEntry {
                local_host: String::from_str(LOCALHOST),
                local_port: SSH_PORT,
                remote_port: plan.remote_ports[0],
            },
        );
        entries.push(
            ForwardEntry {
                local_host: String::from_str(LOCALHOST),
                local_port: COCKPIT_PORT,
                remote_port: plan.remote_ports[1],
            },
        );
        self.forward_info.forward_entries = entries;
        true
    }

    /// Applies the result of a geolocation lookup (`None` when it failed)
    /// to the relay selection and the reported country code.
    pub fn apply_country(&mut self, lookup: &Option<Country>)
        ensures
            (final(self).server_address@, final(self).forward_info.client_country@)
                == selection_for(*lookup),
            final(self).forward_info == (ForwardInfo {
                client_country: final(self).forward_info.client_country,
                ..old(self).forward_info
            }),
    {
        let (relay, country) = select_relay(lookup);
        self.server_address = relay;
        self.forward_info.client_country = country;
    }
}

/// Whether `delay` (in milliseconds) is a backoff delay for `count`
/// consecutive failures: the base interval scaled by some jitter factor.
pub open spec fn is_backoff_draw(count: nat, delay: nat) -> bool {
    exists|p: nat|
        JITTER_MIN_PERMILLE <= p <= JITTER_MAX_PERMILLE && delay == #[trigger] jittered_millis(
            count,
            p,
        )
}

/// The least total pause, in milliseconds, after `n` consecutive failures:
/// the sum of the lower bounds of the delays for failures `1..=n`.
pub open spec fn min_total_wait(n: nat) -> nat
    decreases n,
{
    if n == 0 {
        0
    } else {
        (min_total_wait((n - 1) as nat) + JITTER_MIN_PERMILLE * base_interval(n)) as nat
    }
}

/// The greatest total pause, in milliseconds, after `n` consecutive
/// failures: the sum of the upper bounds of the delays for failures `1..=n`.
pub open spec fn max_total_wait(n: nat) -> nat
    decreases n,
{
    if n == 0 {
        0
    } else {
        let hi: int = JITTER_MAX_PERMILLE * base_interval(n);
        (max_total_wait((n - 1) as nat) + if hi < MAX_RETRY_MILLIS {
            hi
        } else {
            MAX_RETRY_MILLIS as int
        }) as nat
    }
}

/// The sum of a sequence of pauses.
pub open spec fn total(delays: Seq<nat>) -> nat
    decreases delays.len(),
{
    if delays.len() == 0 {
        0
    } else {
        total(delays.drop_last()) + delays.last()
    }
}

/// What the reconnection loop does after an attempt to initialize.
#[derive(PartialEq, Eq, Structural, Clone, Copy, Debug)]
pub enum ReconnectAction {
    /// The sessions are up: stop.
    Done,
    /// Wait this many milliseconds, then try again.
    Retry { delay_millis: u64 },
}

/// The backoff state of one sequence of reconnection attempts, which keeps
/// trying forever: the number of consecutive failed attempts so far.
pub struct ReconnectState {
    pub consecutive_failures: u32,
}

/// The failure count after one more failure; it stays at its largest
/// value rather than wrap.
pub open spec fn next_failures(count: u32) -> u32 {
    if count < u32::MAX {
        (count + 1) as u32
    } else {
        count
    }
}

impl ReconnectState {
    /// A sequence with no attempt made yet.
    pub fn new() -> (r: Self)
        ensures
            r.consecutive_failures == 0,
    {
        ReconnectState { consecutive_failures: 0 }
    }

    /// Records the outcome of one attempt to initialize. On success the
    /// sequence ends and the failure count is reset. On failure the count
    /// goes up by one and the pause is a backoff delay drawn for the new
    /// count.
    pub fn record_attempt(&mut self, succeeded: bool) -> (r: ReconnectAction)
        ensures
            succeeded ==> r == ReconnectAction::Done && final(self).consecutive_failures == 0,
            !succeeded ==> {
                &&& final(self).consecutive_failures == next_failures(
                    old(self).consecutive_failures,
                )
                &&& r matches ReconnectAction::Retry { delay_millis }
                &&& is_backoff_draw(final(self).consecutive_failures as nat, delay_millis as nat)
                &&& JITTER_MIN_PERMILLE * base_interval(final(self).consecutive_failures as nat)
                    <= delay_millis
                &&& delay_millis <= JITTER_MAX_PERMILLE * base_interval(
                    final(self).consecutive_failures as nat,
                )
                &&& delay_millis <= MAX_RETRY_MILLIS
            },
    {
        if succeeded {
            self.consecutive_failures = 0;
            ReconnectAction::Done
        } else {
            if self.consecutive_failures < u32::MAX {
                self.consecutive_failures = self.consecutive_failures + 1;
            }
            let delay_millis = calculate_backoff(self.consecutive_failures);
            ReconnectAction::Retry { delay_millis }
        }
    }
}

/// A reconnection that starts from a fresh state and fails `n` times, each
/// failure answered by a backoff delay for its count `1..=n`, pauses in
/// total at least the sum of the lower bounds and at most the sum of the
/// upper bounds of those delays, and no single pause exceeds five minutes.
pub proof fn lemma_reconnect_run(delays: Seq<nat>)
    requires
        forall|k: int| 0 <= k < delays.len() ==> is_backoff_draw((k + 1) as nat, #[trigger] delays[k]),
    ensures
        min_total_wait(delays.len()) <= total(delays) <= max_total_wait(delays.len()),
        forall|k: int| 0 <= k < delays.len() ==> #[trigger] delays[k] <= MAX_RETRY_MILLIS,
    decreases delays.len(),
{
    if delays.len() > 0 {
        let n = delays.len();
        let rest = delays.drop_last();
        assert forall|k: int| 0 <= k < rest.len() implies is_backoff_draw(
            (k + 1) as nat,
            #[trigger] rest[k],
        ) by {
            assert(rest[k] == delays[k]);
        }
        lemma_reconnect_run(rest);
        assert forall|k: int| 0 <= k < delays.len() implies #[trigger] delays[k]
            <= MAX_RETRY_MILLIS by {
            let p = choose|p: nat|
                JITTER_MIN_PERMILLE <= p <= JITTER_MAX_PERMILLE && delays[k] == #[trigger] jittered_millis(
                    (k + 1) as nat,
                    p,
                );
            lemma_jittered_delay_bounds((k + 1) as nat, p);
        }
        let p = choose|p: nat|
            JITTER_MIN_PERMILLE <= p <= JITTER_MAX_PERMILLE && delays[n - 1] == #[trigger] jittered_millis(
                n as nat,
                p,
            );
        lemma_jittered_delay_bounds(n as nat, p);
    }
}

/// The orchestrator's view of the network: whether it is up, and whether it
/// went down since the last recovery.
pub struct Orchestrator {
    pub network_up: bool,
    pub was_network_down: bool,
}

impl Orchestrator {
    /// At start-up the network is assumed up.
    pub fn new() -> (r: Self)
        ensures
            r.network_up,
            !r.was_network_down,
    {
        Orchestrator { network_up: true, was_network_down: false }
    }

    /// Takes the result of probing the relays after a change was noticed
    /// and says whether to recover (select the relay again and reconnect):
    /// that is when the network went down earlier and is up now.
    pub fn on_reachability(&mut self, is_up: bool) -> (r: bool)
        ensures
            final(self).network_up == is_up,
            r == (is_up && (old(self).was_network_down || !old(self).network_up)),
            final(self).was_network_down == (!is_up && (old(self).was_network_down
                || old(self).network_up)),
    {
        if !self.network_up && is_up {
            self.network_up = true;
            self.was_network_down = true;
        } else if self.network_up && !is_up {
            self.network_up = false;
            self.was_network_down = true;
        }
        if self.was_network_down && is_up {
            self.was_network_down = false;
            true
        } else {
            false
        }
    }
}

} // verus!
