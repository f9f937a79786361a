//! The bouncer: its configuration and the per-request decision that forwards
//! a request, denies a banned client, or bans a client that probes a
//! tripwire path.

use vstd::prelude::*;

use crate::addr::{AddrKey, ClientAddr};
use crate::banlist::BanList;
use crate::rules::{from_rules, path_set, preset_union, texts, RuleSet};

verus! {

/// Default ban duration: one hour, in milliseconds.
pub const DEFAULT_BAN_DURATION_MS: u64 = 3600000;

/// Default status of a denied request: 403 Forbidden.
pub const DEFAULT_DENY_STATUS: u16 = 403;

/// Severity at which denials are logged.
#[derive(Clone, Copy, Debug, PartialEq, Eq, Structural, Hash)]
pub enum LogLevel {
    Error,
    Warn,
    Info,
    Debug,
    Trace,
}

/// Whether `s` is an HTTP status code (three digits).
pub open spec fn is_status(s: u16) -> bool {
    100 <= s <= 999
}

/// What the bouncer does with one request.
#[derive(Clone, Copy, Debug, PartialEq, Eq, Structural)]
pub enum Verdict {
    /// Hand the request to the downstream service unchanged.
    Forward,
    /// The client is banned: answer with this status and an empty body.
    Banned(u16),
    /// The request hit a tripwire path and the client is now banned: answer
    /// with this status and an empty body.
    Blocked(u16),
}

impl Verdict {
    /// Whether the request is denied.
    pub fn is_denied(&self) -> (r: bool)
        ensures
            r == !(self is Forward),
    {
        !matches!(self, Verdict::Forward)
    }

    /// The status of the denial, if the request is denied.
    pub fn status(&self) -> (r: Option<u16>)
        ensures
            r == match *self {
                Verdict::Forward => None::<u16>,
                Verdict::Banned(s) => Some(s),
                Verdict::Blocked(s) => Some(s),
            },
    {
        match self {
            Verdict::Forward => None,
            Verdict::Banned(s) => Some(*s),
            Verdict::Blocked(s) => Some(*s),
        }
    }
}

/// Settings of the bouncer, fixed once built.
#[derive(Clone, Debug)]
pub struct BouncerConfig {
    /// Tripwire paths.
    pub blocked_paths: RuleSet,
    /// How long a ban lasts, in milliseconds.
    pub ban_duration: u64,
    /// Status of a request from a banned client.
    pub banned_status: u16,
    /// Status of a request to a tripwire path.
    pub blocked_status: u16,
    /// Severity of the log event of a denial.
    pub log_level: LogLevel,
}

impl BouncerConfig {
    /// A configuration whose tripwires are the paths of the named presets and
    /// the custom paths, with a one-hour ban, 403 for both denials and debug
    /// logging.
    pub fn from_rules(presets: &[&str], custom: &[&str]) -> (r: Self)
        ensures
            r.blocked_paths.wf(),
            r.blocked_paths@ == preset_union(texts(presets@)).union(path_set(texts(custom@))),
            r.ban_duration == DEFAULT_BAN_DURATION_MS,
            r.banned_status == DEFAULT_DENY_STATUS,
            r.blocked_status == DEFAULT_DENY_STATUS,
            r.log_level == LogLevel::Debug,
    {
        BouncerConfig {
            blocked_paths: from_rules(presets, custom),
            ban_duration: DEFAULT_BAN_DURATION_MS,
            banned_status: DEFAULT_DENY_STATUS,
            blocked_status: DEFAULT_DENY_STATUS,
            log_level: LogLevel::Debug,
        }
    }

    /// As `from_rules`, with presets only.
    pub fn from_preset_rules(presets: &[&str]) -> (r: Self)
        ensures
            r.blocked_paths.wf(),
            r.blocked_paths@ == preset_union(texts(presets@)),
            r.ban_duration == DEFAULT_BAN_DURATION_MS,
            r.banned_status == DEFAULT_DENY_STATUS,
            r.blocked_status == DEFAULT_DENY_STATUS,
            r.log_level == LogLevel::Debug,
    {
        let none: Vec<&str> = Vec::new();
        let r = Self::from_rules(presets, none.as_slice());
        assert(r.blocked_paths@ =~= preset_union(texts(presets@)));
        r
    }

    /// As `from_rules`, with custom paths only.
    pub fn from_custom_rules(custom: &[&str]) -> (r: Self)
        ensures
            r.blocked_paths.wf(),
            r.blocked_paths@ == path_set(texts(custom@)),
            r.ban_duration == DEFAULT_BAN_DURATION_MS,
            r.banned_status == DEFAULT_DENY_STATUS,
            r.blocked_status == DEFAULT_DENY_STATUS,
            r.log_level == LogLevel::Debug,
    {
        let none: Vec<&str> = Vec::new();
        let r = Self::from_rules(none.as_slice(), custom);
        assert(r.blocked_paths@ =~= path_set(texts(custom@)));
        r
    }

    /// The same configuration, with `status` for requests from banned clients.
    pub fn banned_response(self, status: u16) -> (r: Self)
        requires
            is_status(status),
        ensures
            r == (BouncerConfig { banned_status: status, ..self }),
    {
        BouncerConfig { banned_status: status, ..self }
    }

    /// The same configuration, with `status` for requests to tripwire paths.
    pub fn blocked_response(self, status: u16) -> (r: Self)
        requires
            is_status(status),
        ensures
            r == (BouncerConfig { blocked_status: status, ..self }),
    {
        BouncerConfig { blocked_status: status, ..self }
    }

    /// The same configuration, with bans lasting `duration` milliseconds.
    pub fn duration(self, duration: u64) -> (r: Self)
        ensures
            r == (BouncerConfig { ban_duration: duration, ..self }),
    {
        BouncerConfig { ban_duration: duration, ..self }
    }

    /// The same configuration, logging denials at `level`.
    pub fn log_level(self, level: LogLevel) -> (r: Self)
        ensures
            r == (BouncerConfig { log_level: level, ..self }),
    {
        BouncerConfig { log_level: level, ..self }
    }
}

/// The expiry of a ban that starts at `now`; a time past the clock's range
/// is held at its end.
pub open spec fn ban_expiry(now: u64, duration: u64) -> u64 {
    if now + duration > u64::MAX {
        u64::MAX
    } else {
        (now + duration) as u64
    }
}

/// What a request does to the ban entry of its client.
#[derive(Clone, Copy, Debug, PartialEq, Eq, Structural)]
pub enum StoreOp {
    /// Leave the entry as it is.
    Keep,
    /// Drop the entry, an expired ban.
    Clear,
    /// Ban the client until this time, replacing any expired entry.
    Ban(u64),
}

/// The change to the ban list and the verdict on a request to `path` from
/// `addr` at time `now`, where `found` is the ban expiry that the list held
/// for `addr` when it was read.
///
/// A request whose client is unknown is forwarded. A client with a ban that
/// has not expired is denied, whatever the path, and its ban is kept. An
/// expired ban is dropped and the request is judged as from a clear client:
/// a tripwire path bans the client until `now` plus the ban duration and is
/// denied; any other path is forwarded.
pub open spec fn step(
    cfg: BouncerConfig,
    addr: Option<ClientAddr>,
    found: Option<u64>,
    path: Seq<char>,
    now: u64,
) -> (StoreOp, Verdict) {
    if addr is None {
        (StoreOp::Keep, Verdict::Forward)
    } else if found matches Some(e) && now < e {
        (StoreOp::Keep, Verdict::Banned(cfg.banned_status))
    } else if cfg.blocked_paths@.contains(path) {
        (StoreOp::Ban(ban_expiry(now, cfg.ban_duration)), Verdict::Blocked(cfg.blocked_status))
    } else if found is Some {
        (StoreOp::Clear, Verdict::Forward)
    } else {
        (StoreOp::Keep, Verdict::Forward)
    }
}

/// The ban expiry that a map of bans holds for `addr`.
pub open spec fn found_in(bans: Map<AddrKey, u64>, addr: Option<ClientAddr>) -> Option<u64> {
    match addr {
        Some(a) => if bans.contains_key(a.key_spec()) {
            Some(bans[a.key_spec()])
        } else {
            None
        },
        None => None,
    }
}

/// A map of bans after `op` on the entry of `k`.
pub open spec fn apply_op(bans: Map<AddrKey, u64>, k: AddrKey, op: StoreOp) -> Map<AddrKey, u64> {
    match op {
        StoreOp::Keep => bans,
        StoreOp::Clear => bans.remove(k),
        StoreOp::Ban(e) => bans.insert(k, e),
    }
}

/// The ban list as a state machine: the bans after one request, and the
/// verdict on it, when that request alone reads and writes the list.
pub open spec fn decide(
    cfg: BouncerConfig,
    bans: Map<AddrKey, u64>,
    addr: Option<ClientAddr>,
    path: Seq<char>,
    now: u64,
) -> (Map<AddrKey, u64>, Verdict) {
    let (op, v) = step(cfg, addr, found_in(bans, addr), path, now);
    match addr {
        Some(a) => (apply_op(bans, a.key_spec(), op), v),
        None => (bans, v),
    }
}

/// Judges a request to `path` from `addr` at time `now`, given the ban
/// expiry `found` that the ban list held for `addr`.
pub fn decide_step(cfg: &BouncerConfig, addr: Option<ClientAddr>, found: Option<u64>, path: &str, now: u64) -> (r: (
    StoreOp,
    Verdict,
))
    ensures
        r == step(*cfg, addr, found, path@, now),
{
    if addr.is_none() {
        return (StoreOp::Keep, Verdict::Forward);
    }
    match found {
        Some(e) => {
            if now < e {
                return (StoreOp::Keep, Verdict::Banned(cfg.banned_status));
            }
        },
        None => {},
    }
    if cfg.blocked_paths.contains(path) {
        (StoreOp::Ban(now.saturating_add(cfg.ban_duration)), Verdict::Blocked(cfg.blocked_status))
    } else if found.is_some() {
        (StoreOp::Clear, Verdict::Forward)
    } else {
        (StoreOp::Keep, Verdict::Forward)
    }
}

/// What `BouncerLayer::check` read from the ban list, what it wrote, and its
/// verdict.
#[derive(Clone, Copy, Debug, PartialEq, Eq, Structural)]
pub struct Decision {
    /// The ban expiry of the client that the list held when read.
    pub found: Option<u64>,
    /// The change made to the client's entry.
    pub op: StoreOp,
    /// The verdict on the request.
    pub verdict: Verdict,
}

/// The bouncer: its configuration and a handle to the ban list that every
/// clone of it shares.
#[derive(Clone, Debug)]
pub struct BouncerLayer {
    config: BouncerConfig,
    banlist: BanList,
}

impl BouncerLayer {
    /// The configuration.
    pub closed spec fn settings(&self) -> BouncerConfig {
        self.config
    }

    /// The handle to the shared ban list.
    pub closed spec fn ban_list(&self) -> BanList {
        self.banlist
    }

    /// A bouncer with `config` and a new, empty ban list.
    pub fn new(config: BouncerConfig) -> (r: Self)
        ensures
            r.settings() == config,
    {
        BouncerLayer { config, banlist: BanList::new() }
    }

    /// The configuration.
    pub fn config(&self) -> (r: &BouncerConfig)
        ensures
            *r == self.settings(),
    {
        &self.config
    }

    /// A live handle to the shared ban list, for monitoring: it sees every
    /// ban written through this bouncer or any clone of it.
    pub fn banlist(&self) -> (r: BanList)
        ensures
            r == self.ban_list(),
    {
        self.banlist.clone()
    }

    /// Judges a request to `path` from `addr` (`None` when no address could
    /// be found) at time `now`. Reads the client's ban expiry from the shared
    /// list, decides on that value, and applies the decided change to the
    /// client's entry: `Clear` removes it, `Ban` stores the new expiry.
    pub fn check(&self, addr: Option<ClientAddr>, path: &str, now: u64) -> (r: Decision)
        ensures
            addr is None ==> r.found is None,
            (r.op, r.verdict) == step(self.settings(), addr, r.found, path@, now),
    {
        match addr {
            None => {
                let (op, verdict) = decide_step(&self.config, addr, None, path, now);
                Decision { found: None, op, verdict }
            },
            Some(a) => {
                let found = self.banlist.lookup(a);
                let (op, verdict) = decide_step(&self.config, addr, found, path, now);
                match op {
                    StoreOp::Keep => {},
                    StoreOp::Clear => self.banlist.remove(a),
                    StoreOp::Ban(expiry) => self.banlist.insert(a, expiry),
                }
                Decision { found, op, verdict }
            },
        }
    }
}

} // verus!
