//! Properties of the bouncer's decision, proved over `decide`.

use vstd::prelude::*;

use crate::addr::{AddrKey, ClientAddr};
use crate::bouncer::{ban_expiry, decide, step, BouncerConfig, StoreOp, Verdict};

verus! {

/// One request: the client address (if known), the path, and the time.
pub type Request = (Option<ClientAddr>, Seq<char>, u64);

/// The ban list after a series of requests, and the verdict on each, in order.
pub open spec fn decide_all(cfg: BouncerConfig, bans: Map<AddrKey, u64>, reqs: Seq<Request>) -> (
    Map<AddrKey, u64>,
    Seq<Verdict>,
)
    decreases reqs.len(),
{
    if reqs.len() == 0 {
        (bans, Seq::empty())
    } else {
        let (next, v) = decide(cfg, bans, reqs[0].0, reqs[0].1, reqs[0].2);
        let (last, vs) = decide_all(cfg, next, reqs.drop_first());
        (last, seq![v] + vs)
    }
}

/// Requests from an address that the ban list does not hold, to paths outside
/// the rule set, are all forwarded, however many there are, and leave the ban
/// list as it was.
pub proof fn lemma_unseen_address_always_forwarded(
    cfg: BouncerConfig,
    bans: Map<AddrKey, u64>,
    a: ClientAddr,
    reqs: Seq<Request>,
)
    requires
        !bans.contains_key(a.key_spec()),
        forall|i: int| 0 <= i < reqs.len() ==> (#[trigger] reqs[i]).0 == Some(a),
        forall|i: int| 0 <= i < reqs.len() ==> !cfg.blocked_paths@.contains((#[trigger] reqs[i]).1),
    ensures
        decide_all(cfg, bans, reqs) == (bans, Seq::new(reqs.len(), |i: int| Verdict::Forward)),
    decreases reqs.len(),
{
    if reqs.len() > 0 {
        assert(reqs[0].0 == Some(a));
        assert(!cfg.blocked_paths@.contains(reqs[0].1));
        assert(bans.remove(a.key_spec()) =~= bans);
        let rest = reqs.drop_first();
        assert forall|i: int| 0 <= i < rest.len() implies (#[trigger] rest[i]).0 == Some(a)
            && !cfg.blocked_paths@.contains(rest[i].1) by {
            assert(rest[i] == reqs[i + 1]);
        }
        lemma_unseen_address_always_forwarded(cfg, bans, a, rest);
        assert(seq![Verdict::Forward] + Seq::new(rest.len(), |i: int| Verdict::Forward) =~= Seq::new(
            reqs.len(),
            |i: int| Verdict::Forward,
        ));
    }
}

/// A request from an address with no ban entry, to a path outside the rule
/// set, is forwarded and leaves the ban list as it is.
pub proof fn lemma_unseen_address_forwarded(cfg: BouncerConfig, a: ClientAddr, path: Seq<char>, now: u64)
    requires
        !cfg.blocked_paths@.contains(path),
    ensures
        step(cfg, Some(a), None, path, now) == (StoreOp::Keep, Verdict::Forward),
{
}

/// A request to a tripwire path from a clear address (no ban, or an expired
/// one) is denied with the blocked status, and bans the address until `now`
/// plus the ban duration.
pub proof fn lemma_tripwire_bans(cfg: BouncerConfig, a: ClientAddr, found: Option<u64>, path: Seq<char>, now: u64)
    requires
        !(found matches Some(e) && now < e),
        cfg.blocked_paths@.contains(path),
    ensures
        step(cfg, Some(a), found, path, now) == (
            StoreOp::Ban(ban_expiry(now, cfg.ban_duration)),
            Verdict::Blocked(cfg.blocked_status),
        ),
        now + cfg.ban_duration <= u64::MAX ==> step(cfg, Some(a), found, path, now) == (
            StoreOp::Ban((now + cfg.ban_duration) as u64),
            Verdict::Blocked(cfg.blocked_status),
        ),
{
}

/// A request from an address whose ban has not expired is denied with the
/// banned status, whatever its path, and the ban is left as it is.
pub proof fn lemma_ban_enforced(cfg: BouncerConfig, a: ClientAddr, expiry: u64, path: Seq<char>, now: u64)
    requires
        now < expiry,
    ensures
        step(cfg, Some(a), Some(expiry), path, now) == (StoreOp::Keep, Verdict::Banned(cfg.banned_status)),
{
}

/// A request from an address whose ban has expired is judged as from a clear
/// address: forwarded, with the stale entry dropped, when its path is not a
/// tripwire; denied as blocked, with a fresh ban in place of the stale one,
/// when it is.
pub proof fn lemma_expired_ban_cleared(cfg: BouncerConfig, a: ClientAddr, expiry: u64, path: Seq<char>, now: u64)
    requires
        now >= expiry,
    ensures
        !cfg.blocked_paths@.contains(path) ==> step(cfg, Some(a), Some(expiry), path, now) == (
            StoreOp::Clear,
            Verdict::Forward,
        ),
        cfg.blocked_paths@.contains(path) ==> step(cfg, Some(a), Some(expiry), path, now) == (
            StoreOp::Ban(ban_expiry(now, cfg.ban_duration)),
            Verdict::Blocked(cfg.blocked_status),
        ),
        cfg.blocked_paths@.contains(path) && now + cfg.ban_duration <= u64::MAX ==> step(
            cfg,
            Some(a),
            Some(expiry),
            path,
            now,
        ) == (StoreOp::Ban((now + cfg.ban_duration) as u64), Verdict::Blocked(cfg.blocked_status)),
{
}

/// A request with no known client address is forwarded, even to a tripwire
/// path, and changes no ban.
pub proof fn lemma_unknown_address_forwarded(cfg: BouncerConfig, found: Option<u64>, path: Seq<char>, now: u64)
    ensures
        step(cfg, None, found, path, now) == (StoreOp::Keep, Verdict::Forward),
{
}

/// In the state machine of one client's requests, a request from a clear
/// address to a tripwire path leaves a ban until `now` plus the ban duration,
/// and changes no other address's entry.
pub proof fn lemma_tripwire_bans_in_list(
    cfg: BouncerConfig,
    bans: Map<AddrKey, u64>,
    a: ClientAddr,
    path: Seq<char>,
    now: u64,
)
    requires
        !(bans.contains_key(a.key_spec()) && now < bans[a.key_spec()]),
        cfg.blocked_paths@.contains(path),
    ensures
        decide(cfg, bans, Some(a), path, now) == (
            bans.insert(a.key_spec(), ban_expiry(now, cfg.ban_duration)),
            Verdict::Blocked(cfg.blocked_status),
        ),
{
}

/// In the state machine, a request from an address whose ban has expired,
/// to a path outside the rule set, is forwarded and the stale entry is gone.
pub proof fn lemma_expired_ban_gone_from_list(
    cfg: BouncerConfig,
    bans: Map<AddrKey, u64>,
    a: ClientAddr,
    path: Seq<char>,
    now: u64,
)
    requires
        bans.contains_key(a.key_spec()),
        now >= bans[a.key_spec()],
        !cfg.blocked_paths@.contains(path),
    ensures
        decide(cfg, bans, Some(a), path, now) == (bans.remove(a.key_spec()), Verdict::Forward),
        !decide(cfg, bans, Some(a), path, now).0.contains_key(a.key_spec()),
{
}

} // verus!
