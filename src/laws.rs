use vstd::prelude::*;
use crate::app_data::{endpoints, registered, removed, subscribers, Table};
use crate::websocket::{after_tick, tick_closes, timed_out, Lifecycle};

verus! {

/// The table after each of `regs` (endpoint, id, handle) has been registered,
/// in order.
pub open spec fn register_all<H>(t: Table<H>, regs: Seq<(Seq<char>, u128, H)>) -> Table<H>
    decreases regs.len(),
{
    if regs.len() == 0 {
        t
    } else {
        let last = regs.last();
        registered(register_all(t, regs.drop_last()), last.0, last.1, last.2)
    }
}

/// Registering connections under distinct ids leaves each of those ids under
/// exactly one endpoint: the one it was registered with.
pub proof fn registration_keeps_ids_unique<H>(t: Table<H>, regs: Seq<(Seq<char>, u128, H)>)
    requires
        forall|a: int, b: int| 0 <= a < b < regs.len() ==> regs[a].1 != regs[b].1,
    ensures
        forall|a: int, e: Seq<char>|
            0 <= a < regs.len() ==> (#[trigger] subscribers(register_all(t, regs), e).contains(
                regs[a].1,
            ) <==> e == regs[a].0),
    decreases regs.len(),
{
    if regs.len() > 0 {
        let prefix = regs.drop_last();
        registration_keeps_ids_unique(t, prefix);
        let before = register_all(t, prefix);
        let after = register_all(t, regs);
        assert forall|a: int, e: Seq<char>| 0 <= a < regs.len() implies (#[trigger] subscribers(
            after,
            e,
        ).contains(regs[a].1) <==> e == regs[a].0) by {
            if a < regs.len() - 1 {
                assert(prefix[a] == regs[a]);
                assert(subscribers(before, regs[a].0).contains(regs[a].1));
                assert(regs[a].1 != regs.last().1);
            }
        }
    }
}

/// Registering a connection and then removing it from the same endpoint
/// leaves its id absent, and its endpoint absent too where it was the last
/// connection there.
pub proof fn removal_after_registration_cleans_up<H>(
    t: Table<H>,
    endpoint: Seq<char>,
    id: u128,
    handle: H,
)
    ensures
        !removed(registered(t, endpoint, id, handle), endpoint, id).contains_key(id),
        subscribers(t, endpoint).remove(id).is_empty() ==> !endpoints(
            removed(registered(t, endpoint, id, handle), endpoint, id),
        ).contains(endpoint),
{
    let after = removed(registered(t, endpoint, id, handle), endpoint, id);
    assert(after == t.remove(id));
    if subscribers(t, endpoint).remove(id).is_empty() && endpoints(after).contains(endpoint) {
        let other = choose|other: u128| after.contains_key(other) && after[other].0 == endpoint;
        assert(subscribers(t, endpoint).remove(id).contains(other));
    }
}

/// Removing the same connection twice leaves the table as removing it once.
pub proof fn removal_is_idempotent<H>(t: Table<H>, endpoint: Seq<char>, id: u128)
    ensures
        removed(removed(t, endpoint, id), endpoint, id) == removed(t, endpoint, id),
{
}

/// A connection of the table that has shown no sign of life for longer than
/// the timeout is closed at the next heartbeat tick, without any input from
/// its peer, and the registry, on its notice, holds its id no more, nor its
/// endpoint where it was the last connection there.
pub proof fn heartbeat_timeout_reaps<H>(
    t: Table<H>,
    endpoint: Seq<char>,
    id: u128,
    last_seen: u64,
    now: u64,
)
    requires
        t.contains_key(id),
        t[id].0 == endpoint,
        timed_out(last_seen, now),
    ensures
        tick_closes(Lifecycle::Active, last_seen, now),
        after_tick(Lifecycle::Active, last_seen, now) == Lifecycle::Closing,
        !removed(t, endpoint, id).contains_key(id),
        subscribers(t, endpoint).remove(id).is_empty() ==> !endpoints(
            removed(t, endpoint, id),
        ).contains(endpoint),
{
    let after = removed(t, endpoint, id);
    if subscribers(t, endpoint).remove(id).is_empty() && endpoints(after).contains(endpoint) {
        let other = choose|other: u128| after.contains_key(other) && after[other].0 == endpoint;
        assert(subscribers(t, endpoint).remove(id).contains(other));
    }
}

/// An endpoint is present in the table exactly while some connection stands
/// under it: the table never keeps an endpoint with no connections.
pub proof fn endpoint_present_iff_subscribed<H>(t: Table<H>, endpoint: Seq<char>)
    ensures
        endpoints(t).contains(endpoint) <==> !subscribers(t, endpoint).is_empty(),
{
    if endpoints(t).contains(endpoint) {
        let id = choose|id: u128| t.contains_key(id) && t[id].0 == endpoint;
        assert(subscribers(t, endpoint).contains(id));
    }
    if !subscribers(t, endpoint).is_empty() {
        let id = subscribers(t, endpoint).choose();
        assert(subscribers(t, endpoint).contains(id));
    }
}

} // verus!
