//! A model of the routing table that the route changes act on, and the laws
//! of the gateway override's plans over it.
use vstd::prelude::*;
use crate::route::{RouteChange, RouteType, default_target};

verus! {

/// The part of a routing table that the override touches: the default
/// gateway and the host routes, each host mapped to its gateway.
pub struct RouteTable {
    pub default: Option<Seq<char>>,
    pub hosts: Map<Seq<char>, Seq<char>>,
}

/// The table after a change succeeds. Network routes other than the default
/// one are outside the model.
pub open spec fn apply(t: RouteTable, c: RouteChange) -> RouteTable {
    match c {
        RouteChange::Add { kind: RouteType::Host, target, gateway } => RouteTable {
            hosts: t.hosts.insert(target, gateway),
            ..t
        },
        RouteChange::Delete { kind: RouteType::Host, target } => RouteTable {
            hosts: t.hosts.remove(target),
            ..t
        },
        RouteChange::Add { kind: RouteType::Net, target, gateway } => if target == default_target() {
            RouteTable { default: Some(gateway), ..t }
        } else {
            t
        },
        RouteChange::Delete { kind: RouteType::Net, target } => if target == default_target() {
            RouteTable { default: None, ..t }
        } else {
            t
        },
    }
}

/// The table after a sequence of changes succeeds, in order.
pub open spec fn apply_all(t: RouteTable, cs: Seq<RouteChange>) -> RouteTable
    decreases cs.len(),
{
    if cs.len() == 0 {
        t
    } else {
        apply(apply_all(t, cs.drop_last()), cs.last())
    }
}

/// The gateway that traffic to `dest` takes: its host route, else the default.
pub open spec fn lookup(t: RouteTable, dest: Seq<char>) -> Option<Seq<char>> {
    if t.hosts.contains_key(dest) {
        Some(t.hosts[dest])
    } else {
        t.default
    }
}

/// The changes that acquiring an override makes once the original gateway
/// `origin` is known: the exception route for `remote` via `origin`, then,
/// when the default is replaced, the removal of the default route and a new
/// one via `gateway`.
pub open spec fn acquire_plan(
    origin: Seq<char>,
    gateway: Seq<char>,
    remote: Seq<char>,
    replace: bool,
) -> Seq<RouteChange> {
    seq![RouteChange::Add { kind: RouteType::Host, target: remote, gateway: origin }] + if replace {
        seq![
            RouteChange::Delete { kind: RouteType::Net, target: default_target() },
            RouteChange::Add { kind: RouteType::Net, target: default_target(), gateway: gateway },
        ]
    } else {
        Seq::empty()
    }
}

/// The changes that releasing an override makes, the reverse of acquiring:
/// the default route back to `origin` when it was replaced, then removal of
/// the exception route.
pub open spec fn release_plan(origin: Seq<char>, remote: Seq<char>, replaced: bool) -> Seq<
    RouteChange,
> {
    (if replaced {
        seq![
            RouteChange::Delete { kind: RouteType::Net, target: default_target() },
            RouteChange::Add { kind: RouteType::Net, target: default_target(), gateway: origin },
        ]
    } else {
        Seq::empty()
    }) + seq![RouteChange::Delete { kind: RouteType::Host, target: remote }]
}

proof fn lemma_apply_all_append(t: RouteTable, a: Seq<RouteChange>, b: Seq<RouteChange>)
    ensures
        apply_all(t, a + b) == apply_all(apply_all(t, a), b),
    decreases b.len(),
{
    if b.len() == 0 {
        assert(a + b =~= a);
    } else {
        assert((a + b).drop_last() =~= a + b.drop_last());
        lemma_apply_all_append(t, a, b.drop_last());
    }
}

proof fn lemma_apply_all_two(t: RouteTable, x: RouteChange, y: RouteChange)
    ensures
        apply_all(t, seq![x, y]) == apply(apply(t, x), y),
{
    assert(seq![x, y].drop_last() =~= seq![x]);
    lemma_apply_all_one(t, x);
}

proof fn lemma_apply_all_three(t: RouteTable, x: RouteChange, y: RouteChange, z: RouteChange)
    ensures
        apply_all(t, seq![x, y, z]) == apply(apply(apply(t, x), y), z),
{
    assert(seq![x, y, z].drop_last() =~= seq![x, y]);
    lemma_apply_all_two(t, x, y);
}

proof fn lemma_apply_all_one(t: RouteTable, x: RouteChange)
    ensures
        apply_all(t, seq![x]) == apply(t, x),
{
    assert(seq![x].drop_last() =~= Seq::<RouteChange>::empty());
    assert(apply_all(t, Seq::<RouteChange>::empty()) == t);
}

/// The table while an override is held, after its whole acquisition succeeded.
pub proof fn lemma_held_table(
    t: RouteTable,
    origin: Seq<char>,
    gateway: Seq<char>,
    remote: Seq<char>,
    replace: bool,
)
    ensures
        apply_all(t, acquire_plan(origin, gateway, remote, replace)) == (RouteTable {
            default: if replace { Some(gateway) } else { t.default },
            hosts: t.hosts.insert(remote, origin),
        }),
{
    let plan = acquire_plan(origin, gateway, remote, replace);
    let add = RouteChange::Add { kind: RouteType::Host, target: remote, gateway: origin };
    let del = RouteChange::Delete { kind: RouteType::Net, target: default_target() };
    let set = RouteChange::Add { kind: RouteType::Net, target: default_target(), gateway: gateway };
    if replace {
        assert(plan =~= seq![add, del, set]);
        lemma_apply_all_three(t, add, del, set);
    } else {
        assert(plan =~= seq![add]);
        lemma_apply_all_one(t, add);
    }
}

/// Acquiring and then releasing an override restores the default gateway
/// observed before acquisition and leaves no host route for the exception
/// target; every other host route is as it was.
pub proof fn lemma_round_trip(
    t: RouteTable,
    origin: Seq<char>,
    gateway: Seq<char>,
    remote: Seq<char>,
    replace: bool,
)
    requires
        t.default == Some(origin),
    ensures
        ({
            let held = apply_all(t, acquire_plan(origin, gateway, remote, replace));
            let after = apply_all(held, release_plan(origin, remote, replace));
            &&& after.default == t.default
            &&& !after.hosts.contains_key(remote)
            &&& after.hosts == t.hosts.remove(remote)
        }),
{
    lemma_held_table(t, origin, gateway, remote, replace);
    let held = apply_all(t, acquire_plan(origin, gateway, remote, replace));
    let del = RouteChange::Delete { kind: RouteType::Net, target: default_target() };
    let set = RouteChange::Add { kind: RouteType::Net, target: default_target(), gateway: origin };
    let unhost = RouteChange::Delete { kind: RouteType::Host, target: remote };
    let after = apply_all(held, release_plan(origin, remote, replace));
    if replace {
        assert(release_plan(origin, remote, replace) =~= seq![del, set, unhost]);
        lemma_apply_all_three(held, del, set, unhost);
    } else {
        assert(release_plan(origin, remote, replace) =~= seq![unhost]);
        lemma_apply_all_one(held, unhost);
    }
    assert(after.hosts =~= t.hosts.remove(remote));
}

/// While an override that replaced the default is held, traffic to the
/// exception target goes via the original gateway, and traffic to any
/// destination without a host route of its own goes via the new gateway.
pub proof fn lemma_exception_reachable(
    t: RouteTable,
    origin: Seq<char>,
    gateway: Seq<char>,
    remote: Seq<char>,
    dest: Seq<char>,
)
    ensures
        ({
            let held = apply_all(t, acquire_plan(origin, gateway, remote, true));
            &&& lookup(held, remote) == Some(origin)
            &&& dest != remote && !t.hosts.contains_key(dest) ==> lookup(held, dest) == Some(
                gateway,
            )
        }),
{
    lemma_held_table(t, origin, gateway, remote, true);
}

/// Without replacing the default, an override leaves the default gateway as
/// it was, installs the exception route, and its release removes that route.
pub proof fn lemma_keep_default(
    t: RouteTable,
    origin: Seq<char>,
    gateway: Seq<char>,
    remote: Seq<char>,
)
    ensures
        ({
            let held = apply_all(t, acquire_plan(origin, gateway, remote, false));
            let after = apply_all(held, release_plan(origin, remote, false));
            &&& held.default == t.default
            &&& held.hosts.contains_key(remote) && held.hosts[remote] == origin
            &&& after.default == t.default
            &&& !after.hosts.contains_key(remote)
        }),
{
    lemma_held_table(t, origin, gateway, remote, false);
    let held = apply_all(t, acquire_plan(origin, gateway, remote, false));
    let unhost = RouteChange::Delete { kind: RouteType::Host, target: remote };
    assert(release_plan(origin, remote, false) =~= seq![unhost]);
    lemma_apply_all_one(held, unhost);
}

/// When acquisition stops after its first `done` changes succeeded, with at
/// least the exception route among them, that route is still in the table.
pub proof fn lemma_failure_keeps_exception(
    t: RouteTable,
    origin: Seq<char>,
    gateway: Seq<char>,
    remote: Seq<char>,
    replace: bool,
    done: nat,
)
    requires
        1 <= done <= acquire_plan(origin, gateway, remote, replace).len(),
    ensures
        ({
            let partial = apply_all(t, acquire_plan(origin, gateway, remote, replace).take(done as int));
            partial.hosts.contains_key(remote) && partial.hosts[remote] == origin
        }),
{
    let plan = acquire_plan(origin, gateway, remote, replace);
    let add = RouteChange::Add { kind: RouteType::Host, target: remote, gateway: origin };
    let del = RouteChange::Delete { kind: RouteType::Net, target: default_target() };
    let set = RouteChange::Add { kind: RouteType::Net, target: default_target(), gateway: gateway };
    if done == 1 {
        assert(plan.take(1) =~= seq![add]);
        lemma_apply_all_one(t, add);
    } else if done == 2 {
        assert(plan.take(2) =~= seq![add, del]);
        lemma_apply_all_two(t, add, del);
    } else {
        assert(plan.take(3) =~= seq![add, del, set]);
        lemma_apply_all_three(t, add, del, set);
    }
}

} // verus!
