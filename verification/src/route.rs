//! Route construction. A direct route carries a response straight back to
//! the requester; a relay route answers Connect with the target as hop 0
//! followed by up to 3 relay candidates drawn from the directory in
//! registration order. Hop selection is deliberately deterministic: callers
//! must not assume unlinkability of the returned path.

use vstd::prelude::*;
use vstd::string::StringExecFns;

use crate::directory::{Directory, KnownUser};
use crate::protocol::{Hop, Key, Route};

verus! {

/// The hop a directory record contributes to a relay route: the record's
/// listening address and public key.
pub open spec fn hop_of(u: KnownUser) -> Hop {
    (u.addr, u.public_key)
}

/// How many relay candidates a directory contributes: all of them, up to 3.
pub open spec fn relay_count(users: Seq<KnownUser>) -> int {
    if users.len() < 3 {
        users.len() as int
    } else {
        3
    }
}

/// The relay route for a directory snapshot and a destination: the
/// destination, then the first `relay_count` records' hops in order.
pub open spec fn spec_relay_route(users: Seq<KnownUser>, dest: Hop) -> Seq<
    Hop,
> {
    seq![dest] + users.take(relay_count(users)).map_values(|u: KnownUser| hop_of(u))
}

/// A one-hop route back to the requester itself, used for Login, Register
/// and PublicKey responses.
pub fn gen_route(user_ip: &str, key: &Key) -> (r: Route)
    ensures
        r@.len() == 1,
        r@[0].0@ == user_ip@,
        r@[0].1 == *key,
{
    let mut r: Route = Vec::new();
    r.push((String::from_str(user_ip), *key));
    r
}

/// The relay route for a Connect response: the looked-up target as hop 0,
/// then the first `min(3, |directory|)` records in registration order, the
/// target's own record not excluded. The result is a function of the
/// directory snapshot and the destination alone.
pub fn generate_route(users: &Directory, dest: Hop) -> (r: Route)
    ensures
        r@ == spec_relay_route(users@, dest),
        r@.len() == 1 + relay_count(users@),
        r@[0] == dest,
{
    let mut r: Route = Vec::new();
    r.push(dest);
    let n: usize = if users.len() < 3 {
        users.len()
    } else {
        3
    };
    let mut i: usize = 0;
    while i < n
        invariant
            i <= n,
            n <= users@.len(),
            n == relay_count(users@),
            r@ =~= seq![dest] + users@.take(i as int).map_values(|u: KnownUser| hop_of(u)),
        decreases n - i,
    {
        let u = users.user_at(i);
        r.push((u.addr.clone(), u.public_key));
        proof {
            assert(users@.take(i + 1 as int).map_values(|u: KnownUser| hop_of(u))
                =~= users@.take(i as int).map_values(|u: KnownUser| hop_of(u)).push(
                hop_of(users@[i as int]),
            ));
        }
        i = i + 1;
    }
    assert(r@ =~= spec_relay_route(users@, dest));
    r
}

/// Connect determinism: the relay route is a function of the directory
/// snapshot and the destination alone, so repeated calls on one snapshot
/// yield the same hop sequence; and hop 0 always equals the destination.
pub proof fn lemma_relay_route_deterministic(
    users: Seq<KnownUser>,
    dest: Hop,
    r1: Seq<Hop>,
    r2: Seq<Hop>,
)
    requires
        r1 == spec_relay_route(users, dest),
        r2 == spec_relay_route(users, dest),
    ensures
        r1 == r2,
        r1[0] == dest,
{
}

} // verus!
