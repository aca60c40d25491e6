use vstd::prelude::*;

use crate::error::Error;
use crate::graph::{Link, LinkInfo};
use crate::pipewire::{
    create_link_step, remove_link_step, remove_step, request_step, PwRequest, PwResponse,
};
use crate::state::{lemma_sk_get_at_index, sk_get, ClientState};

verus! {

proof fn lemma_counter_grows(
    states: Seq<ClientState>,
    infos: Seq<LinkInfo>,
    resps: Seq<PwResponse>,
    i: int,
)
    requires
        states.len() == resps.len() + 1,
        infos.len() == resps.len(),
        states[0].links.key == 0,
        resps.len() < u32::MAX,
        forall|j: int|
            0 <= j < resps.len() ==> #[trigger] create_link_step(
                states[j],
                infos[j],
                states[j + 1],
                resps[j],
            ),
        0 <= i <= resps.len(),
    ensures
        states[i].links.key == i,
    decreases i,
{
    if i > 0 {
        lemma_counter_grows(states, infos, resps, i - 1);
        assert(create_link_step(states[i - 1], infos[i - 1], states[i], resps[i - 1]));
    }
}

/// Handles are minted sequentially: across a run of link creations with
/// no interleaved removals, started from a fresh reactor, the `i`-th
/// response carries handle `i + 1` — the handles are exactly 1, …, n in
/// issuance order.
pub proof fn lemma_sequential_create_handles(
    states: Seq<ClientState>,
    infos: Seq<LinkInfo>,
    resps: Seq<PwResponse>,
)
    requires
        states.len() == resps.len() + 1,
        infos.len() == resps.len(),
        states[0].links.key == 0,
        resps.len() < u32::MAX,
        forall|j: int|
            0 <= j < resps.len() ==> #[trigger] create_link_step(
                states[j],
                infos[j],
                states[j + 1],
                resps[j],
            ),
    ensures
        forall|i: int|
            0 <= i < resps.len() ==> resps[i] == PwResponse::CreateLink(
                Link { internal_link_id: (i + 1) as u32 },
            ),
{
    assert forall|i: int|
        0 <= i < resps.len() implies resps[i] == PwResponse::CreateLink(
        Link { internal_link_id: (i + 1) as u32 },
    ) by {
        lemma_counter_grows(states, infos, resps, i);
        assert(create_link_step(states[i], infos[i], states[i + 1], resps[i]));
    }
}

/// A link handle is removed once: removing a handle in use succeeds, and
/// a second removal of the same handle fails with `LinkNotFound` and
/// changes nothing.
pub proof fn lemma_remove_link_once(
    s0: ClientState,
    s1: ClientState,
    s2: ClientState,
    link: Link,
    r1: PwResponse,
    r2: PwResponse,
)
    requires
        sk_get(s0.links.map@, link.internal_link_id) is Some,
        remove_link_step(s0, link, s1, r1),
        remove_link_step(s1, link, s2, r2),
    ensures
        r1 == PwResponse::RemoveLink,
        r2 == PwResponse::Error(Error::LinkNotFound),
        s2.links.map@ == s1.links.map@,
{
}

/// A node removed by a remove-event is absent from the next ListNodes
/// snapshot, while the ports listed before — the removed node's among
/// them — remain until their own remove-events fire.
pub proof fn lemma_removed_node_absent(
    pre: ClientState,
    mid: ClientState,
    post: ClientState,
    id: u32,
    resp: PwResponse,
    quit: bool,
)
    requires
        pre.wf(),
        mid.wf(),
        remove_step(pre, id, mid),
        request_step(mid, PwRequest::Nodes, post, resp, quit),
        sk_get(pre.ports@, id) is None,
    ensures
        resp matches PwResponse::Nodes(v) && forall|i: int|
            0 <= i < v@.len() ==> (#[trigger] v@[i]).id != id,
        mid.ports@ == pre.ports@,
{
    match resp {
        PwResponse::Nodes(v) => {
            assert forall|i: int| 0 <= i < v@.len() implies (#[trigger] v@[i]).id != id by {
                let k = mid.nodes@[i].0;
                lemma_sk_get_at_index(mid.nodes@, i);
                assert(sk_get(mid.nodes@, k) == Some(mid.nodes@[i].1));
                assert(v@[i] == mid.nodes@[i].1);
                assert(v@[i].id == k);
                if k == id {
                    assert(sk_get(mid.nodes@, id) is Some);
                }
            }
        },
        _ => {
            assert(false);
        },
    }
}

/// Quit is answered with exactly one Quit response, the loop-stopping
/// flag is raised, and the state is left as it stands.
pub proof fn lemma_quit_turn(pre: ClientState, post: ClientState, resp: PwResponse, quit: bool)
    requires
        request_step(pre, PwRequest::Quit, post, resp, quit),
    ensures
        resp == PwResponse::Quit,
        quit,
        post == pre,
{
}

} // verus!
