use vstd::prelude::*;

use crate::identity::Identity;
use crate::machine::{
    Operation, apply, approve_vouch_spec, caller_of, has_request_from, initialize_spec,
    is_first_request_from, is_owner_gated, request_vouch_spec, run, send_message_spec, set_bio_spec, set_image_spec,
    set_links_spec, tip_spec,
};
use crate::record::{EndorsementView, ErrorCode, PortfolioView, fresh_record};

verus! {

proof fn lemma_run_keeps_owner(p: PortfolioView, ops: Seq<Operation>)
    ensures
        run(p, ops).owner == p.owner,
    decreases ops.len(),
{
    if ops.len() > 0 {
        lemma_run_keeps_owner(apply(p, ops[0]).0, ops.drop_first());
    }
}

/// Once initialization has made `caller` the owner, no sequence of
/// operations changes the owner.
pub proof fn owner_fixed_after_initialize(caller: Identity, ops: Seq<Operation>)
    ensures
        initialize_spec(None, caller) == (Some(fresh_record(caller)), Ok::<(), ErrorCode>(())),
        run(fresh_record(caller), ops).owner == caller,
{
    lemma_run_keeps_owner(fresh_record(caller), ops);
}

/// Setting the bio twice to the same text leaves the record as once.
pub proof fn set_bio_idempotent(p: PortfolioView, caller: Identity, bio: Seq<char>)
    requires
        caller == p.owner,
    ensures
        set_bio_spec(set_bio_spec(p, caller, bio).0, caller, bio) == set_bio_spec(p, caller, bio),
{
}

/// Setting the image twice to the same reference leaves the record as once.
pub proof fn set_image_idempotent(p: PortfolioView, caller: Identity, image_url: Seq<char>)
    requires
        caller == p.owner,
    ensures
        set_image_spec(set_image_spec(p, caller, image_url).0, caller, image_url)
            == set_image_spec(p, caller, image_url),
{
}

/// Two calls that add links keep every earlier link: the second batch follows
/// the first.
pub proof fn set_links_additive(
    p: PortfolioView,
    caller: Identity,
    first: Seq<Seq<char>>,
    second: Seq<Seq<char>>,
)
    requires
        caller == p.owner,
    ensures
        set_links_spec(p, caller, first).1 is Ok,
        set_links_spec(set_links_spec(p, caller, first).0, caller, second).1 is Ok,
        set_links_spec(set_links_spec(p, caller, first).0, caller, second).0.links
            == p.links + first + second,
{
}

/// An owner-gated operation from anyone but the owner is refused with
/// `Unauthorized` and leaves the record unchanged.
pub proof fn non_owner_refused(p: PortfolioView, op: Operation)
    requires
        is_owner_gated(op),
        caller_of(op) != Some(p.owner),
    ensures
        apply(p, op) == (p, Err::<(), ErrorCode>(ErrorCode::Unauthorized)),
{
}

/// A request from someone with nothing pending, then the owner's approval of
/// that identity: the request becomes exactly one more vouch, and approval
/// leaves the pending requests as they were.
pub proof fn request_then_approve(p: PortfolioView, owner: Identity, request: EndorsementView)
    requires
        owner == p.owner,
        !has_request_from(p.vouch_requests, request.vouched_by),
    ensures
        ({
            let q = request_vouch_spec(p, request).0;
            let (q2, r) = approve_vouch_spec(q, owner, request.vouched_by);
            &&& r is Ok
            &&& q2.vouches == p.vouches.push(request)
            &&& q2.vouch_requests == p.vouch_requests.push(request)
        }),
{
    let q = request_vouch_spec(p, request).0;
    let user = request.vouched_by;
    let last = p.vouch_requests.len() as int;
    assert forall|j: int| 0 <= j < last implies #[trigger] q.vouch_requests[j].vouched_by != user by {
        assert(q.vouch_requests[j] == p.vouch_requests[j]);
    }
    assert(is_first_request_from(q.vouch_requests, user, last));
    let k = choose|k: int| is_first_request_from(q.vouch_requests, user, k);
    assert(k == last);
}

/// Approving an identity with no pending request succeeds and changes
/// nothing.
pub proof fn approve_without_request(p: PortfolioView, owner: Identity, user: Identity)
    requires
        owner == p.owner,
        !has_request_from(p.vouch_requests, user),
    ensures
        approve_vouch_spec(p, owner, user) == (p, Ok::<(), ErrorCode>(())),
{
}

/// Messages and tips are open to every caller: a message adds exactly one
/// inbox entry, and a tip that fits adds exactly its amount.
pub proof fn open_operations_succeed(
    p: PortfolioView,
    caller: Identity,
    content: Seq<char>,
    amount: u64,
)
    ensures
        send_message_spec(p, caller, content).1 is Ok,
        send_message_spec(p, caller, content).0.messages.len() == p.messages.len() + 1,
        p.tip_amount + amount <= u64::MAX ==> {
            &&& tip_spec(p, amount).1 is Ok
            &&& tip_spec(p, amount).0.tip_amount == p.tip_amount + amount
        },
{
}

/// A second initialization fails with `AlreadyInitialized` and keeps the
/// record that the first one created.
pub proof fn second_initialize_fails(first: Identity, second: Identity)
    ensures
        ({
            let (slot, r1) = initialize_spec(None, first);
            let (slot2, r2) = initialize_spec(slot, second);
            &&& r1 is Ok
            &&& r2 == Err::<(), ErrorCode>(ErrorCode::AlreadyInitialized)
            &&& slot2 == slot
            &&& slot2 == Some(fresh_record(first))
        }),
{
}

} // verus!
