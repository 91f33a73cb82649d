use vstd::prelude::*;

use crate::identity::Identity;
use crate::record::{EndorsementView, ErrorCode, MessageView, PortfolioView, fresh_record};

verus! {

/// What `initialize` does to the slot at the record's address.
pub open spec fn initialize_spec(slot: Option<PortfolioView>, caller: Identity) -> (
    Option<PortfolioView>,
    Result<(), ErrorCode>,
) {
    match slot {
        Some(p) => (Some(p), Err(ErrorCode::AlreadyInitialized)),
        None => (Some(fresh_record(caller)), Ok(())),
    }
}

/// The owner replaces the bio.
pub open spec fn set_bio_spec(p: PortfolioView, caller: Identity, bio: Seq<char>) -> (
    PortfolioView,
    Result<(), ErrorCode>,
) {
    if caller != p.owner {
        (p, Err(ErrorCode::Unauthorized))
    } else {
        (PortfolioView { bio, ..p }, Ok(()))
    }
}

/// The owner appends links after the existing ones.
pub open spec fn set_links_spec(p: PortfolioView, caller: Identity, links: Seq<Seq<char>>) -> (
    PortfolioView,
    Result<(), ErrorCode>,
) {
    if caller != p.owner {
        (p, Err(ErrorCode::Unauthorized))
    } else {
        (PortfolioView { links: p.links + links, ..p }, Ok(()))
    }
}

/// The owner replaces the image reference.
pub open spec fn set_image_spec(p: PortfolioView, caller: Identity, image_url: Seq<char>) -> (
    PortfolioView,
    Result<(), ErrorCode>,
) {
    if caller != p.owner {
        (p, Err(ErrorCode::Unauthorized))
    } else {
        (PortfolioView { image_url, ..p }, Ok(()))
    }
}

/// Anyone appends a vouch request, duplicates included.
pub open spec fn request_vouch_spec(p: PortfolioView, request: EndorsementView) -> (
    PortfolioView,
    Result<(), ErrorCode>,
) {
    (PortfolioView { vouch_requests: p.vouch_requests.push(request), ..p }, Ok(()))
}

/// Some pending request comes from `user`.
pub open spec fn has_request_from(requests: Seq<EndorsementView>, user: Identity) -> bool {
    exists|i: int| 0 <= i < requests.len() && #[trigger] requests[i].vouched_by == user
}

/// `i` is the position of the earliest pending request from `user`.
pub open spec fn is_first_request_from(
    requests: Seq<EndorsementView>,
    user: Identity,
    i: int,
) -> bool {
    &&& 0 <= i < requests.len()
    &&& requests[i].vouched_by == user
    &&& forall|j: int| 0 <= j < i ==> #[trigger] requests[j].vouched_by != user
}

/// The earliest pending request from `user`, where there is one.
pub open spec fn first_request_from(requests: Seq<EndorsementView>, user: Identity) -> EndorsementView
    recommends
        has_request_from(requests, user),
{
    requests[choose|i: int| is_first_request_from(requests, user, i)]
}

/// The owner approves the earliest request from `user`: a copy of it joins
/// the vouches and the request stays pending. Without such a request nothing
/// changes and the call still succeeds.
pub open spec fn approve_vouch_spec(p: PortfolioView, caller: Identity, user: Identity) -> (
    PortfolioView,
    Result<(), ErrorCode>,
) {
    if caller != p.owner {
        (p, Err(ErrorCode::Unauthorized))
    } else if has_request_from(p.vouch_requests, user) {
        (
            PortfolioView {
                vouches: p.vouches.push(first_request_from(p.vouch_requests, user)),
                ..p
            },
            Ok(()),
        )
    } else {
        (p, Ok(()))
    }
}

/// Anyone leaves a message, signed with their own identity.
pub open spec fn send_message_spec(p: PortfolioView, caller: Identity, content: Seq<char>) -> (
    PortfolioView,
    Result<(), ErrorCode>,
) {
    (
        PortfolioView {
            messages: p.messages.push(MessageView { sender: caller, content }),
            ..p
        },
        Ok(()),
    )
}

/// Anyone adds to the tip total; a sum past the largest `u64` is refused.
pub open spec fn tip_spec(p: PortfolioView, amount: u64) -> (PortfolioView, Result<(), ErrorCode>) {
    if p.tip_amount + amount > u64::MAX {
        (p, Err(ErrorCode::Overflow))
    } else {
        (PortfolioView { tip_amount: (p.tip_amount + amount) as u64, ..p }, Ok(()))
    }
}

/// One call on an existing record, with the inputs that decide its effect.
pub enum Operation {
    Initialize { caller: Identity },
    SetBio { caller: Identity, bio: Seq<char> },
    SetLinks { caller: Identity, links: Seq<Seq<char>> },
    SetImage { caller: Identity, image_url: Seq<char> },
    RequestVouch { request: EndorsementView },
    ApproveVouch { caller: Identity, user: Identity },
    SendMessage { caller: Identity, content: Seq<char> },
    Tip { amount: u64 },
}

/// The effect of one operation on an existing record. A repeated
/// initialization meets the record already in place.
pub open spec fn apply(p: PortfolioView, op: Operation) -> (PortfolioView, Result<(), ErrorCode>) {
    match op {
        Operation::Initialize { caller } => (p, initialize_spec(Some(p), caller).1),
        Operation::SetBio { caller, bio } => set_bio_spec(p, caller, bio),
        Operation::SetLinks { caller, links } => set_links_spec(p, caller, links),
        Operation::SetImage { caller, image_url } => set_image_spec(p, caller, image_url),
        Operation::RequestVouch { request } => request_vouch_spec(p, request),
        Operation::ApproveVouch { caller, user } => approve_vouch_spec(p, caller, user),
        Operation::SendMessage { caller, content } => send_message_spec(p, caller, content),
        Operation::Tip { amount } => tip_spec(p, amount),
    }
}

/// The record after the operations, in order, whatever each one returned.
pub open spec fn run(p: PortfolioView, ops: Seq<Operation>) -> PortfolioView
    decreases ops.len(),
{
    if ops.len() == 0 {
        p
    } else {
        run(apply(p, ops[0]).0, ops.drop_first())
    }
}

/// The operations that only the owner may perform.
pub open spec fn is_owner_gated(op: Operation) -> bool {
    match op {
        Operation::SetBio { .. } | Operation::SetLinks { .. } | Operation::SetImage { .. }
        | Operation::ApproveVouch { .. } => true,
        _ => false,
    }
}

/// The identity that performs `op`, where the operation has a signer.
pub open spec fn caller_of(op: Operation) -> Option<Identity> {
    match op {
        Operation::Initialize { caller } => Some(caller),
        Operation::SetBio { caller, .. } => Some(caller),
        Operation::SetLinks { caller, .. } => Some(caller),
        Operation::SetImage { caller, .. } => Some(caller),
        Operation::ApproveVouch { caller, .. } => Some(caller),
        Operation::SendMessage { caller, .. } => Some(caller),
        Operation::RequestVouch { .. } | Operation::Tip { .. } => None,
    }
}

} // verus!
