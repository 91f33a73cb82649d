use vstd::prelude::*;

use crate::identity::Identity;
use crate::machine::{
    approve_vouch_spec, has_request_from, initialize_spec, is_first_request_from, request_vouch_spec,
    send_message_spec, set_bio_spec, set_image_spec, set_links_spec, tip_spec,
};
use crate::record::{ErrorCode, Message, Portfolio, PortfolioView, Vouch, VouchRequest};

verus! {

/// Accounts for creating the record: the slot at the record's address, empty
/// until the record exists, and the signer who pays and becomes the owner.
#[derive(Debug)]
pub struct Initialize {
    pub liquidity: Option<Portfolio>,
    pub authority: Identity,
}

/// Accounts for replacing the bio: the record and its signer.
#[derive(Debug)]
pub struct Createliquidity {
    pub liquidity: Portfolio,
    pub authority: Identity,
}

/// Accounts for appending links: the record and its signer.
#[derive(Debug)]
pub struct StoreLinks {
    pub liquidity: Portfolio,
    pub authority: Identity,
}

/// Accounts for replacing the image reference: the record and its signer.
#[derive(Debug)]
pub struct StoreImage {
    pub liquidity: Portfolio,
    pub authority: Identity,
}

/// Accounts for submitting a vouch request: the record alone.
#[derive(Debug)]
pub struct RequestVouch {
    pub liquidity: Portfolio,
}

/// Accounts for approving a vouch request: the record and its signer.
#[derive(Debug)]
pub struct ApproveVouch {
    pub liquidity: Portfolio,
    pub authority: Identity,
}

/// Accounts for leaving a message: the record and the sender.
#[derive(Debug)]
pub struct SendMessage {
    pub liquidity: Portfolio,
    pub authority: Identity,
}

/// Accounts for tipping: the record alone.
#[derive(Debug)]
pub struct Tip {
    pub liquidity: Portfolio,
}

/// The abstract content of the record's slot.
pub open spec fn slot_view(slot: Option<Portfolio>) -> Option<PortfolioView> {
    match slot {
        Some(p) => Some(p@),
        None => None,
    }
}

/// Creates the record with the signer as owner; refused where the record
/// already exists, which is then left as it was.
pub fn initialize(ctx: &mut Initialize) -> (r: Result<(), ErrorCode>)
    ensures
        final(ctx).authority == old(ctx).authority,
        (slot_view(final(ctx).liquidity), r) == initialize_spec(
            slot_view(old(ctx).liquidity),
            old(ctx).authority,
        ),
        old(ctx).liquidity is Some ==> final(ctx).liquidity == old(ctx).liquidity,
{
    if ctx.liquidity.is_some() {
        return Err(ErrorCode::AlreadyInitialized);
    }
    ctx.liquidity = Some(Portfolio::new(ctx.authority));
    Ok(())
}

/// Replaces the bio, owner only.
pub fn create_liquidity(ctx: &mut Createliquidity, bio: String) -> (r: Result<(), ErrorCode>)
    ensures
        final(ctx).authority == old(ctx).authority,
        (final(ctx).liquidity@, r) == set_bio_spec(old(ctx).liquidity@, old(ctx).authority, bio@),
{
    if ctx.authority != ctx.liquidity.owner {
        return Err(ErrorCode::Unauthorized);
    }
    ctx.liquidity.bio = bio;
    Ok(())
}

/// Appends `links` after the existing links, owner only.
pub fn store_links(ctx: &mut StoreLinks, links: Vec<String>) -> (r: Result<(), ErrorCode>)
    ensures
        final(ctx).authority == old(ctx).authority,
        (final(ctx).liquidity@, r) == set_links_spec(
            old(ctx).liquidity@,
            old(ctx).authority,
            links@.map_values(|s: String| s@),
        ),
{
    if ctx.authority != ctx.liquidity.owner {
        return Err(ErrorCode::Unauthorized);
    }
    let ghost added = links@.map_values(|s: String| s@);
    let mut links = links;
    ctx.liquidity.links.append(&mut links);
    assert(ctx.liquidity@.links =~= old(ctx).liquidity@.links + added);
    Ok(())
}

/// Replaces the image reference, owner only.
pub fn store_image(ctx: &mut StoreImage, image_url: String) -> (r: Result<(), ErrorCode>)
    ensures
        final(ctx).authority == old(ctx).authority,
        (final(ctx).liquidity@, r) == set_image_spec(
            old(ctx).liquidity@,
            old(ctx).authority,
            image_url@,
        ),
{
    if ctx.authority != ctx.liquidity.owner {
        return Err(ErrorCode::Unauthorized);
    }
    ctx.liquidity.image_url = image_url;
    Ok(())
}

/// Appends a vouch request; open to anyone.
pub fn request_vouch(ctx: &mut RequestVouch, vouch: VouchRequest) -> (r: Result<(), ErrorCode>)
    ensures
        (final(ctx).liquidity@, r) == request_vouch_spec(old(ctx).liquidity@, vouch@),
{
    let ghost v = vouch@;
    ctx.liquidity.vouch_requests.push(vouch);
    assert(ctx.liquidity@.vouch_requests =~= old(ctx).liquidity@.vouch_requests.push(v));
    Ok(())
}

/// The position of the earliest request from `user`, if any.
pub fn find_request(requests: &Vec<VouchRequest>, user: Identity) -> (r: Option<usize>)
    ensures
        match r {
            Some(i) => is_first_request_from(
                requests@.map_values(|v: VouchRequest| v@),
                user,
                i as int,
            ),
            None => !has_request_from(requests@.map_values(|v: VouchRequest| v@), user),
        },
{
    let ghost rs = requests@.map_values(|v: VouchRequest| v@);
    let mut i: usize = 0;
    while i < requests.len()
        invariant
            0 <= i <= requests.len(),
            rs == requests@.map_values(|v: VouchRequest| v@),
            forall|j: int| 0 <= j < i ==> #[trigger] rs[j].vouched_by != user,
        decreases requests.len() - i,
    {
        if requests[i].vouched_by == user {
            return Some(i);
        }
        i = i + 1;
    }
    None
}

/// Approves the earliest vouch request from `vouch_user`, owner only.
pub fn approve_vouch(ctx: &mut ApproveVouch, vouch_user: Identity) -> (r: Result<(), ErrorCode>)
    ensures
        final(ctx).authority == old(ctx).authority,
        (final(ctx).liquidity@, r) == approve_vouch_spec(
            old(ctx).liquidity@,
            old(ctx).authority,
            vouch_user,
        ),
{
    if ctx.authority != ctx.liquidity.owner {
        return Err(ErrorCode::Unauthorized);
    }
    let found = find_request(&ctx.liquidity.vouch_requests, vouch_user);
    if let Some(i) = found {
        let ghost rs = ctx.liquidity.vouch_requests@.map_values(|v: VouchRequest| v@);
        let request = &ctx.liquidity.vouch_requests[i];
        let vouch = Vouch { vouched_by: request.vouched_by, comment: request.comment.clone() };
        proof {
            let k = choose|k: int| is_first_request_from(rs, vouch_user, k);
            assert(k == i);
        }
        ctx.liquidity.vouches.push(vouch);
        assert(ctx.liquidity@.vouches =~= old(ctx).liquidity@.vouches.push(vouch@));
    }
    Ok(())
}

/// Leaves a message signed by the caller; open to anyone.
pub fn send_message(ctx: &mut SendMessage, content: String) -> (r: Result<(), ErrorCode>)
    ensures
        final(ctx).authority == old(ctx).authority,
        (final(ctx).liquidity@, r) == send_message_spec(
            old(ctx).liquidity@,
            old(ctx).authority,
            content@,
        ),
{
    let message = Message { sender: ctx.authority, content };
    let ghost m = message@;
    ctx.liquidity.messages.push(message);
    assert(ctx.liquidity@.messages =~= old(ctx).liquidity@.messages.push(m));
    Ok(())
}

/// Adds `amount` to the tip total; open to anyone. A total past the largest
/// `u64` is refused with `Overflow` and changes nothing.
pub fn tip(ctx: &mut Tip, amount: u64) -> (r: Result<(), ErrorCode>)
    ensures
        (final(ctx).liquidity@, r) == tip_spec(old(ctx).liquidity@, amount),
{
    match ctx.liquidity.tip_amount.checked_add(amount) {
        Some(total) => {
            ctx.liquidity.tip_amount = total;
            Ok(())
        },
        None => Err(ErrorCode::Overflow),
    }
}

} // verus!
