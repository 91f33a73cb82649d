use liquidity_profile::identity::Identity;
use liquidity_profile::instructions::{
    approve_vouch, create_liquidity, find_request, initialize, request_vouch, send_message,
    store_image, store_links, tip, ApproveVouch, Createliquidity, Initialize, RequestVouch,
    SendMessage, StoreImage, StoreLinks, Tip,
};
use liquidity_profile::record::{ErrorCode, Portfolio, VouchRequest};

fn id(b: u8) -> Identity {
    Identity::new([b; 32])
}

fn created(owner: Identity) -> Portfolio {
    let mut ctx = Initialize { liquidity: None, authority: owner };
    assert_eq!(initialize(&mut ctx), Ok(()));
    ctx.liquidity.unwrap()
}

fn request(by: Identity, comment: &str) -> VouchRequest {
    VouchRequest { vouched_by: by, comment: comment.to_string() }
}

fn with_request(p: Portfolio, by: Identity, comment: &str) -> Portfolio {
    let mut ctx = RequestVouch { liquidity: p };
    assert_eq!(request_vouch(&mut ctx, request(by, comment)), Ok(()));
    ctx.liquidity
}

#[test]
fn initialize_creates_empty_record() {
    let p = created(id(1));
    assert_eq!(p.owner, id(1));
    assert_eq!(p.bio, "");
    assert!(p.links.is_empty());
    assert_eq!(p.image_url, "");
    assert!(p.vouches.is_empty());
    assert!(p.vouch_requests.is_empty());
    assert!(p.messages.is_empty());
    assert_eq!(p.tip_amount, 0);
}

#[test]
fn second_initialize_is_refused() {
    let mut ctx = Initialize { liquidity: None, authority: id(1) };
    assert_eq!(initialize(&mut ctx), Ok(()));
    ctx.authority = id(2);
    assert_eq!(initialize(&mut ctx), Err(ErrorCode::AlreadyInitialized));
    let p = ctx.liquidity.unwrap();
    assert_eq!(p.owner, id(1));
    assert_eq!(p.tip_amount, 0);
}

#[test]
fn owner_sets_bio() {
    let mut ctx = Createliquidity { liquidity: created(id(1)), authority: id(1) };
    assert_eq!(create_liquidity(&mut ctx, "first".to_string()), Ok(()));
    assert_eq!(create_liquidity(&mut ctx, "second".to_string()), Ok(()));
    assert_eq!(ctx.liquidity.bio, "second");
}

#[test]
fn set_bio_twice_same_as_once() {
    let mut once = Createliquidity { liquidity: created(id(1)), authority: id(1) };
    assert_eq!(create_liquidity(&mut once, "hello".to_string()), Ok(()));
    let mut twice = Createliquidity { liquidity: created(id(1)), authority: id(1) };
    assert_eq!(create_liquidity(&mut twice, "hello".to_string()), Ok(()));
    assert_eq!(create_liquidity(&mut twice, "hello".to_string()), Ok(()));
    assert_eq!(once.liquidity.bio, twice.liquidity.bio);
    assert_eq!(twice.liquidity.bio, "hello");
}

#[test]
fn set_image_twice_same_as_once() {
    let mut ctx = StoreImage { liquidity: created(id(1)), authority: id(1) };
    assert_eq!(store_image(&mut ctx, "a.png".to_string()), Ok(()));
    assert_eq!(ctx.liquidity.image_url, "a.png");
    assert_eq!(store_image(&mut ctx, "a.png".to_string()), Ok(()));
    assert_eq!(ctx.liquidity.image_url, "a.png");
    assert_eq!(store_image(&mut ctx, "b.png".to_string()), Ok(()));
    assert_eq!(ctx.liquidity.image_url, "b.png");
}

#[test]
fn links_are_appended() {
    let mut ctx = StoreLinks { liquidity: created(id(1)), authority: id(1) };
    assert_eq!(store_links(&mut ctx, vec!["a".to_string(), "b".to_string()]), Ok(()));
    assert_eq!(store_links(&mut ctx, vec!["c".to_string()]), Ok(()));
    assert_eq!(ctx.liquidity.links, vec!["a".to_string(), "b".to_string(), "c".to_string()]);
}

#[test]
fn non_owner_is_refused_everywhere() {
    let stranger = id(9);
    let mut bio = Createliquidity { liquidity: created(id(1)), authority: stranger };
    assert_eq!(create_liquidity(&mut bio, "x".to_string()), Err(ErrorCode::Unauthorized));
    assert_eq!(bio.liquidity.bio, "");

    let mut links = StoreLinks { liquidity: created(id(1)), authority: stranger };
    assert_eq!(store_links(&mut links, vec!["x".to_string()]), Err(ErrorCode::Unauthorized));
    assert!(links.liquidity.links.is_empty());

    let mut image = StoreImage { liquidity: created(id(1)), authority: stranger };
    assert_eq!(store_image(&mut image, "x".to_string()), Err(ErrorCode::Unauthorized));
    assert_eq!(image.liquidity.image_url, "");

    let p = with_request(created(id(1)), id(5), "hi");
    let mut approve = ApproveVouch { liquidity: p, authority: stranger };
    assert_eq!(approve_vouch(&mut approve, id(5)), Err(ErrorCode::Unauthorized));
    assert!(approve.liquidity.vouches.is_empty());
    assert_eq!(approve.liquidity.vouch_requests.len(), 1);
}

#[test]
fn request_then_approve_adds_one_vouch() {
    let x = id(7);
    let p = with_request(created(id(1)), x, "hi");
    assert_eq!(p.vouch_requests.len(), 1);
    let mut ctx = ApproveVouch { liquidity: p, authority: id(1) };
    assert_eq!(approve_vouch(&mut ctx, x), Ok(()));
    assert_eq!(ctx.liquidity.vouches.len(), 1);
    assert_eq!(ctx.liquidity.vouches[0].vouched_by, x);
    assert_eq!(ctx.liquidity.vouches[0].comment, "hi");
    assert_eq!(ctx.liquidity.vouch_requests.len(), 1);
}

#[test]
fn approve_takes_first_matching_request() {
    let p = with_request(created(id(1)), id(3), "other");
    let p = with_request(p, id(4), "early");
    let p = with_request(p, id(4), "late");
    assert_eq!(find_request(&p.vouch_requests, id(4)), Some(1));
    let mut ctx = ApproveVouch { liquidity: p, authority: id(1) };
    assert_eq!(approve_vouch(&mut ctx, id(4)), Ok(()));
    assert_eq!(approve_vouch(&mut ctx, id(4)), Ok(()));
    assert_eq!(ctx.liquidity.vouches.len(), 2);
    assert_eq!(ctx.liquidity.vouches[0].comment, "early");
    assert_eq!(ctx.liquidity.vouches[1].comment, "early");
    assert_eq!(ctx.liquidity.vouch_requests.len(), 3);
}

#[test]
fn approve_without_request_changes_nothing() {
    let p = with_request(created(id(1)), id(3), "hi");
    assert_eq!(find_request(&p.vouch_requests, id(8)), None);
    let mut ctx = ApproveVouch { liquidity: p, authority: id(1) };
    assert_eq!(approve_vouch(&mut ctx, id(8)), Ok(()));
    assert!(ctx.liquidity.vouches.is_empty());
    assert_eq!(ctx.liquidity.vouch_requests.len(), 1);
}

#[test]
fn anyone_sends_messages() {
    let mut ctx = SendMessage { liquidity: created(id(1)), authority: id(2) };
    assert_eq!(send_message(&mut ctx, "hello".to_string()), Ok(()));
    assert_eq!(ctx.liquidity.messages.len(), 1);
    ctx.authority = id(1);
    assert_eq!(send_message(&mut ctx, "reply".to_string()), Ok(()));
    assert_eq!(ctx.liquidity.messages.len(), 2);
    assert_eq!(ctx.liquidity.messages[0].sender, id(2));
    assert_eq!(ctx.liquidity.messages[0].content, "hello");
    assert_eq!(ctx.liquidity.messages[1].sender, id(1));
    assert_eq!(ctx.liquidity.messages[1].content, "reply");
}

#[test]
fn tips_accumulate() {
    let mut ctx = Tip { liquidity: created(id(1)) };
    assert_eq!(tip(&mut ctx, 5), Ok(()));
    assert_eq!(tip(&mut ctx, 7), Ok(()));
    assert_eq!(ctx.liquidity.tip_amount, 12);
    assert_eq!(tip(&mut ctx, 0), Ok(()));
    assert_eq!(ctx.liquidity.tip_amount, 12);
}

#[test]
fn tip_past_largest_total_is_refused() {
    let mut ctx = Tip { liquidity: created(id(1)) };
    assert_eq!(tip(&mut ctx, u64::MAX - 1), Ok(()));
    assert_eq!(tip(&mut ctx, 2), Err(ErrorCode::Overflow));
    assert_eq!(ctx.liquidity.tip_amount, u64::MAX - 1);
    assert_eq!(tip(&mut ctx, 1), Ok(()));
    assert_eq!(ctx.liquidity.tip_amount, u64::MAX);
}

#[test]
fn stored_size_of_fixed_fields() {
    assert_eq!(Portfolio::LEN, 81);
}

#[test]
fn identities_compare_by_bytes() {
    let mut bytes = [0u8; 32];
    bytes[31] = 1;
    assert_eq!(Identity::new(bytes), Identity::new(bytes));
    assert_ne!(Identity::new(bytes), Identity::new([0u8; 32]));
}

#[test]
fn owner_survives_every_operation() {
    let owner = id(1);
    let stranger = id(2);
    let mut init = Initialize { liquidity: Some(created(owner)), authority: stranger };
    assert_eq!(initialize(&mut init), Err(ErrorCode::AlreadyInitialized));
    let p = init.liquidity.unwrap();

    let mut bio = Createliquidity { liquidity: p, authority: stranger };
    assert_eq!(create_liquidity(&mut bio, "x".to_string()), Err(ErrorCode::Unauthorized));
    bio.authority = owner;
    assert_eq!(create_liquidity(&mut bio, "me".to_string()), Ok(()));
    let p = with_request(bio.liquidity, stranger, "ok");
    let mut approve = ApproveVouch { liquidity: p, authority: owner };
    assert_eq!(approve_vouch(&mut approve, stranger), Ok(()));
    let mut message = SendMessage { liquidity: approve.liquidity, authority: stranger };
    assert_eq!(send_message(&mut message, "hey".to_string()), Ok(()));
    let mut tipping = Tip { liquidity: message.liquidity };
    assert_eq!(tip(&mut tipping, 3), Ok(()));

    let p = tipping.liquidity;
    assert_eq!(p.owner, owner);
    assert_eq!(p.bio, "me");
    assert_eq!(p.vouches.len(), 1);
    assert_eq!(p.messages.len(), 1);
    assert_eq!(p.tip_amount, 3);
}
