use vstd::prelude::*;

use crate::identity::Identity;

verus! {

pub const DISCRIMINATOR: usize = 8;
pub const PUBKEY: usize = 32;
pub const UNSIGNED_64: usize = 8;
pub const BUMP: usize = 1;

/// An accepted endorsement of the record's owner.
#[derive(Clone, Debug)]
pub struct Vouch {
    pub vouched_by: Identity,
    pub comment: String,
}

/// A pending endorsement, waiting for the owner's approval.
#[derive(Clone, Debug)]
pub struct VouchRequest {
    pub vouched_by: Identity,
    pub comment: String,
}

/// An entry of the record's inbox.
#[derive(Clone, Debug)]
pub struct Message {
    pub sender: Identity,
    pub content: String,
}

/// The abstract content shared by a vouch and a vouch request.
pub struct EndorsementView {
    pub vouched_by: Identity,
    pub comment: Seq<char>,
}

/// The abstract content of an inbox entry.
pub struct MessageView {
    pub sender: Identity,
    pub content: Seq<char>,
}

impl View for Vouch {
    type V = EndorsementView;

    open spec fn view(&self) -> EndorsementView {
        EndorsementView { vouched_by: self.vouched_by, comment: self.comment@ }
    }
}

impl View for VouchRequest {
    type V = EndorsementView;

    open spec fn view(&self) -> EndorsementView {
        EndorsementView { vouched_by: self.vouched_by, comment: self.comment@ }
    }
}

impl View for Message {
    type V = MessageView;

    open spec fn view(&self) -> MessageView {
        MessageView { sender: self.sender, content: self.content@ }
    }
}

/// The profile record: owner-gated descriptive fields, the vouching workflow,
/// an open inbox and a tip counter.
#[derive(Debug)]
pub struct Portfolio {
    pub owner: Identity,
    pub bio: String,
    pub links: Vec<String>,
    pub image_url: String,
    pub vouches: Vec<Vouch>,
    pub vouch_requests: Vec<VouchRequest>,
    pub messages: Vec<Message>,
    pub tip_amount: u64,
    pub bump: u8,
}

/// The record as mathematical values.
pub struct PortfolioView {
    pub owner: Identity,
    pub bio: Seq<char>,
    pub links: Seq<Seq<char>>,
    pub image_url: Seq<char>,
    pub vouches: Seq<EndorsementView>,
    pub vouch_requests: Seq<EndorsementView>,
    pub messages: Seq<MessageView>,
    pub tip_amount: u64,
    pub bump: u8,
}

impl View for Portfolio {
    type V = PortfolioView;

    open spec fn view(&self) -> PortfolioView {
        PortfolioView {
            owner: self.owner,
            bio: self.bio@,
            links: self.links@.map_values(|s: String| s@),
            image_url: self.image_url@,
            vouches: self.vouches@.map_values(|v: Vouch| v@),
            vouch_requests: self.vouch_requests@.map_values(|v: VouchRequest| v@),
            messages: self.messages@.map_values(|m: Message| m@),
            tip_amount: self.tip_amount,
            bump: self.bump,
        }
    }
}

impl Portfolio {
    /// Bytes reserved for the fixed-size part of the stored record.
    pub const LEN: usize = DISCRIMINATOR + PUBKEY + PUBKEY + UNSIGNED_64 + BUMP;

    /// A fresh record: `owner` set, every text empty, every sequence empty,
    /// no tips.
    pub fn new(owner: Identity) -> (r: Portfolio)
        ensures
            r@ == fresh_record(owner),
    {
        let r = Portfolio {
            owner,
            bio: String::new(),
            links: Vec::new(),
            image_url: String::new(),
            vouches: Vec::new(),
            vouch_requests: Vec::new(),
            messages: Vec::new(),
            tip_amount: 0,
            bump: 0,
        };
        assert(r@.links =~= Seq::empty());
        assert(r@.vouches =~= Seq::empty());
        assert(r@.vouch_requests =~= Seq::empty());
        assert(r@.messages =~= Seq::empty());
        r
    }
}

/// The record that initialization creates for `owner`.
pub open spec fn fresh_record(owner: Identity) -> PortfolioView {
    PortfolioView {
        owner,
        bio: Seq::empty(),
        links: Seq::empty(),
        image_url: Seq::empty(),
        vouches: Seq::empty(),
        vouch_requests: Seq::empty(),
        messages: Seq::empty(),
        tip_amount: 0,
        bump: 0,
    }
}

/// Why an operation on the record was refused.
#[derive(Clone, Copy, Debug, PartialEq, Eq, Structural)]
pub enum ErrorCode {
    /// The caller is not the record's owner.
    Unauthorized,
    /// A record already exists at the deployment's address.
    AlreadyInitialized,
    /// The tip total would exceed the largest `u64`.
    Overflow,
}

} // verus!
