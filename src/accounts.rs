use vstd::prelude::*;

verus! {

/// An authenticated identity (an account address) that the host has already
/// verified as the signer of a transaction. Only ever compared, never checked.
#[derive(Clone, Copy, Debug)]
pub struct Principal {
    pub bytes: [u8; 32],
}

impl Principal {
    pub open spec fn view(&self) -> Seq<u8> {
        self.bytes@
    }

    pub fn new(bytes: [u8; 32]) -> (r: Principal)
        ensures
            r.bytes == bytes,
    {
        Principal { bytes }
    }
}

impl PartialEq for Principal {
    fn eq(&self, o: &Principal) -> (r: bool) {
        let mut i: usize = 0;
        while i < 32
            invariant
                0 <= i <= 32,
                self.bytes@.len() == 32,
                o.bytes@.len() == 32,
                forall|j: int| 0 <= j < i ==> self.bytes@[j] == o.bytes@[j],
            decreases 32 - i,
        {
            if self.bytes[i] != o.bytes[i] {
                return false;
            }
            i = i + 1;
        }
        assert(self.bytes@ =~= o.bytes@);
        true
    }
}

impl vstd::std_specs::cmp::PartialEqSpecImpl for Principal {
    open spec fn obeys_eq_spec() -> bool {
        true
    }

    open spec fn eq_spec(&self, o: &Principal) -> bool {
        self.bytes@ == o.bytes@
    }
}

impl Eq for Principal {}

// The lifecycle stages of a character, in the only order it may pass them.
/// First stage: a text description.
pub const STAGE_TEXT: u8 = 0;
/// Second stage: an image.
pub const STAGE_IMAGE: u8 = 1;
/// Third stage: a 3D model.
pub const STAGE_3D: u8 = 2;
/// Fourth stage: a video.
pub const STAGE_VIDEO: u8 = 3;
/// Final stage: licensed. No advance goes past it.
pub const STAGE_LICENSED: u8 = 4;

/// The registry's one configuration record.
#[derive(Debug)]
pub struct ProgramState {
    pub platform: Principal,
    pub mint_fee_lamports: u64,
    pub transaction_fee_bps: u16,
    pub next_token_id: u64,
}

impl ProgramState {
    /// The invariant that every write keeps: the fee is at most 100%.
    pub open spec fn wf(&self) -> bool {
        self.transaction_fee_bps <= 10000
    }
}

/// One minted item.
#[derive(Debug)]
pub struct Character {
    pub token_id: u64,
    pub creator: Principal,
    pub owner: Principal,
    pub created_at: i64,
    pub stage: u8,
    pub metadata_uri: String,
    pub trait_hash: [u8; 32],
}

impl Character {
    /// The stage is one of the five lifecycle stages.
    pub open spec fn wf(&self) -> bool {
        self.stage <= STAGE_LICENSED
    }
}

/// A value movement that the host must carry out, atomically with the
/// record changes: `amount` native units from `from` to `to`.
#[derive(Clone, Copy, Debug)]
pub struct LamportTransfer {
    pub from: Principal,
    pub to: Principal,
    pub amount: u64,
}

/// Emitted when a character is minted.
#[derive(Debug)]
pub struct CharacterMinted {
    pub token_id: u64,
    pub creator: Principal,
    pub trait_hash: [u8; 32],
}

/// Emitted when a character changes hands.
#[derive(Debug)]
pub struct CharacterTransferred {
    pub token_id: u64,
    pub from: Principal,
    pub to: Principal,
    pub price: u64,
}

/// Emitted when a character moves on to its next stage.
#[derive(Debug)]
pub struct StageAdvanced {
    pub token_id: u64,
    pub new_stage: u8,
}

/// Why an operation was refused. A refused operation changes nothing.
#[derive(Clone, Copy, Debug, PartialEq, Eq, Structural)]
pub enum CharError {
    /// The character is already at its final stage.
    AlreadyLicensed,
    /// The signer is not the required authority (record owner or platform).
    NotOwner,
    /// A transaction fee above 10000 bps was asked for.
    FeeTooHigh,
    /// Reserved for a host that checks the minter's balance beforehand.
    InsufficientFunds,
}

impl CharError {
    /// A human-readable message for the error.
    pub fn message(&self) -> (r: &'static str) {
        match self {
            CharError::AlreadyLicensed => "Character is already at the final stage",
            CharError::NotOwner => "Only the owner can perform this action",
            CharError::FeeTooHigh => "Transaction fee exceeds 10000 bps",
            CharError::InsufficientFunds => "Insufficient lamports for mint fee",
        }
    }
}

} // verus!
