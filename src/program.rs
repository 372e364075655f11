use vstd::prelude::*;
use crate::accounts::{
    CharError, Character, CharacterMinted, CharacterTransferred, LamportTransfer, Principal,
    ProgramState, StageAdvanced, STAGE_LICENSED, STAGE_TEXT,
};
use crate::fee::{platform_cut_of, split};
use crate::guard::{require_advanceable, require_fee_bound, require_owner, require_platform};

verus! {

/// A one-element list holding the transfer, or an empty one when `amount` is zero.
pub open spec fn transfer_if_positive(from: Principal, to: Principal, amount: nat) -> Seq<
    LamportTransfer,
> {
    if amount > 0 {
        seq![LamportTransfer { from, to, amount: amount as u64 }]
    } else {
        seq![]
    }
}

/// The value movements of a sale: the buyer pays the platform its cut, then
/// pays the previous owner the rest. Zero amounts are left out.
pub open spec fn sale_transfers(
    price: nat,
    fee_bps: nat,
    buyer: Principal,
    seller: Principal,
    platform: Principal,
) -> Seq<LamportTransfer> {
    let cut = platform_cut_of(price, fee_bps);
    transfer_if_positive(buyer, platform, cut) + transfer_if_positive(
        buyer,
        seller,
        (price - cut) as nat,
    )
}

/// Accounts of a sale: the signing owner, the record, the recipient who
/// becomes owner and pays, and the registry whose fee applies.
#[derive(Debug)]
pub struct TransferCharacter {
    pub owner: Principal,
    pub character: Character,
    pub recipient: Principal,
    pub state: ProgramState,
}

/// What a successful sale asks the host to do and to log.
#[derive(Debug)]
pub struct Transferred {
    pub transfers: Vec<LamportTransfer>,
    pub event: CharacterTransferred,
}

fn push_if_positive(transfers: &mut Vec<LamportTransfer>, from: Principal, to: Principal, amount: u64)
    ensures
        final(transfers)@ == old(transfers)@ + transfer_if_positive(from, to, amount as nat),
{
    if amount > 0 {
        transfers.push(LamportTransfer { from, to, amount });
    }
    assert(transfers@ =~= old(transfers)@ + transfer_if_positive(from, to, amount as nat));
}

/// Sells the character to `ctx.recipient` for `sale_price_lamports`.
///
/// Only the current owner may sell. On success the recipient owns the record,
/// nothing else in it changes, and the recipient is charged the platform's
/// cut and the seller's proceeds.
pub fn transfer_from(ctx: &mut TransferCharacter, sale_price_lamports: u64) -> (r: Result<
    Transferred,
    CharError,
>)
    requires
        old(ctx).state.wf(),
    ensures
        r is Ok <==> old(ctx).character.owner@ == old(ctx).owner@,
        r is Err ==> r == Err::<Transferred, CharError>(CharError::NotOwner) && *final(ctx) == *old(
            ctx,
        ),
        r matches Ok(t) ==> {
            &&& final(ctx).character == (Character {
                owner: old(ctx).recipient,
                ..old(ctx).character
            })
            &&& final(ctx).owner == old(ctx).owner
            &&& final(ctx).recipient == old(ctx).recipient
            &&& final(ctx).state == old(ctx).state
            &&& t.transfers@ == sale_transfers(
                sale_price_lamports as nat,
                old(ctx).state.transaction_fee_bps as nat,
                old(ctx).recipient,
                old(ctx).owner,
                old(ctx).state.platform,
            )
            &&& t.event == (CharacterTransferred {
                token_id: old(ctx).character.token_id,
                from: old(ctx).owner,
                to: old(ctx).recipient,
                price: sale_price_lamports,
            })
        },
{
    match require_owner(&ctx.character, &ctx.owner) {
        Ok(()) => {},
        Err(e) => {
            return Err(e);
        },
    }
    let mut transfers: Vec<LamportTransfer> = Vec::new();
    if sale_price_lamports > 0 {
        let (platform_cut, seller_proceeds) = split(
            sale_price_lamports,
            ctx.state.transaction_fee_bps,
        );
        push_if_positive(&mut transfers, ctx.recipient, ctx.state.platform, platform_cut);
        push_if_positive(&mut transfers, ctx.recipient, ctx.owner, seller_proceeds);
    }
    proof {
        if sale_price_lamports == 0 {
            assert(transfers@ =~= sale_transfers(
                0,
                ctx.state.transaction_fee_bps as nat,
                ctx.recipient,
                ctx.owner,
                ctx.state.platform,
            ));
        }
    }
    ctx.character.owner = ctx.recipient;
    let event = CharacterTransferred {
        token_id: ctx.character.token_id,
        from: ctx.owner,
        to: ctx.recipient,
        price: sale_price_lamports,
    };
    Ok(Transferred { transfers, event })
}

/// Accounts of `initialize`: the signer who becomes the platform, and the
/// registry record to fill in.
#[derive(Debug)]
pub struct Initialize {
    pub platform: Principal,
    pub state: ProgramState,
}

/// Sets up the registry: the signer becomes the platform, the fees are
/// recorded and the token counter starts at zero.
pub fn initialize(ctx: &mut Initialize, mint_fee_lamports: u64, transaction_fee_bps: u16) -> (r:
    Result<(), CharError>)
    ensures
        r is Ok <==> transaction_fee_bps <= 10000,
        r is Err ==> r == Err::<(), CharError>(CharError::FeeTooHigh) && *final(ctx) == *old(ctx),
        r is Ok ==> {
            &&& final(ctx).platform == old(ctx).platform
            &&& final(ctx).state == (ProgramState {
                platform: old(ctx).platform,
                mint_fee_lamports,
                transaction_fee_bps,
                next_token_id: 0,
            })
            &&& final(ctx).state.wf()
        },
{
    match require_fee_bound(transaction_fee_bps) {
        Ok(()) => {},
        Err(e) => {
            return Err(e);
        },
    }
    ctx.state.platform = ctx.platform;
    ctx.state.mint_fee_lamports = mint_fee_lamports;
    ctx.state.transaction_fee_bps = transaction_fee_bps;
    ctx.state.next_token_id = 0;
    Ok(())
}

/// Accounts of `mint`: the signing creator, who pays; the registry; and the
/// host's clock reading, which becomes the record's creation time.
#[derive(Debug)]
pub struct MintCharacter {
    pub creator: Principal,
    pub state: ProgramState,
    pub unix_timestamp: i64,
}

/// What a mint creates, asks the host to pay, and logs.
#[derive(Debug)]
pub struct Minted {
    pub character: Character,
    pub transfers: Vec<LamportTransfer>,
    pub event: CharacterMinted,
}

/// One mint, as seen on the registry: the new record takes the counter's
/// value as its id and the counter moves on by one; nothing else changes.
pub open spec fn mint_step(before: ProgramState, after: ProgramState, minted: Character) -> bool {
    &&& before.next_token_id < u64::MAX
    &&& minted.token_id == before.next_token_id
    &&& after == (ProgramState { next_token_id: (before.next_token_id + 1) as u64, ..before })
}

/// Creates a character owned by its creator, at the first stage, with the
/// next token id; the creator is charged the mint fee, if any.
pub fn mint(ctx: &mut MintCharacter, metadata_uri: String, trait_hash: [u8; 32]) -> (r: Minted)
    requires
        old(ctx).state.next_token_id < u64::MAX,
    ensures
        mint_step(old(ctx).state, final(ctx).state, r.character),
        final(ctx).creator == old(ctx).creator,
        final(ctx).unix_timestamp == old(ctx).unix_timestamp,
        r.character == (Character {
            token_id: old(ctx).state.next_token_id,
            creator: old(ctx).creator,
            owner: old(ctx).creator,
            created_at: old(ctx).unix_timestamp,
            stage: STAGE_TEXT,
            metadata_uri,
            trait_hash,
        }),
        r.transfers@ == transfer_if_positive(
            old(ctx).creator,
            old(ctx).state.platform,
            old(ctx).state.mint_fee_lamports as nat,
        ),
        r.event == (CharacterMinted {
            token_id: old(ctx).state.next_token_id,
            creator: old(ctx).creator,
            trait_hash,
        }),
{
    let mut transfers: Vec<LamportTransfer> = Vec::new();
    push_if_positive(
        &mut transfers,
        ctx.creator,
        ctx.state.platform,
        ctx.state.mint_fee_lamports,
    );
    let character = Character {
        token_id: ctx.state.next_token_id,
        creator: ctx.creator,
        owner: ctx.creator,
        created_at: ctx.unix_timestamp,
        stage: STAGE_TEXT,
        metadata_uri,
        trait_hash,
    };
    ctx.state.next_token_id = ctx.state.next_token_id + 1;
    let event = CharacterMinted {
        token_id: character.token_id,
        creator: character.creator,
        trait_hash,
    };
    Minted { character, transfers, event }
}

/// Accounts of `advance_stage`: the signing owner and the record.
#[derive(Debug)]
pub struct AdvanceStage {
    pub owner: Principal,
    pub character: Character,
}

/// One successful stage advance: the stage goes up by exactly one from below
/// the last stage, the metadata pointer is replaced, and nothing else changes.
pub open spec fn advance_step(before: Character, after: Character, new_metadata_uri: String) -> bool {
    &&& before.stage < STAGE_LICENSED
    &&& after == (Character {
        stage: (before.stage + 1) as u8,
        metadata_uri: new_metadata_uri,
        ..before
    })
}

/// Moves the character to its next stage and points it at new metadata.
/// Only the owner may do so, and not past the last stage.
pub fn advance_stage(ctx: &mut AdvanceStage, new_metadata_uri: String) -> (r: Result<
    StageAdvanced,
    CharError,
>)
    ensures
        r is Ok <==> old(ctx).character.owner@ == old(ctx).owner@ && old(ctx).character.stage
            < STAGE_LICENSED,
        old(ctx).character.owner@ != old(ctx).owner@ ==> r == Err::<StageAdvanced, CharError>(
            CharError::NotOwner,
        ),
        old(ctx).character.owner@ == old(ctx).owner@ && old(ctx).character.stage >= STAGE_LICENSED
            ==> r == Err::<StageAdvanced, CharError>(CharError::AlreadyLicensed),
        r is Err ==> *final(ctx) == *old(ctx),
        r matches Ok(e) ==> {
            &&& advance_step(old(ctx).character, final(ctx).character, new_metadata_uri)
            &&& final(ctx).owner == old(ctx).owner
            &&& e == (StageAdvanced {
                token_id: old(ctx).character.token_id,
                new_stage: final(ctx).character.stage,
            })
        },
{
    match require_owner(&ctx.character, &ctx.owner) {
        Ok(()) => {},
        Err(e) => {
            return Err(e);
        },
    }
    match require_advanceable(ctx.character.stage) {
        Ok(()) => {},
        Err(e) => {
            return Err(e);
        },
    }
    ctx.character.stage = ctx.character.stage + 1;
    ctx.character.metadata_uri = new_metadata_uri;
    Ok(StageAdvanced { token_id: ctx.character.token_id, new_stage: ctx.character.stage })
}

/// Accounts of the administrative operations: the signer, who must be the
/// platform, and the registry.
#[derive(Debug)]
pub struct AdminAction {
    pub platform: Principal,
    pub state: ProgramState,
}

/// Replaces the mint fee. Only the platform may do so.
pub fn set_mint_fee(ctx: &mut AdminAction, new_fee_lamports: u64) -> (r: Result<(), CharError>)
    ensures
        r is Ok <==> old(ctx).state.platform@ == old(ctx).platform@,
        r is Err ==> r == Err::<(), CharError>(CharError::NotOwner) && *final(ctx) == *old(ctx),
        r is Ok ==> {
            &&& final(ctx).platform == old(ctx).platform
            &&& final(ctx).state == (ProgramState {
                mint_fee_lamports: new_fee_lamports,
                ..old(ctx).state
            })
        },
{
    match require_platform(&ctx.state, &ctx.platform) {
        Ok(()) => {},
        Err(e) => {
            return Err(e);
        },
    }
    ctx.state.mint_fee_lamports = new_fee_lamports;
    Ok(())
}

/// Replaces the transaction fee. Only the platform may do so, and only with a
/// fee of at most 10000 bps; the platform check comes first.
pub fn set_transaction_fee(ctx: &mut AdminAction, new_fee_bps: u16) -> (r: Result<(), CharError>)
    ensures
        r is Ok <==> old(ctx).state.platform@ == old(ctx).platform@ && new_fee_bps <= 10000,
        old(ctx).state.platform@ != old(ctx).platform@ ==> r == Err::<(), CharError>(
            CharError::NotOwner,
        ),
        old(ctx).state.platform@ == old(ctx).platform@ && new_fee_bps > 10000 ==> r == Err::<
            (),
            CharError,
        >(CharError::FeeTooHigh),
        r is Err ==> *final(ctx) == *old(ctx),
        r is Ok ==> {
            &&& final(ctx).platform == old(ctx).platform
            &&& final(ctx).state == (ProgramState {
                transaction_fee_bps: new_fee_bps,
                ..old(ctx).state
            })
            &&& final(ctx).state.wf()
        },
{
    match require_platform(&ctx.state, &ctx.platform) {
        Ok(()) => {},
        Err(e) => {
            return Err(e);
        },
    }
    match require_fee_bound(new_fee_bps) {
        Ok(()) => {},
        Err(e) => {
            return Err(e);
        },
    }
    ctx.state.transaction_fee_bps = new_fee_bps;
    Ok(())
}

} // verus!
