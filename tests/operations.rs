use character_nft::accounts::{
    CharError, Character, LamportTransfer, Principal, ProgramState, STAGE_LICENSED, STAGE_TEXT,
};
use character_nft::fee::split;
use character_nft::guard::{require_advanceable, require_fee_bound, require_owner, require_platform};
use character_nft::program::{
    advance_stage, initialize, mint, set_mint_fee, set_transaction_fee, transfer_from, AdminAction,
    AdvanceStage, Initialize, MintCharacter, TransferCharacter,
};

fn key(b: u8) -> Principal {
    Principal::new([b; 32])
}

fn blank_state() -> ProgramState {
    ProgramState {
        platform: key(0),
        mint_fee_lamports: 0,
        transaction_fee_bps: 0,
        next_token_id: 0,
    }
}

fn state(platform: Principal, mint_fee: u64, bps: u16) -> ProgramState {
    ProgramState { platform, mint_fee_lamports: mint_fee, transaction_fee_bps: bps, next_token_id: 0 }
}

fn character(owner: Principal, stage: u8) -> Character {
    Character {
        token_id: 7,
        creator: owner,
        owner,
        created_at: 1_700_000_000,
        stage,
        metadata_uri: String::from("ipfs://text"),
        trait_hash: [9u8; 32],
    }
}

fn assert_transfer(t: &LamportTransfer, from: Principal, to: Principal, amount: u64) {
    assert_eq!(t.from, from);
    assert_eq!(t.to, to);
    assert_eq!(t.amount, amount);
}

#[test]
fn split_exact_values() {
    assert_eq!(split(1000, 500), (50, 950));
    assert_eq!(split(999, 1), (0, 999));
    assert_eq!(split(10_001, 1), (1, 10_000));
    assert_eq!(split(12_345, 2_500), (3_086, 9_259));
}

#[test]
fn split_edges() {
    assert_eq!(split(0, 500), (0, 0));
    assert_eq!(split(0, 10_000), (0, 0));
    assert_eq!(split(777, 0), (0, 777));
    assert_eq!(split(777, 10_000), (777, 0));
    assert_eq!(split(u64::MAX, 10_000), (u64::MAX, 0));
    assert_eq!(split(u64::MAX, 5_000), (u64::MAX / 2, u64::MAX - u64::MAX / 2));
}

#[test]
fn split_parts_sum_to_price() {
    for price in [0u64, 1, 2, 3, 99, 10_000, 123_456_789, u64::MAX - 1, u64::MAX] {
        for bps in [0u16, 1, 333, 5_000, 9_999, 10_000] {
            let (cut, rem) = split(price, bps);
            assert_eq!(cut as u128 + rem as u128, price as u128);
            assert_eq!(cut as u128, (price as u128 * bps as u128) / 10_000);
        }
    }
}

#[test]
fn guards_accept_and_refuse() {
    let rec = character(key(1), 0);
    assert_eq!(require_owner(&rec, &key(1)), Ok(()));
    assert_eq!(require_owner(&rec, &key(2)), Err(CharError::NotOwner));
    let st = state(key(5), 0, 0);
    assert_eq!(require_platform(&st, &key(5)), Ok(()));
    assert_eq!(require_platform(&st, &key(6)), Err(CharError::NotOwner));
    assert_eq!(require_fee_bound(10_000), Ok(()));
    assert_eq!(require_fee_bound(10_001), Err(CharError::FeeTooHigh));
    assert_eq!(require_advanceable(3), Ok(()));
    assert_eq!(require_advanceable(STAGE_LICENSED), Err(CharError::AlreadyLicensed));
}

#[test]
fn principal_equality_looks_at_every_byte() {
    let mut b = [4u8; 32];
    b[31] = 5;
    assert_ne!(key(4), Principal::new(b));
    b[31] = 4;
    assert_eq!(key(4), Principal::new(b));
}

#[test]
fn initialize_sets_registry() {
    let mut ctx = Initialize { platform: key(1), state: blank_state() };
    assert_eq!(initialize(&mut ctx, 100, 500), Ok(()));
    assert_eq!(ctx.state.platform, key(1));
    assert_eq!(ctx.state.mint_fee_lamports, 100);
    assert_eq!(ctx.state.transaction_fee_bps, 500);
    assert_eq!(ctx.state.next_token_id, 0);
}

#[test]
fn initialize_rejects_fee_above_whole() {
    let mut ctx = Initialize { platform: key(1), state: blank_state() };
    assert_eq!(initialize(&mut ctx, 100, 10_001), Err(CharError::FeeTooHigh));
    assert_eq!(ctx.state.platform, key(0));
    assert_eq!(ctx.state.mint_fee_lamports, 0);
    assert_eq!(initialize(&mut ctx, 0, 10_000), Ok(()));
    assert_eq!(ctx.state.transaction_fee_bps, 10_000);
}

#[test]
fn mint_ids_are_sequential() {
    let mut ctx = MintCharacter { creator: key(2), state: state(key(1), 0, 0), unix_timestamp: 42 };
    for expected in 0u64..5 {
        let out = mint(&mut ctx, format!("ipfs://{}", expected), [expected as u8; 32]);
        assert_eq!(out.character.token_id, expected);
        assert_eq!(out.event.token_id, expected);
        assert!(out.transfers.is_empty());
    }
    assert_eq!(ctx.state.next_token_id, 5);
}

#[test]
fn mint_fills_record_and_event() {
    let mut ctx = MintCharacter { creator: key(3), state: state(key(1), 0, 0), unix_timestamp: 99 };
    ctx.state.next_token_id = 41;
    let out = mint(&mut ctx, String::from("ipfs://text"), [7u8; 32]);
    assert_eq!(out.character.token_id, 41);
    assert_eq!(out.character.creator, key(3));
    assert_eq!(out.character.owner, key(3));
    assert_eq!(out.character.created_at, 99);
    assert_eq!(out.character.stage, STAGE_TEXT);
    assert_eq!(out.character.metadata_uri, "ipfs://text");
    assert_eq!(out.character.trait_hash, [7u8; 32]);
    assert_eq!(out.event.creator, key(3));
    assert_eq!(out.event.trait_hash, [7u8; 32]);
    assert_eq!(ctx.state.next_token_id, 42);
}

#[test]
fn transfer_by_non_owner_is_refused() {
    let mut ctx = TransferCharacter {
        owner: key(9),
        character: character(key(2), 1),
        recipient: key(3),
        state: state(key(1), 0, 500),
    };
    assert_eq!(transfer_from(&mut ctx, 1000).err(), Some(CharError::NotOwner));
    assert_eq!(ctx.character.owner, key(2));
    assert_eq!(ctx.character.stage, 1);
}

#[test]
fn transfer_without_price_moves_no_value() {
    let mut ctx = TransferCharacter {
        owner: key(2),
        character: character(key(2), 0),
        recipient: key(3),
        state: state(key(1), 0, 500),
    };
    let out = transfer_from(&mut ctx, 0).unwrap();
    assert!(out.transfers.is_empty());
    assert_eq!(out.event.price, 0);
    assert_eq!(ctx.character.owner, key(3));
}

#[test]
fn transfer_skips_zero_cut() {
    let mut ctx = TransferCharacter {
        owner: key(2),
        character: character(key(2), 0),
        recipient: key(3),
        state: state(key(1), 0, 0),
    };
    let out = transfer_from(&mut ctx, 500).unwrap();
    assert_eq!(out.transfers.len(), 1);
    assert_transfer(&out.transfers[0], key(3), key(2), 500);
}

#[test]
fn transfer_keeps_provenance() {
    let mut ctx = TransferCharacter {
        owner: key(2),
        character: character(key(2), 2),
        recipient: key(3),
        state: state(key(1), 0, 250),
    };
    let out = transfer_from(&mut ctx, 400).unwrap();
    assert_eq!(out.transfers.len(), 2);
    assert_transfer(&out.transfers[0], key(3), key(1), 10);
    assert_transfer(&out.transfers[1], key(3), key(2), 390);
    assert_eq!(ctx.character.creator, key(2));
    assert_eq!(ctx.character.token_id, 7);
    assert_eq!(ctx.character.stage, 2);
    assert_eq!(ctx.character.metadata_uri, "ipfs://text");
    assert_eq!(out.event.token_id, 7);
    assert_eq!(out.event.from, key(2));
    assert_eq!(out.event.to, key(3));
}

#[test]
fn advance_stage_stops_after_four() {
    let mut ctx = AdvanceStage { owner: key(2), character: character(key(2), 0) };
    for expected in 1u8..=4 {
        let ev = advance_stage(&mut ctx, format!("ipfs://stage{}", expected)).unwrap();
        assert_eq!(ev.new_stage, expected);
        assert_eq!(ev.token_id, 7);
        assert_eq!(ctx.character.stage, expected);
    }
    assert_eq!(
        advance_stage(&mut ctx, String::from("ipfs://more")).err(),
        Some(CharError::AlreadyLicensed)
    );
    assert_eq!(ctx.character.stage, STAGE_LICENSED);
    assert_eq!(ctx.character.metadata_uri, "ipfs://stage4");
}

#[test]
fn advance_stage_by_non_owner_is_refused() {
    let mut ctx = AdvanceStage { owner: key(5), character: character(key(2), 4) };
    assert_eq!(advance_stage(&mut ctx, String::from("x")).err(), Some(CharError::NotOwner));
    assert_eq!(ctx.character.stage, 4);
    assert_eq!(ctx.character.metadata_uri, "ipfs://text");
}

#[test]
fn admin_actions_need_platform() {
    let mut ctx = AdminAction { platform: key(8), state: state(key(1), 100, 500) };
    assert_eq!(set_mint_fee(&mut ctx, 5), Err(CharError::NotOwner));
    assert_eq!(set_transaction_fee(&mut ctx, 10_001), Err(CharError::NotOwner));
    assert_eq!(ctx.state.mint_fee_lamports, 100);
    assert_eq!(ctx.state.transaction_fee_bps, 500);
    ctx.platform = key(1);
    assert_eq!(set_mint_fee(&mut ctx, 5), Ok(()));
    assert_eq!(ctx.state.mint_fee_lamports, 5);
}

#[test]
fn transaction_fee_bound_and_next_sale() {
    let mut admin = AdminAction { platform: key(1), state: state(key(1), 100, 500) };
    assert_eq!(set_transaction_fee(&mut admin, 10_001), Err(CharError::FeeTooHigh));
    assert_eq!(admin.state.transaction_fee_bps, 500);
    assert_eq!(set_transaction_fee(&mut admin, 10_000), Ok(()));
    assert_eq!(admin.state.transaction_fee_bps, 10_000);
    let mut sale = TransferCharacter {
        owner: key(2),
        character: character(key(2), 0),
        recipient: key(3),
        state: admin.state,
    };
    let out = transfer_from(&mut sale, 1000).unwrap();
    assert_eq!(out.transfers.len(), 1);
    assert_transfer(&out.transfers[0], key(3), key(1), 1000);
}

#[test]
fn error_messages() {
    assert_eq!(CharError::AlreadyLicensed.message(), "Character is already at the final stage");
    assert_eq!(CharError::NotOwner.message(), "Only the owner can perform this action");
    assert_eq!(CharError::FeeTooHigh.message(), "Transaction fee exceeds 10000 bps");
    assert_eq!(CharError::InsufficientFunds.message(), "Insufficient lamports for mint fee");
}

#[test]
fn mint_sell_advance_scenario() {
    let platform = key(1);
    let a = key(10);
    let b = key(11);
    let mut init = Initialize { platform, state: blank_state() };
    assert_eq!(initialize(&mut init, 100, 500), Ok(()));

    let mut m = MintCharacter { creator: a, state: init.state, unix_timestamp: 1_000 };
    let minted = mint(&mut m, String::from("ipfs://text"), [1u8; 32]);
    assert_eq!(minted.transfers.len(), 1);
    assert_transfer(&minted.transfers[0], a, platform, 100);
    assert_eq!(minted.character.token_id, 0);
    assert_eq!(minted.character.owner, a);
    assert_eq!(minted.character.stage, 0);

    let mut sale = TransferCharacter {
        owner: a,
        character: minted.character,
        recipient: b,
        state: m.state,
    };
    let sold = transfer_from(&mut sale, 1000).unwrap();
    assert_eq!(sold.transfers.len(), 2);
    assert_transfer(&sold.transfers[0], b, platform, 50);
    assert_transfer(&sold.transfers[1], b, a, 950);
    assert_eq!(sold.event.price, 1000);
    assert_eq!(sale.character.owner, b);

    let mut adv = AdvanceStage { owner: b, character: sale.character };
    let ev = advance_stage(&mut adv, String::from("ipfs://img")).unwrap();
    assert_eq!(ev.new_stage, 1);
    assert_eq!(adv.character.stage, 1);
    assert_eq!(adv.character.metadata_uri, "ipfs://img");
}
