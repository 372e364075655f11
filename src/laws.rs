use vstd::prelude::*;
use crate::accounts::{Character, Principal, ProgramState, STAGE_LICENSED};
use crate::fee::platform_cut_of;
use crate::program::{advance_step, mint_step, sale_transfers, transfer_if_positive};

verus! {

proof fn lemma_counter_after_mints(states: Seq<ProgramState>, minted: Seq<Character>, k: int)
    requires
        states.len() == minted.len() + 1,
        forall|i: int|
            0 <= i < minted.len() ==> mint_step(#[trigger] states[i], states[i + 1], minted[i]),
        0 <= k <= minted.len(),
    ensures
        states[k].next_token_id == states[0].next_token_id + k,
    decreases k,
{
    if k > 0 {
        lemma_counter_after_mints(states, minted, k - 1);
        assert(mint_step(states[k - 1], states[k], minted[k - 1]));
    }
}

/// Minting N times in a row on a fresh registry (counter at zero) hands out
/// the token ids 0, 1, ..., N-1 in that order, with no gap and no repeat, and
/// leaves the counter at N.
pub proof fn lemma_sequential_mint_ids(states: Seq<ProgramState>, minted: Seq<Character>)
    requires
        states.len() == minted.len() + 1,
        states[0].next_token_id == 0,
        forall|i: int|
            0 <= i < minted.len() ==> mint_step(#[trigger] states[i], states[i + 1], minted[i]),
    ensures
        forall|i: int| 0 <= i < minted.len() ==> #[trigger] minted[i].token_id == i,
        forall|i: int, j: int|
            0 <= i < j < minted.len() ==> #[trigger] minted[i].token_id
                != #[trigger] minted[j].token_id,
        states.last().next_token_id == minted.len(),
{
    assert forall|i: int| 0 <= i < minted.len() implies #[trigger] minted[i].token_id == i by {
        lemma_counter_after_mints(states, minted, i);
        assert(mint_step(states[i], states[i + 1], minted[i]));
    }
    lemma_counter_after_mints(states, minted, minted.len() as int);
}

proof fn lemma_stage_after_advances(records: Seq<Character>, uris: Seq<String>, k: int)
    requires
        records.len() == uris.len() + 1,
        forall|i: int|
            0 <= i < uris.len() ==> advance_step(#[trigger] records[i], records[i + 1], uris[i]),
        0 <= k <= uris.len(),
    ensures
        records[k].stage == records[0].stage + k,
    decreases k,
{
    if k > 0 {
        lemma_stage_after_advances(records, uris, k - 1);
        assert(advance_step(records[k - 1], records[k], uris[k - 1]));
    }
}

/// Along any chain of successful stage advances of one record, the stage
/// climbs by exactly one per advance and never passes the last stage, so a
/// record goes through at most four advances in its whole life.
pub proof fn lemma_at_most_four_advances(records: Seq<Character>, uris: Seq<String>)
    requires
        records.len() == uris.len() + 1,
        records[0].wf(),
        forall|i: int|
            0 <= i < uris.len() ==> advance_step(#[trigger] records[i], records[i + 1], uris[i]),
    ensures
        records.last().stage == records[0].stage + uris.len(),
        uris.len() + records[0].stage <= STAGE_LICENSED,
        uris.len() <= 4,
{
    lemma_stage_after_advances(records, uris, uris.len() as int);
    if uris.len() > 0 {
        let last = uris.len() - 1;
        lemma_stage_after_advances(records, uris, last);
        assert(advance_step(records[last], records[last + 1], uris[last]));
    }
}

/// A transaction fee that `set_transaction_fee` accepted is the one that the
/// next sale splits by: the platform is paid the price times the new fee over
/// 10000, rounded down, and the seller the rest. At 10000 bps the whole price
/// goes to the platform.
pub proof fn lemma_new_fee_applies_to_next_sale(
    before: ProgramState,
    after: ProgramState,
    new_fee_bps: u16,
    price: u64,
    buyer: Principal,
    seller: Principal,
)
    requires
        new_fee_bps <= 10000,
        after == (ProgramState { transaction_fee_bps: new_fee_bps, ..before }),
    ensures
        after.wf(),
        sale_transfers(price as nat, after.transaction_fee_bps as nat, buyer, seller, after.platform)
            == transfer_if_positive(
            buyer,
            before.platform,
            platform_cut_of(price as nat, new_fee_bps as nat),
        ) + transfer_if_positive(
            buyer,
            seller,
            (price - platform_cut_of(price as nat, new_fee_bps as nat)) as nat,
        ),
        new_fee_bps == 10000 ==> sale_transfers(
            price as nat,
            after.transaction_fee_bps as nat,
            buyer,
            seller,
            after.platform,
        ) == transfer_if_positive(buyer, before.platform, price as nat),
{
    if new_fee_bps == 10000 {
        assert(platform_cut_of(price as nat, 10000) == price) by (nonlinear_arith);
        assert(transfer_if_positive(buyer, seller, 0) =~= Seq::<
            crate::accounts::LamportTransfer,
        >::empty());
        assert(sale_transfers(price as nat, 10000, buyer, seller, after.platform)
            =~= transfer_if_positive(buyer, before.platform, price as nat));
    }
}

} // verus!
