//! What holds of the marketplace whatever calls it receives.
//!
//! The laws speak of the functions by which the contracts of
//! [`crate::contract`] say what each call does, and of histories: sequences
//! of calls applied one after the other, a rejected call changing nothing.

use crate::contract::{
    buy_error, buy_response, claim_error, claim_payout, execute_error, listing, points_of,
    store_after_buy, store_after_claim, store_after_execute, store_after_instantiate,
};
use crate::error::ContractError;
use crate::msg::{ExecuteMsg, MessageInfoView};
use crate::settlement::{fee_cut, lemma_fee_split_conserves, lemma_share_within_balance};
use crate::state::StoreView;
use vstd::prelude::*;

verus! {

/// One call of `execute`: who calls with which funds, and the command.
pub struct Call {
    pub info: MessageInfoView,
    pub msg: ExecuteMsg,
}

/// The store after `call`: changed if the call is accepted, else as before.
pub open spec fn step(store: StoreView, call: Call) -> StoreView {
    if execute_error(store, call.info, call.msg) is None {
        store_after_execute(store, call.info, call.msg)
    } else {
        store
    }
}

/// The store after the calls of `calls`, in order.
pub open spec fn run(store: StoreView, calls: Seq<Call>) -> StoreView
    decreases calls.len(),
{
    if calls.len() == 0 {
        store
    } else {
        step(run(store, calls.drop_last()), calls.last())
    }
}

/// Whether `call` is a purchase that `store` accepts.
pub open spec fn is_successful_buy(store: StoreView, call: Call) -> bool {
    call.msg is Buy && execute_error(store, call.info, call.msg) is None
}

/// How many of `calls`, applied in order from `store`, are accepted
/// purchases.
pub open spec fn successful_buys(store: StoreView, calls: Seq<Call>) -> nat
    decreases calls.len(),
{
    if calls.len() == 0 {
        0
    } else {
        successful_buys(store, calls.drop_last()) + if is_successful_buy(
            run(store, calls.drop_last()),
            calls.last(),
        ) {
            1nat
        } else {
            0nat
        }
    }
}

/// The store is initialised and no account holds more points than were
/// ever issued.
pub open spec fn points_within_total(store: StoreView) -> bool {
    &&& store.total_points is Some
    &&& forall|holder: Seq<char>| #[trigger]
        store.points.contains_key(holder) ==> store.points[holder]
            <= store.total_points.unwrap()
}

/// An accepted purchase lists the parcel at exactly twice the price it was
/// sold at, and in the buyer's name.
pub proof fn law_price_doubles(store: StoreView, info: MessageInfoView, coordinates: (i32, i32))
    requires
        buy_error(store, info, coordinates) is None,
    ensures
        store_after_buy(store, info, coordinates).plots.contains_key(coordinates),
        store_after_buy(store, info, coordinates).plots[coordinates].price == 2 * listing(
            store,
            coordinates,
            info.sender,
        ).price,
        store_after_buy(store, info, coordinates).plots[coordinates].owner == info.sender,
{
}

/// When the buyer is not the owner of record, the three transfers of a
/// purchase add up to the listed price exactly.
pub proof fn law_transfers_add_up(
    store: StoreView,
    treasury_address: Seq<char>,
    info: MessageInfoView,
    coordinates: (i32, i32),
)
    requires
        buy_error(store, info, coordinates) is None,
        listing(store, coordinates, info.sender).owner != info.sender,
    ensures
        ({
            let transfers = buy_response(store, treasury_address, info, coordinates).messages;
            &&& transfers.len() == 3
            &&& transfers[0].amount + transfers[1].amount + transfers[2].amount == listing(
                store,
                coordinates,
                info.sender,
            ).price
        }),
{
    lemma_fee_split_conserves(listing(store, coordinates, info.sender).price as nat);
}

/// A buyer who is the owner of record causes no transfer, yet the treasury
/// still takes its cut and the buyer and the total still earn the reward.
pub proof fn law_self_purchase_moves_no_money(
    store: StoreView,
    treasury_address: Seq<char>,
    info: MessageInfoView,
    coordinates: (i32, i32),
)
    requires
        buy_error(store, info, coordinates) is None,
        listing(store, coordinates, info.sender).owner == info.sender,
    ensures
        buy_response(store, treasury_address, info, coordinates).messages.len() == 0,
        store_after_buy(store, info, coordinates).treasury == Some(
            (store.treasury.unwrap() + fee_cut(
                listing(store, coordinates, info.sender).price as nat,
            )) as u128,
        ),
        store_after_buy(store, info, coordinates).treasury.unwrap() == store.treasury.unwrap()
            + fee_cut(listing(store, coordinates, info.sender).price as nat),
        store_after_buy(store, info, coordinates).points[info.sender] == points_of(
            store,
            info.sender,
        ) + 100,
        store_after_buy(store, info, coordinates).total_points.unwrap()
            == store.total_points.unwrap() + 100,
{
}

/// The first buyer of a parcel is its owner of record, so a first purchase
/// moves no money.
pub proof fn law_first_purchase_is_self_purchase(
    store: StoreView,
    treasury_address: Seq<char>,
    info: MessageInfoView,
    coordinates: (i32, i32),
)
    requires
        buy_error(store, info, coordinates) is None,
        !store.plots.contains_key(coordinates),
    ensures
        listing(store, coordinates, info.sender).owner == info.sender,
        listing(store, coordinates, info.sender).price == store.initial_price.unwrap(),
        buy_response(store, treasury_address, info, coordinates).messages.len() == 0,
{
}

/// An accepted claim pays out no more than the treasury held before it, and
/// the treasury is left with the difference.
pub proof fn law_claim_within_treasury(store: StoreView, claimer: Seq<char>)
    requires
        claim_error(store, claimer) is None,
    ensures
        0 <= claim_payout(store, claimer) <= store.treasury.unwrap(),
        store_after_claim(store, claimer).treasury.unwrap() == store.treasury.unwrap()
            - claim_payout(store, claimer),
        store_after_claim(store, claimer).points[claimer] == 0,
        store_after_claim(store, claimer).total_points == store.total_points,
{
}

/// While no account holds more points than were issued, a claim is never
/// rejected for exceeding the treasury.
pub proof fn law_claim_never_exceeds_treasury(store: StoreView, claimer: Seq<char>)
    requires
        points_within_total(store),
    ensures
        claim_error(store, claimer) != Some(ContractError::PayoutExceedsTreasury),
{
    if store.points.contains_key(claimer) && store.treasury is Some && store.total_points.unwrap()
        > 0 {
        lemma_share_within_balance(
            store.points[claimer] as nat,
            store.treasury.unwrap() as nat,
            store.total_points.unwrap() as nat,
        );
    }
}

/// A store that is initialised while its ledger is empty holds no account
/// with more points than were issued.
pub proof fn law_instantiate_bounds_points(
    store: StoreView,
    initial_price: u128,
    royalty_address: Seq<char>,
)
    requires
        store.points == Map::<Seq<char>, u128>::empty(),
    ensures
        points_within_total(store_after_instantiate(store, initial_price, royalty_address)),
        store_after_instantiate(store, initial_price, royalty_address).total_points == Some(0u128),
{
}

/// No call lowers the total of points issued: an accepted purchase raises it
/// by the reward, and every other call leaves it as it is.
pub proof fn law_step_total_points(store: StoreView, call: Call)
    requires
        store.total_points is Some,
    ensures
        step(store, call).total_points is Some,
        step(store, call).total_points.unwrap() == store.total_points.unwrap() + (
        if is_successful_buy(store, call) {
            100int
        } else {
            0int
        }),
        step(store, call).total_points.unwrap() >= store.total_points.unwrap(),
{
}

/// No call changes the configuration: the initial price and the royalty
/// beneficiary stay as they were set.
pub proof fn law_step_keeps_configuration(store: StoreView, call: Call)
    ensures
        step(store, call).initial_price == store.initial_price,
        step(store, call).royalty_address == store.royalty_address,
{
}

/// No call removes a parcel from the registry or lowers its price, and only
/// an accepted purchase of the parcel changes it at all.
pub proof fn law_step_keeps_parcels(store: StoreView, call: Call, coordinates: (i32, i32))
    requires
        store.plots.contains_key(coordinates),
    ensures
        step(store, call).plots.contains_key(coordinates),
        step(store, call).plots[coordinates].price >= store.plots[coordinates].price,
        !(is_successful_buy(store, call) && call.msg == (ExecuteMsg::Buy { coordinates }))
            ==> step(store, call).plots[coordinates] == store.plots[coordinates],
{
}

/// No call lets an account hold more points than were issued.
pub proof fn law_step_keeps_points_within_total(store: StoreView, call: Call)
    requires
        points_within_total(store),
    ensures
        points_within_total(step(store, call)),
{
    let after = step(store, call);
    if execute_error(store, call.info, call.msg) is None {
        assert forall|holder: Seq<char>| #[trigger]
            after.points.contains_key(holder) implies after.points[holder]
            <= after.total_points.unwrap() by {
            if holder != call.info.sender {
                assert(store.points.contains_key(holder));
            } else if store.points.contains_key(holder) {
                assert(store.points[holder] <= store.total_points.unwrap());
            }
        }
    }
}

/// Over any history, the total of points issued is what it started at plus
/// a hundred for each accepted purchase.
pub proof fn law_total_points_count_buys(store: StoreView, calls: Seq<Call>)
    requires
        store.total_points is Some,
    ensures
        run(store, calls).total_points is Some,
        run(store, calls).total_points.unwrap() == store.total_points.unwrap() + 100
            * successful_buys(store, calls),
        run(store, calls).total_points.unwrap() >= store.total_points.unwrap(),
    decreases calls.len(),
{
    if calls.len() > 0 {
        law_total_points_count_buys(store, calls.drop_last());
        law_step_total_points(run(store, calls.drop_last()), calls.last());
    }
}

/// The total of points issued never decreases along a history: after more
/// calls it is at least what it was after fewer.
pub proof fn law_total_points_never_decrease(store: StoreView, calls: Seq<Call>, more: Seq<Call>)
    requires
        store.total_points is Some,
    ensures
        run(store, calls).total_points is Some,
        run(store, calls + more).total_points is Some,
        run(store, calls + more).total_points.unwrap() >= run(store, calls).total_points.unwrap(),
    decreases more.len(),
{
    law_total_points_count_buys(store, calls);
    if more.len() == 0 {
        assert(calls + more =~= calls);
    } else {
        assert((calls + more).drop_last() =~= calls + more.drop_last());
        assert((calls + more).last() == more.last());
        law_total_points_never_decrease(store, calls, more.drop_last());
        law_step_total_points(run(store, calls + more.drop_last()), more.last());
    }
}

/// Over any history that starts from a store in which no account holds more
/// points than were issued, none ever does.
pub proof fn law_run_keeps_points_within_total(store: StoreView, calls: Seq<Call>)
    requires
        points_within_total(store),
    ensures
        points_within_total(run(store, calls)),
    decreases calls.len(),
{
    if calls.len() > 0 {
        law_run_keeps_points_within_total(store, calls.drop_last());
        law_step_keeps_points_within_total(run(store, calls.drop_last()), calls.last());
    }
}

/// After any history of a freshly initialised marketplace, the total of
/// points issued is a hundred times the number of accepted purchases, and a
/// claim is either rejected or pays out no more than the treasury holds,
/// never being rejected for exceeding it.
pub proof fn law_history_of_fresh_store(
    initial_price: u128,
    royalty_address: Seq<char>,
    calls: Seq<Call>,
    claimer: Seq<char>,
)
    ensures
        ({
            let fresh = store_after_instantiate(StoreView::empty(), initial_price, royalty_address);
            let now = run(fresh, calls);
            &&& now.total_points == Some((100 * successful_buys(fresh, calls)) as u128)
            &&& now.total_points.unwrap() == 100 * successful_buys(fresh, calls)
            &&& points_within_total(now)
            &&& claim_error(now, claimer) != Some(ContractError::PayoutExceedsTreasury)
            &&& claim_error(now, claimer) is None ==> claim_payout(now, claimer)
                <= now.treasury.unwrap()
        }),
{
    let fresh = store_after_instantiate(StoreView::empty(), initial_price, royalty_address);
    law_instantiate_bounds_points(StoreView::empty(), initial_price, royalty_address);
    law_total_points_count_buys(fresh, calls);
    law_run_keeps_points_within_total(fresh, calls);
    law_claim_never_exceeds_treasury(run(fresh, calls), claimer);
}

} // verus!
