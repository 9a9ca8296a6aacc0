//! The calls of the marketplace: setting it up, buying a parcel and claiming
//! a share of the treasury.
//!
//! Each call either succeeds, changing the store and returning a response,
//! or is rejected with an error and leaves the store as it was.

use crate::error::{ConfigItem, ContractError};
use crate::msg::{
    denom, sent_amount, settlement_denom, Env, ExecuteMsg, InstantiateMsg, MessageInfo,
    MessageInfoView,
};
use crate::response::{AttributeView, Response, ResponseView, Transfer, TransferView};
use crate::settlement::{
    claim_share, claim_share_outcome, escalated, escalated_price, fee_cut, fee_split,
    owner_amount, proportional_share, REWARD_POINTS,
};
use crate::state::{ParcelState, Plot, PlotView, Store, StoreView};
use crate::text::{decimal, decimal_string, signed_decimal, signed_decimal_string};
use vstd::prelude::*;
use vstd::string::*;

verus! {

/// The store as a successful [`instantiate`] leaves it: the configuration is
/// set and both counters start at zero; parcels and points are not touched.
pub open spec fn store_after_instantiate(
    store: StoreView,
    initial_price: u128,
    royalty_address: Seq<char>,
) -> StoreView {
    StoreView {
        initial_price: Some(initial_price),
        royalty_address: Some(royalty_address),
        treasury: Some(0u128),
        total_points: Some(0u128),
        points: store.points,
        plots: store.plots,
    }
}

/// The response to a successful [`instantiate`].
pub open spec fn instantiate_response() -> ResponseView {
    ResponseView {
        messages: Seq::empty(),
        attributes: seq![AttributeView { key: "method"@, value: "instantiate"@ }],
    }
}

/// The parcel at `coordinates` as it is offered to `buyer`: the registered
/// parcel, or, before its first sale, one at the initial price that the
/// buyer already owns.
pub open spec fn listing(store: StoreView, coordinates: (i32, i32), buyer: Seq<char>) -> PlotView {
    if store.plots.contains_key(coordinates) {
        store.plots[coordinates]
    } else {
        PlotView { coordinates, price: store.initial_price.unwrap(), owner: buyer }
    }
}

/// The points recorded for `holder`, zero if there is no record.
pub open spec fn points_of(store: StoreView, holder: Seq<char>) -> u128 {
    if store.points.contains_key(holder) {
        store.points[holder]
    } else {
        0
    }
}

/// The error with which [`try_buy`] rejects a purchase, `None` if it accepts.
pub open spec fn buy_error(
    store: StoreView,
    info: MessageInfoView,
    coordinates: (i32, i32),
) -> Option<ContractError> {
    if store.treasury is None {
        Some(ContractError::StorageLoadFailure { item: ConfigItem::Treasury })
    } else if store.royalty_address is None {
        Some(ContractError::StorageLoadFailure { item: ConfigItem::RoyaltyAddress })
    } else if !store.plots.contains_key(coordinates) && store.initial_price is None {
        Some(ContractError::StorageLoadFailure { item: ConfigItem::InitialPrice })
    } else if store.total_points is None {
        Some(ContractError::StorageLoadFailure { item: ConfigItem::TotalPoints })
    } else {
        let price = listing(store, coordinates, info.sender).price;
        let sent = sent_amount(info.funds);
        if sent < price {
            Some(ContractError::InsufficientFunds { required: price, sent })
        } else if store.treasury.unwrap() + fee_cut(price as nat) > u128::MAX
            || points_of(store, info.sender) + REWARD_POINTS > u128::MAX
            || store.total_points.unwrap() + REWARD_POINTS > u128::MAX
            || escalated(price as nat) > u128::MAX {
            Some(ContractError::Overflow)
        } else {
            None
        }
    }
}

/// The store as an accepted purchase leaves it: the treasury has its cut,
/// the buyer and the total have the reward, and the parcel belongs to the
/// buyer at twice the price.
pub open spec fn store_after_buy(
    store: StoreView,
    info: MessageInfoView,
    coordinates: (i32, i32),
) -> StoreView {
    let price = listing(store, coordinates, info.sender).price;
    StoreView {
        initial_price: store.initial_price,
        royalty_address: store.royalty_address,
        treasury: Some((store.treasury.unwrap() + fee_cut(price as nat)) as u128),
        total_points: Some((store.total_points.unwrap() + REWARD_POINTS) as u128),
        points: store.points.insert(
            info.sender,
            (points_of(store, info.sender) + REWARD_POINTS) as u128,
        ),
        plots: store.plots.insert(
            coordinates,
            PlotView { coordinates, price: escalated(price as nat) as u128, owner: info.sender },
        ),
    }
}

/// The transfers of an accepted purchase. A buyer who is the owner of record
/// moves no money; otherwise the treasury's holding address, the royalty
/// beneficiary and the previous owner are paid their parts of the price.
pub open spec fn buy_transfers(
    store: StoreView,
    treasury_address: Seq<char>,
    info: MessageInfoView,
    coordinates: (i32, i32),
) -> Seq<TransferView> {
    let plot = listing(store, coordinates, info.sender);
    if plot.owner == info.sender {
        Seq::empty()
    } else {
        seq![
            TransferView {
                to_address: treasury_address,
                amount: fee_cut(plot.price as nat) as u128,
                denom: settlement_denom(),
            },
            TransferView {
                to_address: store.royalty_address.unwrap(),
                amount: fee_cut(plot.price as nat) as u128,
                denom: settlement_denom(),
            },
            TransferView {
                to_address: plot.owner,
                amount: owner_amount(plot.price as nat) as u128,
                denom: settlement_denom(),
            },
        ]
    }
}

/// The text of the attribute that reports the fee split of a sale at `price`.
pub open spec fn split_text(price: nat) -> Seq<char> {
    "Treasury Amount: "@ + decimal(fee_cut(price)) + ", Royalty Amount: "@ + decimal(fee_cut(price))
        + ", Owner Amount: "@ + decimal(owner_amount(price) as nat)
}

/// The text of the attribute that names the parcel's coordinates.
pub open spec fn coordinates_text(coordinates: (i32, i32)) -> Seq<char> {
    signed_decimal(coordinates.0 as int) + ","@ + signed_decimal(coordinates.1 as int)
}

/// The attributes of an accepted purchase.
pub open spec fn buy_attributes(
    store: StoreView,
    info: MessageInfoView,
    coordinates: (i32, i32),
) -> Seq<AttributeView> {
    let plot = listing(store, coordinates, info.sender);
    seq![
        AttributeView { key: "amounts_being_transferred"@, value: split_text(plot.price as nat) },
        AttributeView { key: "action"@, value: "buy"@ },
        AttributeView { key: "buyer"@, value: info.sender },
        AttributeView { key: "seller"@, value: plot.owner },
        AttributeView { key: "coordinates"@, value: coordinates_text(coordinates) },
        AttributeView { key: "sell_price"@, value: decimal(plot.price as nat) },
    ]
}

/// The response to an accepted purchase.
pub open spec fn buy_response(
    store: StoreView,
    treasury_address: Seq<char>,
    info: MessageInfoView,
    coordinates: (i32, i32),
) -> ResponseView {
    ResponseView {
        messages: buy_transfers(store, treasury_address, info, coordinates),
        attributes: buy_attributes(store, info, coordinates),
    }
}

/// The error with which [`try_claim`] rejects a claim, `None` if it accepts.
pub open spec fn claim_error(store: StoreView, claimer: Seq<char>) -> Option<ContractError> {
    if !store.points.contains_key(claimer) {
        Some(ContractError::NoPointsRecord)
    } else if store.total_points is None {
        Some(ContractError::StorageLoadFailure { item: ConfigItem::TotalPoints })
    } else if store.treasury is None {
        Some(ContractError::StorageLoadFailure { item: ConfigItem::Treasury })
    } else {
        match claim_share_outcome(
            store.points[claimer],
            store.treasury.unwrap(),
            store.total_points.unwrap(),
        ) {
            Ok(_) => None,
            Err(error) => Some(error),
        }
    }
}

/// What an accepted claim pays out: the claimant's points, as a fraction of
/// all the points ever issued, of the treasury's balance.
pub open spec fn claim_payout(store: StoreView, claimer: Seq<char>) -> u128 {
    proportional_share(
        store.points[claimer] as nat,
        store.treasury.unwrap() as nat,
        store.total_points.unwrap() as nat,
    ) as u128
}

/// The store as an accepted claim leaves it: the payout has left the
/// treasury and the claimant's points are spent. The total of points issued
/// stays as it was.
pub open spec fn store_after_claim(store: StoreView, claimer: Seq<char>) -> StoreView {
    StoreView {
        initial_price: store.initial_price,
        royalty_address: store.royalty_address,
        treasury: Some((store.treasury.unwrap() - claim_payout(store, claimer)) as u128),
        total_points: store.total_points,
        points: store.points.insert(claimer, 0u128),
        plots: store.plots,
    }
}

/// The response to an accepted claim: one transfer, to the claimant.
pub open spec fn claim_response(store: StoreView, claimer: Seq<char>) -> ResponseView {
    ResponseView {
        messages: seq![
            TransferView {
                to_address: claimer,
                amount: claim_payout(store, claimer),
                denom: settlement_denom(),
            },
        ],
        attributes: seq![
            AttributeView { key: "action"@, value: "claim"@ },
            AttributeView { key: "claimer"@, value: claimer },
            AttributeView {
                key: "amount_claimed"@,
                value: decimal(claim_payout(store, claimer) as nat),
            },
        ],
    }
}

/// Sets the configuration and starts the treasury and the points total at
/// zero.
///
/// Whether an address is valid is for the host to say: `validated` is the
/// royalty address of `msg` as the host's validation returned it, or `None`
/// if the host rejected it.
pub fn instantiate(
    store: &mut Store,
    _env: Env,
    _info: MessageInfo,
    msg: InstantiateMsg,
    validated: Option<String>,
) -> (result: Result<Response, ContractError>)
    ensures
        result is Ok <==> validated is Some,
        match result {
            Ok(response) => {
                &&& final(store)@ == store_after_instantiate(
                    old(store)@,
                    msg.initial_price,
                    validated.unwrap()@,
                )
                &&& response@ == instantiate_response()
            },
            Err(error) => {
                &&& error == ContractError::InvalidAddress
                &&& *final(store) == *old(store)
            },
        },
{
    match validated {
        None => Err(ContractError::InvalidAddress),
        Some(address) => {
            store.initial_price = Some(msg.initial_price);
            store.royalty_address = Some(address);
            store.treasury = Some(0);
            store.total_points = Some(0);
            let response = Response::new().add_attribute(
                "method",
                String::from_str("instantiate"),
            );
            assert(response@.attributes =~= instantiate_response().attributes);
            Ok(response)
        },
    }
}

fn split_log(price: u128) -> (text: String)
    ensures
        text@ == split_text(price as nat),
{
    let split = fee_split(price);
    let mut text = String::from_str("Treasury Amount: ");
    text.append(decimal_string(split.treasury).as_str());
    text.append(", Royalty Amount: ");
    text.append(decimal_string(split.royalty).as_str());
    text.append(", Owner Amount: ");
    text.append(decimal_string(split.owner).as_str());
    text
}

fn coordinates_log(coordinates: (i32, i32)) -> (text: String)
    ensures
        text@ == coordinates_text(coordinates),
{
    let mut text = signed_decimal_string(coordinates.0);
    text.append(",");
    text.append(signed_decimal_string(coordinates.1).as_str());
    text
}

fn transfer(to_address: &String, amount: u128) -> (instruction: Transfer)
    ensures
        instruction@ == (TransferView {
            to_address: to_address@,
            amount,
            denom: settlement_denom(),
        }),
{
    Transfer { to_address: to_address.clone(), amount, denom: denom() }
}

/// Sells the parcel at `coordinates` to the sender of `info`.
///
/// The parcel is sold at its listed price, which the attached funds must
/// cover. The price is divided between the treasury, the royalty beneficiary
/// and the previous owner; the buyer earns the reward and the parcel's price
/// doubles. `env` names the address at which the treasury is held.
pub fn try_buy(
    store: &mut Store,
    env: Env,
    info: MessageInfo,
    coordinates: (i32, i32),
) -> (result: Result<Response, ContractError>)
    ensures
        match result {
            Ok(response) => {
                &&& buy_error(old(store)@, info@, coordinates) is None
                &&& final(store)@ == store_after_buy(old(store)@, info@, coordinates)
                &&& response@ == buy_response(
                    old(store)@,
                    env.contract_address@,
                    info@,
                    coordinates,
                )
            },
            Err(error) => {
                &&& buy_error(old(store)@, info@, coordinates) == Some(error)
                &&& *final(store) == *old(store)
            },
        },
        result is Ok ==> {
            let sold = listing(old(store)@, coordinates, info.sender@);
            let parcel = final(store)@.plots[coordinates];
            &&& parcel.price == 2 * sold.price
            &&& parcel.owner == info.sender@
            &&& final(store)@.treasury.unwrap() == old(store)@.treasury.unwrap() + fee_cut(
                sold.price as nat,
            )
            &&& final(store)@.total_points.unwrap() == old(store)@.total_points.unwrap() + 100
            &&& final(store)@.points[info.sender@] == points_of(old(store)@, info.sender@) + 100
            &&& sold.owner == info.sender@ ==> result.unwrap()@.messages.len() == 0
            &&& sold.owner != info.sender@ ==> result.unwrap()@.messages.len() == 3
        },
{
    let sent = info.sei_amount();
    let treasury = match store.treasury {
        Some(balance) => balance,
        None => {
            return Err(ContractError::StorageLoadFailure { item: ConfigItem::Treasury });
        },
    };
    let royalty_address = match &store.royalty_address {
        Some(address) => address.clone(),
        None => {
            return Err(ContractError::StorageLoadFailure { item: ConfigItem::RoyaltyAddress });
        },
    };
    let plot = match store.plots.get(coordinates) {
        ParcelState::Owned(plot) => plot,
        ParcelState::Uninitialized => match store.initial_price {
            Some(price) => Plot { coordinates, price, owner: info.sender.clone() },
            None => {
                return Err(ContractError::StorageLoadFailure { item: ConfigItem::InitialPrice });
            },
        },
    };
    assert(plot@ == listing(store@, coordinates, info.sender@));
    let total_points = match store.total_points {
        Some(total) => total,
        None => {
            return Err(ContractError::StorageLoadFailure { item: ConfigItem::TotalPoints });
        },
    };
    let sell_price = plot.price;
    if sent < sell_price {
        return Err(ContractError::InsufficientFunds { required: sell_price, sent });
    }
    let split = fee_split(sell_price);
    let buyer_points = match store.points.get(&info.sender) {
        Some(points) => points,
        None => 0,
    };
    let new_treasury = match treasury.checked_add(split.treasury) {
        Some(balance) => balance,
        None => {
            return Err(ContractError::Overflow);
        },
    };
    let new_points = match buyer_points.checked_add(REWARD_POINTS) {
        Some(points) => points,
        None => {
            return Err(ContractError::Overflow);
        },
    };
    let new_total = match total_points.checked_add(REWARD_POINTS) {
        Some(total) => total,
        None => {
            return Err(ContractError::Overflow);
        },
    };
    let new_price = match escalated_price(sell_price) {
        Some(price) => price,
        None => {
            return Err(ContractError::Overflow);
        },
    };

    store.treasury = Some(new_treasury);
    store.points.set(info.sender.clone(), new_points);
    store.total_points = Some(new_total);
    store.plots.save(Plot { coordinates, price: new_price, owner: info.sender.clone() });

    let mut response = Response::new()
        .add_attribute("amounts_being_transferred", split_log(sell_price))
        .add_attribute("action", String::from_str("buy"))
        .add_attribute("buyer", info.sender.clone())
        .add_attribute("seller", plot.owner.clone())
        .add_attribute("coordinates", coordinates_log(coordinates))
        .add_attribute("sell_price", decimal_string(sell_price));
    if plot.owner != info.sender {
        response = response
            .add_message(transfer(&env.contract_address, split.treasury))
            .add_message(transfer(&royalty_address, split.royalty))
            .add_message(transfer(&plot.owner, split.owner));
    }
    proof {
        assert(response@.attributes =~= buy_attributes(old(store)@, info@, coordinates));
        assert(response@.messages =~= buy_transfers(
            old(store)@,
            env.contract_address@,
            info@,
            coordinates,
        ));
    }
    Ok(response)
}

/// Pays the sender of `info` its share of the treasury and spends its points.
///
/// The share is the sender's points, out of all the points ever issued, of
/// the treasury's balance, rounded down.
pub fn try_claim(store: &mut Store, info: MessageInfo) -> (result: Result<Response, ContractError>)
    ensures
        match result {
            Ok(response) => {
                &&& claim_error(old(store)@, info.sender@) is None
                &&& final(store)@ == store_after_claim(old(store)@, info.sender@)
                &&& response@ == claim_response(old(store)@, info.sender@)
            },
            Err(error) => {
                &&& claim_error(old(store)@, info.sender@) == Some(error)
                &&& *final(store) == *old(store)
            },
        },
        result is Ok ==> {
            let payout = claim_payout(old(store)@, info.sender@);
            &&& 0 <= payout <= old(store)@.treasury.unwrap()
            &&& final(store)@.treasury.unwrap() == old(store)@.treasury.unwrap() - payout
            &&& final(store)@.points[info.sender@] == 0
            &&& final(store)@.total_points == old(store)@.total_points
        },
{
    let points = match store.points.get(&info.sender) {
        Some(points) => points,
        None => {
            return Err(ContractError::NoPointsRecord);
        },
    };
    let total_points = match store.total_points {
        Some(total) => total,
        None => {
            return Err(ContractError::StorageLoadFailure { item: ConfigItem::TotalPoints });
        },
    };
    let treasury = match store.treasury {
        Some(balance) => balance,
        None => {
            return Err(ContractError::StorageLoadFailure { item: ConfigItem::Treasury });
        },
    };
    let user_share = match claim_share(points, treasury, total_points) {
        Ok(share) => share,
        Err(error) => {
            return Err(error);
        },
    };

    store.treasury = Some(treasury - user_share);
    store.points.set(info.sender.clone(), 0);

    let response = Response::new()
        .add_attribute("action", String::from_str("claim"))
        .add_attribute("claimer", info.sender.clone())
        .add_attribute("amount_claimed", decimal_string(user_share))
        .add_message(transfer(&info.sender, user_share));
    proof {
        assert(response@.attributes =~= claim_response(old(store)@, info.sender@).attributes);
        assert(response@.messages =~= claim_response(old(store)@, info.sender@).messages);
    }
    Ok(response)
}

/// The error with which [`execute`] rejects a call, `None` if it accepts:
/// that of the call which `msg` names.
pub open spec fn execute_error(
    store: StoreView,
    info: MessageInfoView,
    msg: ExecuteMsg,
) -> Option<ContractError> {
    match msg {
        ExecuteMsg::Buy { coordinates } => buy_error(store, info, coordinates),
        ExecuteMsg::Claim {  } => claim_error(store, info.sender),
    }
}

/// The store as an accepted [`execute`] leaves it.
pub open spec fn store_after_execute(
    store: StoreView,
    info: MessageInfoView,
    msg: ExecuteMsg,
) -> StoreView {
    match msg {
        ExecuteMsg::Buy { coordinates } => store_after_buy(store, info, coordinates),
        ExecuteMsg::Claim {  } => store_after_claim(store, info.sender),
    }
}

/// The response to an accepted [`execute`].
pub open spec fn execute_response(
    store: StoreView,
    treasury_address: Seq<char>,
    info: MessageInfoView,
    msg: ExecuteMsg,
) -> ResponseView {
    match msg {
        ExecuteMsg::Buy { coordinates } => buy_response(store, treasury_address, info, coordinates),
        ExecuteMsg::Claim {  } => claim_response(store, info.sender),
    }
}

/// Carries out the command `msg` for the sender of `info`.
pub fn execute(
    store: &mut Store,
    env: Env,
    info: MessageInfo,
    msg: ExecuteMsg,
) -> (result: Result<Response, ContractError>)
    ensures
        match result {
            Ok(response) => {
                &&& execute_error(old(store)@, info@, msg) is None
                &&& final(store)@ == store_after_execute(old(store)@, info@, msg)
                &&& response@ == execute_response(
                    old(store)@,
                    env.contract_address@,
                    info@,
                    msg,
                )
            },
            Err(error) => {
                &&& execute_error(old(store)@, info@, msg) == Some(error)
                &&& *final(store) == *old(store)
            },
        },
{
    match msg {
        ExecuteMsg::Buy { coordinates } => try_buy(store, env, info, coordinates),
        ExecuteMsg::Claim {  } => try_claim(store, info),
    }
}

} // verus!
