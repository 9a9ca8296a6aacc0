//! The errors with which a call is rejected.

use crate::text::{decimal, decimal_string};
use vstd::prelude::*;
use vstd::string::*;

verus! {

/// A piece of configuration that every call expects to find in the store.
#[derive(Clone, Copy, Debug, PartialEq, Eq, Structural)]
pub enum ConfigItem {
    Treasury,
    RoyaltyAddress,
    InitialPrice,
    TotalPoints,
}

/// Why a call was rejected. A rejected call leaves the store untouched.
#[derive(Clone, Copy, Debug, PartialEq, Eq, Structural)]
pub enum ContractError {
    /// The royalty address did not pass the host's validation.
    InvalidAddress,
    /// The funds attached to a purchase do not cover the listed price.
    InsufficientFunds { required: u128, sent: u128 },
    /// The store lacks a piece of configuration: it was never initialised.
    StorageLoadFailure { item: ConfigItem },
    /// The claimant has never bought a parcel.
    NoPointsRecord,
    /// No points have been issued yet, so there is no pool to share.
    NoRewardsAvailable,
    /// After the purchase a balance, a counter or the price would no longer
    /// fit in 128 bits.
    Overflow,
    /// The claimant's share comes to more than the treasury holds.
    PayoutExceedsTreasury,
}

impl ConfigItem {
    /// The wording used for this item in an error message.
    pub open spec fn label(self) -> Seq<char> {
        match self {
            ConfigItem::Treasury => "Treasury address"@,
            ConfigItem::RoyaltyAddress => "Royalty address"@,
            ConfigItem::InitialPrice => "initial price"@,
            ConfigItem::TotalPoints => "total points"@,
        }
    }
}

impl ContractError {
    /// The text of [`ContractError::message`].
    pub open spec fn message_text(self) -> Seq<char> {
        match self {
            ContractError::InvalidAddress => "Invalid royalty address"@,
            ContractError::InsufficientFunds { required, sent } => "Insufficient funds: required "@
                + decimal(required as nat) + ", sent "@ + decimal(sent as nat),
            ContractError::StorageLoadFailure { item } => "Failed to load "@ + item.label(),
            ContractError::NoPointsRecord => "No points recorded for this address"@,
            ContractError::NoRewardsAvailable => "No rewards available: no points have been issued"@,
            ContractError::Overflow => "Arithmetic overflow"@,
            ContractError::PayoutExceedsTreasury => "Payout exceeds the treasury balance"@,
        }
    }

    /// A human-readable description of the error.
    pub fn message(&self) -> (text: String)
        ensures
            text@ == self.message_text(),
    {
        match self {
            ContractError::InvalidAddress => String::from_str("Invalid royalty address"),
            ContractError::InsufficientFunds { required, sent } => {
                let mut text = String::from_str("Insufficient funds: required ");
                text.append(decimal_string(*required).as_str());
                text.append(", sent ");
                text.append(decimal_string(*sent).as_str());
                text
            },
            ContractError::StorageLoadFailure { item } => {
                let mut text = String::from_str("Failed to load ");
                match item {
                    ConfigItem::Treasury => text.append("Treasury address"),
                    ConfigItem::RoyaltyAddress => text.append("Royalty address"),
                    ConfigItem::InitialPrice => text.append("initial price"),
                    ConfigItem::TotalPoints => text.append("total points"),
                }
                text
            },
            ContractError::NoPointsRecord => String::from_str("No points recorded for this address"),
            ContractError::NoRewardsAvailable => String::from_str(
                "No rewards available: no points have been issued",
            ),
            ContractError::Overflow => String::from_str("Arithmetic overflow"),
            ContractError::PayoutExceedsTreasury => String::from_str(
                "Payout exceeds the treasury balance",
            ),
        }
    }
}

} // verus!
