//! Recording simulated trades: what is to be stored, and for whom.

use crate::document::FloatBits;
use crate::models::trade_models::{Trade, TradeData, TradeDataView, TradeStatus, TradeView};
use crate::object_id::{hex_to_object_id, ObjectId};
use vstd::prelude::*;

verus! {

/// Why a trade operation gave no result.
#[derive(Clone, Copy, Debug, PartialEq, Eq)]
pub enum TradeError {
    /// The account's identifier is not the hexadecimal form of one.
    InvalidUserId,
}

/// The trade to store for a submission by the account `user_id`: not yet
/// stored, in progress, with every figure of the submission.
pub open spec fn trade_of(data: TradeDataView, user_id: ObjectId) -> TradeView {
    TradeView {
        id: None,
        ticker: data.ticker,
        position: data.position,
        quantity: data.quantity,
        price: data.price,
        take_profit: data.take_profit,
        stop_loss: data.stop_loss,
        status: TradeStatus::InProgress,
        user_id,
        amount: data.amount,
        trade_type: data.trade_type,
    }
}

/// Makes the trade of a submission for an account.
pub fn new_trade(data: &TradeData, user_id: ObjectId) -> (trade: Trade)
    ensures
        trade@ == trade_of(data@, user_id),
{
    Trade {
        id: None,
        ticker: data.ticker.clone(),
        position: data.position.clone(),
        quantity: data.quantity,
        price: data.price,
        take_profit: data.take_profit,
        stop_loss: data.stop_loss,
        status: TradeStatus::InProgress,
        user_id,
        amount: data.amount,
        trade_type: data.trade_type.clone(),
    }
}

/// Reads the identifier of an account from its hexadecimal form.
pub fn parse_user_id(user_id: &str) -> (r: Result<ObjectId, TradeError>)
    ensures
        match r {
            Ok(id) => hex_to_object_id(user_id@) == Some(id.bytes@),
            Err(e) => hex_to_object_id(user_id@) is None && e == TradeError::InvalidUserId,
        },
{
    match ObjectId::parse_str(user_id) {
        Some(id) => Ok(id),
        None => Err(TradeError::InvalidUserId),
    }
}

/// Prepares the trade to store for a submission. The submission is refused
/// where its account identifier cannot be read.
pub fn create_trade(trade_data: &TradeData) -> (r: Result<Trade, TradeError>)
    ensures
        match r {
            Ok(trade) => hex_to_object_id(trade_data.user_id@) == Some(trade.user_id.bytes@)
                && trade@ == trade_of(trade_data@, trade.user_id),
            Err(e) => hex_to_object_id(trade_data.user_id@) is None && e
                == TradeError::InvalidUserId,
        },
{
    match parse_user_id(trade_data.user_id.as_str()) {
        Ok(user_id) => Ok(new_trade(trade_data, user_id)),
        Err(e) => Err(e),
    }
}

/// A change to an account after a trade: the trade joins the account's
/// trades, unless it is among them already, and the amount leaves its balance.
#[derive(Clone, Copy, Debug, PartialEq, Eq)]
pub struct BalanceUpdate {
    pub user_id: ObjectId,
    pub trade_id: ObjectId,
    /// The amount to take from the balance, as the bits of a double.
    pub amount: FloatBits,
}

/// Prepares the change to an account after a trade. Refused where the
/// account identifier cannot be read.
pub fn update_user_balance_and_trades(user_id: &str, trade_id: &ObjectId, amount: FloatBits) -> (r:
    Result<BalanceUpdate, TradeError>)
    ensures
        match r {
            Ok(update) => hex_to_object_id(user_id@) == Some(update.user_id.bytes@)
                && update.trade_id == *trade_id && update.amount == amount,
            Err(e) => hex_to_object_id(user_id@) is None && e == TradeError::InvalidUserId,
        },
{
    match parse_user_id(user_id) {
        Ok(id) => Ok(BalanceUpdate { user_id: id, trade_id: *trade_id, amount }),
        Err(e) => Err(e),
    }
}

} // verus!
