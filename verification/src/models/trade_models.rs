//! Simulated trades.

use crate::document::FloatBits;
use crate::object_id::ObjectId;
use vstd::prelude::*;

verus! {

/// How far a trade has come.
#[derive(Clone, Copy, Debug, PartialEq, Eq)]
pub enum TradeStatus {
    InProgress,
    Closed,
}

/// A simulated trade as the store keeps it.
#[derive(Debug, PartialEq)]
pub struct Trade {
    /// The identifier that the store gave the trade; `None` before it is stored.
    pub id: Option<ObjectId>,
    pub ticker: String,
    pub position: String,
    pub quantity: u32,
    /// As the bits of a double, like every amount of a trade.
    pub price: FloatBits,
    pub take_profit: Option<FloatBits>,
    pub stop_loss: Option<FloatBits>,
    pub status: TradeStatus,
    pub user_id: ObjectId,
    pub amount: FloatBits,
    pub trade_type: String,
}

/// The mathematical value of a [`Trade`].
pub struct TradeView {
    pub id: Option<ObjectId>,
    pub ticker: Seq<char>,
    pub position: Seq<char>,
    pub quantity: u32,
    pub price: FloatBits,
    pub take_profit: Option<FloatBits>,
    pub stop_loss: Option<FloatBits>,
    pub status: TradeStatus,
    pub user_id: ObjectId,
    pub amount: FloatBits,
    pub trade_type: Seq<char>,
}

impl View for Trade {
    type V = TradeView;

    open spec fn view(&self) -> TradeView {
        TradeView {
            id: self.id,
            ticker: self.ticker@,
            position: self.position@,
            quantity: self.quantity,
            price: self.price,
            take_profit: self.take_profit,
            stop_loss: self.stop_loss,
            status: self.status,
            user_id: self.user_id,
            amount: self.amount,
            trade_type: self.trade_type@,
        }
    }
}

impl DeepView for Trade {
    type V = TradeView;

    open spec fn deep_view(&self) -> TradeView {
        self@
    }
}

/// A trade as a client submits it.
#[derive(Debug, PartialEq)]
pub struct TradeData {
    pub ticker: String,
    pub position: String,
    pub quantity: u32,
    /// As the bits of a double, like every amount of a trade.
    pub price: FloatBits,
    pub take_profit: Option<FloatBits>,
    pub stop_loss: Option<FloatBits>,
    /// The account's identifier in hexadecimal.
    pub user_id: String,
    pub amount: FloatBits,
    pub trade_type: String,
    pub user_balance: FloatBits,
}

/// The mathematical value of a [`TradeData`].
pub struct TradeDataView {
    pub ticker: Seq<char>,
    pub position: Seq<char>,
    pub quantity: u32,
    pub price: FloatBits,
    pub take_profit: Option<FloatBits>,
    pub stop_loss: Option<FloatBits>,
    pub user_id: Seq<char>,
    pub amount: FloatBits,
    pub trade_type: Seq<char>,
    pub user_balance: FloatBits,
}

impl View for TradeData {
    type V = TradeDataView;

    open spec fn view(&self) -> TradeDataView {
        TradeDataView {
            ticker: self.ticker@,
            position: self.position@,
            quantity: self.quantity,
            price: self.price,
            take_profit: self.take_profit,
            stop_loss: self.stop_loss,
            user_id: self.user_id@,
            amount: self.amount,
            trade_type: self.trade_type@,
            user_balance: self.user_balance,
        }
    }
}

impl DeepView for TradeData {
    type V = TradeDataView;

    open spec fn deep_view(&self) -> TradeDataView {
        self@
    }
}


} // verus!
