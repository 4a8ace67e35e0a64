//! The typed records the data sources hand to the polling loops: server
//! time, order book, products, candles and market trades.
//!
//! Numeric market quantities arrive from the exchange as decimal strings
//! and are carried as strings: the viewer formats them, it never computes
//! with them.

use vstd::prelude::*;

verus! {

/// The exchange's clock reading.
#[derive(Clone, PartialEq, Debug)]
pub struct ServerTime {
    /// ISO-formatted date-time.
    pub iso: String,
    /// Epoch time in seconds, as a decimal string.
    pub epoch_seconds: String,
    /// Epoch time in milliseconds, as a decimal string.
    pub epoch_millis: String,
}

/// One bid or ask level of an order book.
#[derive(Clone, PartialEq, Debug)]
pub struct ProductBookEntry {
    pub price: String,
    pub size: String,
}

/// The price book of one product: its bids and asks at one instant.
#[derive(Clone, PartialEq, Debug)]
pub struct ProductBookPriceBook {
    pub product_id: String,
    pub bids: Vec<ProductBookEntry>,
    pub asks: Vec<ProductBookEntry>,
    pub time: String,
}

/// An order-book snapshot, wrapping the price book.
#[derive(Clone, PartialEq, Debug)]
pub struct ProductBook {
    pub pricebook: ProductBookPriceBook,
}

/// Trading-session details of an FCM product, where the product has them.
#[derive(Clone, PartialEq, Debug)]
pub struct FCMTradingSessionDetails {
    pub is_session_open: Option<bool>,
    pub open_time: Option<String>,
    pub close_time: Option<String>,
}

/// Details of a perpetual contract, where the product has them.
#[derive(Clone, PartialEq, Debug)]
pub struct PerpetualDetails {
    pub open_interest: Option<String>,
    pub funding_rate: Option<String>,
    pub funding_time: Option<String>,
}

/// Details of a future product, where the product has them.
#[derive(Clone, PartialEq, Debug)]
pub struct FutureProductDetails {
    pub venue: Option<String>,
    pub contract_code: Option<String>,
    pub contract_expiry: Option<String>,
    pub contract_size: Option<String>,
    pub contract_root_unit: Option<String>,
    pub group_description: Option<String>,
    pub contract_expiry_timezone: Option<String>,
    pub group_short_description: Option<String>,
    pub risk_managed_by: Option<String>,
    pub contract_expiry_type: Option<String>,
    pub perpetual_details: Option<PerpetualDetails>,
    pub contract_display_name: Option<String>,
}

/// One tradable product with the full detail set the complete view shows.
#[derive(Clone, PartialEq, Debug)]
pub struct Product {
    pub product_id: String,
    pub price: String,
    pub price_percentage_change_24h: String,
    pub volume_24h: String,
    pub volume_percentage_change_24h: String,
    pub base_increment: String,
    pub quote_increment: String,
    pub quote_min_size: String,
    pub quote_max_size: String,
    pub base_min_size: String,
    pub base_max_size: String,
    pub base_name: String,
    pub quote_name: String,
    pub watched: bool,
    pub is_disabled: bool,
    pub new: bool,
    pub status: String,
    pub cancel_only: bool,
    pub limit_only: bool,
    pub post_only: bool,
    pub trading_disabled: bool,
    pub auction_mode: bool,
    pub product_type: String,
    pub quote_currency_id: String,
    pub base_currency_id: String,
    pub fcm_trading_session_details: Option<FCMTradingSessionDetails>,
    pub mid_market_price: String,
    pub alias: String,
    pub alias_to: Vec<String>,
    pub base_display_symbol: String,
    pub quote_display_symbol: String,
    pub view_only: bool,
    pub price_increment: String,
    pub display_name: String,
    pub product_venue: String,
    pub approximate_quote_24h_volume: String,
}

/// The products listing a full fetch returns.
#[derive(Clone, PartialEq, Debug)]
pub struct ProductsResponse {
    pub products: Vec<Product>,
}

/// One candle: open, high, low, close and volume over one granularity
/// period starting at `start`.
#[derive(Clone, PartialEq, Debug)]
pub struct Candle {
    pub start: String,
    pub low: String,
    pub high: String,
    pub open: String,
    pub close: String,
    pub volume: String,
}

/// The candles a candle fetch returns.
#[derive(Clone, PartialEq, Debug)]
pub struct CandlesResponse {
    pub candles: Vec<Candle>,
}

/// One market trade.
#[derive(Clone, PartialEq, Debug)]
pub struct MarketTrade {
    pub trade_id: String,
    pub product_id: String,
    pub price: String,
    pub size: String,
    pub time: String,
    pub side: String,
    pub bid: Option<String>,
    pub ask: Option<String>,
}

/// The trades a ticker fetch returns.
#[derive(Clone, PartialEq, Debug)]
pub struct MarketTradesResponse {
    pub trades: Vec<MarketTrade>,
}

} // verus!
