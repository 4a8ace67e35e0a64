//! What the table renderers decide before any formatting happens: which
//! cells a row holds and how deep the order-book table goes. Drawing the
//! tables is the driver's business.

use vstd::prelude::*;

verus! {

use crate::models::{Candle, MarketTrade, Product, ProductBook};

/// How a boolean shows up in a table cell.
pub open spec fn format_bool_spec(value: bool) -> Seq<char> {
    if value {
        "Yes"@
    } else {
        "No"@
    }
}

/// The cell text for a boolean column: `Yes` or `No`.
pub fn format_bool(value: bool) -> (r: String)
    ensures
        r@ == format_bool_spec(value),
{
    if value {
        "Yes".to_owned()
    } else {
        "No".to_owned()
    }
}

/// How many levels the order-book table shows: at most thirty, and no
/// more than both sides of the book hold, so a bid row always has an ask
/// row beside it.
pub open spec fn book_depth_spec(book: ProductBook) -> int {
    let b = book.pricebook.bids@.len() as int;
    let a = book.pricebook.asks@.len() as int;
    let side = if b <= a {
        b
    } else {
        a
    };
    if side <= 30 {
        side
    } else {
        30
    }
}

/// The number of rows of the order-book table for this snapshot.
pub fn book_depth(book: &ProductBook) -> (d: usize)
    ensures
        d as int == book_depth_spec(*book),
{
    let b = book.pricebook.bids.len();
    let a = book.pricebook.asks.len();
    let side = if b <= a {
        b
    } else {
        a
    };
    if side <= 30 {
        side
    } else {
        30
    }
}

/// The cells of one row of the synthetic products view, in column order:
/// product id, price, 24h price change, 24h volume, base name, quote name,
/// status.
pub fn synthetic_row(p: &Product) -> (r: Vec<String>)
    ensures
        r@.len() == 7,
        r@[0]@ == p.product_id@,
        r@[1]@ == p.price@,
        r@[2]@ == p.price_percentage_change_24h@,
        r@[3]@ == p.volume_24h@,
        r@[4]@ == p.base_name@,
        r@[5]@ == p.quote_name@,
        r@[6]@ == p.status@,
{
    let mut r: Vec<String> = Vec::new();
    r.push(p.product_id.clone());
    r.push(p.price.clone());
    r.push(p.price_percentage_change_24h.clone());
    r.push(p.volume_24h.clone());
    r.push(p.base_name.clone());
    r.push(p.quote_name.clone());
    r.push(p.status.clone());
    r
}

/// The cells of the one-row specific-product view, in column order:
/// product id, price, 24h price change, 24h volume, 24h volume change,
/// status, base name, quote name.
pub fn specific_product_row(p: &Product) -> (r: Vec<String>)
    ensures
        r@.len() == 8,
        r@[0]@ == p.product_id@,
        r@[1]@ == p.price@,
        r@[2]@ == p.price_percentage_change_24h@,
        r@[3]@ == p.volume_24h@,
        r@[4]@ == p.volume_percentage_change_24h@,
        r@[5]@ == p.status@,
        r@[6]@ == p.base_name@,
        r@[7]@ == p.quote_name@,
{
    let mut r: Vec<String> = Vec::new();
    r.push(p.product_id.clone());
    r.push(p.price.clone());
    r.push(p.price_percentage_change_24h.clone());
    r.push(p.volume_24h.clone());
    r.push(p.volume_percentage_change_24h.clone());
    r.push(p.status.clone());
    r.push(p.base_name.clone());
    r.push(p.quote_name.clone());
    r
}

/// The cells of one row of the candles table, in column order: start
/// time, low, high, open, close, volume.
pub fn candle_row(c: &Candle) -> (r: Vec<String>)
    ensures
        r@.len() == 6,
        r@[0]@ == c.start@,
        r@[1]@ == c.low@,
        r@[2]@ == c.high@,
        r@[3]@ == c.open@,
        r@[4]@ == c.close@,
        r@[5]@ == c.volume@,
{
    let mut r: Vec<String> = Vec::new();
    r.push(c.start.clone());
    r.push(c.low.clone());
    r.push(c.high.clone());
    r.push(c.open.clone());
    r.push(c.close.clone());
    r.push(c.volume.clone());
    r
}

/// The cells of one row of the market-trades table, in column order:
/// trade id, product id, price, size, time, side.
pub fn trade_row(t: &MarketTrade) -> (r: Vec<String>)
    ensures
        r@.len() == 6,
        r@[0]@ == t.trade_id@,
        r@[1]@ == t.product_id@,
        r@[2]@ == t.price@,
        r@[3]@ == t.size@,
        r@[4]@ == t.time@,
        r@[5]@ == t.side@,
{
    let mut r: Vec<String> = Vec::new();
    r.push(t.trade_id.clone());
    r.push(t.product_id.clone());
    r.push(t.price.clone());
    r.push(t.size.clone());
    r.push(t.time.clone());
    r.push(t.side.clone());
    r
}

/// The cells of one row of the complete products view, in column order.
/// Two columns show structured fields whole — the FCM session details and
/// the alias list — and the caller formats those two; every other cell is
/// the product's own field, booleans through [`format_bool`].
pub fn complete_row(p: &Product, fcm_cell: String, alias_to_cell: String) -> (r: Vec<String>)
    ensures
        r@.len() == 36,
        r@[0]@ == p.product_id@,
        r@[1]@ == p.price@,
        r@[2]@ == p.price_percentage_change_24h@,
        r@[3]@ == p.volume_24h@,
        r@[4]@ == p.volume_percentage_change_24h@,
        r@[5]@ == p.base_increment@,
        r@[6]@ == p.quote_increment@,
        r@[7]@ == p.quote_min_size@,
        r@[8]@ == p.quote_max_size@,
        r@[9]@ == p.base_min_size@,
        r@[10]@ == p.base_max_size@,
        r@[11]@ == p.base_name@,
        r@[12]@ == p.quote_name@,
        r@[13]@ == format_bool_spec(p.watched),
        r@[14]@ == format_bool_spec(p.is_disabled),
        r@[15]@ == format_bool_spec(p.new),
        r@[16]@ == p.status@,
        r@[17]@ == format_bool_spec(p.cancel_only),
        r@[18]@ == format_bool_spec(p.limit_only),
        r@[19]@ == format_bool_spec(p.post_only),
        r@[20]@ == format_bool_spec(p.trading_disabled),
        r@[21]@ == format_bool_spec(p.auction_mode),
        r@[22]@ == p.product_type@,
        r@[23]@ == p.quote_currency_id@,
        r@[24]@ == p.base_currency_id@,
        r@[25]@ == fcm_cell@,
        r@[26]@ == p.mid_market_price@,
        r@[27]@ == p.alias@,
        r@[28]@ == alias_to_cell@,
        r@[29]@ == p.base_display_symbol@,
        r@[30]@ == p.quote_display_symbol@,
        r@[31]@ == format_bool_spec(p.view_only),
        r@[32]@ == p.price_increment@,
        r@[33]@ == p.display_name@,
        r@[34]@ == p.product_venue@,
        r@[35]@ == p.approximate_quote_24h_volume@,
{
    let mut r: Vec<String> = Vec::new();
    r.push(p.product_id.clone());
    r.push(p.price.clone());
    r.push(p.price_percentage_change_24h.clone());
    r.push(p.volume_24h.clone());
    r.push(p.volume_percentage_change_24h.clone());
    r.push(p.base_increment.clone());
    r.push(p.quote_increment.clone());
    r.push(p.quote_min_size.clone());
    r.push(p.quote_max_size.clone());
    r.push(p.base_min_size.clone());
    r.push(p.base_max_size.clone());
    r.push(p.base_name.clone());
    r.push(p.quote_name.clone());
    r.push(format_bool(p.watched));
    r.push(format_bool(p.is_disabled));
    r.push(format_bool(p.new));
    r.push(p.status.clone());
    r.push(format_bool(p.cancel_only));
    r.push(format_bool(p.limit_only));
    r.push(format_bool(p.post_only));
    r.push(format_bool(p.trading_disabled));
    r.push(format_bool(p.auction_mode));
    r.push(p.product_type.clone());
    r.push(p.quote_currency_id.clone());
    r.push(p.base_currency_id.clone());
    r.push(fcm_cell);
    r.push(p.mid_market_price.clone());
    r.push(p.alias.clone());
    r.push(alias_to_cell);
    r.push(p.base_display_symbol.clone());
    r.push(p.quote_display_symbol.clone());
    r.push(format_bool(p.view_only));
    r.push(p.price_increment.clone());
    r.push(p.display_name.clone());
    r.push(p.product_venue.clone());
    r.push(p.approximate_quote_24h_volume.clone());
    r
}

} // verus!
