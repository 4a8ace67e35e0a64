//! The request descriptors the data sources fetch: one URL per endpoint,
//! assembled from the base URL and the request's parameters. The transport
//! that sends them is an outside collaborator; the URLs themselves are
//! built and verified here, down to the decimal rendering of the
//! timestamps.

use vstd::prelude::*;

verus! {

use vstd::string::StringExecFns;

/// The character of one decimal digit.
pub open spec fn dec_digit(d: int) -> Seq<char>
    recommends
        0 <= d < 10,
{
    if d == 0 {
        "0"@
    } else if d == 1 {
        "1"@
    } else if d == 2 {
        "2"@
    } else if d == 3 {
        "3"@
    } else if d == 4 {
        "4"@
    } else if d == 5 {
        "5"@
    } else if d == 6 {
        "6"@
    } else if d == 7 {
        "7"@
    } else if d == 8 {
        "8"@
    } else {
        "9"@
    }
}

/// The decimal rendering of a nonnegative number, most significant digit
/// first, without leading zeros (a single zero for zero).
pub open spec fn dec_seq(n: int) -> Seq<char>
    recommends
        n >= 0,
    decreases n,
{
    if n < 10 {
        dec_digit(n)
    } else {
        dec_seq(n / 10) + dec_digit(n % 10)
    }
}

/// The decimal rendering of a signed number: a minus sign before the
/// magnitude where it is negative.
pub open spec fn dec_seq_signed(n: int) -> Seq<char> {
    if n < 0 {
        "-"@ + dec_seq(-n)
    } else {
        dec_seq(n)
    }
}

/// The one-character string of one decimal digit.
fn digit_str(d: u64) -> (r: &'static str)
    requires
        d < 10,
    ensures
        r@ == dec_digit(d as int),
{
    if d == 0 {
        "0"
    } else if d == 1 {
        "1"
    } else if d == 2 {
        "2"
    } else if d == 3 {
        "3"
    } else if d == 4 {
        "4"
    } else if d == 5 {
        "5"
    } else if d == 6 {
        "6"
    } else if d == 7 {
        "7"
    } else if d == 8 {
        "8"
    } else {
        "9"
    }
}

/// Render a number in decimal.
pub fn u64_to_dec(n: u64) -> (r: String)
    ensures
        r@ == dec_seq(n as int),
    decreases n,
{
    if n < 10 {
        digit_str(n).to_owned()
    } else {
        let mut s = u64_to_dec(n / 10);
        s.append(digit_str(n % 10));
        s
    }
}

/// Render a signed number in decimal.
pub fn i64_to_dec(n: i64) -> (r: String)
    ensures
        r@ == dec_seq_signed(n as int),
{
    if n >= 0 {
        u64_to_dec(n as u64)
    } else {
        let mag: u64 = ((-(n + 1)) as u64) + 1;
        assert(mag as int == -(n as int));
        let mut s = "-".to_owned();
        s.append(u64_to_dec(mag).as_str());
        s
    }
}

/// The products-listing endpoint.
pub fn products_url(base: &str) -> (r: String)
    ensures
        r@ == base@ + "/market/products"@,
{
    let mut s = base.to_owned();
    s.append("/market/products");
    s
}

/// The server-time endpoint.
pub fn server_time_url(base: &str) -> (r: String)
    ensures
        r@ == base@ + "/time"@,
{
    let mut s = base.to_owned();
    s.append("/time");
    s
}

/// The order-book endpoint for one product.
pub fn product_book_url(base: &str, product_id: &str) -> (r: String)
    ensures
        r@ == base@ + "/market/product_book?product_id="@ + product_id@,
{
    let mut s = base.to_owned();
    s.append("/market/product_book?product_id=");
    s.append(product_id);
    s
}

/// The detail endpoint for one product.
pub fn specific_product_url(base: &str, product_id: &str) -> (r: String)
    ensures
        r@ == base@ + "/market/products/"@ + product_id@,
{
    let mut s = base.to_owned();
    s.append("/market/products/");
    s.append(product_id);
    s
}

/// The ticker endpoint listing one product's market trades.
pub fn market_trades_url(base: &str, product_id: &str) -> (r: String)
    ensures
        r@ == base@ + "/market/products/"@ + product_id@ + "/ticker"@,
{
    let mut s = specific_product_url(base, product_id);
    s.append("/ticker");
    s
}

/// The candles endpoint for one product, range and granularity; the range
/// bounds go on the wire as epoch seconds.
pub fn candles_url(
    base: &str,
    product_id: &str,
    start_ts: i64,
    end_ts: i64,
    granularity: &str,
) -> (r: String)
    ensures
        r@ == base@ + "/market/products/"@ + product_id@ + "/candles?start="@ + dec_seq_signed(
            start_ts as int,
        ) + "&end="@ + dec_seq_signed(end_ts as int) + "&granularity="@ + granularity@,
{
    let mut s = specific_product_url(base, product_id);
    s.append("/candles?start=");
    s.append(i64_to_dec(start_ts).as_str());
    s.append("&end=");
    s.append(i64_to_dec(end_ts).as_str());
    s.append("&granularity=");
    s.append(granularity);
    s
}

} // verus!
