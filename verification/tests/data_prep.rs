use market_poller::candles::{granularity_to_seconds, plan_candles, CandlePlan};
use market_poller::models::{
    Candle, MarketTrade, Product, ProductBook, ProductBookEntry, ProductBookPriceBook,
};
use market_poller::render::{
    book_depth, candle_row, complete_row, format_bool, specific_product_row, synthetic_row,
    trade_row,
};
use market_poller::trades::{sort_trades_by_time, top_trades_for_display};
use market_poller::urls::{
    candles_url, i64_to_dec, market_trades_url, product_book_url, products_url, server_time_url,
    specific_product_url, u64_to_dec,
};

fn trade(id: &str, time: &str) -> MarketTrade {
    MarketTrade {
        trade_id: id.to_string(),
        product_id: "BTC-USD".to_string(),
        price: "50000.00".to_string(),
        size: "0.01".to_string(),
        time: time.to_string(),
        side: "BUY".to_string(),
        bid: None,
        ask: None,
    }
}

fn product(id: &str) -> Product {
    Product {
        product_id: id.to_string(),
        price: "100".to_string(),
        price_percentage_change_24h: "1.5".to_string(),
        volume_24h: "1000".to_string(),
        volume_percentage_change_24h: "2.5".to_string(),
        base_increment: "0.001".to_string(),
        quote_increment: "0.01".to_string(),
        quote_min_size: "1".to_string(),
        quote_max_size: "1000000".to_string(),
        base_min_size: "0.0001".to_string(),
        base_max_size: "100".to_string(),
        base_name: "Bitcoin".to_string(),
        quote_name: "US Dollar".to_string(),
        watched: true,
        is_disabled: false,
        new: false,
        status: "online".to_string(),
        cancel_only: false,
        limit_only: false,
        post_only: false,
        trading_disabled: false,
        auction_mode: false,
        product_type: "SPOT".to_string(),
        quote_currency_id: "USD".to_string(),
        base_currency_id: "BTC".to_string(),
        fcm_trading_session_details: None,
        mid_market_price: "99.5".to_string(),
        alias: "".to_string(),
        alias_to: vec![],
        base_display_symbol: "BTC".to_string(),
        quote_display_symbol: "USD".to_string(),
        view_only: false,
        price_increment: "0.01".to_string(),
        display_name: "BTC-USD".to_string(),
        product_venue: "CBE".to_string(),
        approximate_quote_24h_volume: "123".to_string(),
    }
}

#[test]
fn granularity_table_matches_endpoint() {
    assert_eq!(granularity_to_seconds("ONE_MINUTE"), 60);
    assert_eq!(granularity_to_seconds("FIVE_MINUTE"), 300);
    assert_eq!(granularity_to_seconds("FIFTEEN_MINUTE"), 900);
    assert_eq!(granularity_to_seconds("THIRTY_MINUTE"), 1800);
    assert_eq!(granularity_to_seconds("ONE_HOUR"), 3600);
    assert_eq!(granularity_to_seconds("TWO_HOUR"), 7200);
    assert_eq!(granularity_to_seconds("SIX_HOUR"), 21600);
    assert_eq!(granularity_to_seconds("ONE_DAY"), 86400);
    assert_eq!(granularity_to_seconds("TEN_SECONDS"), 0);
    assert_eq!(granularity_to_seconds(""), 0);
}

#[test]
fn candle_plan_counts_against_the_limit() {
    // One day at one-minute granularity is 1440 candles: over the limit.
    let p = plan_candles("2022-01-01T00:00:00Z", "2022-01-02T00:00:00Z", "ONE_MINUTE");
    assert_eq!(p, CandlePlan::TooManyCandles);
    // One day at one-day granularity is a single candle.
    let p = plan_candles("2022-01-01T00:00:00Z", "2022-01-02T00:00:00Z", "ONE_DAY");
    assert_eq!(p, CandlePlan::Fetch);
    // Exactly 300 one-minute candles pass; 301 do not.
    let p = plan_candles("2022-01-01T00:00:00Z", "2022-01-01T05:00:00Z", "ONE_MINUTE");
    assert_eq!(p, CandlePlan::Fetch);
    let p = plan_candles("2022-01-01T00:00:00Z", "2022-01-01T05:01:00Z", "ONE_MINUTE");
    assert_eq!(p, CandlePlan::TooManyCandles);
    // A reversed range spans no candles at all.
    let p = plan_candles("2022-01-02T00:00:00Z", "2022-01-01T00:00:00Z", "ONE_MINUTE");
    assert_eq!(p, CandlePlan::Fetch);
}

#[test]
fn candle_plan_rejects_bad_times() {
    let p = plan_candles("yesterday", "2022-01-02T00:00:00Z", "ONE_MINUTE");
    assert_eq!(p, CandlePlan::BadStart);
    let p = plan_candles("2022-01-01T00:00:00Z", "tomorrow", "ONE_MINUTE");
    assert_eq!(p, CandlePlan::BadEnd);
    // The offset form of RFC 3339 parses too.
    let p = plan_candles("2022-01-01T00:00:00+02:00", "2022-01-01T00:30:00+02:00", "ONE_MINUTE");
    assert_eq!(p, CandlePlan::Fetch);
}

#[test]
fn trades_sort_by_time_stamp() {
    let trades = vec![
        trade("c", "2024-05-01T12:00:03Z"),
        trade("a", "2024-05-01T12:00:01Z"),
        trade("b", "2024-05-01T12:00:02Z"),
    ];
    let sorted = sort_trades_by_time(trades);
    let ids: Vec<&str> = sorted.iter().map(|t| t.trade_id.as_str()).collect();
    assert_eq!(ids, vec!["a", "b", "c"]);
}

#[test]
fn trades_with_equal_times_all_survive_the_sort() {
    let trades = vec![
        trade("x", "2024-05-01T12:00:01Z"),
        trade("y", "2024-05-01T12:00:01Z"),
        trade("z", "2024-05-01T12:00:00Z"),
    ];
    let sorted = sort_trades_by_time(trades);
    assert_eq!(sorted.len(), 3);
    assert_eq!(sorted[0].trade_id, "z");
    let mut tail: Vec<&str> = sorted[1..].iter().map(|t| t.trade_id.as_str()).collect();
    tail.sort();
    assert_eq!(tail, vec!["x", "y"]);
}

#[test]
fn sorting_no_trades_is_fine() {
    let sorted = sort_trades_by_time(Vec::new());
    assert_eq!(sorted.len(), 0);
}

#[test]
fn display_keeps_the_thirty_earliest_trades() {
    let mut trades = Vec::new();
    for i in 0..40 {
        // later times first, so the display has to reorder
        let time = format!("2024-05-01T12:00:{:02}Z", 59 - i);
        trades.push(trade(&format!("t{}", i), &time));
    }
    let shown = top_trades_for_display(trades);
    assert_eq!(shown.len(), 30);
    for w in shown.windows(2) {
        assert!(w[0].time <= w[1].time);
    }
    // the ten latest did not make the cut
    assert!(shown.iter().all(|t| t.time < "2024-05-01T12:00:50Z".to_string()));

    let few = top_trades_for_display(vec![trade("a", "2024-05-01T12:00:00Z")]);
    assert_eq!(few.len(), 1);
}

#[test]
fn booleans_format_as_yes_and_no() {
    assert_eq!(format_bool(true), "Yes");
    assert_eq!(format_bool(false), "No");
}

#[test]
fn book_depth_is_bounded_by_both_sides_and_thirty() {
    let entry = |p: &str| ProductBookEntry { price: p.to_string(), size: "1".to_string() };
    let book = |bids: usize, asks: usize| ProductBook {
        pricebook: ProductBookPriceBook {
            product_id: "BTC-USD".to_string(),
            bids: (0..bids).map(|_| entry("1")).collect(),
            asks: (0..asks).map(|_| entry("2")).collect(),
            time: "2024-05-01T12:00:00Z".to_string(),
        },
    };
    assert_eq!(book_depth(&book(5, 9)), 5);
    assert_eq!(book_depth(&book(9, 5)), 5);
    assert_eq!(book_depth(&book(50, 40)), 30);
    assert_eq!(book_depth(&book(0, 10)), 0);
}

#[test]
fn row_cells_take_the_documented_columns() {
    let p = product("BTC-USD");
    let syn = synthetic_row(&p);
    assert_eq!(
        syn,
        vec!["BTC-USD", "100", "1.5", "1000", "Bitcoin", "US Dollar", "online"]
    );
    let spec_row = specific_product_row(&p);
    assert_eq!(spec_row.len(), 8);
    assert_eq!(spec_row[4], "2.5");
    assert_eq!(spec_row[5], "online");

    let c = Candle {
        start: "1640995200".to_string(),
        low: "1".to_string(),
        high: "4".to_string(),
        open: "2".to_string(),
        close: "3".to_string(),
        volume: "99".to_string(),
    };
    assert_eq!(candle_row(&c), vec!["1640995200", "1", "4", "2", "3", "99"]);

    let t = trade("id1", "2024-05-01T12:00:00Z");
    assert_eq!(
        trade_row(&t),
        vec!["id1", "BTC-USD", "50000.00", "0.01", "2024-05-01T12:00:00Z", "BUY"]
    );

    let full = complete_row(&p, "None".to_string(), "[]".to_string());
    assert_eq!(full.len(), 36);
    assert_eq!(full[0], "BTC-USD");
    assert_eq!(full[13], "Yes");
    assert_eq!(full[14], "No");
    assert_eq!(full[25], "None");
    assert_eq!(full[28], "[]");
    assert_eq!(full[35], "123");
}

#[test]
fn decimal_rendering_matches_the_numbers() {
    assert_eq!(u64_to_dec(0), "0");
    assert_eq!(u64_to_dec(7), "7");
    assert_eq!(u64_to_dec(10), "10");
    assert_eq!(u64_to_dec(1640995200), "1640995200");
    assert_eq!(u64_to_dec(u64::MAX), u64::MAX.to_string());
    assert_eq!(i64_to_dec(-1), "-1");
    assert_eq!(i64_to_dec(0), "0");
    assert_eq!(i64_to_dec(i64::MIN), i64::MIN.to_string());
    assert_eq!(i64_to_dec(i64::MAX), i64::MAX.to_string());
}

#[test]
fn endpoint_urls_are_assembled_exactly() {
    let base = "https://api.example.com/api/v3/brokerage";
    assert_eq!(products_url(base), format!("{}/market/products", base));
    assert_eq!(server_time_url(base), format!("{}/time", base));
    assert_eq!(
        product_book_url(base, "BTC-USD"),
        format!("{}/market/product_book?product_id=BTC-USD", base)
    );
    assert_eq!(
        specific_product_url(base, "BTC-USD"),
        format!("{}/market/products/BTC-USD", base)
    );
    assert_eq!(
        market_trades_url(base, "BTC-USD"),
        format!("{}/market/products/BTC-USD/ticker", base)
    );
    assert_eq!(
        candles_url(base, "BTC-USD", 1640995200, -3600, "ONE_MINUTE"),
        format!(
            "{}/market/products/BTC-USD/candles?start=1640995200&end=-3600&granularity=ONE_MINUTE",
            base
        )
    );
}
