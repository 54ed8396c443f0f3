use buffett::{build_report, recommend, stats, Quote, QuoteHistory, Report, ReportError};

fn quote(high: u64, low: u64, close: u64) -> Quote {
    Quote { timestamp: 0, open: 0, high, low, volume: 0, close, adjclose: 0 }
}

#[test]
fn recommend_returns_correct_recommendation_for_given_position() {
    assert_eq!(recommend(4500), "Buy");
    assert_eq!(recommend(5500), "Don't buy");
}

#[test]
fn stats_returns_correct_stats_for_quote_series() {
    let input = vec![
        Quote {
            timestamp: 0,
            open: 0,
            high: 1000,
            low: 200,
            volume: 0,
            close: 0,
            adjclose: 0,
        },
        Quote {
            timestamp: 0,
            open: 0,
            high: 500,
            low: 100,
            volume: 0,
            close: 400,
            adjclose: 0,
        },
    ];
    let s = stats(&input);
    assert_eq!(s.current, 400, "wrong current");
    assert_eq!(s.high, 1000, "wrong high");
    assert_eq!(s.low, 100, "wrong low");
}

#[test]
fn report_impls_display_correctly() {
    let report = Report {
        symbol: "AAPL".into(),
        history: QuoteHistory { high: 400, low: 100, current: 200 },
        position: 2500,
        recommendation: "Buy".into(),
    };
    assert_eq!(
        report.render(),
        "AAPL: Current 2.00 Low 1.00 High 4.00 Position 25.00% - Buy"
    );
}

#[test]
fn recommend_at_the_threshold_says_dont_buy() {
    assert_eq!(recommend(5000), "Don't buy");
}

#[test]
fn recommend_at_the_edges_of_each_bucket() {
    assert_eq!(recommend(0), "Buy");
    assert_eq!(recommend(4999), "Buy");
    assert_eq!(recommend(9999), "Don't buy");
}

#[test]
fn stats_of_an_empty_series_yields_the_sentinels() {
    let s = stats(&Vec::new());
    assert_eq!(s.high, 0);
    assert_eq!(s.low, u64::MAX);
    assert_eq!(s.current, 0);
    let d = QuoteHistory::default();
    assert_eq!(d.high, 0);
    assert_eq!(d.low, u64::MAX);
    assert_eq!(d.current, 0);
}

#[test]
fn build_report_assembles_the_full_record() {
    let input = vec![quote(1000, 200, 0), quote(500, 100, 400)];
    let report = build_report("ACME", &input).expect("reportable series");
    assert_eq!(report.symbol, "ACME");
    assert_eq!(report.history.high, 1000);
    assert_eq!(report.history.low, 100);
    assert_eq!(report.history.current, 400);
    // (400 - 100) * 10000 / (1000 - 100), rounded down
    assert_eq!(report.position, 3333);
    assert_eq!(report.recommendation, "Buy");
    assert_eq!(
        report.render(),
        "ACME: Current 4.00 Low 1.00 High 10.00 Position 33.33% - Buy"
    );
}

#[test]
fn build_report_in_the_upper_half_says_dont_buy() {
    let input = vec![quote(1000, 0, 900)];
    let report = build_report("ACME", &input).expect("reportable series");
    assert_eq!(report.position, 9000);
    assert_eq!(report.recommendation, "Don't buy");
}

#[test]
fn build_report_refuses_an_empty_series() {
    let r = build_report("ACME", &Vec::new());
    assert_eq!(r.unwrap_err(), ReportError::NoData);
}

#[test]
fn build_report_refuses_a_flat_series() {
    let input = vec![quote(300, 300, 300)];
    let r = build_report("ACME", &input);
    assert_eq!(r.unwrap_err(), ReportError::FlatRange);
}

#[test]
fn build_report_refuses_a_current_price_outside_the_range() {
    // last close below the period low
    let below = vec![quote(1000, 500, 100)];
    assert_eq!(build_report("ACME", &below).unwrap_err(), ReportError::PositionOutOfRange);
    // last close above the period high
    let above = vec![quote(1000, 500, 2000)];
    assert_eq!(build_report("ACME", &above).unwrap_err(), ReportError::PositionOutOfRange);
    // last close exactly the period high: position would be 100 %
    let at_high = vec![quote(1000, 500, 1000)];
    assert_eq!(build_report("ACME", &at_high).unwrap_err(), ReportError::PositionOutOfRange);
}

#[test]
fn error_messages_describe_each_failure() {
    assert_eq!(ReportError::NoData.message(), "no quote data for the requested period");
    assert_eq!(
        ReportError::FlatRange.message(),
        "insufficient price variation in the period"
    );
    assert_eq!(
        ReportError::PositionOutOfRange.message(),
        "current price outside the period's price range"
    );
}

#[test]
fn rendering_pads_the_two_decimal_places() {
    let report = Report {
        symbol: "X".into(),
        history: QuoteHistory { high: 123456, low: 5, current: 100000 },
        position: 8100,
        recommendation: "Don't buy".into(),
    };
    assert_eq!(
        report.render(),
        "X: Current 1000.00 Low 0.05 High 1234.56 Position 81.00% - Don't buy"
    );
}
