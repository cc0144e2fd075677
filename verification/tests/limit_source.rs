use risk::{
    parse_limit_table, InstrumentId, LimitSource, LimitTable, Notional, ParseLimitTableErrorKind,
    Qty, StaticLimitSource,
};

#[test]
fn parses_limit_table_text() {
    let limits = parse_limit_table(
        "
            # v1 static limits
            aggregate_notional,10000
            per_order_notional,1,1000
            max_abs_position,1,50
            fat_finger_band_bps,1,250
            ",
    )
    .unwrap();

    assert_eq!(
        limits.aggregate_notional_limit(),
        Some(Notional::new(10_000))
    );
    assert_eq!(
        limits.per_order_notional(InstrumentId(1)),
        Some(Notional::new(1_000))
    );
    assert_eq!(limits.max_abs_position(InstrumentId(1)), Some(Qty::new(50)));
    assert_eq!(limits.fat_finger_band_bps(InstrumentId(1)), Some(250));
}

#[test]
fn rejects_invalid_record() {
    let error = parse_limit_table("unknown,1,2").unwrap_err();

    assert_eq!(error.line(), 1);
    assert_eq!(
        error.kind(),
        &ParseLimitTableErrorKind::InvalidRecord("unknown".to_owned())
    );
}

#[test]
fn reports_first_bad_line_and_field() {
    let error = parse_limit_table("aggregate_notional,5\r\n\n per_order_notional , 1 , x1 \nbogus").unwrap_err();
    assert_eq!(error.line(), 3);
    assert_eq!(error.kind(), &ParseLimitTableErrorKind::InvalidInteger("x1".to_owned()));
    assert_eq!(
        error.message(),
        "failed to parse limit table on line 3: invalid integer `x1`"
    );

    let error = parse_limit_table("per_order_notional,-1,5").unwrap_err();
    assert_eq!(error.kind(), &ParseLimitTableErrorKind::InvalidInteger("-1".to_owned()));

    let error = parse_limit_table("aggregate_notional,1,2").unwrap_err();
    assert_eq!(
        error.kind(),
        &ParseLimitTableErrorKind::InvalidRecord("aggregate_notional".to_owned())
    );

    let error = parse_limit_table("fat_finger_band_bps,1,4294967296").unwrap_err();
    assert_eq!(
        error.kind(),
        &ParseLimitTableErrorKind::InvalidInteger("4294967296".to_owned())
    );
    assert_eq!(error.kind().message(), "invalid integer `4294967296`");
}

#[test]
fn integer_fields_follow_str_parse() {
    let limits = parse_limit_table(
        "aggregate_notional,-9223372036854775808\nper_order_notional,+4294967295,+7\nmax_abs_position,0,9223372036854775807\n#done\n\n",
    )
    .unwrap();
    assert_eq!(limits.aggregate_notional_limit(), Some(Notional::new(i64::MIN)));
    assert_eq!(limits.per_order_notional(InstrumentId(u32::MAX)), Some(Notional::new(7)));
    assert_eq!(limits.max_abs_position(InstrumentId(0)), Some(Qty::new(i64::MAX)));

    let too_big = parse_limit_table("aggregate_notional,9223372036854775808").unwrap_err();
    assert_eq!(
        too_big.kind(),
        &ParseLimitTableErrorKind::InvalidInteger("9223372036854775808".to_owned())
    );
    let lone_sign = parse_limit_table("aggregate_notional,-").unwrap_err();
    assert_eq!(lone_sign.kind(), &ParseLimitTableErrorKind::InvalidInteger("-".to_owned()));
    let empty = parse_limit_table("aggregate_notional,").unwrap_err();
    assert_eq!(empty.kind(), &ParseLimitTableErrorKind::InvalidInteger("".to_owned()));
}

#[test]
fn later_records_replace_earlier_ones_and_empty_text_is_empty_table() {
    let limits = parse_limit_table("per_order_notional,2,10\nper_order_notional,2,20").unwrap();
    assert_eq!(limits.per_order_notional(InstrumentId(2)), Some(Notional::new(20)));
    let empty = parse_limit_table("").unwrap();
    assert_eq!(empty.summary().per_order_notional_limits, 0);
    assert_eq!(empty.aggregate_notional_limit(), None);
}

#[test]
fn static_source_returns_its_table() {
    let mut limits = LimitTable::new();
    limits.set_per_order_notional(InstrumentId(1), Notional::new(5));
    let source = StaticLimitSource::new(limits);
    let polled = source.poll_updates().unwrap();
    assert_eq!(polled.per_order_notional(InstrumentId(1)), Some(Notional::new(5)));
}
