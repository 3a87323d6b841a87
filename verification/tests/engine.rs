use stockinfo::date::{
    check_date, format_date, parse_date, parse_date_compact, parse_date_flexible,
    parse_krx_datetime, Date,
};
use stockinfo::error::Error;
use stockinfo::statement::{extract_statement, resolve_line};
use stockinfo::tree::{parse_document, XmlDocument};
use stockinfo::xbrl::{Group, Period};

fn doc_of(xml: &str) -> XmlDocument {
    parse_document(xml).unwrap()
}

// ---------------------------------------------------------------------------
// Hexadecimal round trips.
// ---------------------------------------------------------------------------
#[test]
fn encode_ok() {
    let bytes = [0x1e; 4];
    let expected = "1e1e1e1e";

    let hex_str = stockinfo::hex::encode(&bytes).unwrap();

    assert_eq!(&*hex_str, expected);
}

#[test]
fn encode_fail() {
    let bytes = [0x11; 4];
    let wrong = "1e1e1e1e";

    let hex_str = stockinfo::hex::encode(&bytes).unwrap();

    assert_ne!(&*hex_str, wrong);
}

#[test]
fn decode_ok() {
    let hex_str = "1e1e1e1e";
    let expected = [0x1e; 4];

    let bytes = stockinfo::hex::decode(hex_str).unwrap();

    assert_eq!(*bytes, expected);
}

#[test]
fn decode_fail() {
    let hex_str = "1e1e1e1e";
    let wrong = [0x11; 4];

    let bytes = stockinfo::hex::decode(hex_str).unwrap();

    assert_ne!(*bytes, wrong);
}

#[test]
fn decode_rejects_non_hex() {
    assert!(matches!(stockinfo::hex::decode("zz"), Err(Error::InvalidHex)));
    assert!(stockinfo::hex::decode("0aFF").is_ok());
}

// ---------------------------------------------------------------------------
// Dates.
// ---------------------------------------------------------------------------
#[test]
fn parse_date_reads_iso_shape() {
    assert_eq!(
        parse_date("2023-12-31"),
        Some(Date { year: 2023, month: 12, day: 31 })
    );
    assert_eq!(parse_date("2024-02-29"), Some(Date { year: 2024, month: 2, day: 29 }));
    assert_eq!(parse_date("2023-02-29"), None);
    assert_eq!(parse_date("2023-13-01"), None);
    assert_eq!(parse_date("2023-00-10"), None);
    assert_eq!(parse_date("20231231"), None);
    assert_eq!(parse_date("2023-1-01"), None);
}

#[test]
fn parse_date_compact_reads_eight_digits() {
    assert_eq!(
        parse_date_compact("20231231"),
        Some(Date { year: 2023, month: 12, day: 31 })
    );
    assert_eq!(parse_date_compact("20230229"), None);
    assert_eq!(parse_date_compact("2023-12-31"), None);
}

#[test]
fn parse_date_flexible_accepts_both_shapes() {
    let d = Some(Date { year: 2023, month: 12, day: 31 });
    assert_eq!(parse_date_flexible("20231231"), d);
    assert_eq!(parse_date_flexible("2023-12-31"), d);
    assert_eq!(parse_date_flexible("31.12.2023"), None);
}

#[test]
fn format_date_pads_every_component() {
    assert_eq!(format_date(&Date { year: 207, month: 4, day: 9 }), "0207-04-09");
    assert_eq!(format_date(&Date { year: 2024, month: 12, day: 31 }), "2024-12-31");
}

#[test]
fn check_date_follows_the_calendar() {
    assert!(check_date(&Date { year: 2024, month: 2, day: 29 }));
    assert!(!check_date(&Date { year: 2023, month: 2, day: 29 }));
    assert!(!check_date(&Date { year: 2023, month: 0, day: 1 }));
}

#[test]
fn krx_datetime_applies_the_twelve_hour_clock() {
    let t = parse_krx_datetime("2024.01.01 AM 12:00:00").unwrap();
    assert_eq!(t.hour, 0);
    let t = parse_krx_datetime("2024.01.01 AM 01:00:00").unwrap();
    assert_eq!(t.hour, 1);
    let t = parse_krx_datetime("2024.01.01 PM 12:00:00").unwrap();
    assert_eq!(t.hour, 12);
    let t = parse_krx_datetime("2024.01.01 PM 01:00:00").unwrap();
    assert_eq!(t.hour, 13);
    assert_eq!(t.date, Date { year: 2024, month: 1, day: 1 });
    assert_eq!(parse_krx_datetime("2024.01.01 XM 01:00:00"), None);
    assert_eq!(parse_krx_datetime("2024.01.01 PM 13:00:00"), None);
}

// ---------------------------------------------------------------------------
// Tickers and filings metadata.
// ---------------------------------------------------------------------------
#[test]
fn format_cik_zero_pads_to_ten() {
    assert_eq!(stockinfo::ticker::format_cik(320193), "0000320193");
    assert_eq!(stockinfo::ticker::format_cik(0), "0000000000");
    assert_eq!(stockinfo::ticker::format_cik(1234567890), "1234567890");
}

#[test]
fn latest_annual_index_picks_first_annual_report() {
    let forms = vec![
        String::from("10-Q"),
        String::from("8-K"),
        String::from("10-K"),
        String::from("10-K"),
    ];
    assert_eq!(stockinfo::edgar::latest_annual_index(&forms), 2);
    let no_annual = vec![String::from("10-Q"), String::from("8-K")];
    assert_eq!(stockinfo::edgar::latest_annual_index(&no_annual), 0);
}

// ---------------------------------------------------------------------------
// Period classification.
// ---------------------------------------------------------------------------
#[test]
fn instant_context_classifies_as_instant() {
    let doc = doc_of(
        "<xbrl>\
         <context id=\"C1\"><entity/><period><instant>2023-12-31</instant></period></context>\
         <Assets contextRef=\"C1\">100</Assets>\
         </xbrl>",
    );
    let g = Group::extract(&doc, "Assets").unwrap();
    assert_eq!(g.facts.len(), 1);
    assert_eq!(
        g.facts[0].context.period,
        Period::Instant { date: Date { year: 2023, month: 12, day: 31 } }
    );
}

#[test]
fn duration_context_classifies_as_duration() {
    let doc = doc_of(
        "<xbrl>\
         <context id=\"C1\"><entity/><period>\
         <startDate>2023-01-01</startDate><endDate>2023-12-31</endDate>\
         </period></context>\
         <Revenues contextRef=\"C1\">100</Revenues>\
         </xbrl>",
    );
    let g = Group::extract(&doc, "Revenues").unwrap();
    assert_eq!(g.facts.len(), 1);
    assert_eq!(
        g.facts[0].context.period,
        Period::Duration {
            start_date: Date { year: 2023, month: 1, day: 1 },
            end_date: Date { year: 2023, month: 12, day: 31 },
        }
    );
}

#[test]
fn period_with_both_kinds_is_malformed() {
    let doc = doc_of(
        "<xbrl>\
         <context id=\"C1\"><entity/><period>\
         <instant>2023-12-31</instant>\
         <startDate>2023-01-01</startDate><endDate>2023-12-31</endDate>\
         </period></context>\
         <Assets contextRef=\"C1\">100</Assets>\
         </xbrl>",
    );
    match Group::extract(&doc, "Assets") {
        Err(Error::Structure { concept, context_id }) => {
            assert_eq!(concept, "Assets");
            assert_eq!(context_id, "C1");
        },
        other => panic!("expected a structure error, got {:?}", other),
    }
}

// ---------------------------------------------------------------------------
// Fact group selection and the join.
// ---------------------------------------------------------------------------
#[test]
fn text_block_is_never_selected() {
    let doc = doc_of(
        "<xbrl>\
         <context id=\"C1\"><entity/><period><instant>2024-01-01</instant></period></context>\
         <Assets contextRef=\"C1\">1000</Assets>\
         <AssetsTextBlock contextRef=\"C1\">narrative</AssetsTextBlock>\
         </xbrl>",
    );
    let g = Group::extract(&doc, "Assets").unwrap();
    assert_eq!(g.facts.len(), 1);
    assert_eq!(g.facts[0].text.as_deref(), Some("1000"));
}

#[test]
fn prefix_matching_selects_longer_tags() {
    let doc = doc_of(
        "<xbrl>\
         <context id=\"C1\"><entity/><period><instant>2024-01-01</instant></period></context>\
         <AssetsCurrent contextRef=\"C1\">70</AssetsCurrent>\
         <Liabilities contextRef=\"C1\">30</Liabilities>\
         </xbrl>",
    );
    let g = Group::extract(&doc, "Assets").unwrap();
    assert_eq!(g.facts.len(), 1);
    assert_eq!(g.facts[0].text.as_deref(), Some("70"));
}

#[test]
fn missing_reference_is_skipped_not_fatal() {
    let doc = doc_of(
        "<xbrl>\
         <context id=\"C1\"><entity/><period><instant>2024-01-01</instant></period></context>\
         <Assets>999</Assets>\
         <Assets contextRef=\"C9\">999</Assets>\
         <Assets contextRef=\"C1\">1000</Assets>\
         </xbrl>",
    );
    let g = Group::extract(&doc, "Assets").unwrap();
    assert_eq!(g.facts.len(), 1);
    assert_eq!(g.skipped, 2);
    assert_eq!(g.facts[0].text.as_deref(), Some("1000"));
}

#[test]
fn malformed_context_aborts_only_when_referenced() {
    // The malformed context (no period) is never referenced by the group,
    // so resolution stays bounded to the candidate ids and succeeds.
    let doc = doc_of(
        "<xbrl>\
         <context id=\"BAD\"><entity/></context>\
         <context id=\"C1\"><entity/><period><instant>2024-01-01</instant></period></context>\
         <Assets contextRef=\"C1\">1000</Assets>\
         </xbrl>",
    );
    let g = Group::extract(&doc, "Assets").unwrap();
    assert_eq!(g.facts.len(), 1);

    let doc = doc_of(
        "<xbrl>\
         <context id=\"BAD\"><entity/></context>\
         <Assets contextRef=\"BAD\">1000</Assets>\
         </xbrl>",
    );
    match Group::extract(&doc, "Assets") {
        Err(Error::Structure { concept, context_id }) => {
            assert_eq!(concept, "Assets");
            assert_eq!(context_id, "BAD");
        },
        other => panic!("expected a structure error, got {:?}", other),
    }
}

// ---------------------------------------------------------------------------
// Projections and deduplication.
// ---------------------------------------------------------------------------
#[test]
fn duplicate_context_yields_one_entry_first_wins() {
    let doc = doc_of(
        "<xbrl>\
         <context id=\"C1\"><entity/><period><instant>2024-01-01</instant></period></context>\
         <Assets contextRef=\"C1\" decimals=\"0\">1000</Assets>\
         <Assets contextRef=\"C1\" decimals=\"-3\">2000</Assets>\
         </xbrl>",
    );
    let g = Group::extract(&doc, "Assets").unwrap();
    assert_eq!(g.facts.len(), 2);
    let items = g.to_vec_date_and_value();
    assert_eq!(items.len(), 1);
    assert_eq!(items[0].1, "1000");
}

#[test]
fn segment_fact_is_excluded_from_plain_projection() {
    let doc = doc_of(
        "<xbrl>\
         <context id=\"C1\"><entity><segment>\
         <explicitMember dimension=\"us-gaap:StatementClassOfStockAxis\">us-gaap:CommonClassAMember</explicitMember>\
         </segment></entity><period><instant>2024-01-01</instant></period></context>\
         <Assets contextRef=\"C1\">1000</Assets>\
         </xbrl>",
    );
    let g = Group::extract(&doc, "Assets").unwrap();
    assert_eq!(g.facts.len(), 1);
    assert_eq!(g.to_vec_date_and_value().len(), 0);
}

#[test]
fn segment_targeted_projection_returns_both_class_facts() {
    let doc = doc_of(
        "<xbrl>\
         <context id=\"C1\"><entity><segment>\
         <explicitMember dimension=\"StatementClassOfStockAxis\">CommonClassAMember</explicitMember>\
         </segment></entity><period><instant>2023-12-31</instant></period></context>\
         <context id=\"C2\"><entity><segment>\
         <explicitMember dimension=\"StatementClassOfStockAxis\">CommonClassAMember</explicitMember>\
         </segment></entity><period><instant>2024-12-31</instant></period></context>\
         <CommonStockSharesOutstanding contextRef=\"C1\">500</CommonStockSharesOutstanding>\
         <CommonStockSharesOutstanding contextRef=\"C2\">600</CommonStockSharesOutstanding>\
         </xbrl>",
    );
    let g = Group::extract(&doc, "CommonStockSharesOutstanding").unwrap();
    assert_eq!(g.to_vec_date_and_value().len(), 0);
    let targeted = g.to_vec_date_and_value_with_segment("CommonClassAMember");
    assert_eq!(targeted.len(), 2);
    assert_eq!(targeted[0].1, "500");
    assert_eq!(targeted[1].1, "600");
}

#[test]
fn duration_projection_requires_duration_periods() {
    let doc = doc_of(
        "<xbrl>\
         <context id=\"C1\"><entity/><period><instant>2024-01-01</instant></period></context>\
         <context id=\"C2\"><entity/><period>\
         <startDate>2024-01-01</startDate><endDate>2024-03-31</endDate>\
         </period></context>\
         <Revenues contextRef=\"C1\">1</Revenues>\
         <Revenues contextRef=\"C2\">500</Revenues>\
         </xbrl>",
    );
    let g = Group::extract(&doc, "Revenues").unwrap();
    let items = g.to_vec_range_and_value();
    assert_eq!(items.len(), 1);
    assert_eq!(items[0].1, "500");
}

// ---------------------------------------------------------------------------
// End-to-end line resolution.
// ---------------------------------------------------------------------------
#[test]
fn end_to_end_instant_line() {
    let plain =
        "<xbrl>\
         <context id=\"C1\"><entity/><period><instant>2024-01-01</instant></period></context>\
         <Assets contextRef=\"C1\">1000</Assets>\
         </xbrl>";
    let with_block =
        "<xbrl>\
         <context id=\"C1\"><entity/><period><instant>2024-01-01</instant></period></context>\
         <Assets contextRef=\"C1\">1000</Assets>\
         <AssetsTextBlock contextRef=\"C1\">long narrative</AssetsTextBlock>\
         </xbrl>";
    for xml in [plain, with_block] {
        let doc = doc_of(xml);
        let items = resolve_line(&doc, "Assets").unwrap();
        assert_eq!(items.len(), 1);
        assert_eq!(items[0].date, Some(Date { year: 2024, month: 1, day: 1 }));
        assert_eq!(items[0].start_date, None);
        assert_eq!(items[0].end_date, None);
        assert_eq!(items[0].value, "1000");
    }
}

#[test]
fn end_to_end_duration_line() {
    let doc = doc_of(
        "<xbrl>\
         <context id=\"C2\"><entity/><period>\
         <startDate>2024-01-01</startDate><endDate>2024-03-31</endDate>\
         </period></context>\
         <Revenues contextRef=\"C2\">500</Revenues>\
         </xbrl>",
    );
    let items = resolve_line(&doc, "Revenues").unwrap();
    assert_eq!(items.len(), 1);
    assert_eq!(items[0].date, None);
    assert_eq!(items[0].start_date, Some(Date { year: 2024, month: 1, day: 1 }));
    assert_eq!(items[0].end_date, Some(Date { year: 2024, month: 3, day: 31 }));
    assert_eq!(items[0].value, "500");
}

#[test]
fn revenue_falls_back_to_singular_spelling() {
    let doc = doc_of(
        "<xbrl>\
         <context id=\"C2\"><entity/><period>\
         <startDate>2024-01-01</startDate><endDate>2024-03-31</endDate>\
         </period></context>\
         <Revenue contextRef=\"C2\">500</Revenue>\
         </xbrl>",
    );
    let items = resolve_line(&doc, "Revenues").unwrap();
    assert_eq!(items.len(), 1);
    assert_eq!(items[0].value, "500");
}

#[test]
fn shares_fall_back_to_class_a_segment() {
    let doc = doc_of(
        "<xbrl>\
         <context id=\"C1\"><entity><segment>\
         <explicitMember dimension=\"us-gaap:StatementClassOfStockAxis\">us-gaap:CommonClassAMember</explicitMember>\
         </segment></entity><period><instant>2024-06-30</instant></period></context>\
         <CommonStockSharesOutstanding contextRef=\"C1\">700</CommonStockSharesOutstanding>\
         </xbrl>",
    );
    let items = resolve_line(&doc, "CommonStockSharesOutstanding").unwrap();
    assert_eq!(items.len(), 1);
    assert_eq!(items[0].date, Some(Date { year: 2024, month: 6, day: 30 }));
    assert_eq!(items[0].value, "700");
}

#[test]
fn omitted_line_resolves_to_empty_not_error() {
    let doc = doc_of("<xbrl><other>1</other></xbrl>");
    let items = resolve_line(&doc, "Assets").unwrap();
    assert!(items.is_empty());
}

#[test]
fn unknown_line_is_a_configuration_error() {
    let doc = doc_of("<xbrl><other>1</other></xbrl>");
    match resolve_line(&doc, "GrossProfit") {
        Err(Error::Configuration { line }) => assert_eq!(line, "GrossProfit"),
        other => panic!("expected a configuration error, got {:?}", other),
    }
}

#[test]
fn extract_statement_fills_every_line() {
    let doc = doc_of(
        "<xbrl>\
         <context id=\"C1\"><entity/><period><instant>2024-01-01</instant></period></context>\
         <context id=\"C2\"><entity/><period>\
         <startDate>2024-01-01</startDate><endDate>2024-03-31</endDate>\
         </period></context>\
         <Assets contextRef=\"C1\">1000</Assets>\
         <Liabilities contextRef=\"C1\">400</Liabilities>\
         <StockholdersEquity contextRef=\"C1\">600</StockholdersEquity>\
         <Revenues contextRef=\"C2\">500</Revenues>\
         <NetIncomeLoss contextRef=\"C2\">42</NetIncomeLoss>\
         </xbrl>",
    );
    let res = extract_statement(&doc, "0000320193").unwrap();
    assert_eq!(res.cik, "0000320193");
    assert_eq!(res.assets.len(), 1);
    assert_eq!(res.assets[0].value, "1000");
    assert_eq!(res.liabilities[0].value, "400");
    assert_eq!(res.equity[0].value, "600");
    assert_eq!(res.revenue[0].value, "500");
    assert_eq!(res.net_income[0].value, "42");
    assert!(res.operating_income.is_empty());
    assert!(res.outstanding_stock.is_empty());
    assert!(res.operating_cash_flow.is_empty());
}

// ---------------------------------------------------------------------------
// Document import.
// ---------------------------------------------------------------------------
#[test]
fn malformed_xml_is_rejected() {
    assert!(matches!(parse_document("<a><b></a>"), Err(Error::MalformedXml)));
    assert!(matches!(parse_document(""), Err(Error::MalformedXml)));
}

#[test]
fn over_deep_document_is_rejected() {
    let mut xml = String::new();
    for _ in 0..100 {
        xml.push_str("<a>");
    }
    for _ in 0..100 {
        xml.push_str("</a>");
    }
    assert!(matches!(parse_document(&xml), Err(Error::DocumentTooLarge)));
}

// ---------------------------------------------------------------------------
// The corp-code directory.
// ---------------------------------------------------------------------------
#[test]
fn dart_codes_read_every_listed_entry() {
    let doc = doc_of(
        "<result>\
         <list><corp_code>00126380</corp_code><corp_name>ACME</corp_name>\
         <stock_code>005930</stock_code><modify_date>20240102</modify_date></list>\
         <list><corp_code>00164742</corp_code><corp_name>OTHER</corp_name>\
         <stock_code> </stock_code><modify_date>20230506</modify_date></list>\
         </result>",
    );
    let codes = stockinfo::dart::extract_dart_codes(&doc).unwrap();
    assert_eq!(codes.len(), 2);
    assert_eq!(codes[0].corp_code, "00126380");
    assert_eq!(codes[0].corp_name, "ACME");
    assert_eq!(codes[0].stock_code, "005930");
    assert_eq!(codes[0].modify_date, Date { year: 2024, month: 1, day: 2 });
    assert_eq!(codes[1].modify_date, Date { year: 2023, month: 5, day: 6 });
}

#[test]
fn dart_codes_reject_unreadable_dates() {
    let doc = doc_of(
        "<result>\
         <list><corp_code>00126380</corp_code><corp_name>ACME</corp_name>\
         <stock_code>005930</stock_code><modify_date>2024-01-02</modify_date></list>\
         </result>",
    );
    match stockinfo::dart::extract_dart_codes(&doc) {
        Err(Error::InvalidDate { text }) => assert_eq!(text, "2024-01-02"),
        other => panic!("expected an invalid date error, got {:?}", other),
    }
}

// ---------------------------------------------------------------------------
// Quote row conversion.
// ---------------------------------------------------------------------------
#[test]
fn krx_price_carries_every_column_over() {
    let web = stockinfo::krx_web::Price {
        sect_tp_nm: String::from("1"),
        isu_srt_cd: String::from("005930"),
        isu_cd: String::from("KR7005930003"),
        isu_abbrv: String::from("abbrv"),
        tdd_opnprc: String::from("71,000"),
        tdd_hgprc: String::from("72,000"),
        tdd_lwprc: String::from("70,000"),
        tdd_clsprc: String::from("71,500"),
        cmpprevdd_prc: String::from("500"),
        fluc_rt: String::from("0.70"),
        fluc_tp_cd: String::from("1"),
        acc_trdvol: String::from("10,000"),
        acc_trdval: String::from("715,000,000"),
        list_shrs: String::from("5,969,782,550"),
        mktcap: String::from("426,839,452,325,000"),
        mkt_id: String::from("STK"),
        mkt_nm: String::from("KOSPI"),
    };
    let p = stockinfo::krx::Price::from(web);
    assert_eq!(p.isu_srt_cd, "005930");
    assert_eq!(p.tdd_clsprc, "71,500");
    assert_eq!(p.mkt_nm, "KOSPI");
}
