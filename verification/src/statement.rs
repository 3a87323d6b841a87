use crate::date::Date;
use crate::error::Error;
use crate::tree::XmlDocument;
use crate::xbrl::{
    dedup_by_ctx, facts_view, first_unresolvable, group_facts, items_of, pairs_view,
    q_plain_duration, q_plain_instant, q_segment_instant, root_children, table_ok, FactView,
    Group, Period,
};
use vstd::prelude::*;

verus! {

// ---------------------------------------------------------------------------
// Tiers and line configuration.
// ---------------------------------------------------------------------------
/// Whether a statement line reads instants (balance-sheet style) or
/// durations (flow style).
#[derive(Debug, Clone, Copy, PartialEq, Eq, Structural)]
pub enum PeriodKind {
    Instant,
    Duration,
}

/// The segment policy of one fallback tier: keep consolidated facts, or
/// target facts whose segment carries the given member value.  Targeting
/// applies to instant lines; a duration tier reads consolidated facts.
#[derive(Debug)]
pub enum SegmentPolicy {
    Plain,
    Member(String),
}

/// One fallback tier: a candidate tag name with a segment policy.  Tiers
/// are tried in order until one yields a non-empty result.
#[derive(Debug)]
pub struct Tier {
    pub tag: String,
    pub policy: SegmentPolicy,
}

#[verifier::ext_equal]
pub struct TierView {
    pub tag: Seq<char>,
    pub target: Option<Seq<char>>,
}

impl View for SegmentPolicy {
    type V = Option<Seq<char>>;

    open spec fn view(&self) -> Option<Seq<char>> {
        match self {
            SegmentPolicy::Plain => None,
            SegmentPolicy::Member(s) => Some(s@),
        }
    }
}

impl View for Tier {
    type V = TierView;

    open spec fn view(&self) -> TierView {
        TierView { tag: self.tag@, target: self.policy@ }
    }
}

// ---------------------------------------------------------------------------
// Engine output records.
// ---------------------------------------------------------------------------
/// One extracted record: instant concepts carry `date`, duration concepts
/// carry `start_date` and `end_date`; `value` is the raw disclosed
/// string.
#[derive(Debug)]
pub struct StatementItem {
    pub date: Option<Date>,
    pub start_date: Option<Date>,
    pub end_date: Option<Date>,
    pub value: String,
}

#[verifier::ext_equal]
pub struct StatementItemView {
    pub date: Option<Date>,
    pub start_date: Option<Date>,
    pub end_date: Option<Date>,
    pub value: Seq<char>,
}

impl View for StatementItem {
    type V = StatementItemView;

    open spec fn view(&self) -> StatementItemView {
        StatementItemView {
            date: self.date,
            start_date: self.start_date,
            end_date: self.end_date,
            value: self.value@,
        }
    }
}

/// The record a `(period, value)` pair becomes.
pub open spec fn item_of_pair(p: (Period, Seq<char>)) -> StatementItemView {
    match p.0 {
        Period::Instant { date } => StatementItemView {
            date: Some(date),
            start_date: None,
            end_date: None,
            value: p.1,
        },
        Period::Duration { start_date, end_date } => StatementItemView {
            date: None,
            start_date: Some(start_date),
            end_date: Some(end_date),
            value: p.1,
        },
    }
}

impl From<(Period, String)> for StatementItem {
    fn from(value: (Period, String)) -> (r: Self) {
        let (period, v) = value;
        match period {
            Period::Instant { date } => StatementItem {
                date: Some(date),
                start_date: None,
                end_date: None,
                value: v,
            },
            Period::Duration { start_date, end_date } => StatementItem {
                date: None,
                start_date: Some(start_date),
                end_date: Some(end_date),
                value: v,
            },
        }
    }
}

impl vstd::std_specs::convert::FromSpecImpl<(Period, String)> for StatementItem {
    open spec fn obeys_from_spec() -> bool {
        true
    }

    open spec fn from_spec(t: (Period, String)) -> Self {
        match t.0 {
            Period::Instant { date } => StatementItem {
                date: Some(date),
                start_date: None,
                end_date: None,
                value: t.1,
            },
            Period::Duration { start_date, end_date } => StatementItem {
                date: None,
                start_date: Some(start_date),
                end_date: Some(end_date),
                value: t.1,
            },
        }
    }
}

/// The views of a record list.
pub open spec fn items_view(items: Seq<StatementItem>) -> Seq<StatementItemView> {
    items.map_values(|it: StatementItem| it@)
}

// ---------------------------------------------------------------------------
// The fallback controller.
// ---------------------------------------------------------------------------
/// What one tier yields: `None` when a candidate context of its group is
/// malformed (a structure error), otherwise the deduplicated projection
/// picked by the line's kind and the tier's policy.
pub open spec fn tier_items(doc: XmlDocument, kind: PeriodKind, t: TierView) -> Option<
    Seq<(Period, Seq<char>)>,
> {
    if !table_ok(doc, t.tag) {
        None
    } else {
        let facts = group_facts(doc, t.tag);
        match (kind, t.target) {
            (PeriodKind::Instant, None) => Some(
                items_of(dedup_by_ctx(facts, |f: FactView| q_plain_instant(f))),
            ),
            (PeriodKind::Instant, Some(tg)) => Some(
                items_of(dedup_by_ctx(facts, |f: FactView| q_segment_instant(f, tg))),
            ),
            (PeriodKind::Duration, _) => Some(
                items_of(dedup_by_ctx(facts, |f: FactView| q_plain_duration(f))),
            ),
        }
    }
}

/// The fallback chain's outcome: the first tier with a non-empty result;
/// an empty result when every tier comes up empty (a statement line a
/// filer simply omitted, not an error); the offending tier when one
/// aborts on a malformed context before any earlier tier succeeded.
pub open spec fn resolve_spec(doc: XmlDocument, kind: PeriodKind, tiers: Seq<TierView>) -> Result<
    Seq<(Period, Seq<char>)>,
    TierView,
>
    decreases tiers.len(),
{
    if tiers.len() == 0 {
        Ok(Seq::empty())
    } else {
        match tier_items(doc, kind, tiers[0]) {
            None => Err(tiers[0]),
            Some(items) => if items.len() > 0 {
                Ok(items)
            } else {
                resolve_spec(doc, kind, tiers.drop_first())
            },
        }
    }
}

/// The views of a tier list.
pub open spec fn tiers_view(tiers: Seq<Tier>) -> Seq<TierView> {
    tiers.map_values(|t: Tier| t@)
}

/// Runs a fallback chain: tries each tier in order through extraction and
/// projection, returns the first non-empty result, an empty list when all
/// tiers are empty, and a structure error naming the tier's concept and
/// the malformed context when one aborts.
pub fn resolve_tiers(doc: &XmlDocument, kind: PeriodKind, tiers: &Vec<Tier>) -> (r: Result<
    Vec<StatementItem>,
    Error,
>)
    requires
        doc.wf(),
    ensures
        r matches Ok(items) ==> resolve_spec(*doc, kind, tiers_view(tiers@)) matches Ok(i)
            && items_view(items@) == i.map_values(|p: (Period, Seq<char>)| item_of_pair(p)),
        r matches Err(e) ==> resolve_spec(*doc, kind, tiers_view(tiers@)) matches Err(t) && (
        e matches Error::Structure { concept, context_id } && concept@ == t.tag && Some(
            context_id@,
        ) == first_unresolvable(*doc, root_children(*doc), t.tag)),
{
    let ghost tv = tiers_view(tiers@);
    let n = tiers.len();
    let mut i: usize = 0;
    proof {
        assert(tv.skip(0) =~= tv);
    }
    while i < n
        invariant
            doc.wf(),
            n == tiers@.len(),
            tv == tiers_view(tiers@),
            i <= n,
            resolve_spec(*doc, kind, tv) == resolve_spec(*doc, kind, tv.skip(i as int)),
        decreases n - i,
    {
        let t = &tiers[i];
        proof {
            assert(tv.skip(i as int)[0] == tv[i as int]);
            assert(tv.skip(i as int).drop_first() =~= tv.skip(i + 1));
            assert(tv[i as int] == tiers@[i as int]@);
        }
        let g = match Group::extract(doc, t.tag.as_str()) {
            Ok(g) => g,
            Err(e) => {
                proof {
                    assert(tier_items(*doc, kind, tv[i as int]) is None);
                    assert(resolve_spec(*doc, kind, tv.skip(i as int)) == Err::<
                        Seq<(Period, Seq<char>)>,
                        TierView,
                    >(tv[i as int]));
                }
                return Err(e);
            },
        };
        let pairs: Vec<(Period, String)> = match (kind, &t.policy) {
            (PeriodKind::Instant, SegmentPolicy::Plain) => g.to_vec_date_and_value(),
            (PeriodKind::Instant, SegmentPolicy::Member(tg)) => g.to_vec_date_and_value_with_segment(
                tg.as_str(),
            ),
            (PeriodKind::Duration, _) => g.to_vec_range_and_value(),
        };
        proof {
            assert(tier_items(*doc, kind, tv[i as int]) == Some(pairs_view(pairs@)));
        }
        if pairs.len() > 0 {
            let mut items: Vec<StatementItem> = Vec::new();
            let m = pairs.len();
            let mut k: usize = 0;
            proof {
                assert(items_view(items@) =~= pairs_view(pairs@).take(0).map_values(
                    |p: (Period, Seq<char>)| item_of_pair(p),
                ));
            }
            while k < m
                invariant
                    m == pairs@.len(),
                    k <= m,
                    items_view(items@) == pairs_view(pairs@).take(k as int).map_values(
                        |p: (Period, Seq<char>)| item_of_pair(p),
                    ),
                decreases m - k,
            {
                let p = pairs[k].0;
                let v = pairs[k].1.clone();
                items.push(StatementItem::from((p, v)));
                proof {
                    assert(items_view(items@) =~= items_view(items@.drop_last()).push(
                        items@.last()@,
                    ));
                    assert(pairs_view(pairs@).take(k + 1).map_values(
                        |p: (Period, Seq<char>)| item_of_pair(p),
                    ) =~= pairs_view(pairs@).take(k as int).map_values(
                        |p: (Period, Seq<char>)| item_of_pair(p),
                    ).push(item_of_pair(pairs_view(pairs@)[k as int])));
                }
                k = k + 1;
            }
            proof {
                assert(pairs_view(pairs@).take(m as int) =~= pairs_view(pairs@));
            }
            return Ok(items);
        }
        proof {
            assert(pairs_view(pairs@).len() == 0);
        }
        i = i + 1;
    }
    proof {
        assert(tv.skip(n as int) =~= Seq::<TierView>::empty());
        assert(items_view(Seq::<StatementItem>::empty()) =~= Seq::<
            (Period, Seq<char>),
        >::empty().map_values(|p: (Period, Seq<char>)| item_of_pair(p)));
    }
    Ok(Vec::new())
}

// ---------------------------------------------------------------------------
// The declarative per-line table.
// ---------------------------------------------------------------------------
/// A statement line's declared extraction: its period kind and ordered
/// fallback tiers.  The table is declarative: adding a line never touches
/// the resolution algorithm.
#[derive(Debug)]
pub struct LineConfig {
    pub kind: PeriodKind,
    pub tiers: Vec<Tier>,
}

/// A single consolidated tier for `tag`.
pub open spec fn plain_tiers(tag: Seq<char>) -> Seq<TierView> {
    seq![(TierView { tag: tag, target: None })]
}

/// Shares outstanding: consolidated first, then targeted at the common
/// class-A member, for filers that only report per class of stock.
pub open spec fn outstanding_stock_tiers() -> Seq<TierView> {
    seq![
        (TierView { tag: "CommonStockSharesOutstanding"@, target: None }),
        (
        TierView {
            tag: "CommonStockSharesOutstanding"@,
            target: Some("us-gaap:CommonClassAMember"@),
        }
        ),
    ]
}

/// Revenue: the plural spelling first, then the alternate singular one.
pub open spec fn revenue_tiers() -> Seq<TierView> {
    seq![
        (TierView { tag: "Revenues"@, target: None }),
        (TierView { tag: "Revenue"@, target: None }),
    ]
}

/// The per-line table: which kind and tiers each known logical statement
/// line resolves with; `None` for a line the table does not know.
pub open spec fn spec_line_config(line: Seq<char>) -> Option<(PeriodKind, Seq<TierView>)> {
    if line == "CommonStockSharesOutstanding"@ {
        Some((PeriodKind::Instant, outstanding_stock_tiers()))
    } else if line == "Assets"@ || line == "StockholdersEquity"@ || line == "Liabilities"@ {
        Some((PeriodKind::Instant, plain_tiers(line)))
    } else if line == "Revenues"@ {
        Some((PeriodKind::Duration, revenue_tiers()))
    } else if line == "OperatingIncomeLoss"@ || line == "NetIncomeLoss"@ || line
        == "ComprehensiveIncomeNetOfTax"@ || line == "NetCashProvidedByUsedInOperatingActivities"@
        || line == "NetCashProvidedByUsedInInvestingActivities"@ || line
        == "NetCashProvidedByUsedInFinancingActivities"@ {
        Some((PeriodKind::Duration, plain_tiers(line)))
    } else {
        None
    }
}

/// One consolidated tier for `tag`, as a vector.
fn plain_tier_vec(tag: &str) -> (r: Vec<Tier>)
    ensures
        tiers_view(r@) == plain_tiers(tag@),
{
    let mut v: Vec<Tier> = Vec::new();
    v.push(Tier { tag: String::from_str(tag), policy: SegmentPolicy::Plain });
    proof {
        assert(tiers_view(v@) =~= plain_tiers(tag@));
    }
    v
}

/// Looks a logical line name up in the declarative table.
pub fn line_config(line: &str) -> (r: Option<LineConfig>)
    ensures
        match r {
            Some(c) => spec_line_config(line@) == Some((c.kind, tiers_view(c.tiers@))),
            None => spec_line_config(line@) is None,
        },
{
    proof {
        reveal_strlit("CommonStockSharesOutstanding");
        reveal_strlit("us-gaap:CommonClassAMember");
        reveal_strlit("Assets");
        reveal_strlit("StockholdersEquity");
        reveal_strlit("Liabilities");
        reveal_strlit("Revenues");
        reveal_strlit("Revenue");
        reveal_strlit("OperatingIncomeLoss");
        reveal_strlit("NetIncomeLoss");
        reveal_strlit("ComprehensiveIncomeNetOfTax");
        reveal_strlit("NetCashProvidedByUsedInOperatingActivities");
        reveal_strlit("NetCashProvidedByUsedInInvestingActivities");
        reveal_strlit("NetCashProvidedByUsedInFinancingActivities");
    }
    if crate::text::str_eq(line, "CommonStockSharesOutstanding") {
        let mut tiers: Vec<Tier> = Vec::new();
        tiers.push(
            Tier {
                tag: String::from_str("CommonStockSharesOutstanding"),
                policy: SegmentPolicy::Plain,
            },
        );
        tiers.push(
            Tier {
                tag: String::from_str("CommonStockSharesOutstanding"),
                policy: SegmentPolicy::Member(String::from_str("us-gaap:CommonClassAMember")),
            },
        );
        proof {
            assert(tiers_view(tiers@) =~= outstanding_stock_tiers());
        }
        Some(LineConfig { kind: PeriodKind::Instant, tiers })
    } else if crate::text::str_eq(line, "Assets") || crate::text::str_eq(
        line,
        "StockholdersEquity",
    ) || crate::text::str_eq(line, "Liabilities") {
        Some(LineConfig { kind: PeriodKind::Instant, tiers: plain_tier_vec(line) })
    } else if crate::text::str_eq(line, "Revenues") {
        let mut tiers: Vec<Tier> = Vec::new();
        tiers.push(Tier { tag: String::from_str("Revenues"), policy: SegmentPolicy::Plain });
        tiers.push(Tier { tag: String::from_str("Revenue"), policy: SegmentPolicy::Plain });
        proof {
            assert(tiers_view(tiers@) =~= revenue_tiers());
        }
        Some(LineConfig { kind: PeriodKind::Duration, tiers })
    } else if crate::text::str_eq(line, "OperatingIncomeLoss") || crate::text::str_eq(
        line,
        "NetIncomeLoss",
    ) || crate::text::str_eq(line, "ComprehensiveIncomeNetOfTax") || crate::text::str_eq(
        line,
        "NetCashProvidedByUsedInOperatingActivities",
    ) || crate::text::str_eq(line, "NetCashProvidedByUsedInInvestingActivities")
        || crate::text::str_eq(line, "NetCashProvidedByUsedInFinancingActivities") {
        Some(LineConfig { kind: PeriodKind::Duration, tiers: plain_tier_vec(line) })
    } else {
        None
    }
}

/// Resolves one logical statement line by the declarative table.  An
/// unknown line is a configuration error, a caller bug surfaced at once;
/// a known line runs its fallback chain.
pub fn resolve_line(doc: &XmlDocument, line: &str) -> (r: Result<Vec<StatementItem>, Error>)
    requires
        doc.wf(),
    ensures
        spec_line_config(line@) is None ==> (r matches Err(e) && e matches Error::Configuration {
            line: l,
        } && l@ == line@),
        spec_line_config(line@) matches Some(cfg) ==> match r {
            Ok(items) => resolve_spec(*doc, cfg.0, cfg.1) matches Ok(i) && items_view(items@)
                == i.map_values(|p: (Period, Seq<char>)| item_of_pair(p)),
            Err(e) => resolve_spec(*doc, cfg.0, cfg.1) matches Err(t) && (
            e matches Error::Structure { concept, context_id } && concept@ == t.tag && Some(
                context_id@,
            ) == first_unresolvable(*doc, root_children(*doc), t.tag)),
        },
{
    match line_config(line) {
        None => Err(Error::Configuration { line: String::from_str(line) }),
        Some(c) => resolve_tiers(doc, c.kind, &c.tiers),
    }
}

// ---------------------------------------------------------------------------
// The per-filing statement.
// ---------------------------------------------------------------------------
/// The extracted statement of one filing: each field is one logical
/// line's records, empty when the filer did not disclose the line.
#[derive(Debug)]
pub struct StatementRes {
    pub cik: String,
    pub outstanding_stock: Vec<StatementItem>,
    pub assets: Vec<StatementItem>,
    pub equity: Vec<StatementItem>,
    pub liabilities: Vec<StatementItem>,
    pub revenue: Vec<StatementItem>,
    pub operating_income: Vec<StatementItem>,
    pub net_income: Vec<StatementItem>,
    pub comprehensive_income: Vec<StatementItem>,
    pub operating_cash_flow: Vec<StatementItem>,
    pub investing_cash_flow: Vec<StatementItem>,
    pub financing_cash_flow: Vec<StatementItem>,
}

/// A known line's outcome under the declarative table.
pub open spec fn line_result(doc: XmlDocument, line: Seq<char>) -> Result<
    Seq<(Period, Seq<char>)>,
    TierView,
> {
    resolve_spec(doc, spec_line_config(line)->Some_0.0, spec_line_config(line)->Some_0.1)
}

/// The items hold exactly what the line resolves to.
pub open spec fn field_matches(doc: XmlDocument, line: Seq<char>, items: Seq<StatementItem>) -> bool {
    line_result(doc, line) matches Ok(i) && items_view(items) == i.map_values(
        |p: (Period, Seq<char>)| item_of_pair(p),
    )
}

/// Extracts every statement line of the filing: the financial position
/// lines as instants, the income and cash-flow lines as durations, each
/// through its fallback tiers.  The first structure error aborts the
/// whole filing; empty lines are normal.
pub fn extract_statement(doc: &XmlDocument, cik: &str) -> (r: Result<StatementRes, Error>)
    requires
        doc.wf(),
    ensures
        r is Err <==> {
            ||| line_result(*doc, "CommonStockSharesOutstanding"@) is Err
            ||| line_result(*doc, "Assets"@) is Err
            ||| line_result(*doc, "StockholdersEquity"@) is Err
            ||| line_result(*doc, "Liabilities"@) is Err
            ||| line_result(*doc, "Revenues"@) is Err
            ||| line_result(*doc, "OperatingIncomeLoss"@) is Err
            ||| line_result(*doc, "NetIncomeLoss"@) is Err
            ||| line_result(*doc, "ComprehensiveIncomeNetOfTax"@) is Err
            ||| line_result(*doc, "NetCashProvidedByUsedInOperatingActivities"@) is Err
            ||| line_result(*doc, "NetCashProvidedByUsedInInvestingActivities"@) is Err
            ||| line_result(*doc, "NetCashProvidedByUsedInFinancingActivities"@) is Err
        },
        r matches Ok(res) ==> {
            &&& res.cik@ == cik@
            &&& field_matches(*doc, "CommonStockSharesOutstanding"@, res.outstanding_stock@)
            &&& field_matches(*doc, "Assets"@, res.assets@)
            &&& field_matches(*doc, "StockholdersEquity"@, res.equity@)
            &&& field_matches(*doc, "Liabilities"@, res.liabilities@)
            &&& field_matches(*doc, "Revenues"@, res.revenue@)
            &&& field_matches(*doc, "OperatingIncomeLoss"@, res.operating_income@)
            &&& field_matches(*doc, "NetIncomeLoss"@, res.net_income@)
            &&& field_matches(*doc, "ComprehensiveIncomeNetOfTax"@, res.comprehensive_income@)
            &&& field_matches(
                *doc,
                "NetCashProvidedByUsedInOperatingActivities"@,
                res.operating_cash_flow@,
            )
            &&& field_matches(
                *doc,
                "NetCashProvidedByUsedInInvestingActivities"@,
                res.investing_cash_flow@,
            )
            &&& field_matches(
                *doc,
                "NetCashProvidedByUsedInFinancingActivities"@,
                res.financing_cash_flow@,
            )
        },
        r matches Err(e) ==> e is Structure,
{
    proof {
        reveal_strlit("CommonStockSharesOutstanding");
        reveal_strlit("us-gaap:CommonClassAMember");
        reveal_strlit("Assets");
        reveal_strlit("StockholdersEquity");
        reveal_strlit("Liabilities");
        reveal_strlit("Revenues");
        reveal_strlit("Revenue");
        reveal_strlit("OperatingIncomeLoss");
        reveal_strlit("NetIncomeLoss");
        reveal_strlit("ComprehensiveIncomeNetOfTax");
        reveal_strlit("NetCashProvidedByUsedInOperatingActivities");
        reveal_strlit("NetCashProvidedByUsedInInvestingActivities");
        reveal_strlit("NetCashProvidedByUsedInFinancingActivities");
    }
    let outstanding_stock = match resolve_line(doc, "CommonStockSharesOutstanding") {
        Ok(v) => v,
        Err(e) => {
            return Err(e);
        },
    };
    let assets = match resolve_line(doc, "Assets") {
        Ok(v) => v,
        Err(e) => {
            return Err(e);
        },
    };
    let equity = match resolve_line(doc, "StockholdersEquity") {
        Ok(v) => v,
        Err(e) => {
            return Err(e);
        },
    };
    let liabilities = match resolve_line(doc, "Liabilities") {
        Ok(v) => v,
        Err(e) => {
            return Err(e);
        },
    };
    let revenue = match resolve_line(doc, "Revenues") {
        Ok(v) => v,
        Err(e) => {
            return Err(e);
        },
    };
    let operating_income = match resolve_line(doc, "OperatingIncomeLoss") {
        Ok(v) => v,
        Err(e) => {
            return Err(e);
        },
    };
    let net_income = match resolve_line(doc, "NetIncomeLoss") {
        Ok(v) => v,
        Err(e) => {
            return Err(e);
        },
    };
    let comprehensive_income = match resolve_line(doc, "ComprehensiveIncomeNetOfTax") {
        Ok(v) => v,
        Err(e) => {
            return Err(e);
        },
    };
    let operating_cash_flow = match resolve_line(
        doc,
        "NetCashProvidedByUsedInOperatingActivities",
    ) {
        Ok(v) => v,
        Err(e) => {
            return Err(e);
        },
    };
    let investing_cash_flow = match resolve_line(
        doc,
        "NetCashProvidedByUsedInInvestingActivities",
    ) {
        Ok(v) => v,
        Err(e) => {
            return Err(e);
        },
    };
    let financing_cash_flow = match resolve_line(
        doc,
        "NetCashProvidedByUsedInFinancingActivities",
    ) {
        Ok(v) => v,
        Err(e) => {
            return Err(e);
        },
    };
    Ok(
        StatementRes {
            cik: String::from_str(cik),
            outstanding_stock,
            assets,
            equity,
            liabilities,
            revenue,
            operating_income,
            net_income,
            comprehensive_income,
            operating_cash_flow,
            investing_cash_flow,
            financing_cash_flow,
        },
    )
}

} // verus!
