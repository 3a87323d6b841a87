use crate::date::{spec_parse_date_compact, Date};
use crate::error::Error;
use crate::tree::XmlDocument;
use crate::xbrl::{children_of, last_named, node_text, root_children};
use vstd::prelude::*;

verus! {

/// One company of the Korean regulator's corp-code directory.
#[derive(Debug)]
pub struct Code {
    pub corp_code: String,
    pub corp_name: String,
    pub stock_code: String,
    pub modify_date: Date,
}

#[verifier::ext_equal]
pub struct CodeView {
    pub corp_code: Seq<char>,
    pub corp_name: Seq<char>,
    pub stock_code: Seq<char>,
    pub modify_date: Date,
}

impl View for Code {
    type V = CodeView;

    open spec fn view(&self) -> CodeView {
        CodeView {
            corp_code: self.corp_code@,
            corp_name: self.corp_name@,
            stock_code: self.stock_code@,
            modify_date: self.modify_date,
        }
    }
}

/// The index-lookup response of the regulator's financial-index service.
#[derive(Debug, Clone)]
pub struct IndexRes {
    pub status: String,
    pub message: String,
    pub list: Option<Vec<IndexItem>>,
}

/// One financial index row of an index-lookup response.
#[derive(Debug, Clone)]
pub struct IndexItem {
    pub bsns_year: String,
    pub corp_code: String,
    pub stock_code: String,
    pub reprt_code: String,
    pub idx_cl_code: String,
    pub idx_cl_nm: String,
    pub idx_code: String,
    pub idx_nm: String,
    pub idx_val: Option<String>,
}

/// The statement-lookup response of the regulator's statement service.
#[derive(Debug, Clone)]
pub struct StatementRes {
    pub status: String,
    pub message: String,
    pub list: Option<Vec<StatementItem>>,
}

/// One account row of a statement-lookup response; every column is
/// optional in the upstream feed.
#[derive(Debug, Clone)]
pub struct StatementItem {
    pub rcept_no: Option<String>,
    pub reprt_code: Option<String>,
    pub bsns_year: Option<String>,
    pub corp_code: Option<String>,
    pub sj_div: Option<String>,
    pub sj_nm: Option<String>,
    pub account_id: Option<String>,
    pub account_nm: Option<String>,
    pub account_detail: Option<String>,
    pub thstrm_nm: Option<String>,
    pub thstrm_amount: Option<String>,
    pub thstrm_add_amount: Option<String>,
    pub frmtrm_nm: Option<String>,
    pub frmtrm_amount: Option<String>,
    pub frmtrm_q_nm: Option<String>,
    pub frmtrm_q_amount: Option<String>,
    pub frmtrm_add_amount: Option<String>,
    pub bfefrmtrm_nm: Option<String>,
    pub bfefrmtrm_amount: Option<String>,
    pub ord: Option<String>,
    pub currency: Option<String>,
}

// ---------------------------------------------------------------------------
// Reading the corp-code directory document.
// ---------------------------------------------------------------------------
/// The text of the last element child of `j` named `name`; empty when the
/// child is absent or carries no text.
pub open spec fn child_text_or_empty(doc: XmlDocument, j: int, name: Seq<char>) -> Seq<char> {
    match last_named(doc, children_of(doc, j), name) {
        None => Seq::empty(),
        Some(c) => match node_text(doc, c as int) {
            None => Seq::empty(),
            Some(t) => t,
        },
    }
}

/// What one directory entry denotes; `None` when its modify date does
/// not read as `YYYYMMDD`.
pub open spec fn code_of(doc: XmlDocument, j: int) -> Option<CodeView> {
    match spec_parse_date_compact(child_text_or_empty(doc, j, "modify_date"@)) {
        None => None,
        Some(d) => Some(
            CodeView {
                corp_code: child_text_or_empty(doc, j, "corp_code"@),
                corp_name: child_text_or_empty(doc, j, "corp_name"@),
                stock_code: child_text_or_empty(doc, j, "stock_code"@),
                modify_date: d,
            },
        ),
    }
}

/// What the element entries among `cs` denote, in document order; `None`
/// as soon as one entry's date is unreadable.
pub open spec fn codes_of(doc: XmlDocument, cs: Seq<usize>) -> Option<Seq<CodeView>>
    decreases cs.len(),
{
    if cs.len() == 0 {
        Some(Seq::empty())
    } else {
        match codes_of(doc, cs.drop_last()) {
            None => None,
            Some(pre) => {
                let j = cs.last() as int;
                if !doc.nodes@[j].is_element {
                    Some(pre)
                } else {
                    match code_of(doc, j) {
                        Some(c) => Some(pre.push(c)),
                        None => None,
                    }
                }
            },
        }
    }
}

/// The date text of the first entry whose date does not read, if any.
pub open spec fn first_bad_code_date(doc: XmlDocument, cs: Seq<usize>) -> Option<Seq<char>>
    decreases cs.len(),
{
    if cs.len() == 0 {
        None
    } else if doc.nodes@[cs[0] as int].is_element && code_of(doc, cs[0] as int) is None {
        Some(child_text_or_empty(doc, cs[0] as int, "modify_date"@))
    } else {
        first_bad_code_date(doc, cs.drop_first())
    }
}

/// An unreadable entry stays unreadable however many entries follow it.
proof fn lemma_codes_none_extends(doc: XmlDocument, cs: Seq<usize>, k: int)
    requires
        0 <= k <= cs.len(),
        codes_of(doc, cs.take(k)) is None,
    ensures
        codes_of(doc, cs) is None,
    decreases cs.len() - k,
{
    if k < cs.len() {
        assert(cs.take(k + 1).drop_last() =~= cs.take(k));
        lemma_codes_none_extends(doc, cs, k + 1);
    } else {
        assert(cs.take(k) =~= cs);
    }
}

/// The text of the last element child of `j` named `name`, or empty.
fn read_child_text(doc: &XmlDocument, j: usize, name: &str) -> (r: String)
    requires
        doc.wf(),
        j < doc.nodes@.len(),
    ensures
        r@ == child_text_or_empty(*doc, j as int, name@),
{
    let cs = &doc.nodes[j].children;
    let n = cs.len();
    let mut found: Option<usize> = None;
    let mut i: usize = 0;
    proof {
        assert(cs@.take(0) =~= Seq::<usize>::empty());
    }
    while i < n
        invariant
            doc.wf(),
            j < doc.nodes@.len(),
            cs == doc.nodes@[j as int].children,
            n == cs@.len(),
            i <= n,
            found == last_named(*doc, cs@.take(i as int), name@),
            found matches Some(c) ==> c < j,
        decreases n - i,
    {
        let c = cs[i];
        proof {
            assert(cs@.take(i + 1).drop_last() =~= cs@.take(i as int));
            assert(cs@.take(i + 1).last() == cs@[i as int]);
        }
        if doc.nodes[c].is_element && crate::text::string_eq_str(&doc.nodes[c].tag, name) {
            found = Some(c);
        }
        i = i + 1;
    }
    proof {
        assert(cs@.take(n as int) =~= cs@);
    }
    match found {
        None => String::new(),
        Some(c) => match &doc.nodes[c].text {
            None => String::new(),
            Some(t) => t.clone(),
        },
    }
}

/// Reads the corp-code directory: every element entry under the root,
/// with its code, name, listed stock code and `YYYYMMDD` modify date.
/// The first entry whose date does not read aborts with that date text.
pub fn extract_dart_codes(doc: &XmlDocument) -> (r: Result<Vec<Code>, Error>)
    requires
        doc.wf(),
    ensures
        r matches Ok(v) ==> codes_of(*doc, root_children(*doc)) == Some(
            v@.map_values(|c: Code| c@),
        ),
        r matches Err(e) ==> {
            &&& codes_of(*doc, root_children(*doc)) is None
            &&& e matches Error::InvalidDate { text } && Some(text@) == first_bad_code_date(
                *doc,
                root_children(*doc),
            )
        },
{
    let root = doc.root();
    let rcs = &doc.nodes[root].children;
    let rn = rcs.len();
    let mut out: Vec<Code> = Vec::new();
    let mut i: usize = 0;
    proof {
        assert(rcs@.take(0) =~= Seq::<usize>::empty());
        assert(rcs@.skip(0) =~= rcs@);
        assert(codes_of(*doc, rcs@.take(0)) == Some(out@.map_values(|c: Code| c@))) by {
            assert(out@.map_values(|c: Code| c@) =~= Seq::<CodeView>::empty());
        }
    }
    while i < rn
        invariant
            doc.wf(),
            rcs == doc.nodes@[doc.spec_root()].children,
            rn == rcs@.len(),
            i <= rn,
            codes_of(*doc, rcs@.take(i as int)) == Some(out@.map_values(|c: Code| c@)),
            first_bad_code_date(*doc, rcs@) == first_bad_code_date(*doc, rcs@.skip(i as int)),
        decreases rn - i,
    {
        let j = rcs[i];
        proof {
            assert(rcs@.take(i + 1).drop_last() =~= rcs@.take(i as int));
            assert(rcs@.take(i + 1).last() == rcs@[i as int]);
            assert(rcs@.skip(i as int)[0] == rcs@[i as int]);
            assert(rcs@.skip(i as int).drop_first() =~= rcs@.skip(i + 1));
        }
        if doc.nodes[j].is_element {
            let date_text = read_child_text(doc, j, "modify_date");
            match crate::date::parse_date_compact(date_text.as_str()) {
                Some(d) => {
                    let c = Code {
                        corp_code: read_child_text(doc, j, "corp_code"),
                        corp_name: read_child_text(doc, j, "corp_name"),
                        stock_code: read_child_text(doc, j, "stock_code"),
                        modify_date: d,
                    };
                    out.push(c);
                    proof {
                        assert(out@.map_values(|c: Code| c@) =~= out@.drop_last().map_values(
                            |c: Code| c@,
                        ).push(out@.last()@));
                    }
                },
                None => {
                    proof {
                        assert(code_of(*doc, j as int) is None);
                        assert(codes_of(*doc, rcs@.take(i + 1)) is None);
                        lemma_codes_none_extends(*doc, rcs@, i + 1);
                    }
                    return Err(Error::InvalidDate { text: date_text });
                },
            }
        }
        i = i + 1;
    }
    proof {
        assert(rcs@.take(rn as int) =~= rcs@);
        assert(rcs@.skip(rn as int) =~= Seq::<usize>::empty());
    }
    Ok(out)
}

} // verus!
