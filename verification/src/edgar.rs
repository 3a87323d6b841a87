use vstd::prelude::*;

verus! {

/// The per-company filing index the regulator serves: company metadata
/// and the recent filings, column-wise.
#[derive(Debug)]
pub struct Submissions {
    pub cik: String,
    pub name: String,
    pub tickers: Vec<String>,
    pub exchanges: Vec<String>,
    pub fiscal_year_end: String,
    pub filings: SubmissionsFilings,
}

#[derive(Debug)]
pub struct SubmissionsFilings {
    pub recent: SubmissionsRecent,
}

/// Recent filings as parallel columns: entry `i` of each vector belongs
/// to one filing.
#[derive(Debug)]
pub struct SubmissionsRecent {
    pub form: Vec<String>,
    pub acceptance_date_time: Vec<String>,
    pub filing_date: Vec<String>,
    pub accession_number: Vec<String>,
    pub primary_document: Vec<String>,
    pub report_date: Vec<String>,
}

/// Picks the filing to read: the first row whose form is `10-K`, the
/// annual report; row zero when no annual report is listed.
pub fn latest_annual_index(forms: &Vec<String>) -> (r: usize)
    ensures
        (exists|k: int| 0 <= k < forms@.len() && (#[trigger] forms@[k])@ == "10-K"@) ==> {
            &&& r < forms@.len()
            &&& forms@[r as int]@ == "10-K"@
            &&& forall|k: int| 0 <= k < r ==> (#[trigger] forms@[k])@ != "10-K"@
        },
        !(exists|k: int| 0 <= k < forms@.len() && (#[trigger] forms@[k])@ == "10-K"@) ==> r == 0,
{
    let n = forms.len();
    let mut i: usize = 0;
    while i < n
        invariant
            n == forms@.len(),
            i <= n,
            forall|k: int| 0 <= k < i ==> (#[trigger] forms@[k])@ != "10-K"@,
        decreases n - i,
    {
        if crate::text::string_eq_str(&forms[i], "10-K") {
            return i;
        }
        i = i + 1;
    }
    0
}

} // verus!
