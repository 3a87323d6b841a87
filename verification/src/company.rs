use vstd::prelude::*;

verus! {

/// The Korean open-data listed-company response, as served: a response
/// envelope around a header and a paged body.
#[derive(Debug)]
pub struct StockCompany {
    pub response: StockCompanyRes,
}

#[derive(Debug)]
pub struct StockCompanyRes {
    pub header: StockCompanyHeader,
    pub body: StockCompanyBody,
}

#[derive(Debug)]
pub struct StockCompanyHeader {
    pub result_code: String,
    pub result_msg: String,
}

#[derive(Debug)]
pub struct StockCompanyBody {
    pub num_of_rows: u16,
    pub page_no: u16,
    pub total_count: u16,
    pub items: StockCompanyItems,
}

#[derive(Debug)]
pub struct StockCompanyItems {
    pub item: Vec<StockCompanyItem>,
}

/// One listed company: its base date, short and ISIN codes, market
/// category, item name, registration number and corporate name.
#[derive(Debug, Clone)]
pub struct StockCompanyItem {
    pub bas_dt: String,
    pub srtn_cd: String,
    pub isin_cd: String,
    pub mrkt_ctg: String,
    pub itms_nm: String,
    pub crno: String,
    pub corp_nm: String,
}

/// A company-search row handed back to callers.
#[derive(Debug, Clone)]
pub struct StockCompanySearchRes {
    pub itms_nm: String,
    pub srtn_cd: String,
    pub isin_cd: String,
    pub mrkt_ctg: String,
    pub crno: String,
    pub corp_nm: String,
}

} // verus!
