use vstd::prelude::*;

verus! {

/// The header of the Korean open-data price response.
#[derive(Debug)]
pub struct StockPriceRHeader {
    pub result_code: String,
    pub result_msg: String,
}

/// Whether any price rows exist for a short code.
#[derive(Debug)]
pub struct StockPriceExistsRes {
    pub srtn_cd: String,
    pub exists: bool,
}

} // verus!
