use vstd::prelude::*;

verus! {

/// One quote row as the Korean exchange's web feed serves it; the
/// numeric columns are strings with thousands separators.
#[derive(Debug, Clone)]
pub struct Price {
    pub sect_tp_nm: String,
    pub isu_srt_cd: String,
    pub isu_cd: String,
    pub isu_abbrv: String,
    pub tdd_opnprc: String,
    pub tdd_hgprc: String,
    pub tdd_lwprc: String,
    pub tdd_clsprc: String,
    pub cmpprevdd_prc: String,
    pub fluc_rt: String,
    pub fluc_tp_cd: String,
    pub acc_trdvol: String,
    pub acc_trdval: String,
    pub list_shrs: String,
    pub mktcap: String,
    pub mkt_id: String,
    pub mkt_nm: String,
}

/// The latest-trading-day lookup result of the exchange's web feed: rows
/// of named string columns.
#[derive(Debug, Clone)]
pub struct MaxDateResult {
    pub output: Vec<std::collections::HashMap<String, String>>,
}

} // verus!
