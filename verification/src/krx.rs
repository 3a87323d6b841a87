use vstd::prelude::*;

verus! {

/// One quote row in the service's own shape, carried over field by field
/// from the exchange's web feed row.
#[derive(Debug, Clone)]
pub struct Price {
    pub sect_tp_nm: String,
    pub isu_srt_cd: String,
    pub isu_cd: String,
    pub isu_abbrv: String,
    pub tdd_opnprc: String,
    pub tdd_hgprc: String,
    pub tdd_lwprc: String,
    pub tdd_clsprc: String,
    pub cmpprevdd_prc: String,
    pub fluc_rt: String,
    pub fluc_tp_cd: String,
    pub acc_trdvol: String,
    pub acc_trdval: String,
    pub list_shrs: String,
    pub mktcap: String,
    pub mkt_id: String,
    pub mkt_nm: String,
}

impl From<crate::krx_web::Price> for Price {
    fn from(value: crate::krx_web::Price) -> (r: Self) {
        let crate::krx_web::Price {
            sect_tp_nm,
            isu_srt_cd,
            isu_cd,
            isu_abbrv,
            tdd_opnprc,
            tdd_hgprc,
            tdd_lwprc,
            tdd_clsprc,
            cmpprevdd_prc,
            fluc_rt,
            fluc_tp_cd,
            acc_trdvol,
            acc_trdval,
            list_shrs,
            mktcap,
            mkt_id,
            mkt_nm,
        } = value;
        Self {
            sect_tp_nm,
            isu_srt_cd,
            isu_cd,
            isu_abbrv,
            tdd_opnprc,
            tdd_hgprc,
            tdd_lwprc,
            tdd_clsprc,
            cmpprevdd_prc,
            fluc_rt,
            fluc_tp_cd,
            acc_trdvol,
            acc_trdval,
            list_shrs,
            mktcap,
            mkt_id,
            mkt_nm,
        }
    }
}

impl vstd::std_specs::convert::FromSpecImpl<crate::krx_web::Price> for Price {
    open spec fn obeys_from_spec() -> bool {
        true
    }

    open spec fn from_spec(t: crate::krx_web::Price) -> Self {
        Price {
            sect_tp_nm: t.sect_tp_nm,
            isu_srt_cd: t.isu_srt_cd,
            isu_cd: t.isu_cd,
            isu_abbrv: t.isu_abbrv,
            tdd_opnprc: t.tdd_opnprc,
            tdd_hgprc: t.tdd_hgprc,
            tdd_lwprc: t.tdd_lwprc,
            tdd_clsprc: t.tdd_clsprc,
            cmpprevdd_prc: t.cmpprevdd_prc,
            fluc_rt: t.fluc_rt,
            fluc_tp_cd: t.fluc_tp_cd,
            acc_trdvol: t.acc_trdvol,
            acc_trdval: t.acc_trdval,
            list_shrs: t.list_shrs,
            mktcap: t.mktcap,
            mkt_id: t.mkt_id,
            mkt_nm: t.mkt_nm,
        }
    }
}

} // verus!
