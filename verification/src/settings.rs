use vstd::prelude::*;

verus! {

/// Where the HTTP server binds.
#[derive(Debug, Clone)]
pub struct Server {
    pub host: String,
    pub port: u16,
}

/// Where traces are shipped.
#[derive(Debug, Clone)]
pub struct Jaeger {
    pub agent_endpoint: String,
}

/// Which origins the service answers.
#[derive(Debug, Clone)]
pub struct Cors {
    pub origins: Option<Vec<String>>,
    pub allow_all_subdomains_of: Option<Vec<String>>,
}

/// The Korean open-data endpoints.
#[derive(Debug, Clone)]
pub struct GovdataUrl {
    pub price: String,
    pub company: String,
}

/// The Korean regulator's endpoints.
#[derive(Debug, Clone)]
pub struct DartUrl {
    pub statement: String,
    pub index: String,
    pub code: String,
}

/// The US market endpoints.
#[derive(Debug, Clone)]
pub struct UsStockUrl {
    pub ticker: String,
    pub submissions: String,
    pub edgar: String,
    pub price: String,
}

/// The service keys of the outside data providers.
#[derive(Debug, Clone)]
pub struct Keys {
    pub data_go_kr: String,
    pub dart: String,
}

/// Every outside endpoint the service talks to.
#[derive(Debug, Clone)]
pub struct Urls {
    pub kr_price: String,
    pub kr_company: String,
    pub us_ticker: String,
    pub us_submissions: String,
    pub us_price: String,
    pub dart_statement: String,
    pub dart_index: String,
    pub dart_code: String,
    pub edgar: String,
}

} // verus!
