use vstd::prelude::*;

use crate::api::{ApiError, ApiResponse, ApiResult};

verus! {

/// `rust_decimal::Decimal`: the price of a record, carried through unread.
#[verifier::external_type_specification]
#[verifier::external_body]
pub struct ExDecimal(rust_decimal::Decimal);

/// The latest price of one trading pair.
#[derive(Debug)]
pub struct SymbolPriceTicker {
    pub symbol: String,
    pub price: rust_decimal::Decimal,
}

impl Clone for SymbolPriceTicker {
    fn clone(&self) -> (r: Self)
        ensures
            r.symbol@ == self.symbol@,
            r.price == self.price,
    {
        SymbolPriceTicker { symbol: self.symbol.clone(), price: self.price }
    }
}

/// The payload of the ticker resource as the server sends it: one bare
/// record when a symbol was asked for, a list of records otherwise.
#[derive(Debug)]
pub enum SymbolPriceTickerResponse {
    Single(SymbolPriceTicker),
    Many(Vec<SymbolPriceTicker>),
}

impl SymbolPriceTickerResponse {
    /// The records that the payload carries, in the server's order.
    pub open spec fn records(self) -> Seq<SymbolPriceTicker> {
        match self {
            SymbolPriceTickerResponse::Single(t) => seq![t],
            SymbolPriceTickerResponse::Many(list) => list@,
        }
    }

    /// Collapses either shape into one ordered list of records.
    pub fn into_tickers(self) -> (r: Vec<SymbolPriceTicker>)
        ensures
            r@ == self.records(),
    {
        match self {
            SymbolPriceTickerResponse::Single(t) => {
                let mut v: Vec<SymbolPriceTicker> = Vec::new();
                v.push(t);
                v
            },
            SymbolPriceTickerResponse::Many(list) => list,
        }
    }
}

/// The parameters of a ticker request.
#[derive(Debug)]
pub struct SymbolPriceTickerParams<'a> {
    /// If omitted, returns prices for all symbols
    pub symbol: Option<&'a str>,
}

/// The resource path of the latest-price ticker, below the API's base endpoint.
pub const TICKER_PRICE_PATH: &'static str = "/api/v3/ticker/price";

/// The name under which the symbol filter travels in the query string.
pub const SYMBOL_QUERY_KEY: &'static str = "symbol";

pub open spec fn ticker_price_path() -> Seq<char> {
    "/api/v3/ticker/price"@
}

pub open spec fn symbol_query_key() -> Seq<char> {
    "symbol"@
}

impl<'a> SymbolPriceTickerParams<'a> {
    /// The query parameters of the request, as (name, value) pairs: the
    /// symbol filter when there is one, and nothing otherwise.
    pub open spec fn query(self) -> Seq<(Seq<char>, Seq<char>)> {
        match self.symbol {
            Some(s) => seq![(symbol_query_key(), s@)],
            None => Seq::empty(),
        }
    }

    /// Builds the query parameters; an absent filter adds no parameter at all.
    pub fn query_pairs(&self) -> (r: Vec<(String, String)>)
        ensures
            pairs_view(r@) == self.query(),
            r@.len() == self.query().len(),
            forall|i: int|
                0 <= i < r@.len() ==> (#[trigger] r@[i]).0@ == self.query()[i].0 && r@[i].1@
                    == self.query()[i].1,
    {
        let mut v: Vec<(String, String)> = Vec::new();
        match self.symbol {
            Some(s) => {
                v.push((String::from_str(SYMBOL_QUERY_KEY), String::from_str(s)));
                assert(pairs_view(v@) =~= self.query());
            },
            None => {
                assert(pairs_view(v@) =~= self.query());
            },
        }
        v
    }
}

/// The text of each (name, value) pair.
pub open spec fn pairs_view(pairs: Seq<(String, String)>) -> Seq<(Seq<char>, Seq<char>)> {
    pairs.map_values(|p: (String, String)| (p.0@, p.1@))
}

/// The address of the ticker resource below the base endpoint `base`.
pub fn symbol_price_ticker_url(base: &str) -> (r: String)
    ensures
        r@ == base@ + ticker_price_path(),
{
    String::from_str(base).concat(TICKER_PRICE_PATH)
}

/// A GET request for the ticker: the resource's address and its query
/// parameters. It has no body and no authentication.
#[derive(Debug)]
pub struct SymbolPriceTickerRequest {
    pub url: String,
    pub query: Vec<(String, String)>,
}

/// The request that asks the API at `base` for the prices that `params` select.
pub fn symbol_price_ticker_request(base: &str, params: &SymbolPriceTickerParams) -> (r:
    SymbolPriceTickerRequest)
    ensures
        r.url@ == base@ + ticker_price_path(),
        pairs_view(r.query@) == params.query(),
        r.query@.len() == params.query().len(),
        forall|i: int|
            0 <= i < r.query@.len() ==> (#[trigger] r.query@[i]).0@ == params.query()[i].0
                && r.query@[i].1@ == params.query()[i].1,
{
    SymbolPriceTickerRequest { url: symbol_price_ticker_url(base), query: params.query_pairs() }
}

/// What a ticker call yields once the server's answer is in: a transport or
/// decoding failure as it came, the envelope's error as `ApiError::Api`, and
/// otherwise the records of the payload in the server's order.
pub open spec fn ticker_outcome(answer: Result<ApiResponse<SymbolPriceTickerResponse>, ApiError>) -> Result<
    Seq<SymbolPriceTicker>,
    ApiError,
> {
    match answer {
        Err(e) => Err(e),
        Ok(envelope) => match envelope.api_result() {
            Ok(payload) => Ok(payload.records()),
            Err(e) => Err(e),
        },
    }
}

/// Finishes a ticker call from the server's answer: `answer` is the error of
/// sending or decoding, or the decoded envelope. Nothing partial is returned.
pub fn symbol_price_ticker_result(
    answer: Result<ApiResponse<SymbolPriceTickerResponse>, ApiError>,
) -> (r: ApiResult<Vec<SymbolPriceTicker>>)
    ensures
        match r {
            Ok(v) => ticker_outcome(answer) == Ok::<Seq<SymbolPriceTicker>, ApiError>(v@),
            Err(e) => ticker_outcome(answer) == Err::<Seq<SymbolPriceTicker>, ApiError>(e),
        },
{
    let envelope = match answer {
        Ok(envelope) => envelope,
        Err(e) => return Err(e),
    };
    let payload = match envelope.into_api_result() {
        Ok(payload) => payload,
        Err(e) => return Err(e),
    };
    Ok(payload.into_tickers())
}

/// The symbols of `records`, in order.
pub open spec fn symbols(records: Seq<SymbolPriceTicker>) -> Seq<Seq<char>> {
    records.map_values(|t: SymbolPriceTicker| t.symbol@)
}

/// Asking for one symbol sends exactly that symbol as the filter; when the
/// server knows it and answers with its record, the call yields exactly one
/// record, and its symbol is the one asked for.
pub proof fn lemma_one_symbol_one_record(params: SymbolPriceTickerParams, answer: SymbolPriceTicker)
    requires
        params.symbol is Some,
        answer.symbol@ == params.symbol->0@,
    ensures
        params.query() == seq![(symbol_query_key(), params.symbol->0@)],
        ticker_outcome(Ok(ApiResponse::Success(SymbolPriceTickerResponse::Single(answer))))
            is Ok,
        ticker_outcome(
            Ok(ApiResponse::Success(SymbolPriceTickerResponse::Single(answer))),
        )->Ok_0.len() == 1,
        ticker_outcome(
            Ok(ApiResponse::Success(SymbolPriceTickerResponse::Single(answer))),
        )->Ok_0[0].symbol@ == params.symbol->0@,
{
}

/// Asking for all symbols sends no filter at all, and the call yields one
/// record for each record of the server's list: as many as the server knows.
pub proof fn lemma_all_symbols(params: SymbolPriceTickerParams, answer: Vec<SymbolPriceTicker>)
    requires
        params.symbol is None,
    ensures
        params.query().len() == 0,
        ticker_outcome(Ok(ApiResponse::Success(SymbolPriceTickerResponse::Many(answer))))
            == Ok::<Seq<SymbolPriceTicker>, ApiError>(answer@),
        ticker_outcome(
            Ok(ApiResponse::Success(SymbolPriceTickerResponse::Many(answer))),
        )->Ok_0.len() == answer@.len(),
{
}

/// Two answers of the same shape that differ in their prices at most give
/// results that differ in their prices at most: the same number of records,
/// with the same symbols in the same order.
pub proof fn lemma_shape_stable(a: SymbolPriceTickerResponse, b: SymbolPriceTickerResponse)
    requires
        a is Single <==> b is Single,
        symbols(a.records()) == symbols(b.records()),
    ensures
        ticker_outcome(Ok(ApiResponse::Success(a))) is Ok,
        ticker_outcome(Ok(ApiResponse::Success(b))) is Ok,
        ticker_outcome(Ok(ApiResponse::Success(a)))->Ok_0.len() == ticker_outcome(
            Ok(ApiResponse::Success(b)),
        )->Ok_0.len(),
        symbols(ticker_outcome(Ok(ApiResponse::Success(a)))->Ok_0) == symbols(
            ticker_outcome(Ok(ApiResponse::Success(b)))->Ok_0,
        ),
{
    assert(a.records().len() == symbols(a.records()).len());
    assert(b.records().len() == symbols(b.records()).len());
}

/// The shape of the answer does not show in the result: a bare record and a
/// list that holds just that record give the same one-record sequence.
pub proof fn lemma_shape_normalized(single: SymbolPriceTicker, list: Vec<SymbolPriceTicker>)
    requires
        list@ == seq![single],
    ensures
        ticker_outcome(Ok(ApiResponse::Success(SymbolPriceTickerResponse::Single(single))))
            == ticker_outcome(Ok(ApiResponse::Success(SymbolPriceTickerResponse::Many(list)))),
        ticker_outcome(Ok(ApiResponse::Success(SymbolPriceTickerResponse::Single(single))))
            == Ok::<Seq<SymbolPriceTicker>, ApiError>(seq![single]),
{
}

/// An error envelope (such as the answer for a symbol the server does not
/// know) yields `ApiError::Api` with the server's code and message, never a
/// transport or decoding error and never an empty list.
pub proof fn lemma_server_error_kept(code: i32, msg: String)
    ensures
        ticker_outcome(Ok(ApiResponse::<SymbolPriceTickerResponse>::Error { code, msg }))
            == Err::<Seq<SymbolPriceTicker>, ApiError>(ApiError::Api { code, msg }),
{
}

} // verus!
