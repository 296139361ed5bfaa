//! Option chains: the request, and the reply read field by field (expiration
//! dates, strikes, contracts; numbers as sent).

use vstd::prelude::*;

use crate::dates::{format_utc, utc_formatted};
use crate::error::YfError;
use crate::http::QUERY2;
use crate::json::{
    first_result, get_member_bool, get_member_number, get_member_string, int_of, items_view,
    lemma_items_view, member, member_bool, member_number, member_str, opt_string_view, Json,
    JsonNumber, JsonV,
};
use crate::text::{concat2, concat3};

verus! {

/// The URL of an option-chain request.
pub fn option_chain_url(ticker: &str) -> (u: String)
    ensures
        u@ == QUERY2@ + "/v7/finance/options/"@ + ticker@,
{
    concat3(QUERY2, "/v7/finance/options/", ticker)
}

/// The message of the error for a reply without a result.
pub open spec fn chain_missing_message(ticker: Seq<char>) -> Seq<char> {
    "optionChain.result for "@ + ticker
}

/// `optionChain.result[0]` of a reply; `DataMissing` when absent.
pub fn option_chain_result<'a>(v: &'a Json, ticker: &str) -> (r: Result<&'a Json, YfError>)
    ensures
        r matches Ok(n) ==> first_result(v@, "optionChain"@) == Some(n@),
        r is Err <==> first_result(v@, "optionChain"@) is None,
        r matches Err(e) ==> (e matches YfError::DataMissing(m) && m@ == chain_missing_message(
            ticker@,
        )),
{
    match crate::json::yf_result_first(v, "optionChain") {
        Ok(n) => Ok(n),
        Err(_) => Err(YfError::DataMissing(concat2("optionChain.result for ", ticker))),
    }
}

/// The dates of epoch-second items, in order: items that are not integers
/// or whose date is out of range are skipped.
pub open spec fn dates_of(items: Seq<JsonV>) -> Seq<Seq<char>>
    decreases items.len(),
{
    if items.len() == 0 {
        seq![]
    } else {
        let rest = dates_of(items.drop_last());
        match int_of(items.last()) {
            Some(s) => match utc_formatted(s, "%Y-%m-%d"@) {
                Some(d) => rest.push(d),
                None => rest,
            },
            None => rest,
        }
    }
}

/// The expiration dates of a chain result: its `expirationDates` array as
/// `YYYY-MM-DD` dates.
pub open spec fn expirations_of(result: JsonV) -> Seq<Seq<char>> {
    match member(result, "expirationDates"@) {
        Some(JsonV::Array(items)) => dates_of(items),
        _ => seq![],
    }
}

/// Strings as character sequences.
pub open spec fn strings_view(v: Seq<String>) -> Seq<Seq<char>> {
    v.map_values(|x: String| x@)
}

/// The expiration dates of a chain result.
pub fn expiration_dates(result: &Json) -> (d: Vec<String>)
    ensures
        strings_view(d@) == expirations_of(result@),
{
    let mut out: Vec<String> = Vec::new();
    match result.get_key("expirationDates") {
        Some(n) => match n.as_array() {
            Some(arr) => {
                let mut i: usize = 0;
                while i < arr.len()
                    invariant
                        i <= arr@.len(),
                        strings_view(out@) == dates_of(items_view(arr@.take(i as int))),
                    decreases arr@.len() - i,
                {
                    let ghost prev = out@;
                    proof {
                        assert(arr@.take(i + 1).drop_last() =~= arr@.take(i as int));
                        assert(items_view(arr@.take(i + 1)).drop_last() =~= items_view(
                            arr@.take(i as int),
                        ));
                        assert(items_view(arr@.take(i + 1)).last() == arr@[i as int]@);
                    }
                    match arr[i].as_i64() {
                        Some(s) => match format_utc(s, "%Y-%m-%d") {
                            Some(d) => {
                                out.push(d);
                                assert(strings_view(out@) =~= strings_view(prev).push(
                                    out@.last()@,
                                ));
                            },
                            None => {},
                        },
                        None => {},
                    }
                    i = i + 1;
                }
                assert(arr@.take(arr@.len() as int) =~= arr@);
            },
            None => {
                assert(strings_view(out@) =~= seq![]);
            },
        },
        None => {
            assert(strings_view(out@) =~= seq![]);
        },
    }
    out
}

/// The expiration date of one expiration entry: its `expirationDate` as a
/// `YYYY-MM-DD` date, empty when absent or out of range.
pub open spec fn expiration_of(o: JsonV) -> Seq<char> {
    match member(o, "expirationDate"@) {
        Some(n) => match int_of(n) {
            Some(s) => match utc_formatted(s, "%Y-%m-%d"@) {
                Some(d) => d,
                None => ""@,
            },
            None => ""@,
        },
        None => ""@,
    }
}

/// The expiration date of one expiration entry.
pub fn expiration_of_entry(o: &Json) -> (d: String)
    ensures
        d@ == expiration_of(o@),
{
    match o.get_key("expirationDate") {
        Some(n) => match n.as_i64() {
            Some(s) => match format_utc(s, "%Y-%m-%d") {
                Some(d) => d,
                None => "".to_owned(),
            },
            None => "".to_owned(),
        },
        None => "".to_owned(),
    }
}

/// The last trade time of a contract: its `lastTradeDate` as a
/// `YYYY-MM-DD HH:MM:SS` UTC time.
pub open spec fn last_trade_of(c: JsonV) -> Option<Seq<char>> {
    match member(c, "lastTradeDate"@) {
        Some(n) => match int_of(n) {
            Some(s) => utc_formatted(s, "%Y-%m-%d %H:%M:%S"@),
            None => None,
        },
        None => None,
    }
}

/// The last trade time of a contract.
pub fn last_trade_date(c: &Json) -> (d: Option<String>)
    ensures
        opt_string_view(d) == last_trade_of(c@),
{
    match c.get_key("lastTradeDate") {
        Some(n) => match n.as_i64() {
            Some(s) => format_utc(s, "%Y-%m-%d %H:%M:%S"),
            None => None,
        },
        None => None,
    }
}

/// An option contract: its fields as sent (numbers unconverted).
#[derive(Debug, Clone)]
pub struct ContractFields {
    pub contract_symbol: Option<String>,
    pub strike: Option<JsonNumber>,
    pub currency: Option<String>,
    pub last_price: Option<JsonNumber>,
    pub bid: Option<JsonNumber>,
    pub ask: Option<JsonNumber>,
    pub change: Option<JsonNumber>,
    pub percent_change: Option<JsonNumber>,
    pub volume: Option<JsonNumber>,
    pub open_interest: Option<JsonNumber>,
    pub implied_volatility: Option<JsonNumber>,
    pub in_the_money: Option<bool>,
    pub last_trade_date: Option<String>,
}

/// A contract read from an entry: each field the member of that name.
pub open spec fn contract_matches(c: ContractFields, e: JsonV) -> bool {
    &&& opt_string_view(c.contract_symbol) == member_str(e, "contractSymbol"@)
    &&& c.strike == member_number(e, "strike"@)
    &&& opt_string_view(c.currency) == member_str(e, "currency"@)
    &&& c.last_price == member_number(e, "lastPrice"@)
    &&& c.bid == member_number(e, "bid"@)
    &&& c.ask == member_number(e, "ask"@)
    &&& c.change == member_number(e, "change"@)
    &&& c.percent_change == member_number(e, "percentChange"@)
    &&& c.volume == member_number(e, "volume"@)
    &&& c.open_interest == member_number(e, "openInterest"@)
    &&& c.implied_volatility == member_number(e, "impliedVolatility"@)
    &&& c.in_the_money == member_bool(e, "inTheMoney"@)
    &&& opt_string_view(c.last_trade_date) == last_trade_of(e)
}

/// Reads an option contract.
pub fn parse_contract(v: &Json) -> (c: ContractFields)
    ensures
        contract_matches(c, v@),
{
    ContractFields {
        contract_symbol: get_member_string(v, "contractSymbol"),
        strike: get_member_number(v, "strike"),
        currency: get_member_string(v, "currency"),
        last_price: get_member_number(v, "lastPrice"),
        bid: get_member_number(v, "bid"),
        ask: get_member_number(v, "ask"),
        change: get_member_number(v, "change"),
        percent_change: get_member_number(v, "percentChange"),
        volume: get_member_number(v, "volume"),
        open_interest: get_member_number(v, "openInterest"),
        implied_volatility: get_member_number(v, "impliedVolatility"),
        in_the_money: get_member_bool(v, "inTheMoney"),
        last_trade_date: last_trade_date(v),
    }
}

/// The entries of `o`'s `key` array; none when absent or not an array.
pub open spec fn array_member(o: JsonV, key: Seq<char>) -> Seq<JsonV> {
    match member(o, key) {
        Some(JsonV::Array(items)) => items,
        _ => seq![],
    }
}

/// `cs` are the contracts of `o`'s `key` array, one for each entry, in order.
pub open spec fn contracts_match(cs: Seq<ContractFields>, o: JsonV, key: Seq<char>) -> bool {
    let es = array_member(o, key);
    &&& cs.len() == es.len()
    &&& forall|i: int| 0 <= i < es.len() ==> contract_matches(#[trigger] cs[i], es[i])
}

/// The contracts of an expiration entry's `key` array (`calls` or `puts`).
pub fn parse_contracts(o: &Json, key: &str) -> (cs: Vec<ContractFields>)
    ensures
        contracts_match(cs@, o@, key@),
{
    let mut out: Vec<ContractFields> = Vec::new();
    match o.get_key(key) {
        Some(n) => match n.as_array() {
            Some(arr) => {
                let ghost es = items_view(arr@);
                proof {
                    lemma_items_view(arr@);
                }
                let mut i: usize = 0;
                while i < arr.len()
                    invariant
                        i <= arr@.len(),
                        es == items_view(arr@),
                        es.len() == arr@.len(),
                        forall|j: int| 0 <= j < arr@.len() ==> #[trigger] es[j] == arr@[j]@,
                        out@.len() == i,
                        forall|j: int| 0 <= j < i ==> contract_matches(#[trigger] out@[j], es[j]),
                    decreases arr@.len() - i,
                {
                    out.push(parse_contract(&arr[i]));
                    i = i + 1;
                }
            },
            None => {},
        },
        None => {},
    }
    out
}

/// The numbers among `items`, in order.
pub open spec fn numbers_in(items: Seq<JsonV>) -> Seq<JsonNumber>
    decreases items.len(),
{
    if items.len() == 0 {
        seq![]
    } else {
        let rest = numbers_in(items.drop_last());
        match items.last() {
            JsonV::Number(n) => rest.push(n),
            _ => rest,
        }
    }
}

/// The strikes of a chain result: the numbers of its `strikes` array.
pub open spec fn strikes_of(result: JsonV) -> Seq<JsonNumber> {
    match member(result, "strikes"@) {
        Some(JsonV::Array(items)) => numbers_in(items),
        _ => seq![],
    }
}

/// The strikes of a chain result (items that are not numbers are skipped).
pub fn chain_strikes(result: &Json) -> (s: Vec<JsonNumber>)
    ensures
        s@ == strikes_of(result@),
{
    let mut out: Vec<JsonNumber> = Vec::new();
    match result.get_key("strikes") {
        Some(n) => match n.as_array() {
            Some(items) => {
                let mut i: usize = 0;
                while i < items.len()
                    invariant
                        i <= items@.len(),
                        out@ == numbers_in(items_view(items@.take(i as int))),
                    decreases items@.len() - i,
                {
                    proof {
                        assert(items@.take(i + 1).drop_last() =~= items@.take(i as int));
                        assert(items_view(items@.take(i + 1)).drop_last() =~= items_view(
                            items@.take(i as int),
                        ));
                        assert(items_view(items@.take(i + 1)).last() == items@[i as int]@);
                    }
                    match &items[i] {
                        Json::Number(x) => {
                            out.push(x.clone());
                        },
                        _ => {},
                    }
                    i = i + 1;
                }
                assert(items@.take(items@.len() as int) =~= items@);
            },
            None => {},
        },
        None => {},
    }
    out
}


/// The calls and puts of one expiration.
#[derive(Debug, Clone)]
pub struct ExpirationContracts {
    pub expiration: String,
    pub calls: Vec<ContractFields>,
    pub puts: Vec<ContractFields>,
}

/// `x` is read from the expiration entry `o`: its date, its calls, its puts.
pub open spec fn expiration_matches(x: ExpirationContracts, o: JsonV) -> bool {
    &&& x.expiration@ == expiration_of(o)
    &&& contracts_match(x.calls@, o, "calls"@)
    &&& contracts_match(x.puts@, o, "puts"@)
}

/// The expirations of a chain result: one for each entry of its `options`
/// array, in order (none when the array is absent).
pub fn chain_options(result: &Json) -> (xs: Vec<ExpirationContracts>)
    ensures
        xs@.len() == array_member(result@, "options"@).len(),
        forall|i: int|
            0 <= i < xs@.len() ==> expiration_matches(
                #[trigger] xs@[i],
                array_member(result@, "options"@)[i],
            ),
{
    let mut out: Vec<ExpirationContracts> = Vec::new();
    match result.get_key("options") {
        Some(n) => match n.as_array() {
            Some(arr) => {
                let ghost es = items_view(arr@);
                proof {
                    lemma_items_view(arr@);
                }
                let mut i: usize = 0;
                while i < arr.len()
                    invariant
                        i <= arr@.len(),
                        es == items_view(arr@),
                        es.len() == arr@.len(),
                        forall|j: int| 0 <= j < arr@.len() ==> #[trigger] es[j] == arr@[j]@,
                        out@.len() == i,
                        forall|j: int|
                            0 <= j < i ==> expiration_matches(#[trigger] out@[j], es[j]),
                    decreases arr@.len() - i,
                {
                    let o = &arr[i];
                    out.push(
                        ExpirationContracts {
                            expiration: expiration_of_entry(o),
                            calls: parse_contracts(o, "calls"),
                            puts: parse_contracts(o, "puts"),
                        },
                    );
                    i = i + 1;
                }
            },
            None => {},
        },
        None => {},
    }
    out
}

} // verus!
