//! The screener: the query-builder DSL over equities, funds and ETFs, the
//! predefined screens, and the requests a screen is run with.

use vstd::prelude::*;

use crate::config::Locale;
use crate::error::YfError;
use crate::http::pairs_view;
use crate::json::{
    first_result, get_member_str, items_view, lemma_items_view, lemma_members_view, member,
    member_str, members_view, str_of, uint_of, Json, JsonNumber, JsonV,
};
use crate::text::{
    bool_string, bool_text, chars_eq_ignore_ascii_case, chars_vec, concat3, decimal,
    decimal_string, eq_ignore_ascii_case,
};

verus! {

/// The custom-screen endpoint.
pub const SCREENER_URL: &'static str = "https://query1.finance.yahoo.com/v1/finance/screener";

/// The saved (predefined) screen endpoint.
pub const PREDEFINED_URL: &'static str =
    "https://query1.finance.yahoo.com/v1/finance/screener/predefined/saved";

/// The predefined screens, by name: sort field and order, quote type and
/// query tree of each.
pub const PREDEFINED_SCREENER_QUERIES: &'static str = r#"{"aggressive_small_caps":{"sortField":"eodvolume","sortType":"desc","quoteType":"EQUITY","query":{"operator":"AND","operands":[{"operator":"OR","operands":[{"operator":"EQ","operands":["exchange","NMS"]},{"operator":"EQ","operands":["exchange","NYQ"]}]},{"operator":"LT","operands":["epsgrowth.lasttwelvemonths",15]}]}},"day_gainers":{"sortField":"percentchange","sortType":"DESC","quoteType":"EQUITY","query":{"operator":"AND","operands":[{"operator":"GT","operands":["percentchange",3]},{"operator":"EQ","operands":["region","us"]},{"operator":"GTE","operands":["intradaymarketcap",2000000000]},{"operator":"GTE","operands":["intradayprice",5]},{"operator":"GT","operands":["dayvolume",15000]}]}},"day_losers":{"sortField":"percentchange","sortType":"ASC","quoteType":"EQUITY","query":{"operator":"AND","operands":[{"operator":"LT","operands":["percentchange",-2.5]},{"operator":"EQ","operands":["region","us"]},{"operator":"GTE","operands":["intradaymarketcap",2000000000]},{"operator":"GTE","operands":["intradayprice",5]},{"operator":"GT","operands":["dayvolume",20000]}]}},"growth_technology_stocks":{"sortField":"eodvolume","sortType":"desc","quoteType":"EQUITY","query":{"operator":"AND","operands":[{"operator":"GTE","operands":["quarterlyrevenuegrowth.quarterly",25]},{"operator":"GTE","operands":["epsgrowth.lasttwelvemonths",25]},{"operator":"EQ","operands":["sector","Technology"]},{"operator":"OR","operands":[{"operator":"EQ","operands":["exchange","NMS"]},{"operator":"EQ","operands":["exchange","NYQ"]}]}]}},"most_actives":{"sortField":"dayvolume","sortType":"DESC","quoteType":"EQUITY","query":{"operator":"AND","operands":[{"operator":"EQ","operands":["region","us"]},{"operator":"GTE","operands":["intradaymarketcap",2000000000]},{"operator":"GT","operands":["dayvolume",5000000]}]}},"most_shorted_stocks":{"sortField":"short_percentage_of_shares_outstanding.value","sortType":"DESC","quoteType":"EQUITY","count":25,"offset":0,"query":{"operator":"AND","operands":[{"operator":"EQ","operands":["region","us"]},{"operator":"GT","operands":["intradayprice",1]},{"operator":"GT","operands":["avgdailyvol3m",200000]}]}},"small_cap_gainers":{"sortField":"eodvolume","sortType":"desc","quoteType":"EQUITY","query":{"operator":"AND","operands":[{"operator":"LT","operands":["intradaymarketcap",2000000000]},{"operator":"OR","operands":[{"operator":"EQ","operands":["exchange","NMS"]},{"operator":"EQ","operands":["exchange","NYQ"]}]}]}},"undervalued_growth_stocks":{"sortField":"eodvolume","sortType":"DESC","quoteType":"EQUITY","query":{"operator":"AND","operands":[{"operator":"BTWN","operands":["peratio.lasttwelvemonths",0,20]},{"operator":"LT","operands":["pegratio_5y",1]},{"operator":"GTE","operands":["epsgrowth.lasttwelvemonths",25]},{"operator":"OR","operands":[{"operator":"EQ","operands":["exchange","NMS"]},{"operator":"EQ","operands":["exchange","NYQ"]}]}]}},"undervalued_large_caps":{"sortField":"eodvolume","sortType":"desc","quoteType":"EQUITY","query":{"operator":"AND","operands":[{"operator":"BTWN","operands":["peratio.lasttwelvemonths",0,20]},{"operator":"LT","operands":["pegratio_5y",1]},{"operator":"BTWN","operands":["intradaymarketcap",10000000000,100000000000]},{"operator":"OR","operands":[{"operator":"EQ","operands":["exchange","NMS"]},{"operator":"EQ","operands":["exchange","NYQ"]}]}]}},"conservative_foreign_funds":{"sortField":"fundnetassets","sortType":"DESC","quoteType":"MUTUALFUND","query":{"operator":"AND","operands":[{"operator":"OR","operands":[{"operator":"EQ","operands":["categoryname","Foreign Large Value"]},{"operator":"EQ","operands":["categoryname","Foreign Large Blend"]},{"operator":"EQ","operands":["categoryname","Foreign Large Growth"]},{"operator":"EQ","operands":["categoryname","Foreign Small/Mid Growth"]},{"operator":"EQ","operands":["categoryname","Foreign Small/Mid Blend"]},{"operator":"EQ","operands":["categoryname","Foreign Small/Mid Value"]}]},{"operator":"OR","operands":[{"operator":"EQ","operands":["performanceratingoverall",4]},{"operator":"EQ","operands":["performanceratingoverall",5]}]},{"operator":"LT","operands":["initialinvestment",100001]},{"operator":"LT","operands":["annualreturnnavy1categoryrank",50]},{"operator":"OR","operands":[{"operator":"EQ","operands":["riskratingoverall",1]},{"operator":"EQ","operands":["riskratingoverall",2]},{"operator":"EQ","operands":["riskratingoverall",3]}]},{"operator":"EQ","operands":["exchange","NAS"]}]}},"high_yield_bond":{"sortField":"fundnetassets","sortType":"DESC","quoteType":"MUTUALFUND","query":{"operator":"AND","operands":[{"operator":"OR","operands":[{"operator":"EQ","operands":["performanceratingoverall",4]},{"operator":"EQ","operands":["performanceratingoverall",5]}]},{"operator":"LT","operands":["initialinvestment",100001]},{"operator":"LT","operands":["annualreturnnavy1categoryrank",50]},{"operator":"OR","operands":[{"operator":"EQ","operands":["riskratingoverall",1]},{"operator":"EQ","operands":["riskratingoverall",2]},{"operator":"EQ","operands":["riskratingoverall",3]}]},{"operator":"EQ","operands":["categoryname","High Yield Bond"]},{"operator":"EQ","operands":["exchange","NAS"]}]}},"portfolio_anchors":{"sortField":"fundnetassets","sortType":"DESC","quoteType":"MUTUALFUND","query":{"operator":"AND","operands":[{"operator":"EQ","operands":["categoryname","Large Blend"]},{"operator":"OR","operands":[{"operator":"EQ","operands":["performanceratingoverall",4]},{"operator":"EQ","operands":["performanceratingoverall",5]}]},{"operator":"LT","operands":["initialinvestment",100001]},{"operator":"LT","operands":["annualreturnnavy1categoryrank",50]},{"operator":"EQ","operands":["exchange","NAS"]}]}},"solid_large_growth_funds":{"sortField":"fundnetassets","sortType":"DESC","quoteType":"MUTUALFUND","query":{"operator":"AND","operands":[{"operator":"EQ","operands":["categoryname","Large Growth"]},{"operator":"OR","operands":[{"operator":"EQ","operands":["performanceratingoverall",4]},{"operator":"EQ","operands":["performanceratingoverall",5]}]},{"operator":"LT","operands":["initialinvestment",100001]},{"operator":"LT","operands":["annualreturnnavy1categoryrank",50]},{"operator":"EQ","operands":["exchange","NAS"]}]}},"solid_midcap_growth_funds":{"sortField":"fundnetassets","sortType":"DESC","quoteType":"MUTUALFUND","query":{"operator":"AND","operands":[{"operator":"EQ","operands":["categoryname","Mid-Cap Growth"]},{"operator":"OR","operands":[{"operator":"EQ","operands":["performanceratingoverall",4]},{"operator":"EQ","operands":["performanceratingoverall",5]}]},{"operator":"LT","operands":["initialinvestment",100001]},{"operator":"LT","operands":["annualreturnnavy1categoryrank",50]},{"operator":"EQ","operands":["exchange","NAS"]}]}},"top_mutual_funds":{"sortField":"percentchange","sortType":"DESC","quoteType":"MUTUALFUND","query":{"operator":"AND","operands":[{"operator":"GT","operands":["intradayprice",15]},{"operator":"OR","operands":[{"operator":"EQ","operands":["performanceratingoverall",4]},{"operator":"EQ","operands":["performanceratingoverall",5]}]},{"operator":"GT","operands":["initialinvestment",1000]},{"operator":"EQ","operands":["exchange","NAS"]}]}},"top_etfs_us":{"sortField":"percentchange","sortType":"DESC","quoteType":"ETF","query":{"operator":"AND","operands":[{"operator":"GT","operands":["intradayprice",10]},{"operator":"OR","operands":[{"operator":"EQ","operands":["performanceratingoverall",4]},{"operator":"EQ","operands":["performanceratingoverall",5]}]},{"operator":"EQ","operands":["region","us"]}]}},"top_performing_etfs":{"sortField":"annualreportnetexpenseratio","sortType":"ASC","quoteType":"ETF","query":{"operator":"AND","operands":[{"operator":"EQ","operands":["region","us"]},{"operator":"OR","operands":[{"operator":"EQ","operands":["performanceratingoverall",4]},{"operator":"EQ","operands":["performanceratingoverall",5]}]},{"operator":"GT","operands":["intradayprice",10]}]}},"technology_etfs":{"sortField":"annualreportnetexpenseratio","sortType":"ASC","quoteType":"ETF","query":{"operator":"AND","operands":[{"operator":"EQ","operands":["region","us"]},{"operator":"EQ","operands":["categoryname","Technology"]}]}},"bond_etfs":{"sortField":"annualreportnetexpenseratio","sortType":"ASC","quoteType":"ETF","query":{"operator":"AND","operands":[{"operator":"EQ","operands":["region","us"]},{"operator":"OR","operands":[{"operator":"EQ","operands":["categoryname","Corporate Bond"]},{"operator":"EQ","operands":["categoryname","Emerging Markets Bond"]},{"operator":"EQ","operands":["categoryname","Emerging-Markets Local-Currency Bond"]},{"operator":"EQ","operands":["categoryname","High Yield Bond"]},{"operator":"EQ","operands":["categoryname","Intermediate-Term Bond"]},{"operator":"EQ","operands":["categoryname","Long-Term Bond"]},{"operator":"EQ","operands":["categoryname","Inflation-Protected Bond"]},{"operator":"EQ","operands":["categoryname","Multisector Bond"]},{"operator":"EQ","operands":["categoryname","Nontraditional Bond"]},{"operator":"EQ","operands":["categoryname","Short-Term Bond"]},{"operator":"EQ","operands":["categoryname","Ultrashort Bond"]},{"operator":"EQ","operands":["categoryname","World Bond"]}]}]}}}"#;

/// Logical / comparison operators of a screener [`Query`].
#[derive(Debug, Clone, Copy, PartialEq, Eq, Structural)]
pub enum Operator {
    Eq,
    IsIn,
    Btwn,
    Gt,
    Lt,
    Gte,
    Lte,
    And,
    Or,
}

/// The wire name of an operator.
pub open spec fn operator_text(o: Operator) -> Seq<char> {
    match o {
        Operator::Eq => "EQ"@,
        Operator::IsIn => "IS-IN"@,
        Operator::Btwn => "BTWN"@,
        Operator::Gt => "GT"@,
        Operator::Lt => "LT"@,
        Operator::Gte => "GTE"@,
        Operator::Lte => "LTE"@,
        Operator::And => "AND"@,
        Operator::Or => "OR"@,
    }
}

impl Operator {
    /// The wire name of this operator.
    pub fn as_str(self) -> (s: &'static str)
        ensures
            s@ == operator_text(self),
    {
        match self {
            Operator::Eq => "EQ",
            Operator::IsIn => "IS-IN",
            Operator::Btwn => "BTWN",
            Operator::Gt => "GT",
            Operator::Lt => "LT",
            Operator::Gte => "GTE",
            Operator::Lte => "LTE",
            Operator::And => "AND",
            Operator::Or => "OR",
        }
    }
}

/// The asset class a [`Query`] targets.
#[derive(Debug, Clone, Copy, PartialEq, Eq, Structural)]
pub enum QueryKind {
    Equity,
    Fund,
    Etf,
}

/// The screener `quoteType` of an asset class.
pub open spec fn quote_type_text(k: QueryKind) -> Seq<char> {
    match k {
        QueryKind::Equity => "EQUITY"@,
        QueryKind::Fund => "MUTUALFUND"@,
        QueryKind::Etf => "ETF"@,
    }
}

impl QueryKind {
    /// The screener `quoteType` of this asset class.
    pub fn quote_type(self) -> (s: &'static str)
        ensures
            s@ == quote_type_text(self),
    {
        match self {
            QueryKind::Equity => "EQUITY",
            QueryKind::Fund => "MUTUALFUND",
            QueryKind::Etf => "ETF",
        }
    }
}

/// A scalar operand value: a string or a number.
#[derive(Debug)]
pub enum ScreenerValue {
    Str(String),
    Num(JsonNumber),
}

/// The JSON of a scalar operand.
pub open spec fn value_json(v: ScreenerValue) -> JsonV {
    match v {
        ScreenerValue::Str(s) => JsonV::Str(s@),
        ScreenerValue::Num(n) => JsonV::Number(n),
    }
}

impl ScreenerValue {
    /// A string value.
    pub fn text(s: &str) -> (v: ScreenerValue)
        ensures
            value_json(v) == JsonV::Str(s@),
    {
        ScreenerValue::Str(s.to_owned())
    }

    /// An integer value.
    pub fn integer(n: i64) -> (v: ScreenerValue)
        ensures
            v == ScreenerValue::Num(
                if n < 0 {
                    JsonNumber::NegInt(n)
                } else {
                    JsonNumber::PosInt(n as u64)
                },
            ),
    {
        if n < 0 {
            ScreenerValue::Num(JsonNumber::NegInt(n))
        } else {
            ScreenerValue::Num(JsonNumber::PosInt(n as u64))
        }
    }

    /// The JSON of this value.
    pub fn to_json(&self) -> (j: Json)
        ensures
            j@ == value_json(*self),
    {
        match self {
            ScreenerValue::Str(s) => Json::Str(s.clone()),
            ScreenerValue::Num(n) => Json::Number(n.clone()),
        }
    }
}

/// One operand of a [`Query`]: a nested sub-query, a field name, or a
/// literal value.
#[derive(Debug)]
pub enum Operand {
    Query(Box<Query>),
    Field(String),
    Value(ScreenerValue),
}

/// A screener query tree.
#[derive(Debug)]
pub struct Query {
    pub kind: QueryKind,
    pub operator: Operator,
    pub operands: Vec<Operand>,
}

/// A query node in Yahoo's `{"operator", "operands"}` shape.
pub open spec fn node_json(op: Seq<char>, operands: Seq<JsonV>) -> JsonV {
    JsonV::Object(seq![("operator"@, JsonV::Str(op)), ("operands"@, JsonV::Array(operands))])
}

/// The compared value of an `IS-IN` operand: a value or a field name as
/// itself, a sub-query as `null`.
pub open spec fn isin_value(o: Operand) -> JsonV {
    match o {
        Operand::Value(v) => value_json(v),
        Operand::Field(f) => JsonV::Str(f@),
        Operand::Query(_) => JsonV::Null,
    }
}

/// The field of an `IS-IN` query: its first operand when that is a field
/// name, `null` otherwise.
pub open spec fn isin_field(ops: Seq<Operand>) -> JsonV {
    if ops.len() > 0 && ops[0] is Field {
        JsonV::Str(ops[0]->Field_0@)
    } else {
        JsonV::Null
    }
}

/// The `EQ` comparisons an `IS-IN` query expands to: the field against
/// each operand after the first.
pub open spec fn isin_eqs(field: JsonV, rest: Seq<Operand>) -> Seq<JsonV> {
    rest.map_values(|o: Operand| node_json("EQ"@, seq![field, isin_value(o)]))
}

/// The operands after the first.
pub open spec fn after_first(ops: Seq<Operand>) -> Seq<Operand> {
    if ops.len() == 0 {
        seq![]
    } else {
        ops.drop_first()
    }
}

/// The JSON of a query; `IS-IN` expands to an `OR` of `EQ` queries.
pub open spec fn screener_query_json(q: Query) -> JsonV
    decreases q, 0nat,
{
    if q.operator == Operator::IsIn {
        node_json("OR"@, isin_eqs(isin_field(q.operands@), after_first(q.operands@)))
    } else {
        node_json(operator_text(q.operator), screener_operands_json(q.operands@))
    }
}

/// The JSON of each operand.
pub open spec fn screener_operands_json(s: Seq<Operand>) -> Seq<JsonV>
    decreases s, 1nat,
{
    if s.len() == 0 {
        seq![]
    } else {
        screener_operands_json(s.drop_last()).push(
            match s.last() {
                Operand::Query(q) => screener_query_json(*q),
                Operand::Field(f) => JsonV::Str(f@),
                Operand::Value(v) => value_json(v),
            },
        )
    }
}

impl Operand {
    /// A nested sub-query operand.
    pub fn query(q: Query) -> (o: Operand)
        ensures
            o == Operand::Query(Box::new(q)),
    {
        Operand::Query(Box::new(q))
    }

    /// A field-name operand.
    pub fn field(s: &str) -> (o: Operand)
        ensures
            o is Field && o->Field_0@ == s@,
    {
        Operand::Field(s.to_owned())
    }

    /// A literal value operand.
    pub fn value(v: ScreenerValue) -> (o: Operand)
        ensures
            o == Operand::Value(v),
    {
        Operand::Value(v)
    }
}

fn eq_node(field: &Json, value: Json) -> (j: Json)
    ensures
        j@ == node_json("EQ"@, seq![field@, value@]),
{
    let ops = vec![field.clone(), value];
    let ghost ov = ops@;
    let members = vec![
        ("operator".to_owned(), Json::Str("EQ".to_owned())),
        ("operands".to_owned(), Json::Array(ops)),
    ];
    let ghost mv = members@;
    proof {
        lemma_items_view(ov);
        assert(items_view(ov) =~= seq![field@, value@]);
        lemma_members_view(mv);
        assert(members_view(mv) =~= seq![
            ("operator"@, JsonV::Str("EQ"@)),
            ("operands"@, JsonV::Array(seq![field@, value@])),
        ]);
    }
    Json::Object(members)
}

fn node(op: &str, ops: Vec<Json>) -> (j: Json)
    ensures
        j@ == node_json(op@, items_view(ops@)),
{
    let ghost ov = ops@;
    let members = vec![
        ("operator".to_owned(), Json::Str(op.to_owned())),
        ("operands".to_owned(), Json::Array(ops)),
    ];
    let ghost mv = members@;
    proof {
        lemma_members_view(mv);
        assert(members_view(mv) =~= seq![
            ("operator"@, JsonV::Str(op@)),
            ("operands"@, JsonV::Array(items_view(ov))),
        ]);
    }
    Json::Object(members)
}

impl Query {
    /// An equity (stock) query.
    pub fn equity(operator: Operator, operands: Vec<Operand>) -> (q: Query)
        ensures
            q == (Query { kind: QueryKind::Equity, operator, operands }),
    {
        Query { kind: QueryKind::Equity, operator, operands }
    }

    /// A mutual-fund query.
    pub fn fund(operator: Operator, operands: Vec<Operand>) -> (q: Query)
        ensures
            q == (Query { kind: QueryKind::Fund, operator, operands }),
    {
        Query { kind: QueryKind::Fund, operator, operands }
    }

    /// An ETF query.
    pub fn etf(operator: Operator, operands: Vec<Operand>) -> (q: Query)
        ensures
            q == (Query { kind: QueryKind::Etf, operator, operands }),
    {
        Query { kind: QueryKind::Etf, operator, operands }
    }

    /// The query in Yahoo's `{"operator", "operands"}` shape; `IS-IN` is
    /// expanded into an `OR` of `EQ` queries.
    pub fn to_value(&self) -> (j: Json)
        ensures
            j@ == screener_query_json(*self),
        decreases self,
    {
        if self.operator == Operator::IsIn {
            let field = if self.operands.len() > 0 {
                match &self.operands[0] {
                    Operand::Field(f) => Json::Str(f.clone()),
                    _ => Json::Null,
                }
            } else {
                Json::Null
            };
            let ghost rest = after_first(self.operands@);
            let mut eqs: Vec<Json> = Vec::new();
            let mut i: usize = 1;
            while i < self.operands.len()
                invariant
                    1 <= i <= self.operands@.len() || (i == 1 && self.operands@.len() == 0),
                    rest == after_first(self.operands@),
                    field@ == isin_field(self.operands@),
                    items_view(eqs@) == isin_eqs(field@, rest.take(i - 1)),
                decreases self.operands@.len() - i,
            {
                let v = match &self.operands[i] {
                    Operand::Value(v) => v.to_json(),
                    Operand::Field(f) => Json::Str(f.clone()),
                    Operand::Query(_) => Json::Null,
                };
                let ghost prev = eqs@;
                let e = eq_node(&field, v);
                eqs.push(e);
                i = i + 1;
                assert(eqs@.drop_last() =~= prev);
                assert(rest.take(i - 1) =~= rest.take(i - 2).push(self.operands@[i - 1]));
                assert(isin_eqs(field@, rest.take(i - 1)) =~= isin_eqs(field@, rest.take(i - 2)).push(
                    node_json("EQ"@, seq![field@, isin_value(self.operands@[i - 1])]),
                ));
            }
            assert(rest.take(i - 1) =~= rest);
            return node("OR", eqs);
        }
        let mut ops: Vec<Json> = Vec::new();
        let mut i: usize = 0;
        while i < self.operands.len()
            invariant
                i <= self.operands@.len(),
                items_view(ops@) == screener_operands_json(self.operands@.take(i as int)),
            decreases self.operands@.len() - i,
        {
            proof {
                assert(decreases_to!(*self => self.operands));
                assert(decreases_to!(self.operands => self.operands@));
                assert(decreases_to!(self.operands@ => self.operands@[i as int]));
            }
            let ghost prev = ops@;
            let j = match &self.operands[i] {
                Operand::Query(q) => {
                    proof {
                        assert(decreases_to!(self.operands@[i as int] => **q));
                    }
                    q.to_value()
                },
                Operand::Field(f) => Json::Str(f.clone()),
                Operand::Value(v) => v.to_json(),
            };
            ops.push(j);
            i = i + 1;
            assert(self.operands@.take(i as int).drop_last() =~= self.operands@.take(i - 1));
            assert(ops@.drop_last() =~= prev);
        }
        assert(self.operands@.take(self.operands@.len() as int) =~= self.operands@);
        node(self.operator.as_str(), ops)
    }
}

/// What to screen: a predefined screen by name, or a custom [`Query`].
#[derive(Debug)]
pub enum ScreenerQuery {
    Predefined(String),
    Custom(Query),
}

/// Options of a screen. `None` fields fall back to the defaults (offset 0,
/// count 25, sort field `ticker`, descending, user id type `guid`).
#[derive(Debug, Clone)]
pub struct ScreenOptions {
    pub offset: Option<u32>,
    pub size: Option<u32>,
    pub count: Option<u32>,
    pub sort_field: Option<String>,
    pub sort_asc: Option<bool>,
    pub user_id: Option<String>,
    pub user_id_type: Option<String>,
}

impl Default for ScreenOptions {
    /// Every option unset.
    fn default() -> (o: ScreenOptions)
        ensures
            o.offset is None && o.size is None && o.count is None && o.sort_field is None
                && o.sort_asc is None && o.user_id is None && o.user_id_type is None,
    {
        ScreenOptions {
            offset: None,
            size: None,
            count: None,
            sort_field: None,
            sort_asc: None,
            user_id: None,
            user_id_type: None,
        }
    }
}

impl ScreenOptions {
    /// The defaults of a custom screen, spelled out.
    pub fn custom_defaults() -> (o: ScreenOptions)
        ensures
            o.offset == Some(0u32),
            o.size is None,
            o.count == Some(25u32),
            o.sort_field matches Some(f) && f@ == "ticker"@,
            o.sort_asc == Some(false),
            o.user_id matches Some(u) && u@.len() == 0,
            o.user_id_type matches Some(t) && t@ == "guid"@,
    {
        let empty = String::new();
        ScreenOptions {
            offset: Some(0),
            size: None,
            count: Some(25),
            sort_field: Some("ticker".to_owned()),
            sort_asc: Some(false),
            user_id: Some(empty),
            user_id_type: Some("guid".to_owned()),
        }
    }
}

/// An optional string, or a default.
pub open spec fn or_text(o: Option<String>, d: Seq<char>) -> Seq<char> {
    match o {
        Some(s) => s@,
        None => d,
    }
}

fn owned_or(o: &Option<String>, d: &str) -> (s: String)
    ensures
        s@ == or_text(*o, d@),
{
    match o {
        Some(v) => v.clone(),
        None => d.to_owned(),
    }
}

/// The common parameters of a screen request.
pub open spec fn screen_base_params(lang: Seq<char>, region: Seq<char>) -> Seq<
    (Seq<char>, Seq<char>),
> {
    seq![
        ("corsDomain"@, "finance.yahoo.com"@),
        ("formatted"@, "false"@),
        ("lang"@, lang),
        ("region"@, region),
    ]
}

/// The query parameters of a custom screen request.
pub fn screen_params(locale: &Locale) -> (p: Vec<(String, String)>)
    ensures
        pairs_view(p@) == screen_base_params(locale.lang@, locale.region@),
{
    let p = vec![
        ("corsDomain".to_owned(), "finance.yahoo.com".to_owned()),
        ("formatted".to_owned(), "false".to_owned()),
        ("lang".to_owned(), locale.lang.clone()),
        ("region".to_owned(), locale.region.clone()),
    ];
    assert(pairs_view(p@) =~= screen_base_params(locale.lang@, locale.region@));
    p
}

/// The POST body of a custom screen: paging, sorting and user fields
/// (defaulted), the query and its quote type, and `size` when set.
pub open spec fn custom_body_json(query: JsonV, quote_type: Seq<char>, o: ScreenOptions) -> JsonV {
    let base = seq![
        ("offset"@, JsonV::Number(JsonNumber::PosInt(
            match o.offset {
                Some(n) => n as u64,
                None => 0,
            },
        ))),
        ("count"@, JsonV::Number(JsonNumber::PosInt(
            match o.count {
                Some(n) => n as u64,
                None => 25,
            },
        ))),
        ("sortField"@, JsonV::Str(or_text(o.sort_field, "ticker"@))),
        ("sortType"@, JsonV::Str(
            if o.sort_asc == Some(true) {
                "ASC"@
            } else {
                "DESC"@
            },
        )),
        ("userId"@, JsonV::Str(or_text(o.user_id, ""@))),
        ("userIdType"@, JsonV::Str(or_text(o.user_id_type, "guid"@))),
        ("query"@, query),
        ("quoteType"@, JsonV::Str(quote_type)),
    ];
    JsonV::Object(
        match o.size {
            Some(n) => base.push(("size"@, JsonV::Number(JsonNumber::PosInt(n as u64)))),
            None => base,
        },
    )
}

/// The POST body of a custom screen.
pub fn screen_custom_body(query: &Json, quote_type: &str, opts: &ScreenOptions) -> (b: Json)
    ensures
        b@ == custom_body_json(query@, quote_type@, *opts),
{
    let offset: u64 = match opts.offset {
        Some(n) => n as u64,
        None => 0,
    };
    let count: u64 = match opts.count {
        Some(n) => n as u64,
        None => 25,
    };
    let asc = match opts.sort_asc {
        Some(b) => b,
        None => false,
    };
    let sort_type: &str = if asc {
        "ASC"
    } else {
        "DESC"
    };
    let mut members = vec![
        ("offset".to_owned(), Json::Number(JsonNumber::PosInt(offset))),
        ("count".to_owned(), Json::Number(JsonNumber::PosInt(count))),
        ("sortField".to_owned(), Json::Str(owned_or(&opts.sort_field, "ticker"))),
        ("sortType".to_owned(), Json::Str(sort_type.to_owned())),
        ("userId".to_owned(), Json::Str(owned_or(&opts.user_id, ""))),
        ("userIdType".to_owned(), Json::Str(owned_or(&opts.user_id_type, "guid"))),
        ("query".to_owned(), query.clone()),
        ("quoteType".to_owned(), Json::Str(quote_type.to_owned())),
    ];
    match opts.size {
        Some(n) => {
            members.push(("size".to_owned(), Json::Number(JsonNumber::PosInt(n as u64))));
        },
        None => {},
    }
    let ghost mv = members@;
    proof {
        lemma_members_view(mv);
        let v = custom_body_json(query@, quote_type@, *opts);
        assert(v is Object);
        assert(members_view(mv) =~= v->Object_0);
    }
    Json::Object(members)
}

/// The message of the error for an unknown predefined screen.
pub open spec fn unknown_screen_message(name: Seq<char>) -> Seq<char> {
    "unknown predefined screener '"@ + name + "'"@
}

/// The entry of a predefined screen in the table of predefined screens;
/// `NotSupported` for an unknown name.
pub fn predefined_entry<'a>(table: &'a Json, name: &str) -> (r: Result<&'a Json, YfError>)
    ensures
        r matches Ok(e) ==> member(table@, name@) == Some(e@),
        r is Err <==> member(table@, name@) is None,
        r matches Err(e) ==> (e matches YfError::NotSupported(m) && m@ == unknown_screen_message(
            name@,
        )),
{
    match table.get_key(name) {
        Some(e) => Ok(e),
        None => Err(
            YfError::NotSupported(concat3("unknown predefined screener '", name, "'")),
        ),
    }
}

/// How a predefined screen is run.
#[derive(Debug)]
pub enum PredefinedPlan {
    /// As a custom screen (when an offset is given, which the saved-screen
    /// endpoint ignores): the entry's query and quote type.
    Custom { query: Json, quote_type: String },
    /// Against the saved-screen endpoint, with these query parameters.
    Saved { params: Vec<(String, String)> },
}

/// The entry's query, `null` when absent.
pub open spec fn entry_query(entry: JsonV) -> JsonV {
    match member(entry, "query"@) {
        Some(q) => q,
        None => JsonV::Null,
    }
}

/// The entry's quote type, `EQUITY` when absent.
pub open spec fn entry_quote_type(entry: JsonV) -> Seq<char> {
    match member_str(entry, "quoteType"@) {
        Some(t) => t,
        None => "EQUITY"@,
    }
}

/// The sort field of a saved screen: the option, else the entry's, else
/// `ticker`.
pub open spec fn saved_sort_field(entry: JsonV, o: ScreenOptions) -> Seq<char> {
    match o.sort_field {
        Some(f) => f@,
        None => match member_str(entry, "sortField"@) {
            Some(f) => f,
            None => "ticker"@,
        },
    }
}

/// The sort order of a saved screen: the option, else whether the entry's
/// sort type is `asc` in any case, else descending.
pub open spec fn saved_sort_asc(entry: JsonV, o: ScreenOptions) -> bool {
    match o.sort_asc {
        Some(b) => b,
        None => match member_str(entry, "sortType"@) {
            Some(t) => eq_ignore_ascii_case(t, "asc"@),
            None => false,
        },
    }
}

/// The page size of a saved screen: the option, else the entry's `count`
/// (truncated to 32 bits), else 25.
pub open spec fn saved_count(entry: JsonV, o: ScreenOptions) -> u32 {
    match o.count {
        Some(c) => c,
        None => match member(entry, "count"@) {
            Some(c) => match uint_of(c) {
                Some(n) => n as u32,
                None => 25,
            },
            None => 25,
        },
    }
}

/// The query parameters of a saved screen.
pub open spec fn saved_params(
    entry: JsonV,
    name: Seq<char>,
    o: ScreenOptions,
    lang: Seq<char>,
    region: Seq<char>,
) -> Seq<(Seq<char>, Seq<char>)> {
    screen_base_params(lang, region) + seq![
        ("scrIds"@, name),
        ("offset"@, "0"@),
        ("count"@, decimal(saved_count(entry, o) as nat)),
        ("sortField"@, saved_sort_field(entry, o)),
        ("sortAsc"@, bool_text(saved_sort_asc(entry, o))),
        ("userId"@, or_text(o.user_id, ""@)),
        ("userIdType"@, or_text(o.user_id_type, "guid"@)),
    ]
}

/// Decides how the predefined screen `name` with table entry `entry` is
/// run: as a custom screen when an offset is given, else against the saved
/// endpoint with parameters defaulted from the entry.
pub fn plan_predefined(entry: &Json, name: &str, opts: &ScreenOptions, locale: &Locale) -> (p:
    PredefinedPlan)
    ensures
        opts.offset is Some ==> (p matches PredefinedPlan::Custom { query, quote_type } && query@
            == entry_query(entry@) && quote_type@ == entry_quote_type(entry@)),
        opts.offset is None ==> (p matches PredefinedPlan::Saved { params } && pairs_view(params@)
            == saved_params(entry@, name@, *opts, locale.lang@, locale.region@)),
{
    if opts.offset.is_some() {
        let query = match entry.get_key("query") {
            Some(q) => q.clone(),
            None => Json::Null,
        };
        let quote_type = match get_member_str(entry, "quoteType") {
            Some(t) => t.to_owned(),
            None => "EQUITY".to_owned(),
        };
        return PredefinedPlan::Custom { query, quote_type };
    }
    let sort_field = match &opts.sort_field {
        Some(f) => f.clone(),
        None => match get_member_str(entry, "sortField") {
            Some(f) => f.to_owned(),
            None => "ticker".to_owned(),
        },
    };
    let sort_asc = match opts.sort_asc {
        Some(b) => b,
        None => match get_member_str(entry, "sortType") {
            Some(t) => {
                let tc = chars_vec(t);
                let asc = chars_vec("asc");
                chars_eq_ignore_ascii_case(tc.as_slice(), asc.as_slice())
            },
            None => false,
        },
    };
    let count: u32 = match opts.count {
        Some(c) => c,
        None => match entry.get_key("count") {
            Some(c) => match c.as_u64() {
                Some(n) => n as u32,
                None => 25,
            },
            None => 25,
        },
    };
    let mut params = screen_params(locale);
    let ghost base = pairs_view(params@);
    params.push(("scrIds".to_owned(), name.to_owned()));
    params.push(("offset".to_owned(), "0".to_owned()));
    params.push(("count".to_owned(), decimal_string(count as u64)));
    params.push(("sortField".to_owned(), sort_field));
    params.push(("sortAsc".to_owned(), bool_string(sort_asc)));
    params.push(("userId".to_owned(), owned_or(&opts.user_id, "")));
    params.push(("userIdType".to_owned(), owned_or(&opts.user_id_type, "guid")));
    assert(pairs_view(params@) =~= saved_params(
        entry@,
        name@,
        *opts,
        locale.lang@,
        locale.region@,
    ));
    PredefinedPlan::Saved { params }
}

/// The message of the error for a screen reply without a result.
pub open spec fn screener_missing_message() -> Seq<char> {
    "screener result"@
}

/// `finance.result[0]` of a screen reply; `DataMissing` when absent.
pub fn screener_result_node(v: &Json) -> (r: Result<&Json, YfError>)
    ensures
        r matches Ok(n) ==> first_result(v@, "finance"@) == Some(n@),
        r is Err <==> first_result(v@, "finance"@) is None,
        r matches Err(e) ==> (e matches YfError::DataMissing(m) && m@ == screener_missing_message()),
{
    match crate::json::yf_result_first(v, "finance") {
        Ok(n) => Ok(n),
        Err(_) => Err(YfError::DataMissing("screener result".to_owned())),
    }
}

/// The string of the first of two members: `k1` when present (a non-string
/// there gives `None`), else `k2`.
pub open spec fn str_member_or(q: JsonV, k1: Seq<char>, k2: Seq<char>) -> Option<Seq<char>> {
    match member(q, k1) {
        Some(x) => str_of(x),
        None => member_str(q, k2),
    }
}

/// [`str_member_or`]: a quote's name under either spelling.
pub fn quote_name(q: &Json, k1: &str, k2: &str) -> (r: Option<String>)
    ensures
        crate::json::opt_string_view(r) == str_member_or(q@, k1@, k2@),
{
    let n = match q.get_key(k1) {
        Some(x) => x.as_str(),
        None => get_member_str(q, k2),
    };
    match n {
        Some(s) => Some(s.to_owned()),
        None => None,
    }
}

/// The volume of a quote: `regularMarketVolume.raw` as an unsigned integer,
/// else `regularMarketVolume` itself.
pub open spec fn quote_volume_spec(q: JsonV) -> Option<u64> {
    match member(q, "regularMarketVolume"@) {
        Some(v) => match member(v, "raw"@) {
            Some(r) => match uint_of(r) {
                Some(n) => Some(n),
                None => uint_of(v),
            },
            None => uint_of(v),
        },
        None => None,
    }
}

/// The volume of a screen quote.
pub fn quote_volume(q: &Json) -> (r: Option<u64>)
    ensures
        r == quote_volume_spec(q@),
{
    match q.get_key("regularMarketVolume") {
        Some(v) => match v.get_key("raw") {
            Some(raw) => match raw.as_u64() {
                Some(n) => Some(n),
                None => v.as_u64(),
            },
            None => v.as_u64(),
        },
        None => None,
    }
}

/// A number read the screener way: the member itself when a number, else
/// its `raw` member when that is a number.
pub open spec fn dig_number(q: JsonV, key: Seq<char>) -> Option<JsonNumber> {
    match member(q, key) {
        Some(JsonV::Number(n)) => Some(n),
        Some(c) => crate::json::member_number(c, "raw"@),
        None => None,
    }
}

fn dig_num(q: &Json, key: &str) -> (r: Option<JsonNumber>)
    ensures
        r == dig_number(q@, key@),
{
    match q.get_key(key) {
        Some(Json::Number(n)) => Some(n.clone()),
        Some(c) => crate::json::get_member_number(c, "raw"),
        None => None,
    }
}

/// One quote of a screen, its numbers as sent.
#[derive(Debug, Clone)]
pub struct QuoteFields {
    pub symbol: Option<String>,
    pub short_name: Option<String>,
    pub long_name: Option<String>,
    pub exchange: Option<String>,
    pub quote_type: Option<String>,
    pub price: Option<JsonNumber>,
    pub market_cap: Option<JsonNumber>,
    pub percent_change: Option<JsonNumber>,
    pub volume: Option<u64>,
}

/// A screen quote read from a quote node.
pub open spec fn quote_matches(f: QuoteFields, q: JsonV) -> bool {
    &&& crate::json::opt_string_view(f.symbol) == member_str(q, "symbol"@)
    &&& crate::json::opt_string_view(f.short_name) == str_member_or(q, "shortname"@, "shortName"@)
    &&& crate::json::opt_string_view(f.long_name) == str_member_or(q, "longname"@, "longName"@)
    &&& crate::json::opt_string_view(f.exchange) == member_str(q, "exchange"@)
    &&& crate::json::opt_string_view(f.quote_type) == member_str(q, "quoteType"@)
    &&& f.price == dig_number(q, "regularMarketPrice"@)
    &&& f.market_cap == dig_number(q, "marketCap"@)
    &&& f.percent_change == dig_number(q, "regularMarketChangePercent"@)
    &&& f.volume == quote_volume_spec(q)
}

/// Reads one screen quote.
pub fn parse_quote(q: &Json) -> (f: QuoteFields)
    ensures
        quote_matches(f, q@),
{
    QuoteFields {
        symbol: crate::json::get_member_string(q, "symbol"),
        short_name: quote_name(q, "shortname", "shortName"),
        long_name: quote_name(q, "longname", "longName"),
        exchange: crate::json::get_member_string(q, "exchange"),
        quote_type: crate::json::get_member_string(q, "quoteType"),
        price: dig_num(q, "regularMarketPrice"),
        market_cap: dig_num(q, "marketCap"),
        percent_change: dig_num(q, "regularMarketChangePercent"),
        volume: quote_volume(q),
    }
}

/// The quotes of a screen result: one per item of its `quotes` array.
pub fn parse_quotes(r: &Json) -> (qs: Vec<QuoteFields>)
    ensures
        ({
            let es = match member(r@, "quotes"@) {
                Some(JsonV::Array(items)) => items,
                _ => seq![],
            };
            &&& qs@.len() == es.len()
            &&& forall|i: int| 0 <= i < es.len() ==> quote_matches(#[trigger] qs@[i], es[i])
        }),
{
    let mut out: Vec<QuoteFields> = Vec::new();
    match r.get_key("quotes") {
        Some(n) => match n.as_array() {
            Some(arr) => {
                let ghost es = items_view(arr@);
                proof {
                    lemma_items_view(arr@);
                }
                let mut i: usize = 0;
                while i < arr.len()
                    invariant
                        i <= arr@.len(),
                        es == items_view(arr@),
                        es.len() == arr@.len(),
                        forall|j: int| 0 <= j < arr@.len() ==> #[trigger] es[j] == arr@[j]@,
                        out@.len() == i,
                        forall|j: int| 0 <= j < i ==> quote_matches(#[trigger] out@[j], es[j]),
                    decreases arr@.len() - i,
                {
                    out.push(parse_quote(&arr[i]));
                    i = i + 1;
                }
            },
            None => {},
        },
        None => {},
    }
    out
}

/// The `total` of a screen result.
pub fn screen_total(r: &Json) -> (t: Option<u64>)
    ensures
        t == match member(r@, "total"@) {
            Some(n) => uint_of(n),
            None => None,
        },
{
    match r.get_key("total") {
        Some(n) => n.as_u64(),
        None => None,
    }
}

} // verus!
