//! Price queries, unit prices, and the pricing lookups that need no network:
//! the Azure retail-price query text, the PlanetScale price list and fixed
//! price tables.

use vstd::prelude::*;

use crate::decimal::Decimal;
use crate::money::{BillingPeriod, Currency, Money};
use crate::resource::Cloud;
use crate::text::{concat, owned, push_char, str_eq};
use vstd::utf8::encode_utf8;

verus! {

/// One `field = value` condition of a price query.
#[derive(Debug)]
pub struct PriceFilter {
    pub field: String,
    pub value: String,
}

/// What price is asked for.
#[derive(Debug)]
pub struct PriceQuery {
    pub cloud: Cloud,
    pub service: String,
    pub region: String,
    pub filters: Vec<PriceFilter>,
}

/// A query as plain values.
pub ghost struct QueryView {
    pub cloud: Cloud,
    pub service: Seq<char>,
    pub region: Seq<char>,
    pub filters: Seq<(Seq<char>, Seq<char>)>,
}

impl View for PriceQuery {
    type V = QueryView;

    open spec fn view(&self) -> QueryView {
        QueryView {
            cloud: self.cloud,
            service: self.service@,
            region: self.region@,
            filters: self.filters@.map_values(|f: PriceFilter| (f.field@, f.value@)),
        }
    }
}

impl PriceQuery {
    /// An Azure query for `service` in `region`, without filters.
    pub fn azure(service: &str, region: &str) -> (q: PriceQuery)
        ensures
            q@ == (QueryView { cloud: Cloud::Azure, service: service@, region: region@, filters: Seq::empty() }),
    {
        let q = PriceQuery { cloud: Cloud::Azure, service: owned(service), region: owned(region), filters: Vec::new() };
        assert(q@.filters =~= Seq::<(Seq<char>, Seq<char>)>::empty());
        q
    }

    /// This query with the condition `field = value` added last.
    pub fn filter(self, field: &str, value: &str) -> (q: PriceQuery)
        ensures
            q@ == (QueryView { filters: self@.filters.push((field@, value@)), ..self@ }),
    {
        let mut q = self;
        q.filters.push(PriceFilter { field: owned(field), value: owned(value) });
        assert(q@.filters =~= self@.filters.push((field@, value@)));
        q
    }
}

/// A price per unit.
#[derive(Clone, Copy, Debug)]
pub struct UnitPrice {
    pub unit: BillingPeriod,
    pub price: Money,
}

impl UnitPrice {
    /// A price of `amount` US dollars per hour.
    pub fn hourly_usd(amount: Decimal) -> (p: UnitPrice)
        ensures
            p.unit == BillingPeriod::Hour,
            p.price == (Money { currency: Currency::USD, amount }),
    {
        UnitPrice { unit: BillingPeriod::Hour, price: Money::usd(amount) }
    }

    /// A price of `amount` US dollars per month.
    pub fn monthly_usd(amount: Decimal) -> (p: UnitPrice)
        ensures
            p.unit == BillingPeriod::Month,
            p.price == (Money { currency: Currency::USD, amount }),
    {
        UnitPrice { unit: BillingPeriod::Month, price: Money::usd(amount) }
    }
}

/// What can go wrong while looking up a price.
#[derive(Debug)]
pub enum PricingError {
    Http(String),
    NotFound(String),
    RateLimited,
    Cache(String),
    Deserialize(String),
}

/// The message of a pricing error.
pub open spec fn pricing_message(e: PricingError) -> Seq<char> {
    match e {
        PricingError::Http(m) => "HTTP request failed: "@ + m@,
        PricingError::NotFound(m) => "price not found for query: "@ + m@,
        PricingError::RateLimited => "rate limited by pricing API"@,
        PricingError::Cache(m) => "cache error: "@ + m@,
        PricingError::Deserialize(m) => "deserialization error: "@ + m@,
    }
}

impl PricingError {
    /// The message of this error (its `Display`).
    pub fn message(&self) -> (s: String)
        ensures
            s@ == pricing_message(*self),
    {
        match self {
            PricingError::Http(m) => concat("HTTP request failed: ", m.as_str()),
            PricingError::NotFound(m) => concat("price not found for query: ", m.as_str()),
            PricingError::RateLimited => owned("rate limited by pricing API"),
            PricingError::Cache(m) => concat("cache error: ", m.as_str()),
            PricingError::Deserialize(m) => concat("deserialization error: ", m.as_str()),
        }
    }
}

// ---------------------------------------------------------------------------
// Percent-encoding of query text

/// Whether a byte is sent as itself in a URI component.
pub open spec fn is_unreserved(b: u8) -> bool {
    (65 <= b <= 90) || (97 <= b <= 122) || (48 <= b <= 57) || b == 45 || b == 95 || b == 46 || b == 126
}

/// The upper-case hexadecimal digit of a value below 16.
pub open spec fn hex_digit(d: u8) -> char {
    if d < 10 {
        (48 + d) as char
    } else {
        (55 + d) as char
    }
}

/// The encoding of one byte: itself, or `%` and two upper-case hex digits.
pub open spec fn encode_byte(b: u8) -> Seq<char> {
    if is_unreserved(b) {
        seq![b as char]
    } else {
        seq!['%', hex_digit(b / 16), hex_digit(b % 16)]
    }
}

/// The percent-encoding of a byte sequence, byte by byte.
pub open spec fn encode_bytes(bs: Seq<u8>) -> Seq<char>
    decreases bs.len(),
{
    if bs.len() == 0 {
        Seq::empty()
    } else {
        encode_bytes(bs.drop_last()) + encode_byte(bs.last())
    }
}

fn hex_char(d: u8) -> (c: char)
    requires
        d < 16,
    ensures
        c == hex_digit(d),
{
    if d < 10 {
        (48 + d) as char
    } else {
        (55 + d) as char
    }
}

/// Percent-encodes the UTF-8 bytes of `s`: letters, digits and `-_.~` stay,
/// every other byte becomes `%XX`.
pub fn encode_uri_component(s: &str) -> (r: String)
    ensures
        r@ == encode_bytes(encode_utf8(s@)),
{
    let bytes = s.as_bytes();
    let mut r = String::new();
    let mut i: usize = 0;
    while i < bytes.len()
        invariant
            bytes@ == encode_utf8(s@),
            i <= bytes@.len(),
            r@ == encode_bytes(bytes@.subrange(0, i as int)),
        decreases bytes.len() - i,
    {
        let b = bytes[i];
        let ghost pre = bytes@.subrange(0, i + 1);
        assert(pre.drop_last() =~= bytes@.subrange(0, i as int));
        assert(pre.last() == b);
        let ghost before = r@;
        if (65 <= b && b <= 90) || (97 <= b && b <= 122) || (48 <= b && b <= 57) || b == 45 || b == 95 || b == 46 || b == 126 {
            push_char(&mut r, b as char);
            assert(r@ =~= before + encode_byte(b));
        } else {
            push_char(&mut r, '%');
            push_char(&mut r, hex_char(b / 16));
            push_char(&mut r, hex_char(b % 16));
            assert(r@ =~= before + encode_byte(b));
        }
        i = i + 1;
    }
    assert(bytes@.subrange(0, bytes@.len() as int) =~= bytes@);
    r
}

/// The value of an upper-case hexadecimal digit.
pub open spec fn hex_value(c: char) -> u8 {
    if '0' <= c <= '9' {
        (c as u8 - 48) as u8
    } else {
        (c as u8 - 55) as u8
    }
}

/// Percent-decoding, from the front: `%XX` is one byte, any other character is
/// its own code.
pub open spec fn decode(cs: Seq<char>) -> Seq<u8>
    decreases cs.len(),
{
    if cs.len() == 0 {
        Seq::empty()
    } else if cs[0] == '%' && cs.len() >= 3 {
        seq![(hex_value(cs[1]) * 16 + hex_value(cs[2])) as u8] + decode(cs.subrange(3, cs.len() as int))
    } else {
        seq![cs[0] as u8] + decode(cs.drop_first())
    }
}

/// Decoding the encoding of one byte followed by more text gives the byte
/// followed by the decoding of the text.
proof fn lemma_decode_byte(b: u8, rest: Seq<char>)
    ensures
        decode(encode_byte(b) + rest) == seq![b] + decode(rest),
{
    let e = encode_byte(b) + rest;
    if is_unreserved(b) {
        assert(e[0] == b as char);
        assert(e[0] != '%');
        assert(e.drop_first() =~= rest);
        assert((b as char) as u8 == b);
    } else {
        assert(e[0] == '%');
        assert(e.subrange(3, e.len() as int) =~= rest);
        let hi = b / 16;
        let lo = b % 16;
        assert(hex_value(hex_digit(hi)) == hi);
        assert(hex_value(hex_digit(lo)) == lo);
        assert(hi * 16 + lo == b);
    }
}

/// Decoding an encoding gives back the bytes.
pub proof fn lemma_decode_encode(bs: Seq<u8>)
    ensures
        decode(encode_bytes(bs)) == bs,
    decreases bs.len(),
{
    lemma_encode_front(bs);
    if bs.len() > 0 {
        lemma_decode_encode(bs.drop_first());
        lemma_decode_byte(bs[0], encode_bytes(bs.drop_first()));
        assert(seq![bs[0]] + bs.drop_first() =~= bs);
    }
}

/// The encoding, taken from the front.
proof fn lemma_encode_front(bs: Seq<u8>)
    ensures
        bs.len() > 0 ==> encode_bytes(bs) == encode_byte(bs[0]) + encode_bytes(bs.drop_first()),
    decreases bs.len(),
{
    if bs.len() > 1 {
        lemma_encode_front(bs.drop_last());
        assert(bs.drop_last().drop_first() =~= bs.drop_first().drop_last());
        assert(bs.drop_first().last() == bs.last());
        assert(bs.drop_last()[0] == bs[0]);
        assert(encode_byte(bs[0]) + encode_bytes(bs.drop_first().drop_last()) + encode_byte(bs.last())
            =~= encode_byte(bs[0]) + (encode_bytes(bs.drop_first().drop_last()) + encode_byte(bs.last())));
    } else if bs.len() == 1 {
        assert(bs.drop_first() =~= Seq::<u8>::empty());
        assert(bs.drop_last() =~= Seq::<u8>::empty());
        assert(encode_byte(bs[0]) + Seq::<char>::empty() =~= encode_byte(bs[0]));
        assert(Seq::<char>::empty() + encode_byte(bs[0]) =~= encode_byte(bs[0]));
    }
}

// ---------------------------------------------------------------------------
// Azure retail prices

/// The unit an Azure price is quoted per.
pub open spec fn unit_of_measure(uom: Seq<char>) -> BillingPeriod {
    if uom == "1 Second"@ {
        BillingPeriod::Second
    } else if uom == "1 Hour"@ {
        BillingPeriod::Hour
    } else if uom == "1/Month"@ || uom == "1/Day"@ {
        BillingPeriod::Month
    } else if uom == "1 GB/Month"@ || uom == "1 GiB/Month"@ {
        BillingPeriod::GBMonth
    } else if uom == "1 GiB Second"@ {
        BillingPeriod::GiBSecond
    } else {
        BillingPeriod::Month
    }
}

/// The billing unit of an Azure `unitOfMeasure`; unknown units count per month.
pub fn parse_unit_of_measure(uom: &str) -> (p: BillingPeriod)
    ensures
        p == unit_of_measure(uom@),
{
    if str_eq(uom, "1 Second") {
        BillingPeriod::Second
    } else if str_eq(uom, "1 Hour") {
        BillingPeriod::Hour
    } else if str_eq(uom, "1/Month") || str_eq(uom, "1/Day") {
        BillingPeriod::Month
    } else if str_eq(uom, "1 GB/Month") || str_eq(uom, "1 GiB/Month") {
        BillingPeriod::GBMonth
    } else if str_eq(uom, "1 GiB Second") {
        BillingPeriod::GiBSecond
    } else {
        BillingPeriod::Month
    }
}

/// The OData text of one filter condition.
pub open spec fn filter_part(f: (Seq<char>, Seq<char>)) -> Seq<char> {
    if f.0 == "contains"@ {
        "contains("@ + f.1 + ", '"@ + f.0 + "')"@
    } else {
        f.0 + " eq '"@ + f.1 + "'"@
    }
}

/// The OData text of the filter conditions, each preceded by ` and `.
pub open spec fn filter_parts(fs: Seq<(Seq<char>, Seq<char>)>) -> Seq<char>
    decreases fs.len(),
{
    if fs.len() == 0 {
        Seq::empty()
    } else {
        filter_parts(fs.drop_last()) + " and "@ + filter_part(fs.last())
    }
}

/// The `$filter` of an Azure retail-price query: the service, the region when
/// there is one, then each condition, joined by ` and `.
pub open spec fn azure_filter_text(q: QueryView) -> Seq<char> {
    let head = "serviceName eq '"@ + q.service + "'"@;
    let with_region = if q.region.len() == 0 {
        head
    } else {
        head + " and "@ + "armRegionName eq '"@ + q.region + "'"@
    };
    with_region + filter_parts(q.filters)
}

/// The `$filter` of the Azure retail-price query for `query`.
pub fn azure_filter(query: &PriceQuery) -> (s: String)
    ensures
        s@ == azure_filter_text(query@),
{
    let mut s = concat("serviceName eq '", query.service.as_str());
    s.append("'");
    if !query.region.as_str().is_empty() {
        s.append(" and ");
        s.append("armRegionName eq '");
        s.append(query.region.as_str());
        s.append("'");
    }
    let ghost head = s@;
    let ghost fv = query@.filters;
    let mut i: usize = 0;
    while i < query.filters.len()
        invariant
            i <= query.filters@.len(),
            fv == query@.filters,
            s@ == head + filter_parts(fv.subrange(0, i as int)),
        decreases query.filters.len() - i,
    {
        let f = &query.filters[i];
        let ghost pre = fv.subrange(0, i + 1);
        assert(pre.drop_last() =~= fv.subrange(0, i as int));
        assert(pre.last() == (f.field@, f.value@));
        s.append(" and ");
        if str_eq(f.field.as_str(), "contains") {
            s.append("contains(");
            s.append(f.value.as_str());
            s.append(", '");
            s.append(f.field.as_str());
            s.append("')");
        } else {
            s.append(f.field.as_str());
            s.append(" eq '");
            s.append(f.value.as_str());
            s.append("'");
        }
        i = i + 1;
    }
    assert(fv.subrange(0, fv.len() as int) =~= fv);
    s
}

/// The URL of the Azure retail-price query for `query` at `base_url`.
pub fn azure_query_url(base_url: &str, query: &PriceQuery) -> (u: String)
    ensures
        u@ == base_url@ + "?api-version=2023-01-01-preview&$filter="@ + encode_bytes(encode_utf8(azure_filter_text(query@))),
{
    let filter = azure_filter(query);
    let encoded = encode_uri_component(filter.as_str());
    let mut u = owned(base_url);
    u.append("?api-version=2023-01-01-preview&$filter=");
    u.append(encoded.as_str());
    u
}

/// The error for a response status of the Azure retail-price API, given the
/// status code and its printed form (such as `404 Not Found`).
pub fn azure_status_error(status: u16, status_text: &str) -> (r: Option<PricingError>)
    ensures
        status == 429 ==> r == Some(PricingError::RateLimited),
        status != 429 && !(200 <= status <= 299) ==> (r matches Some(PricingError::Http(m)) && m@ == "Azure pricing API returned "@ + status_text@),
        200 <= status <= 299 ==> r is None,
{
    if status == 429 {
        Some(PricingError::RateLimited)
    } else if status < 200 || status > 299 {
        Some(PricingError::Http(concat("Azure pricing API returned ", status_text)))
    } else {
        None
    }
}

/// The first price item of a response: its retail price converted to a
/// decimal (or the conversion's error message) and its unit of measure.
pub struct PriceItem {
    pub retail_price: Result<Decimal, String>,
    pub unit_of_measure: String,
}

/// The price of a response for a query with `filter`: the first item's price
/// in US dollars per its unit; no item is a price not found, and a price that
/// does not convert to a decimal is a deserialization error.
pub fn azure_price(filter: &str, first: Option<&PriceItem>) -> (r: Result<UnitPrice, PricingError>)
    ensures
        first is None ==> (r matches Err(PricingError::NotFound(m)) && m@ == "no price found for filter: "@ + filter@),
        first matches Some(item) ==> match item.retail_price {
            Err(e) => r matches Err(PricingError::Deserialize(m)) && m@ == e@,
            Ok(amount) => r matches Ok(p) && p.unit == unit_of_measure(item.unit_of_measure@) && p.price == (Money { currency: Currency::USD, amount }),
        },
{
    match first {
        None => Err(PricingError::NotFound(concat("no price found for filter: ", filter))),
        Some(item) => match &item.retail_price {
            Err(e) => Err(PricingError::Deserialize(e.clone())),
            Ok(amount) => Ok(UnitPrice { unit: parse_unit_of_measure(item.unit_of_measure.as_str()), price: Money::usd(*amount) }),
        },
    }
}

/// Where the Azure retail-price API is.
pub struct AzurePricingClient {
    pub base_url: String,
}

impl AzurePricingClient {
    /// A client of the public Azure retail-price API.
    pub fn new() -> (c: AzurePricingClient)
        ensures
            c.base_url@ == "https://prices.azure.com/api/retail/prices"@,
    {
        AzurePricingClient { base_url: owned("https://prices.azure.com/api/retail/prices") }
    }

    /// The URL of the query for `query`.
    pub fn query_url(&self, query: &PriceQuery) -> (u: String)
        ensures
            u@ == self.base_url@ + "?api-version=2023-01-01-preview&$filter="@ + encode_bytes(encode_utf8(azure_filter_text(query@))),
    {
        azure_query_url(self.base_url.as_str(), query)
    }
}

/// Where the AWS price API is.
pub struct AwsPricingClient {
    pub base_url: String,
}

impl AwsPricingClient {
    /// A client of the default AWS price API.
    pub fn new() -> (c: AwsPricingClient)
        ensures
            c.base_url@ == "https://pricing.api.infracost.io"@,
    {
        AwsPricingClient { base_url: owned("https://pricing.api.infracost.io") }
    }

    /// This client with another API location.
    pub fn with_base_url(self, url: String) -> (c: AwsPricingClient)
        ensures
            c.base_url@ == url@,
    {
        AwsPricingClient { base_url: url }
    }
}

// ---------------------------------------------------------------------------
// PlanetScale list prices

/// A price list: sizes and their monthly prices.
pub open spec fn table_view(t: Seq<(String, Decimal)>) -> Seq<(Seq<char>, Decimal)> {
    t.map_values(|e: (String, Decimal)| (e.0@, e.1))
}

/// The first price listed for `size`.
pub open spec fn table_lookup(t: Seq<(Seq<char>, Decimal)>, size: Seq<char>) -> Option<Decimal>
    decreases t.len(),
{
    if t.len() == 0 {
        None
    } else if t[0].0 == size {
        Some(t[0].1)
    } else {
        table_lookup(t.drop_first(), size)
    }
}

/// The value of the first filter on `field`, if any.
pub open spec fn first_filter_value(fs: Seq<(Seq<char>, Seq<char>)>, field: Seq<char>) -> Option<Seq<char>>
    decreases fs.len(),
{
    if fs.len() == 0 {
        None
    } else if fs[0].0 == field {
        Some(fs[0].1)
    } else {
        first_filter_value(fs.drop_first(), field)
    }
}

/// PlanetScale's published monthly prices.
pub struct PlanetScalePricingClient {
    pub postgres_prices: Vec<(String, Decimal)>,
    pub vitess_prices: Vec<(String, Decimal)>,
    pub storage_overage_per_gb: Decimal,
}

fn price_entry(size: &str, dollars: u32) -> (e: (String, Decimal))
    ensures
        e.0@ == size@,
        e.1.wf(),
        e.1.mantissa == dollars,
        e.1.scale == 0,
{
    (owned(size), Decimal::from_u32(dollars))
}

/// The PlanetScale Postgres cluster sizes and their monthly prices.
pub open spec fn postgres_list() -> Seq<(Seq<char>, int)> {
    seq![
        ("PS-5"@, 15int), ("PS-10"@, 34int), ("PS-20"@, 59int), ("PS-40"@, 99int),
        ("PS-80"@, 179int), ("PS-160"@, 349int), ("PS-320"@, 699int), ("PS-400"@, 999int),
    ]
}

/// The PlanetScale Vitess cluster sizes and their monthly prices.
pub open spec fn vitess_list() -> Seq<(Seq<char>, int)> {
    seq![
        ("PS-10"@, 39int), ("PS-20"@, 59int), ("PS-40"@, 99int), ("PS-80"@, 179int),
        ("PS-160"@, 349int), ("PS-320"@, 699int), ("PS-400"@, 999int),
    ]
}

/// Whether a price table lists exactly the given whole-dollar prices.
pub open spec fn lists(t: Seq<(Seq<char>, Decimal)>, l: Seq<(Seq<char>, int)>) -> bool {
    &&& t.len() == l.len()
    &&& forall|i: int| 0 <= i < t.len() ==> (#[trigger] t[i]).0 == l[i].0 && t[i].1.mantissa == l[i].1 && t[i].1.scale == 0 && t[i].1.wf()
}

/// What a PlanetScale price query is answered: the monthly price of the
/// cluster size (by default `PS-10`) for Postgres or Vitess, the storage
/// overage price per GB, or not found.
pub open spec fn planetscale_answer(c: PlanetScaleView, q: QueryView) -> Result<UnitPrice, Seq<char>> {
    let size = match first_filter_value(q.filters, "clusterSize"@) {
        Some(v) => v,
        None => "PS-10"@,
    };
    let price = if q.service == "PlanetScale Postgres"@ {
        table_lookup(c.postgres, size)
    } else if q.service == "PlanetScale Vitess"@ {
        table_lookup(c.vitess, size)
    } else if q.service == "PlanetScale Storage"@ {
        Some(c.storage)
    } else {
        None
    };
    match price {
        Some(a) => Ok(UnitPrice { unit: BillingPeriod::Month, price: Money { currency: Currency::USD, amount: a } }),
        None => Err("no PlanetScale price for service="@ + q.service + " cluster_size="@ + size),
    }
}

/// A PlanetScale price list as plain values.
pub ghost struct PlanetScaleView {
    pub postgres: Seq<(Seq<char>, Decimal)>,
    pub vitess: Seq<(Seq<char>, Decimal)>,
    pub storage: Decimal,
}

impl View for PlanetScalePricingClient {
    type V = PlanetScaleView;

    open spec fn view(&self) -> PlanetScaleView {
        PlanetScaleView {
            postgres: table_view(self.postgres_prices@),
            vitess: table_view(self.vitess_prices@),
            storage: self.storage_overage_per_gb,
        }
    }
}

/// The first price listed for `size` in a table.
fn lookup_price(t: &Vec<(String, Decimal)>, size: &str) -> (r: Option<Decimal>)
    ensures
        r == table_lookup(table_view(t@), size@),
{
    let ghost tv = table_view(t@);
    assert(tv.subrange(0, tv.len() as int) =~= tv);
    let mut i: usize = 0;
    while i < t.len()
        invariant
            i <= t@.len(),
            tv == table_view(t@),
            table_lookup(tv, size@) == table_lookup(tv.subrange(i as int, tv.len() as int), size@),
        decreases t.len() - i,
    {
        let ghost rest = tv.subrange(i as int, tv.len() as int);
        assert(rest[0] == tv[i as int]);
        assert(rest.drop_first() =~= tv.subrange(i + 1, tv.len() as int));
        if str_eq(t[i].0.as_str(), size) {
            return Some(t[i].1);
        }
        i = i + 1;
    }
    None
}

/// The value of the first filter on `field`.
fn filter_value<'a>(q: &'a PriceQuery, field: &str) -> (r: Option<&'a str>)
    ensures
        r matches Some(v) ==> first_filter_value(q@.filters, field@) == Some(v@),
        r is None ==> first_filter_value(q@.filters, field@) is None,
{
    let ghost fv = q@.filters;
    assert(fv.subrange(0, fv.len() as int) =~= fv);
    let mut i: usize = 0;
    while i < q.filters.len()
        invariant
            i <= q.filters@.len(),
            fv == q@.filters,
            first_filter_value(fv, field@) == first_filter_value(fv.subrange(i as int, fv.len() as int), field@),
        decreases q.filters.len() - i,
    {
        let ghost rest = fv.subrange(i as int, fv.len() as int);
        assert(rest[0] == fv[i as int]);
        assert(rest.drop_first() =~= fv.subrange(i + 1, fv.len() as int));
        if str_eq(q.filters[i].field.as_str(), field) {
            return Some(q.filters[i].value.as_str());
        }
        i = i + 1;
    }
    None
}

impl PlanetScalePricingClient {
    /// The published price list.
    pub fn new() -> (c: PlanetScalePricingClient)
        ensures
            lists(c@.postgres, postgres_list()),
            lists(c@.vitess, vitess_list()),
            c@.storage.wf() && c@.storage.mantissa == 50 && c@.storage.scale == 2,
    {
        let postgres_prices = vec![
            price_entry("PS-5", 15), price_entry("PS-10", 34), price_entry("PS-20", 59),
            price_entry("PS-40", 99), price_entry("PS-80", 179), price_entry("PS-160", 349),
            price_entry("PS-320", 699), price_entry("PS-400", 999),
        ];
        let vitess_prices = vec![
            price_entry("PS-10", 39), price_entry("PS-20", 59), price_entry("PS-40", 99),
            price_entry("PS-80", 179), price_entry("PS-160", 349), price_entry("PS-320", 699),
            price_entry("PS-400", 999),
        ];
        let c = PlanetScalePricingClient { postgres_prices, vitess_prices, storage_overage_per_gb: Decimal::new(50, 2) };
        assert(lists(c@.postgres, postgres_list()));
        assert(lists(c@.vitess, vitess_list()));
        c
    }

    /// Answers a price query from the list.
    pub fn do_query(&self, query: &PriceQuery) -> (r: Result<UnitPrice, PricingError>)
        ensures
            match (r, planetscale_answer(self@, query@)) {
                (Ok(p), Ok(e)) => p == e,
                (Err(PricingError::NotFound(m)), Err(e)) => m@ == e,
                _ => false,
            },
    {
        let size: &str = match filter_value(query, "clusterSize") {
            Some(v) => v,
            None => "PS-10",
        };
        let price = if str_eq(query.service.as_str(), "PlanetScale Postgres") {
            lookup_price(&self.postgres_prices, size)
        } else if str_eq(query.service.as_str(), "PlanetScale Vitess") {
            lookup_price(&self.vitess_prices, size)
        } else if str_eq(query.service.as_str(), "PlanetScale Storage") {
            Some(self.storage_overage_per_gb)
        } else {
            None
        };
        match price {
            Some(amount) => Ok(UnitPrice { unit: BillingPeriod::Month, price: Money::usd(amount) }),
            None => {
                let mut m = concat("no PlanetScale price for service=", query.service.as_str());
                m.append(" cluster_size=");
                m.append(size);
                Err(PricingError::NotFound(m))
            },
        }
    }
}

// ---------------------------------------------------------------------------
// Fixed price tables

/// The text of the filter conditions: `field=value` for each, joined by `,`.
pub open spec fn filters_key(fs: Seq<(Seq<char>, Seq<char>)>) -> Seq<char>
    decreases fs.len(),
{
    if fs.len() == 0 {
        Seq::empty()
    } else if fs.len() == 1 {
        fs[0].0 + "="@ + fs[0].1
    } else {
        filters_key(fs.drop_last()) + ","@ + fs.last().0 + "="@ + fs.last().1
    }
}

/// The key a fixed price table is looked up by: `service:region:filters`.
pub open spec fn static_key(q: QueryView) -> Seq<char> {
    q.service + ":"@ + q.region + ":"@ + filters_key(q.filters)
}

/// The first entry listed under key `k`.
pub open spec fn static_lookup(t: Seq<(Seq<char>, UnitPrice)>, k: Seq<char>) -> Option<UnitPrice>
    decreases t.len(),
{
    if t.len() == 0 {
        None
    } else if t[0].0 == k {
        Some(t[0].1)
    } else {
        static_lookup(t.drop_first(), k)
    }
}

/// A fixed table of prices, keyed by `service:region:field=value,...`.
pub struct StaticPricingClient {
    pub prices: Vec<(String, UnitPrice)>,
}

impl View for StaticPricingClient {
    type V = Seq<(Seq<char>, UnitPrice)>;

    open spec fn view(&self) -> Seq<(Seq<char>, UnitPrice)> {
        self.prices@.map_values(|e: (String, UnitPrice)| (e.0@, e.1))
    }
}

impl StaticPricingClient {
    /// A client answering from `prices`.
    pub fn new(prices: Vec<(String, UnitPrice)>) -> (c: StaticPricingClient)
        ensures
            c.prices@ == prices@,
    {
        StaticPricingClient { prices }
    }

    /// The key of a query.
    pub fn key_of(query: &PriceQuery) -> (k: String)
        ensures
            k@ == static_key(query@),
    {
        let mut k = concat(query.service.as_str(), ":");
        k.append(query.region.as_str());
        k.append(":");
        let ghost head = k@;
        let ghost fv = query@.filters;
        let mut i: usize = 0;
        while i < query.filters.len()
            invariant
                i <= query.filters@.len(),
                fv == query@.filters,
                k@ == head + filters_key(fv.subrange(0, i as int)),
            decreases query.filters.len() - i,
        {
            let ghost pre = fv.subrange(0, i + 1);
            assert(pre.drop_last() =~= fv.subrange(0, i as int));
            assert(pre.last() == fv[i as int]);
            if i > 0 {
                k.append(",");
            } else {
                assert(pre =~= seq![fv[0]]);
            }
            k.append(query.filters[i].field.as_str());
            k.append("=");
            k.append(query.filters[i].value.as_str());
            i = i + 1;
        }
        assert(fv.subrange(0, fv.len() as int) =~= fv);
        k
    }

    /// Answers a query from the table, or `NotFound` with the key.
    pub fn do_query(&self, query: &PriceQuery) -> (r: Result<UnitPrice, PricingError>)
        ensures
            match static_lookup(self@, static_key(query@)) {
                Some(p) => r == Ok::<UnitPrice, PricingError>(p),
                None => r matches Err(PricingError::NotFound(m)) && m@ == static_key(query@),
            },
    {
        let key = StaticPricingClient::key_of(query);
        let ghost tv = self@;
        assert(tv.subrange(0, tv.len() as int) =~= tv);
        let mut i: usize = 0;
        while i < self.prices.len()
            invariant
                i <= self.prices@.len(),
                tv == self@,
                key@ == static_key(query@),
                static_lookup(tv, key@) == static_lookup(tv.subrange(i as int, tv.len() as int), key@),
            decreases self.prices.len() - i,
        {
            let ghost rest = tv.subrange(i as int, tv.len() as int);
            assert(rest[0] == tv[i as int]);
            assert(rest.drop_first() =~= tv.subrange(i + 1, tv.len() as int));
            if self.prices[i].0 == key {
                return Ok(self.prices[i].1);
            }
            i = i + 1;
        }
        Err(PricingError::NotFound(key))
    }
}

} // verus!
