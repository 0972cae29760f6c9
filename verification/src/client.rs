//! The exchange client: builds every REST request the actor can issue
//! (URL, headers, signed body) and reads the fields the logic needs out
//! of the responses. Sending the requests over the network is not done
//! here; a request is returned as a plain description.

use vstd::prelude::*;

use crate::config::Config;
use crate::crypto::sign_query;
use crate::crypto::spec_signature;
use crate::json::get_str_field;
use crate::json::get_u64_field;
use crate::json::json_str_fields;
use crate::json::json_str_fields_of;
use crate::json::json_u64_fields_of;
use crate::json::parse_json;
use crate::json::spec_json_parses;

verus! {

/// The decimal digit character for `n % 10`.
pub open spec fn spec_dec_char(n: nat) -> char {
    (((n % 10) + 48) as u8) as char
}

/// The decimal digits of `n`, most significant first, no leading
/// zeros (except for `n == 0` itself).
pub open spec fn spec_u64_digits(n: nat) -> Seq<char>
    decreases n,
{
    if n < 10 {
        seq![spec_dec_char(n)]
    } else {
        spec_u64_digits(n / 10).push(spec_dec_char(n % 10))
    }
}

/// Renders an integer in decimal, exactly `spec_u64_digits`.
pub fn u64_to_dec(n: u64) -> (r: String)
    ensures
        r@ == spec_u64_digits(n as nat),
    decreases n,
{
    let digits = "0123456789";
    proof {
        reveal_strlit("0123456789");
    }
    let d: usize = (n % 10) as usize;
    let ds = digits.substring_ascii(d, d + 1);
    proof {
        assert(ds@ =~= seq![spec_dec_char(n as nat % 10)]);
    }
    if n < 10 {
        let mut r = String::new();
        r.append(ds);
        proof {
            assert(r@ =~= spec_u64_digits(n as nat));
        }
        r
    } else {
        let mut r = u64_to_dec(n / 10);
        r.append(ds);
        proof {
            assert(r@ =~= spec_u64_digits(n as nat));
        }
        r
    }
}

/// How a request reaches the exchange.
#[derive(Clone, Copy, Debug, PartialEq, Eq, Structural)]
pub enum HttpMethod {
    Get,
    Post,
}

/// One REST call, fully determined before any network work: the
/// method, the complete URL, whether the API-key header goes along,
/// and the form-encoded body of a POST.
pub struct ExchangeRequest {
    pub method: HttpMethod,
    pub url: String,
    pub needs_api_key: bool,
    pub body: Option<String>,
}

/// Signs and describes REST calls; owns the credentials. Exactly one
/// value of this type is held, by the mailbox actor, so that signed
/// requests are never in flight concurrently.
pub struct Client {
    pub base_url: String,
    pub api_key: String,
    pub api_secret: String,
}

/// The canonical query string of an order placement: the exact text
/// that is signed and sent, the decimal quantity and price passed
/// through unmodified.
pub open spec fn spec_order_query(
    symbol: Seq<char>,
    side: Seq<char>,
    quantity: Seq<char>,
    price: Seq<char>,
    timestamp: u64,
) -> Seq<char> {
    "symbol="@ + symbol + "&side="@ + side + "&type=LIMIT&timeInForce=GTC&quantity="@ + quantity
        + "&price="@ + price + "&timestamp="@ + spec_u64_digits(timestamp as nat)
}

/// The canonical query string of an account snapshot request.
pub open spec fn spec_account_query(timestamp: u64) -> Seq<char> {
    "timestamp="@ + spec_u64_digits(timestamp as nat)
}

/// The signed body of an order placement: the canonical query string
/// with its own signature appended.
pub open spec fn spec_signed_body(secret: Seq<char>, query: Seq<char>) -> Seq<char> {
    query + "&signature="@ + spec_signature(secret, query)
}

impl Client {
    pub fn new(config: &Config) -> (c: Client)
        ensures
            c.base_url@ == config.base_url@,
            c.api_key@ == config.api_key@,
            c.api_secret@ == config.api_secret@,
    {
        Client {
            base_url: config.base_url.clone(),
            api_key: config.api_key.clone(),
            api_secret: config.api_secret.clone(),
        }
    }

    /// The signature of a canonical query string under this client's
    /// secret: 64 lowercase hex characters, and deterministic, so
    /// re-signing an identical query gives an identical signature.
    pub fn sign(&self, query: &str) -> (r: String)
        ensures
            r@ == spec_signature(self.api_secret@, query@),
            r@.len() == 64,
    {
        sign_query(self.api_secret.as_str(), query)
    }

    /// Relies on std::time::SystemTime: microseconds since the Unix
    /// epoch, `None` when the system clock reads before the epoch. The
    /// value depends on the clock, so nothing more is promised.
    #[verifier::external_body]
    pub fn timestamp(&self) -> Option<u64> {
        match std::time::SystemTime::now().duration_since(std::time::UNIX_EPOCH) {
            Ok(d) => Some(d.as_micros() as u64),
            Err(_) => None,
        }
    }

    /// The server-time request: a bare GET, no credentials.
    pub fn server_time_request(&self) -> (r: ExchangeRequest)
        ensures
            r.method is Get,
            r.url@ == self.base_url@ + "/api/v3/time"@,
            !r.needs_api_key,
            r.body is None,
    {
        let mut url = self.base_url.clone();
        url.append("/api/v3/time");
        ExchangeRequest { method: HttpMethod::Get, url, needs_api_key: false, body: None }
    }

    /// The account snapshot request: a GET whose query holds the
    /// timestamp and its signature, sent with the API-key header.
    pub fn account_request(&self, timestamp: u64) -> (r: ExchangeRequest)
        ensures
            r.method is Get,
            r.url@ == self.base_url@ + "/api/v3/account?"@ + spec_signed_body(
                self.api_secret@,
                spec_account_query(timestamp),
            ),
            r.needs_api_key,
            r.body is None,
    {
        let mut query = String::new();
        query.append("timestamp=");
        let ts = u64_to_dec(timestamp);
        query.append(ts.as_str());
        proof {
            assert(query@ =~= spec_account_query(timestamp));
        }
        let signature = self.sign(query.as_str());
        let mut url = self.base_url.clone();
        url.append("/api/v3/account?");
        url.append(query.as_str());
        url.append("&signature=");
        url.append(signature.as_str());
        proof {
            assert(url@ =~= self.base_url@ + "/api/v3/account?"@ + spec_signed_body(
                self.api_secret@,
                spec_account_query(timestamp),
            ));
        }
        ExchangeRequest { method: HttpMethod::Get, url, needs_api_key: true, body: None }
    }

    /// The order placement request: a POST to the order endpoint whose
    /// body is the canonical query string, signed; symbol, side and
    /// the decimal quantity and price strings appear in it exactly as
    /// given.
    pub fn order_request(
        &self,
        symbol: &str,
        side: &str,
        quantity: &str,
        price: &str,
        timestamp: u64,
    ) -> (r: ExchangeRequest)
        ensures
            r.method is Post,
            r.url@ == self.base_url@ + "/api/v3/order"@,
            r.needs_api_key,
            r.body matches Some(b) && b@ == spec_signed_body(
                self.api_secret@,
                spec_order_query(symbol@, side@, quantity@, price@, timestamp),
            ),
    {
        let mut query = String::new();
        query.append("symbol=");
        query.append(symbol);
        query.append("&side=");
        query.append(side);
        query.append("&type=LIMIT&timeInForce=GTC&quantity=");
        query.append(quantity);
        query.append("&price=");
        query.append(price);
        query.append("&timestamp=");
        let ts = u64_to_dec(timestamp);
        query.append(ts.as_str());
        proof {
            assert(query@ =~= spec_order_query(symbol@, side@, quantity@, price@, timestamp));
        }
        let signature = self.sign(query.as_str());
        let mut body = query;
        body.append("&signature=");
        body.append(signature.as_str());
        proof {
            assert(body@ =~= spec_signed_body(
                self.api_secret@,
                spec_order_query(symbol@, side@, quantity@, price@, timestamp),
            ));
        }
        let mut url = self.base_url.clone();
        url.append("/api/v3/order");
        ExchangeRequest { method: HttpMethod::Post, url, needs_api_key: true, body: Some(body) }
    }

    /// The latest-price request: a bare GET for one symbol.
    pub fn price_request(&self, symbol: &str) -> (r: ExchangeRequest)
        ensures
            r.method is Get,
            r.url@ == self.base_url@ + "/api/v3/ticker/price?symbol="@ + symbol@,
            !r.needs_api_key,
            r.body is None,
    {
        let mut url = self.base_url.clone();
        url.append("/api/v3/ticker/price?symbol=");
        url.append(symbol);
        proof {
            assert(url@ =~= self.base_url@ + "/api/v3/ticker/price?symbol="@ + symbol@);
        }
        ExchangeRequest { method: HttpMethod::Get, url, needs_api_key: false, body: None }
    }
}

/// The price string a valid response body yields: its `price` field,
/// or the fallback `"0"` when the field is absent or not a string.
pub open spec fn spec_price_of(body: Seq<char>) -> Seq<char> {
    if json_str_fields_of(body).contains_key("price"@) {
        json_str_fields_of(body)["price"@]
    } else {
        "0"@
    }
}

/// The price carried by one parsed response document: the string
/// content of its `price` field, or `"0"` when the field is absent or
/// not a string.
pub fn price_of_doc(v: &serde_json::Value) -> (r: String)
    ensures
        json_str_fields(*v).contains_key("price"@) ==> r@ == json_str_fields(*v)["price"@],
        !json_str_fields(*v).contains_key("price"@) ==> r@ == "0"@,
{
    match get_str_field(v, "price") {
        Some(s) => s,
        None => {
            let mut z = String::new();
            z.append("0");
            proof {
                assert(z@ =~= "0"@);
            }
            z
        },
    }
}

/// The price string in a raw response body: `None` when the body is
/// not valid JSON — a malformed response fails the lookup — and
/// otherwise exactly the body's `price` field, with `"0"` standing in
/// for an absent or non-string field. The caller turns the string into
/// a number; an unparsable number falls back to zero the same way.
pub fn price_from_body(body: &str) -> (r: Option<String>)
    ensures
        spec_json_parses(body@) ==> (r matches Some(p) && p@ == spec_price_of(body@)),
        !spec_json_parses(body@) ==> r is None,
{
    match parse_json(body) {
        Some(v) => Some(price_of_doc(&v)),
        None => None,
    }
}

/// The server time in a raw response body: exactly the `serverTime`
/// field of the body parsed as JSON, `None` when the body does not
/// parse or carries no such integer.
pub fn server_time_from_body(body: &str) -> (r: Option<u64>)
    ensures
        spec_json_parses(body@) && json_u64_fields_of(body@).contains_key("serverTime"@) ==> r
            == Some(json_u64_fields_of(body@)["serverTime"@]),
        !(spec_json_parses(body@) && json_u64_fields_of(body@).contains_key("serverTime"@))
            ==> r is None,
{
    match parse_json(body) {
        Some(v) => get_u64_field(&v, "serverTime"),
        None => None,
    }
}

} // verus!
