//! The mailbox actor and the decisions a handle makes. The actor owns
//! the one `Client` and serializes every exchange call: commands are
//! handled strictly in arrival order, each produces exactly one reply,
//! and a failed call becomes an error reply without stopping the loop.
//! The queue and reply channels themselves are async plumbing and live
//! with the caller; what is verified here is every decision taken on
//! what they carry.

use vstd::prelude::*;

use crate::client::Client;
use crate::client::ExchangeRequest;
use crate::client::price_from_body;
use crate::client::spec_account_query;
use crate::client::spec_order_query;
use crate::client::spec_price_of;
use crate::client::spec_signed_body;
use crate::config::Config;
use crate::json::parse_json;
use crate::json::spec_json_parses;

verus! {

/// One command a handle can enqueue. Quantity and price are decimal
/// strings, passed through to the exchange unmodified.
#[derive(Clone, Debug)]
pub enum OrderMessage {
    PlaceOrder { symbol: String, side: String, quantity: String, price: String },
    GetAccountInfo,
    GetPrice { symbol: String },
}

/// The error text a failed exchange call is reported with: a prefix
/// naming the command kind, then the transport error's own text.
pub open spec fn spec_fail_text(msg: OrderMessage, e: Seq<char>) -> Seq<char> {
    match msg {
        OrderMessage::PlaceOrder { .. } => "Order failed: "@ + e,
        OrderMessage::GetAccountInfo => "Failed to get account: "@ + e,
        OrderMessage::GetPrice { .. } => "Failed to get price: "@ + e,
    }
}

/// What the reply to a command says of the exchange outcome: a valid
/// response body is handed back as is, except that a price lookup's
/// body is reduced to its price string; a body that is not valid JSON
/// is a failed call, reported like a transport failure; and a
/// transport failure is reported with the command's error prefix.
pub open spec fn spec_reply_matches(
    msg: OrderMessage,
    outcome: Result<String, String>,
    reply: Result<String, String>,
) -> bool {
    match outcome {
        Ok(body) => {
            if spec_json_parses(body@) {
                match msg {
                    OrderMessage::GetPrice { .. } => reply matches Ok(r) && r@ == spec_price_of(
                        body@,
                    ),
                    _ => reply matches Ok(r) && r@ == body@,
                }
            } else {
                reply matches Err(t) && t@ == spec_fail_text(msg, "invalid response body"@)
            }
        },
        Err(e) => reply matches Err(t) && t@ == spec_fail_text(msg, e@),
    }
}

/// The request a command is dispatched to, as the `Client` builds it.
pub open spec fn spec_request_for(
    c: Client,
    msg: OrderMessage,
    timestamp: u64,
    r: ExchangeRequest,
) -> bool {
    match msg {
        OrderMessage::PlaceOrder { symbol, side, quantity, price } => {
            &&& r.method is Post
            &&& r.url@ == c.base_url@ + "/api/v3/order"@
            &&& r.needs_api_key
            &&& (r.body matches Some(b) && b@ == spec_signed_body(
                c.api_secret@,
                spec_order_query(symbol@, side@, quantity@, price@, timestamp),
            ))
        },
        OrderMessage::GetAccountInfo => {
            &&& r.method is Get
            &&& r.url@ == c.base_url@ + "/api/v3/account?"@ + spec_signed_body(
                c.api_secret@,
                spec_account_query(timestamp),
            )
            &&& r.needs_api_key
            &&& r.body is None
        },
        OrderMessage::GetPrice { symbol } => {
            &&& r.method is Get
            &&& r.url@ == c.base_url@ + "/api/v3/ticker/price?symbol="@ + symbol@
            &&& !r.needs_api_key
            &&& r.body is None
        },
    }
}

/// The sole owner of one `Client`; every exchange call goes through
/// it, one command at a time.
pub struct OrderManagerActor {
    pub client: Client,
}

impl OrderManagerActor {
    pub fn new(config: &Config) -> (a: OrderManagerActor)
        ensures
            a.client.base_url@ == config.base_url@,
            a.client.api_key@ == config.api_key@,
            a.client.api_secret@ == config.api_secret@,
    {
        OrderManagerActor { client: Client::new(config) }
    }

    /// Dispatches one command to the exchange call it asks for; the
    /// timestamp goes into the signed query of the time-sensitive
    /// requests.
    pub fn plan_request(&self, msg: &OrderMessage, timestamp: u64) -> (r: ExchangeRequest)
        ensures
            spec_request_for(self.client, *msg, timestamp, r),
    {
        match msg {
            OrderMessage::PlaceOrder { symbol, side, quantity, price } => self.client.order_request(
                symbol.as_str(),
                side.as_str(),
                quantity.as_str(),
                price.as_str(),
                timestamp,
            ),
            OrderMessage::GetAccountInfo => self.client.account_request(timestamp),
            OrderMessage::GetPrice { symbol } => self.client.price_request(symbol.as_str()),
        }
    }

    /// The error text for one failed command.
    pub fn fail_text(&self, msg: &OrderMessage, e: &str) -> (r: String)
        ensures
            r@ == spec_fail_text(*msg, e@),
    {
        let mut t = String::new();
        match msg {
            OrderMessage::PlaceOrder { .. } => t.append("Order failed: "),
            OrderMessage::GetAccountInfo => t.append("Failed to get account: "),
            OrderMessage::GetPrice { .. } => t.append("Failed to get price: "),
        }
        t.append(e);
        proof {
            assert(t@ =~= spec_fail_text(*msg, e@));
        }
        t
    }

    /// Turns one exchange outcome into the single reply its command
    /// receives: a valid response passes through (a price lookup's
    /// body reduced to its price string), a malformed response body and
    /// a transport failure are each wrapped in the command's error
    /// text. An error never stops the actor.
    pub fn handle_outcome(&self, msg: &OrderMessage, outcome: &Result<String, String>) -> (r:
        Result<String, String>)
        ensures
            spec_reply_matches(*msg, *outcome, r),
    {
        match outcome {
            Ok(body) => match msg {
                OrderMessage::GetPrice { .. } => match price_from_body(body.as_str()) {
                    Some(p) => Ok(p),
                    None => Err(self.fail_text(msg, "invalid response body")),
                },
                _ => match parse_json(body.as_str()) {
                    Some(_) => Ok(body.clone()),
                    None => Err(self.fail_text(msg, "invalid response body")),
                },
            },
            Err(e) => Err(self.fail_text(msg, e.as_str())),
        }
    }

    /// The processing loop, over the commands in their arrival order
    /// and the outcome each one's exchange call had: every command
    /// yields exactly one reply, the i-th reply answers the i-th
    /// command, a failed call leaves the following commands unaffected,
    /// and the loop ends cleanly once the queue is exhausted.
    pub fn run(&self, msgs: &Vec<OrderMessage>, outcomes: &Vec<Result<String, String>>) -> (replies:
        Vec<Result<String, String>>)
        requires
            msgs@.len() == outcomes@.len(),
        ensures
            replies@.len() == msgs@.len(),
            forall|i: int|
                0 <= i < msgs@.len() ==> spec_reply_matches(
                    msgs@[i],
                    outcomes@[i],
                    #[trigger] replies@[i],
                ),
    {
        let mut replies: Vec<Result<String, String>> = Vec::new();
        let mut i: usize = 0;
        while i < msgs.len()
            invariant
                msgs@.len() == outcomes@.len(),
                i <= msgs@.len(),
                replies@.len() == i,
                forall|j: int|
                    0 <= j < i ==> spec_reply_matches(
                        msgs@[j],
                        outcomes@[j],
                        #[trigger] replies@[j],
                    ),
            decreases msgs@.len() - i,
        {
            let reply = self.handle_outcome(&msgs[i], &outcomes[i]);
            replies.push(reply);
            i += 1;
        }
        replies
    }
}

/// The two ways a handle call can fail structurally, as opposed to an
/// exchange-level error carried inside a normal `Err` reply.
#[derive(Clone, Copy, Debug, PartialEq, Eq, Structural)]
pub enum HandleFailure {
    /// The actor no longer accepts commands: stop issuing calls.
    MailboxClosed,
    /// The reply channel was abandoned before a reply arrived.
    ResponseLost,
}

impl HandleFailure {
    /// The text each structural failure is reported with.
    pub fn message(&self) -> (r: String)
        ensures
            *self is MailboxClosed ==> r@ == "Actor is dead"@,
            *self is ResponseLost ==> r@ == "Actor dropped response"@,
    {
        let mut t = String::new();
        match self {
            HandleFailure::MailboxClosed => t.append("Actor is dead"),
            HandleFailure::ResponseLost => t.append("Actor dropped response"),
        }
        proof {
            if *self is MailboxClosed {
                assert(t@ =~= "Actor is dead"@);
            } else {
                assert(t@ =~= "Actor dropped response"@);
            }
        }
        t
    }
}

/// The handle's view of one finished call: a failed enqueue means the
/// mailbox is closed, a missing reply means the reply channel was
/// abandoned, and anything else is the actor's reply itself, exchange
/// errors included.
pub fn complete_call(enqueued: bool, reply: Option<Result<String, String>>) -> (r: Result<
    String,
    String,
>)
    ensures
        !enqueued ==> (r matches Err(e) && e@ == "Actor is dead"@),
        enqueued && reply is None ==> (r matches Err(e) && e@ == "Actor dropped response"@),
        enqueued ==> (reply matches Some(inner) ==> r == inner),
{
    if !enqueued {
        Err(HandleFailure::MailboxClosed.message())
    } else {
        match reply {
            Some(inner) => inner,
            None => Err(HandleFailure::ResponseLost.message()),
        }
    }
}

} // verus!
