//! What is decided about a tenant from a request and from the answers of
//! the chain: who is asking, where a balance is read from, and what the
//! addresses of a tenant add up to.

use axum::http::HeaderMap;
use axum::http::HeaderValue;
use serde_json::Value;
use vstd::prelude::*;

verus! {

/// A JSON document.
#[verifier::external_type_specification]
#[verifier::external_body]
pub struct ExJsonValue(Value);

/// The value of one request header.
#[verifier::external_type_specification]
#[verifier::external_body]
pub struct ExHeaderValue(HeaderValue);

/// The headers of a request.
#[verifier::external_type_specification]
#[verifier::external_body]
#[verifier::reject_recursive_types(T)]
pub struct ExHeaderMap<T>(HeaderMap<T>);

/// What the headers of a request hold as text: for each name under
/// which `get` finds a value that `to_str` can read, the text of the
/// first value under that name.
pub uninterp spec fn header_texts(headers: HeaderMap<HeaderValue>) -> Map<Seq<char>, Seq<char>>;

/// The text fields of a document: for each key under which `get` finds
/// a string, that string. A document that is no object has none.
pub uninterp spec fn json_texts(document: Value) -> Map<Seq<char>, Seq<char>>;

/// The integer fields of a document: for each key under which `get`
/// finds a number that `as_i64` gives, that number. A document that is
/// no object has none.
pub uninterp spec fn json_numbers(document: Value) -> Map<Seq<char>, i64>;

/// What a text holds when read as a JSON document: its integer fields,
/// or nothing where the text is no document.
pub uninterp spec fn parsed_json_numbers(text: Seq<char>) -> Option<Map<Seq<char>, i64>>;

/// What a map holds under `key`, if it holds anything.
pub open spec fn entry<V>(map: Map<Seq<char>, V>, key: Seq<char>) -> Option<V> {
    if map.dom().contains(key) {
        Some(map[key])
    } else {
        None
    }
}

/// Calls `serde_json::Value::get` with a field name and copies the
/// string that `as_str` finds there. Trusted: the text returned is the
/// text field of the document under that name, and nothing is returned
/// where the document has no such text field.
#[verifier::external_body]
pub(crate) fn json_text(document: &Value, field: &str) -> (res: Option<String>)
    ensures
        text_of(res) == entry(json_texts(*document), field@),
{
    match document.get(field) {
        Some(value) => match value.as_str() {
            Some(text) => Some(String::from(text)),
            None => None,
        },
        None => None,
    }
}

/// Calls `serde_json::Value::get` with a field name and hands out the
/// number that `as_i64` finds there. Trusted: the number returned is
/// the integer field of the document under that name, and nothing is
/// returned where the document has no such integer field.
#[verifier::external_body]
pub(crate) fn json_i64(document: &Value, field: &str) -> (res: Option<i64>)
    ensures
        res == entry(json_numbers(*document), field@),
{
    match document.get(field) {
        Some(value) => value.as_i64(),
        None => None,
    }
}

/// Calls `serde_json::from_str` for a document. Trusted: whether the
/// text is a document, and which integer fields the document has, is a
/// function of the text alone.
#[verifier::external_body]
pub(crate) fn json_parse(text: &str) -> (res: Option<Value>)
    ensures
        res is Some <==> parsed_json_numbers(text@) is Some,
        res matches Some(document) ==> parsed_json_numbers(text@) == Some(json_numbers(document)),
{
    match serde_json::from_str::<Value>(text) {
        Ok(document) => Some(document),
        Err(_) => None,
    }
}

/// Calls `HeaderMap::get` with a header name and copies the text that
/// `HeaderValue::to_str` reads from what it finds. Trusted: the text
/// returned is what the headers hold as text under that name, and
/// nothing is returned where they hold no readable value under it.
#[verifier::external_body]
pub(crate) fn header_text(headers: &HeaderMap<HeaderValue>, name: &str) -> (res: Option<String>)
    ensures
        text_of(res) == entry(header_texts(*headers), name@),
{
    match headers.get(name) {
        Some(value) => match value.to_str() {
            Ok(text) => Some(String::from(text)),
            Err(_) => None,
        },
        None => None,
    }
}

/// The tenant that a request names: the one in its body where the body
/// names one, else the one in its header.
pub open spec fn selected_user_id(body: Option<Seq<char>>, header: Option<Seq<char>>) -> Option<
    Seq<char>,
> {
    match body {
        Some(user_id) => Some(user_id),
        None => header,
    }
}

/// The text that an optional string holds.
pub open spec fn text_of(value: Option<String>) -> Option<Seq<char>> {
    match value {
        Some(s) => Some(s@),
        None => None,
    }
}

/// The tenant that a request with the given body and headers names:
/// the text field `user_id` of the body, else the header `x-user-id`.
pub open spec fn request_user_id(body: Value, headers: HeaderMap<HeaderValue>) -> Option<
    Seq<char>,
> {
    selected_user_id(
        entry(json_texts(body), "user_id"@),
        entry(header_texts(headers), "x-user-id"@),
    )
}

/// What is known of a tenant.
#[derive(Clone, Debug)]
pub struct UserContext {
    pub user_id: String,
    /// The balance of each asset, by the asset's name.
    pub balances: Vec<(String, i64)>,
    pub addresses: Vec<String>,
}

/// Where the balance of an asset is read from.
#[derive(Clone, Copy, Debug, PartialEq, Eq, Structural)]
pub enum BalanceSource {
    /// From the chain, address by address.
    Blockchain,
    /// From the durable store.
    Database,
}

/// Where the balance of an asset is read from: the currency, which is
/// asked for by no asset or by `BTC`, is read from the chain, and
/// every other asset from the store.
pub open spec fn balance_source_of(asset_id: Option<Seq<char>>) -> BalanceSource {
    match asset_id {
        None => BalanceSource::Blockchain,
        Some(asset) => if asset == "BTC"@ {
            BalanceSource::Blockchain
        } else {
            BalanceSource::Database
        },
    }
}

/// What the chain says was received by and spent from an address, as a
/// balance: each figure counts as zero where it is missing, and the
/// difference is kept within the range of a balance.
pub open spec fn chain_balance(funded: Option<u64>, spent: Option<u64>) -> i64 {
    let funded = match funded {
        Some(f) => f as int,
        None => 0,
    };
    let spent = match spent {
        Some(s) => s as int,
        None => 0,
    };
    crate::blockchain_balance::clamp_balance(funded - spent) as i64
}

/// What to do with the answer of the chain's API to a balance query.
#[derive(Clone, Copy, Debug, PartialEq, Eq, Structural)]
pub enum QueryDecision {
    /// Read the balance from the answer.
    Read,
    /// Wait and ask once more: the API is limiting the rate.
    RetryAfter { delay_secs: u64 },
    /// Give up: the API answered with this status.
    Fail { status: u16 },
}

/// What to do with an answer of status `status`: a success is read, the
/// first answer that limits the rate is followed by one more query
/// after two seconds, and everything else fails.
pub open spec fn query_decision(status: u16, retried: bool) -> QueryDecision {
    if 200 <= status < 300 {
        QueryDecision::Read
    } else if status == 429 && !retried {
        QueryDecision::RetryAfter { delay_secs: 2 }
    } else {
        QueryDecision::Fail { status }
    }
}

/// How many of the answers are balances.
pub open spec fn successes(balances: Seq<Option<i64>>) -> nat
    decreases balances.len(),
{
    if balances.len() == 0 {
        0
    } else {
        successes(balances.drop_last()) + if balances.last() is Some {
            1nat
        } else {
            0nat
        }
    }
}

/// The decisions about a tenant.
pub struct UserManager {}

impl UserManager {
    /// The tenant that a request names, given what its body and its
    /// header say: the body comes first, the header is the fallback, and
    /// a request that names no tenant gets none.
    pub fn select_user_id(body: Option<String>, header: Option<String>) -> (res: Option<String>)
        ensures
            text_of(res) == selected_user_id(text_of(body), text_of(header)),
    {
        match body {
            Some(user_id) => Some(user_id),
            None => header,
        }
    }

    /// A manager.
    pub fn new() -> (res: UserManager) {
        UserManager {  }
    }

    /// The context of a tenant with the given balances and addresses.
    pub fn get_user_context(
        &self,
        user_id: &str,
        balances: Vec<(String, i64)>,
        addresses: Vec<String>,
    ) -> (res: UserContext)
        ensures
            res.user_id@ == user_id@,
            res.balances == balances,
            res.addresses == addresses,
    {
        UserContext { user_id: String::from_str(user_id), balances, addresses }
    }

    /// What a new wallet is created with: the placeholder of the
    /// tenant's encrypted mnemonic and the derivation path.
    pub fn create_user_wallet(&self, user_id: &str) -> (res: (String, String))
        ensures
            res.0@ == "encrypted_mnemonic_for_"@ + user_id@,
            res.1@ == "m/84'/1'/0'"@,
    {
        (
            String::from_str("encrypted_mnemonic_for_").concat(user_id),
            String::from_str("m/84'/1'/0'"),
        )
    }

    /// Where the balance of `asset_id` is read from.
    pub fn get_user_balance(&self, asset_id: Option<&str>) -> (res: BalanceSource)
        ensures
            res == balance_source_of(
                match asset_id {
                    Some(a) => Some(a@),
                    None => None,
                },
            ),
    {
        match asset_id {
            None => BalanceSource::Blockchain,
            Some(asset) => if crate::text::text_eq(asset, "BTC") {
                BalanceSource::Blockchain
            } else {
                BalanceSource::Database
            },
        }
    }

    /// The currency balance of a tenant as the chain shows it, given
    /// the answer for each of its addresses: zero without addresses,
    /// the sum of the balances that could be read where one could, and
    /// nothing where none could, so that the store is asked instead.
    pub fn get_btc_balance_from_blockchain(&self, balances: &Vec<Option<i64>>) -> (res: Option<
        i64,
    >)
        ensures
            balances@.len() == 0 ==> res == Some(0i64),
            balances@.len() > 0 && successes(balances@) == 0 ==> res is None,
            successes(balances@) > 0 ==> res == Some(
                crate::blockchain_balance::total_of(balances@) as i64,
            ),
    {
        if balances.len() == 0 {
            return Some(0);
        }
        let mut total: i64 = 0;
        let mut successful: usize = 0;
        let mut i: usize = 0;
        assert(balances@.subrange(0, 0) =~= Seq::<Option<i64>>::empty());
        while i < balances.len()
            invariant
                i <= balances@.len(),
                successful <= i,
                successful == successes(balances@.subrange(0, i as int)),
                total == crate::blockchain_balance::total_of(balances@.subrange(0, i as int)),
            decreases balances@.len() - i,
        {
            assert(balances@.subrange(0, i as int + 1).drop_last() =~= balances@.subrange(
                0,
                i as int,
            ));
            assert(balances@.subrange(0, i as int + 1).last() == balances@[i as int]);
            match balances[i] {
                Some(balance) => {
                    let next: i128 = total as i128 + balance as i128;
                    total = if next > 0x7fff_ffff_ffff_ffff {
                        0x7fff_ffff_ffff_ffff
                    } else if next < -0x8000_0000_0000_0000 {
                        -0x8000_0000_0000_0000
                    } else {
                        next as i64
                    };
                    successful += 1;
                },
                None => {},
            }
            i += 1;
        }
        assert(balances@.subrange(0, i as int) =~= balances@);
        if successful == 0 {
            None
        } else {
            Some(total)
        }
    }

    /// What to do with an answer of the chain's API: `retried` says
    /// whether the query was made for the second time.
    pub fn query_address_balance(&self, status: u16, retried: bool) -> (res: QueryDecision)
        ensures
            res == query_decision(status, retried),
    {
        if 200 <= status && status < 300 {
            QueryDecision::Read
        } else if status == 429 && !retried {
            QueryDecision::RetryAfter { delay_secs: 2 }
        } else {
            QueryDecision::Fail { status }
        }
    }

    /// The balance of an address from what the chain says was received
    /// by it and spent from it.
    pub fn address_balance(funded: Option<u64>, spent: Option<u64>) -> (res: i64)
        ensures
            res == chain_balance(funded, spent),
    {
        let funded: i128 = match funded {
            Some(f) => f as i128,
            None => 0,
        };
        let spent: i128 = match spent {
            Some(s) => s as i128,
            None => 0,
        };
        let difference = funded - spent;
        if difference > 0x7fff_ffff_ffff_ffff {
            0x7fff_ffff_ffff_ffff
        } else if difference < -0x8000_0000_0000_0000 {
            -0x8000_0000_0000_0000
        } else {
            difference as i64
        }
    }

    /// The tenant that a request names: the text of the field `user_id`
    /// of its body, else the text of its header `x-user-id`.
    pub fn extract_user_id(body: &Value, headers: &HeaderMap<HeaderValue>) -> (res: Option<String>)
        ensures
            text_of(res) == request_user_id(*body, *headers),
    {
        let from_body = json_text(body, "user_id");
        let from_header = header_text(headers, "x-user-id");
        UserManager::select_user_id(from_body, from_header)
    }
}

} // verus!
