//! The rewriting of the token wallet's SQLite statements for PostgreSQL.

use vstd::prelude::*;

verus! {

/// A text with every occurrence of `from` replaced by `to`, as
/// `str::replace` does it.
pub uninterp spec fn replaced(text: Seq<char>, from: Seq<char>, to: Seq<char>) -> Seq<char>;

/// Calls `str::replace`. Trusted: what it returns is a function of the
/// three texts alone.
#[verifier::external_body]
pub(crate) fn replace_all(text: &str, from: &str, to: &str) -> (res: String)
    ensures
        res@ == replaced(text@, from@, to@),
{
    text.replace(from, to)
}

/// How many rewriting rules there are.
pub const REWRITE_RULES: usize = 19;

/// The rewriting rules, in the order in which they are applied: what is
/// looked for, and what is put in its place.
pub open spec fn rules() -> Seq<(Seq<char>, Seq<char>)> {
    seq![
        ("AUTOINCREMENT"@, ""@),
        ("INTEGER PRIMARY KEY"@, "SERIAL PRIMARY KEY"@),
        ("json_text"@, "JSONB"@),
        ("tinyint"@, "SMALLINT"@),
        ("\"txo\""@, "\"rgb_txo\""@),
        ("\"media\""@, "\"rgb_media\""@),
        ("\"asset\""@, "\"rgb_asset\""@),
        ("\"batch_transfer\""@, "\"rgb_batch_transfer\""@),
        ("\"asset_transfer\""@, "\"rgb_asset_transfer\""@),
        ("\"coloring\""@, "\"rgb_coloring\""@),
        ("\"transfer\""@, "\"rgb_transfer\""@),
        ("\"transport_endpoint\""@, "\"rgb_transport_endpoint\""@),
        ("\"transfer_transport_endpoint\""@, "\"rgb_transfer_transport_endpoint\""@),
        ("\"token\""@, "\"rgb_token\""@),
        ("\"token_media\""@, "\"rgb_token_media\""@),
        ("\"wallet_transaction\""@, "\"rgb_wallet_transaction\""@),
        ("\"pending_witness_script\""@, "\"rgb_pending_witness_script\""@),
        ("\"backup_info\""@, "\"rgb_backup_info\""@),
        ("\"seaql_migrations\""@, "\"rgb_seaql_migrations\""@),
    ]
}

/// A statement after the first `n` rules were applied to it, one after
/// another.
pub open spec fn rewritten(query: Seq<char>, n: nat) -> Seq<char>
    decreases n,
{
    if n == 0 {
        query
    } else {
        replaced(rewritten(query, (n - 1) as nat), rules()[n - 1].0, rules()[n - 1].1)
    }
}

/// The rule at place `i`.
fn rule(i: usize) -> (res: (&'static str, &'static str))
    requires
        i < REWRITE_RULES,
    ensures
        (res.0@, res.1@) == rules()[i as int],
{
    if i == 0 {
        ("AUTOINCREMENT", "")
    } else if i == 1 {
        ("INTEGER PRIMARY KEY", "SERIAL PRIMARY KEY")
    } else if i == 2 {
        ("json_text", "JSONB")
    } else if i == 3 {
        ("tinyint", "SMALLINT")
    } else if i == 4 {
        ("\"txo\"", "\"rgb_txo\"")
    } else if i == 5 {
        ("\"media\"", "\"rgb_media\"")
    } else if i == 6 {
        ("\"asset\"", "\"rgb_asset\"")
    } else if i == 7 {
        ("\"batch_transfer\"", "\"rgb_batch_transfer\"")
    } else if i == 8 {
        ("\"asset_transfer\"", "\"rgb_asset_transfer\"")
    } else if i == 9 {
        ("\"coloring\"", "\"rgb_coloring\"")
    } else if i == 10 {
        ("\"transfer\"", "\"rgb_transfer\"")
    } else if i == 11 {
        ("\"transport_endpoint\"", "\"rgb_transport_endpoint\"")
    } else if i == 12 {
        ("\"transfer_transport_endpoint\"", "\"rgb_transfer_transport_endpoint\"")
    } else if i == 13 {
        ("\"token\"", "\"rgb_token\"")
    } else if i == 14 {
        ("\"token_media\"", "\"rgb_token_media\"")
    } else if i == 15 {
        ("\"wallet_transaction\"", "\"rgb_wallet_transaction\"")
    } else if i == 16 {
        ("\"pending_witness_script\"", "\"rgb_pending_witness_script\"")
    } else if i == 17 {
        ("\"backup_info\"", "\"rgb_backup_info\"")
    } else {
        ("\"seaql_migrations\"", "\"rgb_seaql_migrations\"")
    }
}

/// The adapter between the token wallet's statements and PostgreSQL.
pub struct RgbDatabaseAdapter {}

impl RgbDatabaseAdapter {
    /// An adapter.
    pub fn new() -> (res: RgbDatabaseAdapter) {
        RgbDatabaseAdapter {  }
    }

    /// The statement `query` for PostgreSQL: every rule applied to it,
    /// in order.
    pub fn convert_sqlite_to_postgres(&self, query: &str) -> (res: String)
        ensures
            res@ == rewritten(query@, REWRITE_RULES as nat),
    {
        let mut text = String::from_str(query);
        let mut i: usize = 0;
        while i < REWRITE_RULES
            invariant
                i <= REWRITE_RULES,
                text@ == rewritten(query@, i as nat),
            decreases REWRITE_RULES - i,
        {
            let (from, to) = rule(i);
            text = replace_all(text.as_str(), from, to);
            i += 1;
        }
        text
    }
}

} // verus!
