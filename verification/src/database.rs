//! What the rows of the durable store mean.

use crate::user_manager::text_of;
use vstd::prelude::*;

verus! {

/// The name under which the balance of an asset is listed: the asset's
/// own, and `BTC` for the currency, whose rows name no asset.
pub open spec fn balance_key(asset_id: Option<Seq<char>>) -> Seq<char> {
    match asset_id {
        Some(asset) => asset,
        None => "BTC"@,
    }
}

/// What the balance rows of a tenant say: each row's name and balance.
pub open spec fn listed(rows: Seq<(Option<String>, i64)>) -> Seq<(Seq<char>, i64)> {
    rows.map_values(|row: (Option<String>, i64)| (balance_key(text_of(row.0)), row.1))
}

/// What a list of balances says.
pub open spec fn balances_of(list: Seq<(String, i64)>) -> Seq<(Seq<char>, i64)> {
    list.map_values(|entry: (String, i64)| (entry.0@, entry.1))
}

/// The balances of a tenant by asset name, from its balance rows.
pub fn get_user_balances(rows: Vec<(Option<String>, i64)>) -> (res: Vec<(String, i64)>)
    ensures
        balances_of(res@) == listed(rows@),
{
    let mut out: Vec<(String, i64)> = Vec::new();
    let mut i: usize = 0;
    assert(balances_of(out@) =~= listed(rows@).subrange(0, 0));
    while i < rows.len()
        invariant
            i <= rows@.len(),
            balances_of(out@) == listed(rows@).subrange(0, i as int),
        decreases rows@.len() - i,
    {
        let ghost before = balances_of(out@);
        let key = match &rows[i].0 {
            Some(asset) => asset.clone(),
            None => String::from_str("BTC"),
        };
        out.push((key, rows[i].1));
        assert(balances_of(out@) =~= before.push(listed(rows@)[i as int]));
        assert(before.push(listed(rows@)[i as int]) =~= listed(rows@).subrange(0, i as int + 1));
        i += 1;
    }
    assert(listed(rows@).subrange(0, i as int) =~= listed(rows@));
    out
}

} // verus!
