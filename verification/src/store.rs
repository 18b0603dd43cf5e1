//! The decisions of the store that are not SQL: when the JSON data file is
//! moved into the store and in which order, and the id list of a reorder.

use vstd::prelude::*;
use crate::models::MockApi;
use crate::text::views;

verus! {

/// The JSON data file is moved into the store only while the store holds
/// no API.
pub fn accepts_migration(existing_count: i64) -> (b: bool)
    ensures
        b == !(existing_count > 0),
{
    !(existing_count > 0)
}

/// One API to store while migrating, with its place in the list.
#[derive(Debug)]
pub struct MigrationRow {
    pub sort_order: i64,
    pub api: MockApi,
}

/// The rows to store from the APIs of the data file: none where the file
/// lists no API; otherwise each API with its position in the file as its
/// sort order.
pub fn migration_rows(apis: Vec<MockApi>) -> (r: Option<Vec<MigrationRow>>)
    ensures
        match r {
            None => apis@.len() == 0,
            Some(rows) => {
                &&& apis@.len() > 0
                &&& rows@.len() == apis@.len()
                &&& forall|i: int|
                    0 <= i < rows@.len() ==> (#[trigger] rows@[i]).sort_order == i as i64
                        && rows@[i].api == apis@[i]
            },
        },
{
    let n = apis.len();
    if n == 0 {
        return None;
    }
    let ghost all = apis@;
    let mut rest = apis;
    let mut rows: Vec<MigrationRow> = Vec::new();
    let mut i: usize = 0;
    assert(all.subrange(0, n as int) =~= all);
    while i < n
        invariant
            n == all.len(),
            i <= n,
            rest@ == all.subrange(i as int, n as int),
            rows@.len() == i,
            forall|j: int|
                0 <= j < i ==> (#[trigger] rows@[j]).sort_order == j as i64 && rows@[j].api
                    == all[j],
        decreases n - i,
    {
        let api = rest.remove(0);
        assert(api == all[i as int]);
        assert(rest@ =~= all.subrange(i + 1, n as int));
        rows.push(MigrationRow { sort_order: i as i64, api });
        i = i + 1;
    }
    Some(rows)
}

/// The JSON text of an array of strings. Names the result of
/// `serde_json::to_string` on a slice of `String`s.
pub uninterp spec fn json_string_array(items: Seq<Seq<char>>) -> Seq<char>;

/// Calls `serde_json::to_string` on the strings. The result is named
/// `json_string_array`; the call succeeds, as serde_json documents that
/// serialization fails only where a `Serialize` impl decides to fail or a
/// map has keys that are not strings, and neither holds of strings.
#[verifier::external_body]
fn encode_json_strings(ids: &Vec<String>) -> (r: Result<String, serde_json::Error>)
    ensures
        r is Ok,
        r matches Ok(t) ==> t@ == json_string_array(views(ids@)),
{
    serde_json::to_string(ids.as_slice())
}

/// The JSON array of the identifiers of a reorder, which the store uses to
/// find the APIs the reorder leaves out.
pub fn id_list_json(ids: &Vec<String>) -> (r: String)
    ensures
        r@ == json_string_array(views(ids@)),
{
    match encode_json_strings(ids) {
        Ok(t) => t,
        Err(_) => String::new(),
    }
}

} // verus!
