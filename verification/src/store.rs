//! What the services hand to the database: select queries with one bound
//! parameter, and record ids taken apart into table and key.

use vstd::prelude::*;
use vstd::string::StrSliceExecFns;

verus! {

/// A select query with one bound parameter. When `record` holds, the value is
/// bound as a record id (`table:key`), otherwise as a plain string.
#[derive(Debug, PartialEq, Eq)]
pub struct SelectQuery {
    pub text: String,
    pub param: String,
    pub value: String,
    pub record: bool,
}

/// No character of the text is a colon.
pub open spec fn colon_free(text: Seq<char>) -> bool {
    forall|i: int| 0 <= i < text.len() ==> text[i] != ':'
}

/// `table` is what comes before the first colon of `id`, and `key` is what comes
/// after it, up to the next colon or the end.
pub open spec fn splits_into(id: Seq<char>, table: Seq<char>, key: Seq<char>) -> bool {
    let start: int = table.len() as int + 1;
    let end: int = start + key.len();
    &&& colon_free(table)
    &&& colon_free(key)
    &&& end <= id.len()
    &&& table == id.take(table.len() as int)
    &&& id[table.len() as int] == ':'
    &&& key == id.subrange(start, end)
    &&& (end == id.len() || id[end] == ':')
}

/// Takes a record id apart at its colons: the table before the first colon, and
/// the key between the first colon and the next one (or the end). The id must
/// hold a colon.
pub fn split_record_id(id: &str) -> (parts: (String, String))
    requires
        exists|i: int| 0 <= i < id@.len() && id@[i] == ':',
    ensures
        splits_into(id@, parts.0@, parts.1@),
{
    let n = id.unicode_len();
    let mut colon: usize = 0;
    while colon < n && id.get_char(colon) != ':'
        invariant
            n == id@.len(),
            colon <= n,
            exists|i: int| 0 <= i < id@.len() && id@[i] == ':',
            forall|i: int| 0 <= i < colon ==> id@[i] != ':',
        decreases n - colon,
    {
        colon = colon + 1;
    }
    let mut end: usize = colon + 1;
    while end < n && id.get_char(end) != ':'
        invariant
            n == id@.len(),
            colon < n,
            colon + 1 <= end <= n,
            forall|i: int| colon + 1 <= i < end ==> id@[i] != ':',
        decreases n - end,
    {
        end = end + 1;
    }
    let table = id.substring_char(0, colon).to_owned();
    let key = id.substring_char(colon + 1, end).to_owned();
    proof {
        assert(table@ =~= id@.take(colon as int));
        assert(key@ =~= id@.subrange(colon + 1, end as int));
    }
    (table, key)
}

/// A record id split at its colons gives back the table and key it was
/// written from, and nothing else.
pub proof fn lemma_split_joined_record_id(table: Seq<char>, key: Seq<char>)
    requires
        colon_free(table),
        colon_free(key),
    ensures
        splits_into(table + seq![':'] + key, table, key),
        forall|t: Seq<char>, k: Seq<char>|
            splits_into(table + seq![':'] + key, t, k) ==> t == table && k == key,
{
    let id = table + seq![':'] + key;
    assert(id.take(table.len() as int) =~= table);
    assert(id.subrange(table.len() + 1 as int, id.len() as int) =~= key);
    assert forall|t: Seq<char>, k: Seq<char>| splits_into(id, t, k) implies t == table && k
        == key by {
        if t.len() < table.len() {
            assert(id[t.len() as int] == table[t.len() as int]);
        } else if t.len() > table.len() {
            assert(t[table.len() as int] == id[table.len() as int]);
        }
        assert(t =~= table);
        let start: int = t.len() as int + 1;
        if k.len() < key.len() {
            assert(id[start + k.len()] == key[k.len() as int]);
        } else if k.len() > key.len() {
            assert(start + key.len() == id.len());
        }
        assert(k =~= key);
    }
}

} // verus!
