//! What the tables of the store have in common: records with an identifier,
//! looked up by it and listed in a fixed order.

use crate::listing::{
    arranged, covers, is_arrangement, lemma_listed_before_total, lemma_row_before_asymmetric,
    listed_before, listing_order, row_before, RowKey,
};
use crate::models::{AIInsight, NotificationItem, Task};
use crate::text::same_text;
use crate::time::Timestamp;
use vstd::prelude::*;
use vstd::string::*;

verus! {

/// A record of a table.
pub trait Record: Sized {
    /// The identifier under which the table holds the record.
    spec fn key(&self) -> Seq<char>;

    /// The instant by which the table lists the record.
    spec fn listed_at(&self) -> Timestamp;

    fn key_text(&self) -> (key: &str)
        ensures
            key@ == self.key(),
    ;

    fn listing_instant(&self) -> (at: Timestamp)
        ensures
            at == self.listed_at(),
    ;

    fn duplicate(&self) -> (copy: Self)
        ensures
            copy == *self,
    ;
}

impl Record for Task {
    open spec fn key(&self) -> Seq<char> {
        self.id@
    }

    open spec fn listed_at(&self) -> Timestamp {
        self.created_at
    }

    fn key_text(&self) -> (key: &str) {
        self.id.as_str()
    }

    fn listing_instant(&self) -> (at: Timestamp) {
        self.created_at
    }

    fn duplicate(&self) -> (copy: Self) {
        self.clone()
    }
}

impl Record for AIInsight {
    open spec fn key(&self) -> Seq<char> {
        self.id@
    }

    open spec fn listed_at(&self) -> Timestamp {
        self.created_at
    }

    fn key_text(&self) -> (key: &str) {
        self.id.as_str()
    }

    fn listing_instant(&self) -> (at: Timestamp) {
        self.created_at
    }

    fn duplicate(&self) -> (copy: Self) {
        self.clone()
    }
}

impl Record for NotificationItem {
    open spec fn key(&self) -> Seq<char> {
        self.id@
    }

    open spec fn listed_at(&self) -> Timestamp {
        self.created_at
    }

    fn key_text(&self) -> (key: &str) {
        self.id.as_str()
    }

    fn listing_instant(&self) -> (at: Timestamp) {
        self.created_at
    }

    fn duplicate(&self) -> (copy: Self) {
        self.clone()
    }
}

/// No two records of `rows` share an identifier.
pub open spec fn distinct_keys<T: Record>(rows: Seq<T>) -> bool {
    forall|i: int, j: int| 0 <= i < j < rows.len() ==> #[trigger] rows[i].key() != #[trigger] rows[j].key()
}

/// Whether `rows` holds a record under `key`.
pub open spec fn holds_key<T: Record>(rows: Seq<T>, key: Seq<char>) -> bool {
    exists|i: int| 0 <= i < rows.len() && #[trigger] rows[i].key() == key
}

/// Whether `a` is listed before `b`: by their instants, the later one first
/// where `newest_first` is set, and by their identifiers where the instants
/// coincide.
pub open spec fn record_before<T: Record>(a: T, b: T, newest_first: bool) -> bool {
    row_before(a.listed_at(), a.key(), b.listed_at(), b.key(), newest_first)
}

/// Finds the record under `key`.
pub fn position_of<T: Record>(rows: &Vec<T>, key: &str) -> (found: Option<usize>)
    ensures
        found is Some <==> holds_key(rows@, key@),
        found matches Some(i) ==> i < rows@.len() && rows@[i as int].key() == key@,
{
    let mut i: usize = 0;
    while i < rows.len()
        invariant
            i <= rows.len(),
            forall|j: int| 0 <= j < i ==> #[trigger] rows@[j].key() != key@,
        decreases rows.len() - i,
    {
        if same_text(rows[i].key_text(), key) {
            return Some(i);
        }
        i += 1;
    }
    None
}

/// `picked` names indices of `rows` in rising order.
pub open spec fn rising(picked: Seq<usize>, n: nat) -> bool {
    &&& forall|q: int| 0 <= q < picked.len() ==> #[trigger] picked[q] < n
    &&& forall|p: int, q: int| 0 <= p < q < picked.len() ==> picked[p] < picked[q]
}

/// Lists the records of `rows` at the indices `picked`, by the given keys.
/// The second result tells which key went to which place.
pub(crate) fn listing_of<T: Record>(
    rows: &Vec<T>,
    picked: &Vec<usize>,
    keys: &Vec<RowKey>,
    newest_first: bool,
) -> (out: (Vec<T>, Ghost<Seq<usize>>))
    requires
        rising(picked@, rows@.len()),
        keys@.len() == picked@.len(),
    ensures
        is_arrangement(out.1@, keys@.len()),
        covers(out.1@, keys@.len()),
        arranged(keys@, out.1@, newest_first),
        out.0@.len() == picked@.len(),
        forall|i: int|
            0 <= i < out.0@.len() ==> #[trigger] out.0@[i] == rows@[picked@[out.1@[i] as int] as int],
{
    let order = listing_order(keys, newest_first);
    let mut listing: Vec<T> = Vec::new();
    let mut i: usize = 0;
    while i < order.len()
        invariant
            i <= order.len(),
            is_arrangement(order@, keys@.len()),
            keys@.len() == picked@.len(),
            rising(picked@, rows@.len()),
            listing@.len() == i,
            forall|k: int|
                0 <= k < i ==> #[trigger] listing@[k] == rows@[picked@[order@[k] as int] as int],
        decreases order.len() - i,
    {
        let q = order[i];
        let row = picked[q];
        listing.push(rows[row].duplicate());
        i += 1;
    }
    (listing, Ghost(order@))
}

/// `listing` holds the records of `rows` that are `wanted`, each once, in
/// listing order by the instant `at` and by identifier. Where no two records
/// of `rows` share an identifier, there is one such listing and no other.
pub open spec fn lists<T: Record>(
    listing: Seq<T>,
    rows: Seq<T>,
    wanted: spec_fn(T) -> bool,
    at: spec_fn(T) -> Timestamp,
    newest_first: bool,
) -> bool {
    &&& forall|i: int|
        0 <= i < listing.len() ==> rows.contains(#[trigger] listing[i]) && wanted(listing[i])
    &&& forall|k: int|
        0 <= k < rows.len() && wanted(#[trigger] rows[k]) ==> listing.contains(rows[k])
    &&& forall|i: int, j: int|
        0 <= i < j < listing.len() ==> row_before(
            at(#[trigger] listing[i]),
            listing[i].key(),
            at(#[trigger] listing[j]),
            listing[j].key(),
            newest_first,
        )
}

/// `listing` holds all records of `rows`, each once, in listing order by the
/// instant that the kind of record is listed by.
pub open spec fn lists_all<T: Record>(listing: Seq<T>, rows: Seq<T>, newest_first: bool) -> bool {
    lists(listing, rows, |t: T| true, |t: T| t.listed_at(), newest_first)
}

/// The first `limit` entries of `full`; all of them under a negative limit.
pub open spec fn limited<T>(full: Seq<T>, limit: int) -> Seq<T> {
    if 0 <= limit < full.len() {
        full.take(limit)
    } else {
        full
    }
}

/// `s` is in strict listing order.
pub open spec fn strictly_listed<T: Record>(
    s: Seq<T>,
    at: spec_fn(T) -> Timestamp,
    newest_first: bool,
) -> bool {
    forall|i: int, j: int|
        0 <= i < j < s.len() ==> row_before(
            at(#[trigger] s[i]),
            s[i].key(),
            at(#[trigger] s[j]),
            s[j].key(),
            newest_first,
        )
}

/// Two sequences in strict listing order that hold the same records are the
/// same sequence.
pub proof fn lemma_same_elements_same_listing<T: Record>(
    a: Seq<T>,
    b: Seq<T>,
    at: spec_fn(T) -> Timestamp,
    newest_first: bool,
)
    requires
        strictly_listed(a, at, newest_first),
        strictly_listed(b, at, newest_first),
        forall|i: int| 0 <= i < a.len() ==> b.contains(#[trigger] a[i]),
        forall|i: int| 0 <= i < b.len() ==> a.contains(#[trigger] b[i]),
    ensures
        a == b,
    decreases a.len(),
{
    if a.len() == 0 {
        if b.len() > 0 {
            assert(a.contains(b[0]));
        }
        assert(a =~= b);
    } else {
        assert(b.contains(a[0]));
        let k = choose|k: int| 0 <= k < b.len() && b[k] == a[0];
        assert(a.contains(b[0]));
        let m = choose|m: int| 0 <= m < a.len() && a[m] == b[0];
        if k > 0 && m > 0 {
            assert(row_before(at(b[0]), b[0].key(), at(b[k]), b[k].key(), newest_first));
            assert(row_before(at(a[0]), a[0].key(), at(a[m]), a[m].key(), newest_first));
            lemma_row_before_asymmetric(
                at(a[0]),
                a[0].key(),
                at(b[0]),
                b[0].key(),
                newest_first,
            );
        }
        assert(a[0] == b[0]);
        let a_rest = a.skip(1);
        let b_rest = b.skip(1);
        assert forall|i: int| 0 <= i < a_rest.len() implies b_rest.contains(#[trigger] a_rest[i]) by {
            assert(a_rest[i] == a[i + 1]);
            assert(b.contains(a[i + 1]));
            let q = choose|q: int| 0 <= q < b.len() && b[q] == a[i + 1];
            if q == 0 {
                assert(row_before(at(a[0]), a[0].key(), at(a[i + 1]), a[i + 1].key(), newest_first));
                lemma_row_before_asymmetric(
                    at(a[0]),
                    a[0].key(),
                    at(a[0]),
                    a[0].key(),
                    newest_first,
                );
            }
            assert(b_rest[q - 1] == a_rest[i]);
        }
        assert forall|i: int| 0 <= i < b_rest.len() implies a_rest.contains(#[trigger] b_rest[i]) by {
            assert(b_rest[i] == b[i + 1]);
            assert(a.contains(b[i + 1]));
            let q = choose|q: int| 0 <= q < a.len() && a[q] == b[i + 1];
            if q == 0 {
                assert(row_before(at(b[0]), b[0].key(), at(b[i + 1]), b[i + 1].key(), newest_first));
                lemma_row_before_asymmetric(
                    at(b[0]),
                    b[0].key(),
                    at(b[0]),
                    b[0].key(),
                    newest_first,
                );
            }
            assert(a_rest[q - 1] == b_rest[i]);
        }
        assert forall|i: int, j: int| 0 <= i < j < a_rest.len() implies row_before(
            at(#[trigger] a_rest[i]),
            a_rest[i].key(),
            at(#[trigger] a_rest[j]),
            a_rest[j].key(),
            newest_first,
        ) by {
            assert(a_rest[i] == a[i + 1] && a_rest[j] == a[j + 1]);
        }
        assert forall|i: int, j: int| 0 <= i < j < b_rest.len() implies row_before(
            at(#[trigger] b_rest[i]),
            b_rest[i].key(),
            at(#[trigger] b_rest[j]),
            b_rest[j].key(),
            newest_first,
        ) by {
            assert(b_rest[i] == b[i + 1] && b_rest[j] == b[j + 1]);
        }
        lemma_same_elements_same_listing(a_rest, b_rest, at, newest_first);
        assert(a =~= seq![a[0]] + a_rest);
        assert(b =~= seq![b[0]] + b_rest);
    }
}

/// What `listing_of` returns is the listing of the wanted records.
pub(crate) proof fn lemma_listing_of_lists<T: Record>(
    listing: Seq<T>,
    rows: Seq<T>,
    picked: Seq<usize>,
    keys: Seq<RowKey>,
    order: Seq<usize>,
    wanted: spec_fn(T) -> bool,
    at: spec_fn(T) -> Timestamp,
    newest_first: bool,
)
    requires
        rows.len() <= usize::MAX,
        keys.len() <= usize::MAX,
        distinct_keys(rows),
        rising(picked, rows.len()),
        keys.len() == picked.len(),
        forall|q: int|
            0 <= q < keys.len() ==> (#[trigger] keys[q]).id@ == rows[picked[q] as int].key()
                && keys[q].at == at(rows[picked[q] as int]) && wanted(rows[picked[q] as int]),
        forall|k: usize| k < rows.len() && wanted(rows[k as int]) ==> #[trigger] picked.contains(k),
        is_arrangement(order, keys.len()),
        covers(order, keys.len()),
        arranged(keys, order, newest_first),
        listing.len() == picked.len(),
        forall|i: int|
            0 <= i < listing.len() ==> #[trigger] listing[i] == rows[picked[order[i] as int] as int],
    ensures
        lists(listing, rows, wanted, at, newest_first),
{
    assert forall|i: int| 0 <= i < listing.len() implies rows.contains(#[trigger] listing[i])
        && wanted(listing[i]) by {
        let q = order[i] as int;
        assert(order[i] < keys.len());
        assert(keys[q].id@ == rows[picked[q] as int].key());
        assert(picked[q] < rows.len());
        assert(rows[picked[q] as int] == listing[i]);
    }
    assert forall|k: int| 0 <= k < rows.len() && wanted(#[trigger] rows[k]) implies listing.contains(
        rows[k],
    ) by {
        let ku = k as usize;
        assert(wanted(rows[ku as int]));
        assert(picked.contains(ku));
        let q = choose|q: int| 0 <= q < picked.len() && picked[q] == ku;
        let qu = q as usize;
        assert(order.contains(qu));
        let i = choose|i: int| 0 <= i < order.len() && order[i] == qu;
        assert(listing[i] == rows[picked[order[i] as int] as int]);
        assert(listing[i] == rows[k]);
    }
    assert forall|i: int, j: int| 0 <= i < j < listing.len() implies row_before(
        at(#[trigger] listing[i]),
        listing[i].key(),
        at(#[trigger] listing[j]),
        listing[j].key(),
        newest_first,
    ) by {
        let p = order[i] as int;
        let q = order[j] as int;
        assert(order[i] < keys.len() && order[j] < keys.len());
        assert(p != q);
        assert(!listed_before(keys[q], keys[p], newest_first));
        let rp = picked[p] as int;
        let rq = picked[q] as int;
        assert(keys[p].id@ == rows[rp].key() && keys[q].id@ == rows[rq].key());
        assert(rp != rq) by {
            if p < q {
                assert(picked[p] < picked[q]);
            } else {
                assert(picked[q] < picked[p]);
            }
        }
        assert(rows[rp].key() != rows[rq].key()) by {
            if rp < rq {
                assert(rows[rp].key() != rows[rq].key());
            } else {
                assert(rows[rq].key() != rows[rp].key());
            }
        }
        lemma_listed_before_total(keys[p], keys[q], newest_first);
    }
}

/// Lists all of `rows`, by the instant that the kind of record is listed by.
pub fn list_records<T: Record>(rows: &Vec<T>, newest_first: bool) -> (listing: Vec<T>)
    requires
        distinct_keys(rows@),
    ensures
        lists_all(listing@, rows@, newest_first),
{
    let mut picked: Vec<usize> = Vec::new();
    let mut keys: Vec<RowKey> = Vec::new();
    let mut k: usize = 0;
    while k < rows.len()
        invariant
            k <= rows.len(),
            picked@.len() == k,
            keys@.len() == k,
            forall|q: int| 0 <= q < k ==> #[trigger] picked@[q] == q,
            forall|q: int|
                0 <= q < k ==> (#[trigger] keys@[q]).id@ == rows@[q].key() && keys@[q].at
                    == rows@[q].listed_at(),
        decreases rows.len() - k,
    {
        picked.push(k);
        keys.push(
            RowKey { at: rows[k].listing_instant(), id: String::from_str(rows[k].key_text()) },
        );
        k += 1;
    }
    let (listing, Ghost(order)) = listing_of(rows, &picked, &keys, newest_first);
    proof {
        assert forall|k: usize| k < rows@.len() implies #[trigger] picked@.contains(k) by {
            assert(picked@[k as int] == k);
        }
        lemma_listing_of_lists(
            listing@,
            rows@,
            picked@,
            keys@,
            order,
            |t: T| true,
            |t: T| t.listed_at(),
            newest_first,
        );
    }
    listing
}

/// Cuts `full` down to its first `limit` entries; a negative limit leaves
/// it whole.
pub fn limit_to<T>(full: Vec<T>, limit: i32) -> (cut: Vec<T>)
    ensures
        cut@ == limited(full@, limit as int),
{
    let mut cut = full;
    if limit >= 0 && (limit as usize) < cut.len() {
        cut.truncate(limit as usize);
    }
    cut
}

} // verus!
