//! The order in which records are listed: by an instant, and by identifier
//! where the instants coincide.

use crate::time::{is_before, Timestamp};
use vstd::prelude::*;
use vstd::string::*;

verus! {

/// Whether `a` comes before `b` in dictionary order by code point; a proper
/// prefix comes before the longer text.
pub open spec fn text_before(a: Seq<char>, b: Seq<char>) -> bool
    decreases a.len(),
{
    if b.len() == 0 {
        false
    } else if a.len() == 0 {
        true
    } else if a[0] != b[0] {
        a[0] < b[0]
    } else {
        text_before(a.skip(1), b.skip(1))
    }
}

/// No text comes before a text that comes before it.
pub proof fn lemma_text_before_asymmetric(a: Seq<char>, b: Seq<char>)
    ensures
        !(text_before(a, b) && text_before(b, a)),
    decreases a.len(),
{
    if a.len() > 0 && b.len() > 0 && a[0] == b[0] {
        lemma_text_before_asymmetric(a.skip(1), b.skip(1));
    }
}

/// Dictionary order is transitive.
pub proof fn lemma_text_before_transitive(a: Seq<char>, b: Seq<char>, c: Seq<char>)
    requires
        text_before(a, b),
        text_before(b, c),
    ensures
        text_before(a, c),
    decreases a.len(),
{
    if a.len() > 0 && b.len() > 0 && c.len() > 0 && a[0] == b[0] && b[0] == c[0] {
        lemma_text_before_transitive(a.skip(1), b.skip(1), c.skip(1));
    }
}

/// Of two different texts one comes before the other.
pub proof fn lemma_text_before_total(a: Seq<char>, b: Seq<char>)
    requires
        a != b,
    ensures
        text_before(a, b) || text_before(b, a),
    decreases a.len(),
{
    if a.len() > 0 && b.len() > 0 && a[0] == b[0] {
        if a.skip(1) == b.skip(1) {
            assert(a =~= seq![a[0]] + a.skip(1));
            assert(b =~= seq![b[0]] + b.skip(1));
        }
        lemma_text_before_total(a.skip(1), b.skip(1));
    } else if a.len() == 0 && b.len() == 0 {
        assert(a =~= b);
    }
}

/// Decides dictionary order.
pub fn text_is_before(a: &str, b: &str) -> (before: bool)
    ensures
        before == text_before(a@, b@),
{
    let la = a.unicode_len();
    let lb = b.unicode_len();
    let mut i: usize = 0;
    assert(a@.skip(0) =~= a@ && b@.skip(0) =~= b@);
    while i < la && i < lb
        invariant
            i <= la,
            i <= lb,
            la == a@.len(),
            lb == b@.len(),
            text_before(a@, b@) == text_before(a@.skip(i as int), b@.skip(i as int)),
        decreases la - i,
    {
        let ca = a.get_char(i);
        let cb = b.get_char(i);
        assert(a@.skip(i as int).skip(1) =~= a@.skip(i as int + 1));
        assert(b@.skip(i as int).skip(1) =~= b@.skip(i as int + 1));
        if ca != cb {
            return ca < cb;
        }
        i += 1;
    }
    i < lb
}

/// What a record is listed by.
#[derive(Debug)]
pub struct RowKey {
    pub at: Timestamp,
    pub id: String,
}

/// The listing order on records, each given by an instant and an
/// identifier: by their instants, the later one first where `newest_first` is
/// set, else the earlier one; by their identifiers where the instants
/// coincide.
pub open spec fn row_before(
    a_at: Timestamp,
    a_key: Seq<char>,
    b_at: Timestamp,
    b_key: Seq<char>,
    newest_first: bool,
) -> bool {
    if a_at != b_at {
        if newest_first {
            is_before(b_at, a_at)
        } else {
            is_before(a_at, b_at)
        }
    } else {
        text_before(a_key, b_key)
    }
}

/// Whether the record with key `a` is listed before the one with key `b`.
pub open spec fn listed_before(a: RowKey, b: RowKey, newest_first: bool) -> bool {
    row_before(a.at, a.id@, b.at, b.id@, newest_first)
}

/// No record is listed before one that is listed before it.
pub proof fn lemma_row_before_asymmetric(
    a_at: Timestamp,
    a_key: Seq<char>,
    b_at: Timestamp,
    b_key: Seq<char>,
    newest_first: bool,
)
    ensures
        !(row_before(a_at, a_key, b_at, b_key, newest_first) && row_before(
            b_at,
            b_key,
            a_at,
            a_key,
            newest_first,
        )),
{
    lemma_text_before_asymmetric(a_key, b_key);
}

/// The listing order is transitive.
pub proof fn lemma_row_before_transitive(
    a_at: Timestamp,
    a_key: Seq<char>,
    b_at: Timestamp,
    b_key: Seq<char>,
    c_at: Timestamp,
    c_key: Seq<char>,
    newest_first: bool,
)
    requires
        row_before(a_at, a_key, b_at, b_key, newest_first),
        row_before(b_at, b_key, c_at, c_key, newest_first),
    ensures
        row_before(a_at, a_key, c_at, c_key, newest_first),
{
    if a_at == b_at && b_at == c_at {
        lemma_text_before_transitive(a_key, b_key, c_key);
    }
}

/// Of two records with different identifiers one is listed before the other.
pub proof fn lemma_row_before_total(
    a_at: Timestamp,
    a_key: Seq<char>,
    b_at: Timestamp,
    b_key: Seq<char>,
    newest_first: bool,
)
    requires
        a_key != b_key,
    ensures
        row_before(a_at, a_key, b_at, b_key, newest_first) || row_before(
            b_at,
            b_key,
            a_at,
            a_key,
            newest_first,
        ),
{
    lemma_text_before_total(a_key, b_key);
}

/// No key is listed before one that is listed before it.
pub proof fn lemma_listed_before_asymmetric(a: RowKey, b: RowKey, newest_first: bool)
    ensures
        !(listed_before(a, b, newest_first) && listed_before(b, a, newest_first)),
{
    lemma_row_before_asymmetric(a.at, a.id@, b.at, b.id@, newest_first);
}

/// The listing order on keys is transitive.
pub proof fn lemma_listed_before_transitive(a: RowKey, b: RowKey, c: RowKey, newest_first: bool)
    requires
        listed_before(a, b, newest_first),
        listed_before(b, c, newest_first),
    ensures
        listed_before(a, c, newest_first),
{
    lemma_row_before_transitive(a.at, a.id@, b.at, b.id@, c.at, c.id@, newest_first);
}

/// Of two keys with different identifiers one is listed before the other.
pub proof fn lemma_listed_before_total(a: RowKey, b: RowKey, newest_first: bool)
    requires
        a.id@ != b.id@,
    ensures
        listed_before(a, b, newest_first) || listed_before(b, a, newest_first),
{
    lemma_row_before_total(a.at, a.id@, b.at, b.id@, newest_first);
}

/// Decides the listing order of two keys.
pub fn is_listed_before(a: &RowKey, b: &RowKey, newest_first: bool) -> (before: bool)
    ensures
        before == listed_before(*a, *b, newest_first),
{
    if a.at.secs != b.at.secs || a.at.nanos != b.at.nanos {
        if newest_first {
            b.at.before(&a.at)
        } else {
            a.at.before(&b.at)
        }
    } else {
        text_is_before(a.id.as_str(), b.id.as_str())
    }
}

/// `order` names each index below `n` once.
pub open spec fn is_arrangement(order: Seq<usize>, n: nat) -> bool {
    &&& order.len() == n
    &&& forall|i: int| 0 <= i < order.len() ==> #[trigger] order[i] < n
    &&& forall|i: int, j: int| 0 <= i < j < order.len() ==> order[i] != order[j]
}

/// Along `order`, no key is listed before one that stands earlier.
pub open spec fn arranged(keys: Seq<RowKey>, order: Seq<usize>, newest_first: bool) -> bool {
    forall|i: int, j: int|
        0 <= i < j < order.len() ==> !listed_before(
            #[trigger] keys[order[j] as int],
            #[trigger] keys[order[i] as int],
            newest_first,
        )
}

/// Every index below `n` stands somewhere in `order`.
pub open spec fn covers(order: Seq<usize>, n: nat) -> bool {
    forall|k: usize| k < n ==> #[trigger] order.contains(k)
}

/// Puts the indices of `keys` into listing order. Keys that are listed
/// neither before nor after each other keep the order in which they came.
pub fn listing_order(keys: &Vec<RowKey>, newest_first: bool) -> (order: Vec<usize>)
    ensures
        is_arrangement(order@, keys@.len()),
        covers(order@, keys@.len()),
        arranged(keys@, order@, newest_first),
{
    let mut order: Vec<usize> = Vec::new();
    let mut n: usize = 0;
    while n < keys.len()
        invariant
            n <= keys.len(),
            is_arrangement(order@, n as nat),
            covers(order@, n as nat),
            arranged(keys@, order@, newest_first),
        decreases keys.len() - n,
    {
        let mut p: usize = 0;
        while p < order.len() && !is_listed_before(&keys[n], &keys[order[p]], newest_first)
            invariant
                p <= order.len(),
                n < keys.len(),
                is_arrangement(order@, n as nat),
                forall|k: int|
                    0 <= k < p ==> !listed_before(
                        keys@[n as int],
                        #[trigger] keys@[order@[k] as int],
                        newest_first,
                    ),
            decreases order.len() - p,
        {
            p += 1;
        }
        let ghost before = order@;
        order.insert(p, n);
        proof {
            let after = order@;
            assert(after == before.insert(p as int, n));
            assert forall|i: int| 0 <= i < after.len() implies #[trigger] after[i] < n + 1 by {
                if i < p {
                    assert(after[i] == before[i]);
                } else if i > p {
                    assert(after[i] == before[i - 1]);
                }
            }
            assert forall|i: int, j: int| 0 <= i < j < after.len() implies after[i] != after[j] by {
                let oi = if i < p {
                    i
                } else {
                    i - 1
                };
                let oj = if j < p {
                    j
                } else {
                    j - 1
                };
                if i != p && j != p {
                    assert(after[i] == before[oi] && after[j] == before[oj]);
                } else if i == p {
                    assert(after[j] == before[oj]);
                    assert(before[oj] < n);
                } else {
                    assert(after[i] == before[oi]);
                    assert(before[oi] < n);
                }
            }
            assert forall|k: usize| k < n + 1 implies #[trigger] after.contains(k) by {
                if k == n {
                    assert(after[p as int] == k);
                } else {
                    assert(before.contains(k));
                    let i = choose|i: int| 0 <= i < before.len() && before[i] == k;
                    if i < p {
                        assert(after[i] == k);
                    } else {
                        assert(after[i + 1] == k);
                    }
                }
            }
            assert forall|i: int, j: int| 0 <= i < j < after.len() implies !listed_before(
                #[trigger] keys@[after[j] as int],
                #[trigger] keys@[after[i] as int],
                newest_first,
            ) by {
                let oi = if i < p {
                    i
                } else {
                    i - 1
                };
                let oj = if j < p {
                    j
                } else {
                    j - 1
                };
                if i != p && j != p {
                    assert(after[i] == before[oi] && after[j] == before[oj]);
                    assert(!listed_before(
                        keys@[before[oj] as int],
                        keys@[before[oi] as int],
                        newest_first,
                    ));
                } else if j == p {
                    assert(after[i] == before[i]);
                    assert(!listed_before(
                        keys@[n as int],
                        keys@[before[i] as int],
                        newest_first,
                    ));
                } else {
                    // i == p: the new key stands before an old one
                    assert(after[j] == before[j - 1]);
                    assert(p < before.len());
                    assert(listed_before(keys@[n as int], keys@[before[p as int] as int], newest_first));
                    if listed_before(keys@[before[j - 1] as int], keys@[n as int], newest_first) {
                        lemma_listed_before_transitive(
                            keys@[before[j - 1] as int],
                            keys@[n as int],
                            keys@[before[p as int] as int],
                            newest_first,
                        );
                        lemma_listed_before_asymmetric(
                            keys@[n as int],
                            keys@[before[p as int] as int],
                            newest_first,
                        );
                        if j - 1 > p {
                            assert(!listed_before(
                                keys@[before[j - 1] as int],
                                keys@[before[p as int] as int],
                                newest_first,
                            ));
                        }
                    }
                }
            }
        }
        n += 1;
    }
    order
}

} // verus!
