//! What holds of merging, `subset` and `union` on every input.
//!
//! The statements are over the views that the contracts of
//! [`crate::page_list`] use, so each of them speaks of what the functions
//! there return.
use vstd::prelude::*;
use vstd::seq_lib::lemma_no_dup_in_concat;
use vstd::set_lib::lemma_len_subset;
use crate::json::JsonView;
use crate::page_list::{
    counterpart, identities, is_reserved_key, last_index_of, lemma_last_index_of, merged,
    page_of_entry, pages_of_entries, subset_pages, translated_pages, union_appends, union_head_at,
    union_pages, union_tail, PageView,
};
use crate::title::{PageIdentity, TitleView};

verus! {

/// Merge precedence: the merged page has the identity of the first page and
/// the keys of both; on a key that both hold the second page's value wins.
pub proof fn lemma_merge_precedence(a: PageView, b: PageView, key: Seq<char>)
    ensures
        merged(a, b).identity == a.identity,
        merged(a, b).meta.dom() == a.meta.dom().union(b.meta.dom()),
        b.meta.dom().contains(key) ==> merged(a, b).meta[key] == b.meta[key],
        !b.meta.dom().contains(key) && a.meta.dom().contains(key) ==> merged(a, b).meta[key]
            == a.meta[key],
{
    assert(merged(a, b).meta.dom() =~= a.meta.dom().union(b.meta.dom()));
}

/// A page merged with itself is that page.
pub proof fn lemma_merge_self(a: PageView)
    ensures
        merged(a, a) == a,
{
    assert(merged(a, a).meta =~= a.meta);
}

/// A decoded page holds no reserved key in its metadata.
pub proof fn lemma_decoded_meta_has_no_reserved_key(entry: JsonView, key: Seq<char>)
    requires
        page_of_entry(entry) is Some,
        is_reserved_key(key),
    ensures
        !page_of_entry(entry).unwrap().meta.dom().contains(key),
{
}

/// Every page of a decoded document comes from one of its entries, so none
/// of them holds a reserved key in its metadata.
pub proof fn lemma_decoded_pages_have_no_reserved_key(entries: Seq<JsonView>, i: int, key: Seq<char>)
    requires
        0 <= i < pages_of_entries(entries).len(),
        is_reserved_key(key),
    ensures
        !pages_of_entries(entries)[i].meta.dom().contains(key),
    decreases entries.len(),
{
    if entries.len() > 0 {
        let front = pages_of_entries(entries.drop_last());
        if i < front.len() {
            lemma_decoded_pages_have_no_reserved_key(entries.drop_last(), i, key);
        } else {
            lemma_decoded_meta_has_no_reserved_key(entries.last(), key);
        }
    }
}

/// How many members of `s` occur in `t`, counted with repetition.
pub open spec fn matched_count(s: Seq<PageIdentity>, t: Seq<PageIdentity>) -> nat
    decreases s.len(),
{
    if s.len() == 0 {
        0
    } else {
        matched_count(s.drop_last(), t) + (if t.contains(s.last()) {
            1nat
        } else {
            0nat
        })
    }
}

proof fn lemma_matched_count_is_intersection(s: Seq<PageIdentity>, t: Seq<PageIdentity>)
    requires
        s.no_duplicates(),
    ensures
        matched_count(s, t) == s.to_set().intersect(t.to_set()).len(),
        s.to_set().intersect(t.to_set()).finite(),
    decreases s.len(),
{
    broadcast use vstd::seq_lib::seq_to_set_is_finite;

    let both = s.to_set().intersect(t.to_set());
    lemma_len_subset(both, s.to_set());
    if s.len() == 0 {
        assert(both =~= Set::<PageIdentity>::empty());
    } else {
        let front = s.drop_last();
        let x = s.last();
        assert(front.no_duplicates()) by {
            assert forall|i: int, j: int| 0 <= i < front.len() && 0 <= j < front.len() && i
                != j implies front[i] != front[j] by {
                assert(front[i] == s[i]);
                assert(front[j] == s[j]);
            }
        }
        lemma_matched_count_is_intersection(front, t);
        let front_both = front.to_set().intersect(t.to_set());
        assert(!front.to_set().contains(x)) by {
            if front.contains(x) {
                let k = choose|k: int| 0 <= k < front.len() && front[k] == x;
                assert(s[k] == s[s.len() - 1]);
            }
        }
        assert forall|y: PageIdentity| s.to_set().contains(y) <==> (front.to_set().contains(y) || y
            == x) by {
            if s.contains(y) {
                let k = choose|k: int| 0 <= k < s.len() && s[k] == y;
                if k < front.len() {
                    assert(front[k] == y);
                }
            }
            if front.contains(y) {
                let k = choose|k: int| 0 <= k < front.len() && front[k] == y;
                assert(s[k] == y);
            }
            if y == x {
                assert(s[s.len() - 1] == y);
            }
        }
        if t.contains(x) {
            assert(both =~= front_both.insert(x));
        } else {
            assert(both =~= front_both);
        }
    }
}

/// Of a list without repetition, no more members occur in `t` than `t` is long.
pub proof fn lemma_matched_count_bounded(s: Seq<PageIdentity>, t: Seq<PageIdentity>)
    requires
        s.no_duplicates(),
    ensures
        matched_count(s, t) <= t.len(),
{
    broadcast use vstd::seq_lib::seq_to_set_is_finite;

    lemma_matched_count_is_intersection(s, t);
    lemma_len_subset(s.to_set().intersect(t.to_set()), t.to_set());
    t.lemma_cardinality_of_set();
}

/// A page has a counterpart exactly where its identity occurs.
pub proof fn lemma_counterpart(b: Seq<PageView>, id: PageIdentity)
    ensures
        counterpart(b, id) is Some <==> identities(b).contains(id),
        counterpart(b, id) is Some ==> counterpart(b, id).unwrap().identity == id,
{
    lemma_last_index_of(identities(b), id);
}

proof fn lemma_subset_shape(a: Seq<PageView>, b: Seq<PageView>)
    ensures
        subset_pages(a, b).len() == matched_count(identities(a), identities(b)),
        subset_pages(a, b).len() <= a.len(),
        forall|id: PageIdentity|
            identities(subset_pages(a, b)).contains(id) <==> (identities(a).contains(id)
                && identities(b).contains(id)),
    decreases a.len(),
{
    let ids_a = identities(a);
    let ids_b = identities(b);
    if a.len() == 0 {
        assert forall|id: PageIdentity| !identities(subset_pages(a, b)).contains(id) by {}
        assert forall|id: PageIdentity| !ids_a.contains(id) by {}
    } else {
        let front = a.drop_last();
        let x = a.last();
        lemma_subset_shape(front, b);
        lemma_counterpart(b, x.identity);
        assert(ids_a.drop_last() =~= identities(front));
        assert(ids_a.last() == x.identity);
        let sub_front = identities(subset_pages(front, b));
        let sub = identities(subset_pages(a, b));
        assert forall|id: PageIdentity| ids_a.contains(id) <==> (identities(front).contains(id)
            || id == x.identity) by {
            if ids_a.contains(id) {
                let k = choose|k: int| 0 <= k < ids_a.len() && ids_a[k] == id;
                if k < front.len() {
                    assert(identities(front)[k] == id);
                }
            }
            if identities(front).contains(id) {
                let k = choose|k: int| 0 <= k < front.len() && identities(front)[k] == id;
                assert(ids_a[k] == id);
            }
            if id == x.identity {
                assert(ids_a[a.len() - 1] == id);
            }
        }
        if counterpart(b, x.identity) is Some {
            assert(sub =~= sub_front.push(x.identity));
            assert forall|id: PageIdentity| sub.contains(id) <==> (sub_front.contains(id) || id
                == x.identity) by {
                if sub.contains(id) {
                    let k = choose|k: int| 0 <= k < sub.len() && sub[k] == id;
                    if k < sub_front.len() {
                        assert(sub_front[k] == id);
                    }
                }
                if sub_front.contains(id) {
                    let k = choose|k: int| 0 <= k < sub_front.len() && sub_front[k] == id;
                    assert(sub[k] == id);
                }
                if id == x.identity {
                    assert(sub[sub.len() - 1] == id);
                }
            }
        } else {
            assert(sub =~= sub_front);
        }
    }
}

/// `subset` is no longer than its first argument, and no longer than its
/// second where no identity occurs twice in the first.
pub proof fn lemma_subset_len(a: Seq<PageView>, b: Seq<PageView>)
    ensures
        subset_pages(a, b).len() <= a.len(),
        identities(a).no_duplicates() ==> subset_pages(a, b).len() <= b.len(),
{
    lemma_subset_shape(a, b);
    if identities(a).no_duplicates() {
        lemma_matched_count_bounded(identities(a), identities(b));
    }
}

/// The identities of `subset` are those that occur in both arguments.
pub proof fn lemma_subset_identities(a: Seq<PageView>, b: Seq<PageView>, id: PageIdentity)
    ensures
        identities(subset_pages(a, b)).contains(id) <==> (identities(a).contains(id) && identities(
            b,
        ).contains(id)),
{
    lemma_subset_shape(a, b);
}

/// The subset with an empty list is empty.
pub proof fn lemma_subset_with_empty(a: Seq<PageView>)
    ensures
        subset_pages(a, Seq::empty()) == Seq::<PageView>::empty(),
    decreases a.len(),
{
    if a.len() > 0 {
        lemma_subset_with_empty(a.drop_last());
        lemma_counterpart(Seq::empty(), a.last().identity);
    }
}

/// The union with an empty list is the list itself.
pub proof fn lemma_union_with_empty(a: Seq<PageView>)
    ensures
        union_pages(a, Seq::empty()) == a,
{
    let none = Seq::<PageView>::empty();
    assert forall|i: int| 0 <= i < a.len() implies union_head_at(a, none, i) == a[i] by {
        lemma_counterpart(none, a[i].identity);
    }
    assert(union_pages(a, none) =~= a);
}

/// `subset` is a subsequence of its first argument by position: its
/// identities are those of the first argument that occur in the second, in
/// the order of the first.
pub proof fn lemma_subset_is_subsequence(a: Seq<PageView>, b: Seq<PageView>)
    ensures
        identities(subset_pages(a, b)) == identities(a).filter(
            |id: PageIdentity| identities(b).contains(id),
        ),
    decreases a.len(),
{
    reveal(Seq::filter);
    let keep = |id: PageIdentity| identities(b).contains(id);
    if a.len() == 0 {
        assert(identities(subset_pages(a, b)) =~= identities(a).filter(keep));
    } else {
        let front = a.drop_last();
        lemma_subset_is_subsequence(front, b);
        lemma_counterpart(b, a.last().identity);
        assert(identities(a).drop_last() =~= identities(front));
        assert(identities(a).last() == a.last().identity);
        if counterpart(b, a.last().identity) is Some {
            assert(identities(subset_pages(a, b)) =~= identities(subset_pages(front, b)).push(
                a.last().identity,
            ));
        }
    }
}

/// Carrying a list over drops pages and renames the rest: the result is no
/// longer than the list, and no longer than the list of titles.
pub proof fn lemma_translated_len(pages: Seq<PageView>, titles: Seq<Option<TitleView>>)
    ensures
        translated_pages(pages, titles).len() <= pages.len(),
        translated_pages(pages, titles).len() <= titles.len(),
    decreases pages.len(),
{
    if pages.len() > 0 {
        lemma_translated_len(pages.drop_last(), titles);
    }
}

/// The first part of the union holds the identities of `a`, place by place.
pub proof fn lemma_union_head_identities(a: Seq<PageView>, b: Seq<PageView>)
    ensures
        identities(Seq::new(a.len(), |i: int| union_head_at(a, b, i))) == identities(a),
{
    let head = Seq::new(a.len(), |i: int| union_head_at(a, b, i));
    assert forall|i: int| 0 <= i < a.len() implies head[i].identity == a[i].identity by {
        lemma_counterpart(b, a[i].identity);
    }
    assert(identities(head) =~= identities(a));
}

proof fn lemma_union_tail_shape(a: Seq<PageView>, b: Seq<PageView>, n: int)
    requires
        0 <= n <= b.len(),
    ensures
        union_tail(a, b, n).len() <= n,
        forall|id: PageIdentity|
            identities(union_tail(a, b, n)).contains(id) <==> (exists|j: int|
                0 <= j < n && union_appends(a, b, j) && #[trigger] b[j].identity == id),
        identities(union_tail(a, b, n)).no_duplicates(),
        identities(b).no_duplicates() ==> union_tail(a, b, n).len() + matched_count(
            identities(b).take(n),
            identities(a),
        ) == n,
    decreases n,
{
    let ids_b = identities(b);
    let tail = identities(union_tail(a, b, n));
    if n == 0 {
        assert forall|id: PageIdentity| !tail.contains(id) by {}
    } else {
        lemma_union_tail_shape(a, b, n - 1);
        let front = identities(union_tail(a, b, n - 1));
        let x = b[n - 1].identity;
        lemma_last_index_of(ids_b, x);
        assert(ids_b.take(n).drop_last() =~= ids_b.take(n - 1));
        assert(ids_b.take(n).last() == x);
        if union_appends(a, b, n - 1) {
            assert(tail =~= front.push(x));
            assert forall|id: PageIdentity| tail.contains(id) <==> (exists|j: int|
                0 <= j < n && union_appends(a, b, j) && #[trigger] b[j].identity == id) by {
                if tail.contains(id) {
                    let k = choose|k: int| 0 <= k < tail.len() && tail[k] == id;
                    if k < front.len() {
                        assert(front[k] == id);
                        assert(front.contains(id));
                    } else {
                        assert(b[n - 1].identity == id);
                    }
                }
                if exists|j: int|
                    0 <= j < n && union_appends(a, b, j) && #[trigger] b[j].identity == id {
                    let j = choose|j: int|
                        0 <= j < n && union_appends(a, b, j) && #[trigger] b[j].identity == id;
                    if j < n - 1 {
                        assert(front.contains(id));
                        let k = choose|k: int| 0 <= k < front.len() && front[k] == id;
                        assert(tail[k] == id);
                    } else {
                        assert(tail[tail.len() - 1] == id);
                    }
                }
            }
            assert(!front.contains(x)) by {
                if front.contains(x) {
                    let j = choose|j: int|
                        0 <= j < n - 1 && union_appends(a, b, j) && #[trigger] b[j].identity == x;
                    assert(ids_b[j] == x);
                    assert(last_index_of(ids_b, x) == Some(j));
                }
            }
            assert(tail.no_duplicates()) by {
                assert forall|i: int, j: int| 0 <= i < tail.len() && 0 <= j < tail.len() && i
                    != j implies tail[i] != tail[j] by {
                    if i < front.len() && j < front.len() {
                        assert(front[i] != front[j]);
                    } else if i < front.len() {
                        assert(front[i] == tail[i]);
                        assert(front.contains(tail[i]));
                    } else {
                        assert(front[j] == tail[j]);
                        assert(front.contains(tail[j]));
                    }
                }
            }
        } else {
            assert(tail =~= front);
            assert forall|id: PageIdentity| tail.contains(id) <==> (exists|j: int|
                0 <= j < n && union_appends(a, b, j) && #[trigger] b[j].identity == id) by {
                if exists|j: int|
                    0 <= j < n && union_appends(a, b, j) && #[trigger] b[j].identity == id {
                    let j = choose|j: int|
                        0 <= j < n && union_appends(a, b, j) && #[trigger] b[j].identity == id;
                    assert(j < n - 1);
                }
            }
            if ids_b.no_duplicates() {
                assert(last_index_of(ids_b, x) == Some(n - 1)) by {
                    let j = last_index_of(ids_b, x).unwrap();
                    assert(ids_b[n - 1] == x);
                    if j != n - 1 {
                        assert(ids_b[j] == ids_b[n - 1]);
                    }
                }
            }
        }
    }
}

/// `union` is at least as long as its first argument and at most as long as
/// both together; where no identity occurs twice in the second argument it is
/// at least as long as that, too.
pub proof fn lemma_union_len(a: Seq<PageView>, b: Seq<PageView>)
    ensures
        a.len() <= union_pages(a, b).len() <= a.len() + b.len(),
        identities(b).no_duplicates() ==> b.len() <= union_pages(a, b).len(),
{
    lemma_union_tail_shape(a, b, b.len() as int);
    if identities(b).no_duplicates() {
        assert(identities(b).take(b.len() as int) =~= identities(b));
        lemma_matched_count_bounded(identities(b), identities(a));
    }
}

/// The identities of `union` are those of its arguments: none is left out.
pub proof fn lemma_union_identities(a: Seq<PageView>, b: Seq<PageView>, id: PageIdentity)
    ensures
        identities(union_pages(a, b)).contains(id) <==> (identities(a).contains(id) || identities(
            b,
        ).contains(id)),
{
    let head = Seq::new(a.len(), |i: int| union_head_at(a, b, i));
    let tail = union_tail(a, b, b.len() as int);
    let all = identities(union_pages(a, b));
    lemma_union_head_identities(a, b);
    lemma_union_tail_shape(a, b, b.len() as int);
    lemma_last_index_of(identities(b), id);
    assert(all =~= identities(head) + identities(tail));
    if all.contains(id) {
        let k = choose|k: int| 0 <= k < all.len() && all[k] == id;
        if k < a.len() {
            assert(identities(a)[k] == id);
        } else {
            assert(identities(tail)[k - a.len()] == id);
            assert(identities(tail).contains(id));
            let j = choose|j: int|
                0 <= j < b.len() && union_appends(a, b, j) && #[trigger] b[j].identity == id;
            assert(identities(b)[j] == id);
        }
    }
    if identities(a).contains(id) {
        let k = choose|k: int| 0 <= k < a.len() && identities(a)[k] == id;
        assert(all[k] == id);
    } else if identities(b).contains(id) {
        let j = last_index_of(identities(b), id).unwrap();
        assert(b[j].identity == id);
        assert(union_appends(a, b, j));
        assert(identities(tail).contains(id));
        let k = choose|k: int| 0 <= k < tail.len() && identities(tail)[k] == id;
        assert(all[a.len() + k] == id);
    }
}

/// Where no identity occurs twice in the first argument, none occurs twice
/// in the union.
pub proof fn lemma_union_no_duplicates(a: Seq<PageView>, b: Seq<PageView>)
    requires
        identities(a).no_duplicates(),
    ensures
        identities(union_pages(a, b)).no_duplicates(),
{
    let head = Seq::new(a.len(), |i: int| union_head_at(a, b, i));
    let tail = union_tail(a, b, b.len() as int);
    lemma_union_head_identities(a, b);
    lemma_union_tail_shape(a, b, b.len() as int);
    assert(identities(union_pages(a, b)) =~= identities(head) + identities(tail));
    assert forall|i: int, j: int|
        0 <= i < identities(head).len() && 0 <= j < identities(tail).len() implies identities(
        head,
    )[i] != identities(tail)[j] by {
        let id = identities(tail)[j];
        assert(identities(tail).contains(id));
        let m = choose|m: int|
            0 <= m < b.len() && union_appends(a, b, m) && #[trigger] b[m].identity == id;
        if identities(a)[i] == id {
            assert(identities(a).contains(id));
        }
    }
    lemma_no_dup_in_concat(identities(head), identities(tail));
}

/// Idempotence: the union of a list with itself holds the identities of the
/// list, and is the list itself where no identity occurs twice in it.
pub proof fn lemma_union_idempotent(a: Seq<PageView>)
    ensures
        forall|id: PageIdentity|
            identities(union_pages(a, a)).contains(id) <==> identities(a).contains(id),
        identities(a).no_duplicates() ==> union_pages(a, a) == a,
{
    assert forall|id: PageIdentity|
        identities(union_pages(a, a)).contains(id) <==> identities(a).contains(id) by {
        lemma_union_identities(a, a, id);
    }
    if identities(a).no_duplicates() {
        let ids = identities(a);
        lemma_union_tail_shape(a, a, a.len() as int);
        let tail = union_tail(a, a, a.len() as int);
        assert(tail.len() == 0) by {
            if tail.len() > 0 {
                let id = identities(tail)[0];
                assert(identities(tail).contains(id));
                let j = choose|j: int|
                    0 <= j < a.len() && union_appends(a, a, j) && #[trigger] a[j].identity == id;
                assert(ids[j] == id);
                assert(ids.contains(id));
            }
        }
        assert forall|i: int| 0 <= i < a.len() implies union_head_at(a, a, i) == a[i] by {
            let id = a[i].identity;
            lemma_last_index_of(ids, id);
            assert(ids[i] == id);
            let j = last_index_of(ids, id).unwrap();
            if j != i {
                assert(ids[j] == ids[i]);
            }
            lemma_merge_self(a[i]);
        }
        assert(union_pages(a, a) =~= a);
    }
}

} // verus!
