//! Pages of one wiki and the set operations on lists of them.
//!
//! A [`Page`] is a title with a bag of metadata; a [`PageList`] is an ordered
//! list of pages with the site they belong to. `subset` and `union` combine two
//! lists by page identity and merge the metadata of pages found in both.
use vstd::prelude::*;
use vstd::string::*;
use crate::error::ToolsError;
use crate::fancy_title::{
    json_number_of_i64, option_view, prefixed_or_empty, title_members, FancyTitle,
};
use crate::json::{has_key, lookup, members_view, JsonValue, JsonView};
use crate::site::{site_document, site_of_wiki, Site, SiteView};
use crate::text::str_eq;
use crate::title::{spaced, PageIdentity, PageKey, Title, TitleView};

verus! {

/// What a [`Page`] stands for: its identity and its metadata as a mapping.
pub struct PageView {
    pub identity: PageIdentity,
    pub meta: Map<Seq<char>, JsonView>,
}

/// What a [`PageList`] stands for.
pub struct PageListView {
    pub site: SiteView,
    pub pages: Seq<PageView>,
}

/// The member names that a page document derives from the title and that
/// metadata therefore never holds.
pub open spec fn is_reserved_key(key: Seq<char>) -> bool {
    key == "title"@ || key == "namespace_id"@ || key == "prefixed_title"@
}

/// Whether no two members share a name.
pub open spec fn distinct_keys(members: Seq<(Seq<char>, JsonView)>) -> bool {
    forall|i: int, j: int|
        0 <= i < j < members.len() ==> (#[trigger] members[i]).0 != (#[trigger] members[j]).0
}

/// The members of an object as a mapping from name to value; of several
/// members with one name the first counts.
pub open spec fn members_map(members: Seq<(Seq<char>, JsonView)>) -> Map<Seq<char>, JsonView> {
    Map::new(|k: Seq<char>| has_key(members, k), |k: Seq<char>| lookup(members, k).unwrap())
}

/// The metadata that a page takes from the members of its document entry:
/// all of them but the reserved ones.
pub open spec fn meta_of_members(members: Seq<(Seq<char>, JsonView)>) -> Map<
    Seq<char>,
    JsonView,
> {
    members_map(members).restrict(Set::new(|k: Seq<char>| !is_reserved_key(k)))
}

/// `a` merged with `b`: the identity of `a`, and the metadata of `a` overlaid
/// by that of `b`, so that `b` wins where both hold a key.
pub open spec fn merged(a: PageView, b: PageView) -> PageView {
    PageView { identity: a.identity, meta: a.meta.union_prefer_right(b.meta) }
}

pub proof fn lemma_lookup_at(members: Seq<(Seq<char>, JsonView)>, i: int)
    requires
        distinct_keys(members),
        0 <= i < members.len(),
    ensures
        lookup(members, members[i].0) == Some(members[i].1),
    decreases members.len(),
{
    if i == 0 {
    } else {
        let rest = members.drop_first();
        assert(members[0].0 != members[i].0);
        assert forall|a: int, b: int| 0 <= a < b < rest.len() implies (#[trigger] rest[a]).0 != (
        #[trigger] rest[b]).0 by {
            assert(rest[a] == members[a + 1]);
            assert(rest[b] == members[b + 1]);
        }
        lemma_lookup_at(rest, i - 1);
        assert(rest[i - 1] == members[i]);
    }
}

/// The mapping of a member list that grows by one member of a new name.
pub proof fn lemma_members_map_push(
    members: Seq<(Seq<char>, JsonView)>,
    key: Seq<char>,
    value: JsonView,
)
    requires
        distinct_keys(members),
        !has_key(members, key),
    ensures
        distinct_keys(members.push((key, value))),
        members_map(members.push((key, value))) == members_map(members).insert(key, value),
{
    let grown = members.push((key, value));
    assert forall|i: int, j: int| 0 <= i < j < grown.len() implies (#[trigger] grown[i]).0 != (
    #[trigger] grown[j]).0 by {
        if j == members.len() {
            assert(grown[i] == members[i]);
            if grown[i].0 == key {
                assert(has_key(members, key));
            }
        } else {
            assert(grown[i] == members[i]);
            assert(grown[j] == members[j]);
        }
    }
    assert forall|k: Seq<char>| has_key(grown, k) <==> (k == key || has_key(members, k)) by {
        if has_key(grown, k) {
            let i = choose|i: int| 0 <= i < grown.len() && #[trigger] grown[i].0 == k;
            if i < members.len() {
                assert(members[i].0 == k);
            }
        }
        if k == key {
            assert(grown[members.len() as int].0 == k);
        }
        if has_key(members, k) {
            let i = choose|i: int| 0 <= i < members.len() && #[trigger] members[i].0 == k;
            assert(grown[i].0 == k);
        }
    }
    assert forall|k: Seq<char>| has_key(grown, k) implies lookup(grown, k).unwrap()
        == members_map(members).insert(key, value)[k] by {
        let i = choose|i: int| 0 <= i < grown.len() && #[trigger] grown[i].0 == k;
        lemma_lookup_at(grown, i);
        if i < members.len() {
            assert(grown[i] == members[i]);
            lemma_lookup_at(members, i);
            assert(k != key) by {
                if k == key {
                    assert(members[i].0 == key);
                }
            }
        }
    }
    assert(members_map(grown) =~= members_map(members).insert(key, value));
}

/// The mapping of a member list in which one member gets another value.
pub proof fn lemma_members_map_update(
    members: Seq<(Seq<char>, JsonView)>,
    i: int,
    value: JsonView,
)
    requires
        distinct_keys(members),
        0 <= i < members.len(),
    ensures
        distinct_keys(members.update(i, (members[i].0, value))),
        members_map(members.update(i, (members[i].0, value))) == members_map(members).insert(
            members[i].0,
            value,
        ),
{
    let key = members[i].0;
    let changed = members.update(i, (key, value));
    assert forall|a: int, b: int| 0 <= a < b < changed.len() implies (#[trigger] changed[a]).0 != (
    #[trigger] changed[b]).0 by {
        assert(changed[a].0 == members[a].0);
        assert(changed[b].0 == members[b].0);
    }
    assert forall|k: Seq<char>| has_key(changed, k) <==> has_key(members, k) by {
        if has_key(changed, k) {
            let j = choose|j: int| 0 <= j < changed.len() && #[trigger] changed[j].0 == k;
            assert(members[j].0 == k);
        }
        if has_key(members, k) {
            let j = choose|j: int| 0 <= j < members.len() && #[trigger] members[j].0 == k;
            assert(changed[j].0 == k);
        }
    }
    assert(has_key(members, key)) by {
        assert(members[i].0 == key);
    }
    assert forall|k: Seq<char>| has_key(changed, k) implies lookup(changed, k).unwrap()
        == members_map(members).insert(key, value)[k] by {
        let j = choose|j: int| 0 <= j < changed.len() && #[trigger] changed[j].0 == k;
        lemma_lookup_at(changed, j);
        if j != i {
            assert(changed[j] == members[j]);
            lemma_lookup_at(members, j);
            assert(k != key) by {
                if k == key {
                    if j < i {
                        assert(members[j].0 != members[i].0);
                    } else {
                        assert(members[i].0 != members[j].0);
                    }
                }
            }
        }
    }
    assert(members_map(changed) =~= members_map(members).insert(key, value));
}

/// The index of the member named `key`, if there is one.
pub fn position_of_key(members: &Vec<(String, JsonValue)>, key: &str) -> (r: Option<usize>)
    ensures
        match r {
            Some(i) => i < members@.len() && members@[i as int].0@ == key@,
            None => !has_key(members_view(members@), key@),
        },
{
    let wanted = key.to_owned();
    let mut i: usize = 0;
    while i < members.len()
        invariant
            i <= members.len(),
            wanted@ == key@,
            forall|k: int| 0 <= k < i ==> members@[k].0@ != key@,
        decreases members.len() - i,
    {
        if members[i].0 == wanted {
            return Some(i);
        }
        i = i + 1;
    }
    assert(!has_key(members_view(members@), key@)) by {
        if has_key(members_view(members@), key@) {
            let k = choose|k: int|
                0 <= k < members_view(members@).len() && #[trigger] members_view(members@)[k].0
                    == key@;
            assert(members@[k].0@ == key@);
        }
    }
    None
}

/// Sets the member `key` to `value`: an existing member of that name gets the
/// value, otherwise a new member joins at the end.
pub fn set_member(members: &mut Vec<(String, JsonValue)>, key: &str, value: JsonValue)
    requires
        distinct_keys(members_view(old(members)@)),
    ensures
        distinct_keys(members_view(final(members)@)),
        members_map(members_view(final(members)@)) == members_map(
            members_view(old(members)@),
        ).insert(key@, value@),
{
    let ghost before = members_view(members@);
    match position_of_key(members, key) {
        Some(i) => {
            members.set(i, (key.to_owned(), value));
            proof {
                lemma_members_map_update(before, i as int, value@);
                assert(members_view(members@) =~= before.update(i as int, (key@, value@)));
            }
        },
        None => {
            members.push((key.to_owned(), value));
            proof {
                lemma_members_map_push(before, key@, value@);
                assert(members_view(members@) =~= before.push((key@, value@)));
            }
        },
    }
}

pub proof fn lemma_lookup_push(
    members: Seq<(Seq<char>, JsonView)>,
    member: (Seq<char>, JsonView),
    key: Seq<char>,
)
    ensures
        lookup(members.push(member), key) == (if lookup(members, key) is Some {
            lookup(members, key)
        } else if member.0 == key {
            Some(member.1)
        } else {
            None
        }),
    decreases members.len(),
{
    let grown = members.push(member);
    if members.len() == 0 {
        assert(grown.drop_first() =~= members);
    } else if members[0].0 == key {
    } else {
        assert(grown.drop_first() =~= members.drop_first().push(member));
        lemma_lookup_push(members.drop_first(), member, key);
    }
}

/// Whether metadata is well formed: no name twice, no reserved name.
pub open spec fn meta_ok(members: Seq<(Seq<char>, JsonView)>) -> bool {
    &&& distinct_keys(members)
    &&& forall|i: int| 0 <= i < members.len() ==> !is_reserved_key(#[trigger] members[i].0)
}

/// A copy of a member list.
pub fn copy_members(members: &Vec<(String, JsonValue)>) -> (r: Vec<(String, JsonValue)>)
    ensures
        members_view(r@) == members_view(members@),
{
    let mut out: Vec<(String, JsonValue)> = Vec::new();
    let mut i: usize = 0;
    while i < members.len()
        invariant
            i <= members.len(),
            out@.len() == i,
            forall|k: int|
                0 <= k < i ==> out@[k].0@ == members@[k].0@ && out@[k].1@ == members@[k].1@,
        decreases members.len() - i,
    {
        out.push((members[i].0.clone(), members[i].1.copy()));
        i = i + 1;
    }
    assert(members_view(out@) =~= members_view(members@));
    out
}

/// Whether `key` is one of the reserved member names.
pub fn key_is_reserved(key: &str) -> (r: bool)
    ensures
        r == is_reserved_key(key@),
{
    str_eq(key, "title") || str_eq(key, "namespace_id") || str_eq(key, "prefixed_title")
}

/// The metadata of a document entry: its members without the reserved ones,
/// and of several members with one name only the first.
pub fn clean_meta(members: &Vec<(String, JsonValue)>) -> (r: Vec<(String, JsonValue)>)
    ensures
        meta_ok(members_view(r@)),
        members_map(members_view(r@)) == meta_of_members(members_view(members@)),
{
    let ghost all = members_view(members@);
    let mut out: Vec<(String, JsonValue)> = Vec::new();
    let mut i: usize = 0;
    assert(members_map(members_view(out@)) =~= meta_of_members(all.take(0)));
    while i < members.len()
        invariant
            i <= members.len(),
            all == members_view(members@),
            meta_ok(members_view(out@)),
            members_map(members_view(out@)) == meta_of_members(all.take(i as int)),
        decreases members.len() - i,
    {
        let ghost before = members_view(out@);
        let ghost seen = all.take(i as int);
        let key = members[i].0.as_str();
        let ghost next = all.take(i + 1);
        proof {
            assert(next =~= seen.push(all[i as int]));
            assert forall|k: Seq<char>|
                #[trigger] lookup(next, k) == (if lookup(seen, k) is Some {
                    lookup(seen, k)
                } else if all[i as int].0 == k {
                    Some(all[i as int].1)
                } else {
                    None
                }) by {
                lemma_lookup_push(seen, all[i as int], k);
            }
            assert forall|k: Seq<char>| #[trigger] has_key(next, k) <==> lookup(next, k) is Some by {
                crate::json::lemma_lookup_some(next, k);
            }
            assert forall|k: Seq<char>| #[trigger] has_key(seen, k) <==> lookup(seen, k) is Some by {
                crate::json::lemma_lookup_some(seen, k);
            }
        }
        let reserved = key_is_reserved(key);
        let position = position_of_key(&out, key);
        if !reserved && position.is_none() {
            let value = members[i].1.copy();
            out.push((members[i].0.clone(), value));
            proof {
                lemma_members_map_push(before, key@, members@[i as int].1@);
                assert(members_view(out@) =~= before.push((key@, members@[i as int].1@)));
                assert(!has_key(seen, key@)) by {
                    if has_key(seen, key@) {
                        assert(meta_of_members(seen).dom().contains(key@));
                        assert(members_map(before).dom().contains(key@));
                    }
                }
                assert(members_map(members_view(out@)) =~= meta_of_members(next));
                assert forall|k: int| 0 <= k < members_view(out@).len() implies !is_reserved_key(
                    #[trigger] members_view(out@)[k].0,
                ) by {
                    if k < before.len() {
                        assert(members_view(out@)[k] == before[k]);
                    }
                }
            }
        } else {
            proof {
                if !is_reserved_key(key@) {
                    assert(before[position.unwrap() as int].0 == key@);
                    assert(has_key(before, key@));
                    assert(members_map(before).dom().contains(key@));
                    assert(has_key(seen, key@));
                }
                assert(members_map(members_view(out@)) =~= meta_of_members(next));
            }
        }
        i = i + 1;
    }
    assert(all.take(i as int) =~= all);
    out
}

/// A page: its title and a bag of metadata under names other than the
/// reserved ones.
#[derive(Debug, PartialEq)]
pub struct Page {
    title: Title,
    meta: Vec<(String, JsonValue)>,
}

impl View for Page {
    type V = PageView;

    closed spec fn view(&self) -> PageView {
        PageView {
            identity: self.title@.identity(),
            meta: members_map(members_view(self.meta@)),
        }
    }
}

impl Page {
    #[verifier::type_invariant]
    spec fn well_formed(&self) -> bool {
        meta_ok(members_view(self.meta@))
    }

    /// The title that the page carries.
    pub closed spec fn title_view(&self) -> TitleView {
        self.title@
    }

    /// A page with the given title and the members of `meta` as metadata;
    /// members under reserved names are left out.
    pub fn new(title: Title, meta: Vec<(String, JsonValue)>) -> (r: Page)
        ensures
            r.title_view() == title@,
            r@.identity == title@.identity(),
            r@.meta == meta_of_members(members_view(meta@)),
    {
        let meta = clean_meta(&meta);
        Page { title, meta }
    }

    /// The title of the page.
    pub fn title(&self) -> (r: &Title)
        ensures
            r@ == self.title_view(),
            r@.identity() == self@.identity,
    {
        &self.title
    }

    /// The metadata of the page, each name once and none of them reserved.
    pub fn meta(&self) -> (r: &Vec<(String, JsonValue)>)
        ensures
            meta_ok(members_view(r@)),
            members_map(members_view(r@)) == self@.meta,
    {
        proof {
            use_type_invariant(self);
        }
        &self.meta
    }

    /// The identity of the page, as a value that can be compared.
    pub fn key(&self) -> (r: PageKey)
        ensures
            r@ == self@.identity,
    {
        self.title.key()
    }

    /// A copy of the page.
    pub fn copy(&self) -> (r: Page)
        ensures
            r@ == self@,
            r.title_view() == self.title_view(),
    {
        proof {
            use_type_invariant(self);
        }
        Page { title: self.title.clone(), meta: copy_members(&self.meta) }
    }

    /// This page merged with `other`: this page's title, and this page's
    /// metadata overlaid by that of `other`. Neither page changes.
    pub fn merge(&self, other: &Page) -> (r: Page)
        ensures
            r@ == merged(self@, other@),
            r.title_view() == self.title_view(),
    {
        proof {
            use_type_invariant(self);
            use_type_invariant(other);
        }
        let mut meta = copy_members(&self.meta);
        let ghost base = members_map(members_view(self.meta@));
        let ghost added = members_view(other.meta@);
        let mut i: usize = 0;
        assert(base.union_prefer_right(members_map(added.take(0))) =~= base);
        while i < other.meta.len()
            invariant
                i <= other.meta.len(),
                added == members_view(other.meta@),
                meta_ok(added),
                meta_ok(members_view(self.meta@)),
                base == members_map(members_view(self.meta@)),
                meta_ok(members_view(meta@)),
                members_map(members_view(meta@)) == base.union_prefer_right(
                    members_map(added.take(i as int)),
                ),
            decreases other.meta.len() - i,
        {
            let ghost before = members_view(meta@);
            let ghost seen = added.take(i as int);
            let value = other.meta[i].1.copy();
            set_member(&mut meta, other.meta[i].0.as_str(), value);
            proof {
                let key = added[i as int].0;
                assert(added.take(i + 1) =~= seen.push(added[i as int]));
                assert(distinct_keys(seen)) by {
                    assert forall|a: int, b: int| 0 <= a < b < seen.len() implies (
                    #[trigger] seen[a]).0 != (#[trigger] seen[b]).0 by {
                        assert(seen[a] == added[a]);
                        assert(seen[b] == added[b]);
                    }
                }
                assert(!has_key(seen, key)) by {
                    if has_key(seen, key) {
                        let k = choose|k: int| 0 <= k < seen.len() && #[trigger] seen[k].0 == key;
                        assert(seen[k] == added[k]);
                        assert(added[k].0 != added[i as int].0);
                    }
                }
                lemma_members_map_push(seen, key, added[i as int].1);
                assert(members_map(members_view(meta@)) =~= base.union_prefer_right(
                    members_map(added.take(i + 1)),
                ));
                let after = members_view(meta@);
                assert forall|k: int| 0 <= k < after.len() implies !is_reserved_key(
                    #[trigger] after[k].0,
                ) by {
                    assert(has_key(after, after[k].0));
                    assert(members_map(after).dom().contains(after[k].0));
                    if has_key(before, after[k].0) {
                        let j = choose|j: int|
                            0 <= j < before.len() && #[trigger] before[j].0 == after[k].0;
                    } else {
                        assert(after[k].0 == key);
                    }
                }
            }
            i = i + 1;
        }
        assert(added.take(i as int) =~= added);
        Page { title: self.title.clone(), meta }
    }
}

/// The page that a document entry describes: an object with a string `title`
/// and an integer `namespace_id`. Its other members, but for `prefixed_title`,
/// are the metadata. Any other entry describes no page.
pub open spec fn page_of_entry(entry: JsonView) -> Option<PageView> {
    match (entry.as_object(), entry.at("title"@).as_str(), entry.at("namespace_id"@).as_i64()) {
        (Some(members), Some(title), Some(namespace_id)) => Some(
            PageView {
                identity: (TitleView { namespace_id, title: spaced(title) }).identity(),
                meta: meta_of_members(members),
            },
        ),
        _ => None,
    }
}

impl Page {
    /// Decodes one entry of a page document; `None` where the entry is no
    /// object or lacks a string `title` or an integer `namespace_id`.
    pub fn from_json(entry: &JsonValue) -> (r: Option<Page>)
        ensures
            match r {
                Some(page) => page_of_entry(entry@) == Some(page@),
                None => page_of_entry(entry@) is None,
            },
    {
        let members = match entry.as_object() {
            Some(members) => members,
            None => { return None; },
        };
        let title = match entry.str_at("title") {
            Some(title) => title,
            None => { return None; },
        };
        let namespace_id = match entry.i64_at("namespace_id") {
            Some(namespace_id) => namespace_id,
            None => { return None; },
        };
        let meta = clean_meta(members);
        Some(Page { title: Title::new(title, namespace_id), meta })
    }
}

/// The identities of a list of pages, in order.
pub open spec fn identities(pages: Seq<PageView>) -> Seq<PageIdentity> {
    Seq::new(pages.len(), |i: int| pages[i].identity)
}

/// The last index at which `id` stands in `ids`.
pub open spec fn last_index_of(ids: Seq<PageIdentity>, id: PageIdentity) -> Option<int>
    decreases ids.len(),
{
    if ids.len() == 0 {
        None
    } else if ids.last() == id {
        Some(ids.len() - 1)
    } else {
        last_index_of(ids.drop_last(), id)
    }
}

/// The page of `b` that a lookup by identity finds: of several pages with one
/// identity the last.
pub open spec fn counterpart(b: Seq<PageView>, id: PageIdentity) -> Option<PageView> {
    match last_index_of(identities(b), id) {
        Some(j) => Some(b[j]),
        None => None,
    }
}

/// The pages of `a` that have a counterpart in `b`, in the order of `a`, each
/// merged with its counterpart.
pub open spec fn subset_pages(a: Seq<PageView>, b: Seq<PageView>) -> Seq<PageView>
    decreases a.len(),
{
    if a.len() == 0 {
        Seq::empty()
    } else {
        let front = subset_pages(a.drop_last(), b);
        match counterpart(b, a.last().identity) {
            Some(other) => front.push(merged(a.last(), other)),
            None => front,
        }
    }
}

/// What stands at index `i` of the union: the page `a[i]`, merged with its
/// counterpart in `b` where it has one and no earlier page of `a` has the same
/// identity (a counterpart is used once).
pub open spec fn union_head_at(a: Seq<PageView>, b: Seq<PageView>, i: int) -> PageView {
    match counterpart(b, a[i].identity) {
        Some(other) => if identities(a.take(i)).contains(a[i].identity) {
            a[i]
        } else {
            merged(a[i], other)
        },
        None => a[i],
    }
}

/// Whether the union appends `b[j]`: it is the counterpart of its own identity
/// and no page of `a` has that identity.
pub open spec fn union_appends(a: Seq<PageView>, b: Seq<PageView>, j: int) -> bool {
    &&& last_index_of(identities(b), b[j].identity) == Some(j)
    &&& !identities(a).contains(b[j].identity)
}

/// The pages among the first `n` of `b` that the union appends, in the order of `b`.
pub open spec fn union_tail(a: Seq<PageView>, b: Seq<PageView>, n: int) -> Seq<PageView>
    decreases n,
{
    if n <= 0 {
        Seq::empty()
    } else {
        let front = union_tail(a, b, n - 1);
        if union_appends(a, b, n - 1) {
            front.push(b[n - 1])
        } else {
            front
        }
    }
}

/// The union of `a` and `b`: every page of `a` in place, merged with its
/// counterpart where that is still unused, then the unmatched pages of `b`.
pub open spec fn union_pages(a: Seq<PageView>, b: Seq<PageView>) -> Seq<PageView> {
    Seq::new(a.len(), |i: int| union_head_at(a, b, i)) + union_tail(a, b, b.len() as int)
}

/// The last index of an identity is an index of it, and none follows.
pub proof fn lemma_last_index_of(ids: Seq<PageIdentity>, id: PageIdentity)
    ensures
        match last_index_of(ids, id) {
            Some(j) => 0 <= j < ids.len() && ids[j] == id && forall|k: int|
                j < k < ids.len() ==> ids[k] != id,
            None => !ids.contains(id),
        },
    decreases ids.len(),
{
    if ids.len() == 0 {
    } else if ids.last() == id {
    } else {
        let front = ids.drop_last();
        lemma_last_index_of(front, id);
        match last_index_of(front, id) {
            Some(j) => {
                assert(front[j] == ids[j]);
                assert forall|k: int| j < k < ids.len() implies ids[k] != id by {
                    if k < front.len() {
                        assert(front[k] == ids[k]);
                    }
                }
            },
            None => {
                if ids.contains(id) {
                    let k = choose|k: int| 0 <= k < ids.len() && ids[k] == id;
                    assert(front[k] == id);
                }
            },
        }
    }
}

/// The views of a list of pages, in order.
pub open spec fn pages_view(pages: Seq<Page>) -> Seq<PageView> {
    Seq::new(pages.len(), |i: int| pages[i]@)
}

/// The views of a list of keys, in order.
pub open spec fn keys_view(keys: Seq<PageKey>) -> Seq<PageIdentity> {
    Seq::new(keys.len(), |i: int| keys[i]@)
}

/// The keys of a list of pages, in order.
pub fn keys_of(pages: &Vec<Page>) -> (r: Vec<PageKey>)
    ensures
        keys_view(r@) == identities(pages_view(pages@)),
{
    let mut keys: Vec<PageKey> = Vec::new();
    let mut i: usize = 0;
    while i < pages.len()
        invariant
            i <= pages.len(),
            keys@.len() == i,
            forall|k: int| 0 <= k < i ==> keys@[k]@ == pages@[k]@.identity,
        decreases pages.len() - i,
    {
        keys.push(pages[i].key());
        i = i + 1;
    }
    assert(keys_view(keys@) =~= identities(pages_view(pages@)));
    keys
}

/// The last index at which `key` stands in `keys`.
pub fn find_last(keys: &Vec<PageKey>, key: &PageKey) -> (r: Option<usize>)
    ensures
        match r {
            Some(j) => last_index_of(keys_view(keys@), key@) == Some(j as int),
            None => last_index_of(keys_view(keys@), key@) is None,
        },
{
    let ghost ids = keys_view(keys@);
    let mut i: usize = keys.len();
    assert(ids.take(i as int) =~= ids);
    while i > 0
        invariant
            i <= keys.len(),
            ids == keys_view(keys@),
            last_index_of(ids, key@) == last_index_of(ids.take(i as int), key@),
        decreases i,
    {
        assert(ids.take(i as int).last() == keys@[i - 1]@);
        assert(ids.take(i as int).drop_last() =~= ids.take(i - 1));
        if keys[i - 1].same_as(key) {
            return Some(i - 1);
        }
        i = i - 1;
    }
    None
}

/// An ordered list of pages and the site they belong to. That every page is
/// one of that site is up to whoever builds the list.
#[derive(Debug, PartialEq)]
pub struct PageList {
    pages: Vec<Page>,
    site: Site,
}

impl View for PageList {
    type V = PageListView;

    closed spec fn view(&self) -> PageListView {
        PageListView { site: self.site@, pages: pages_view(self.pages@) }
    }
}

impl PageList {
    /// A list of the given pages on the given site.
    pub fn new(site: Site, pages: Vec<Page>) -> (r: PageList)
        ensures
            r@ == (PageListView { site: site@, pages: pages_view(pages@) }),
    {
        PageList { pages, site }
    }

    /// The site of the list.
    pub fn site(&self) -> (r: &Site)
        ensures
            r@ == self@.site,
    {
        &self.site
    }

    /// The pages of the list, in order.
    pub fn pages(&self) -> (r: &Vec<Page>)
        ensures
            pages_view(r@) == self@.pages,
    {
        &self.pages
    }

    /// Whether `other` belongs to another site, so that it has to be carried
    /// over to this list's wiki before the two are combined.
    pub fn needs_translation(&self, other: &PageList) -> (r: bool)
        ensures
            r == (self@.site != other@.site),
    {
        !self.site.same_as(&other.site)
    }

    /// The pages of this list that `other` holds too, in this list's order,
    /// each merged with its counterpart in `other`; the site is this list's.
    /// The pages of `other` are taken to be pages of this list's wiki.
    pub fn subset(&self, other: &PageList) -> (r: PageList)
        ensures
            r@.site == self@.site,
            r@.pages == subset_pages(self@.pages, other@.pages),
    {
        let ghost a = pages_view(self.pages@);
        let ghost b = pages_view(other.pages@);
        let own_keys = keys_of(&self.pages);
        let other_keys = keys_of(&other.pages);
        let mut pages: Vec<Page> = Vec::new();
        let mut i: usize = 0;
        assert(a.take(0) =~= Seq::<PageView>::empty());
        assert(keys_view(own_keys@).len() == a.len());
        assert(keys_view(other_keys@).len() == b.len());
        while i < self.pages.len()
            invariant
                i <= self.pages.len(),
                a == pages_view(self.pages@),
                b == pages_view(other.pages@),
                own_keys@.len() == a.len(),
                other_keys@.len() == b.len(),
                keys_view(own_keys@) == identities(a),
                keys_view(other_keys@) == identities(b),
                pages_view(pages@) == subset_pages(a.take(i as int), b),
            decreases self.pages.len() - i,
        {
            let ghost before = pages_view(pages@);
            proof {
                assert(a.take(i + 1).drop_last() =~= a.take(i as int));
                assert(a.take(i + 1).last() == a[i as int]);
                assert(keys_view(own_keys@)[i as int] == a[i as int].identity);
                lemma_last_index_of(identities(b), a[i as int].identity);
            }
            match find_last(&other_keys, &own_keys[i]) {
                Some(j) => {
                    let page = self.pages[i].merge(&other.pages[j]);
                    pages.push(page);
                    assert(pages_view(pages@) =~= before.push(merged(a[i as int], b[j as int])));
                },
                None => {},
            }
            i = i + 1;
        }
        assert(a.take(i as int) =~= a);
        PageList { pages, site: self.site.clone() }
    }
}

impl PageList {
    /// Every page of this list in place, merged with its counterpart in
    /// `other` where it has one that no earlier page has used, followed by the
    /// pages of `other` that found no partner, in the order of `other`; the
    /// site is this list's. The pages of `other` are taken to be pages of this
    /// list's wiki.
    pub fn union(&self, other: &PageList) -> (r: PageList)
        ensures
            r@.site == self@.site,
            r@.pages == union_pages(self@.pages, other@.pages),
    {
        let ghost a = pages_view(self.pages@);
        let ghost b = pages_view(other.pages@);
        let ghost ids_b = identities(b);
        let own_keys = keys_of(&self.pages);
        let other_keys = keys_of(&other.pages);
        assert(keys_view(own_keys@).len() == a.len());
        assert(keys_view(other_keys@).len() == b.len());
        let mut used: Vec<bool> = Vec::new();
        let mut n: usize = 0;
        while n < other.pages.len()
            invariant
                n <= other.pages.len(),
                used@.len() == n,
                forall|j: int| 0 <= j < n ==> !used@[j],
            decreases other.pages.len() - n,
        {
            used.push(false);
            n = n + 1;
        }
        let mut pages: Vec<Page> = Vec::new();
        let mut i: usize = 0;
        assert(identities(a.take(0)) =~= Seq::<PageIdentity>::empty());
        while i < self.pages.len()
            invariant
                i <= self.pages.len(),
                a == pages_view(self.pages@),
                b == pages_view(other.pages@),
                ids_b == identities(b),
                own_keys@.len() == a.len(),
                other_keys@.len() == b.len(),
                keys_view(own_keys@) == identities(a),
                keys_view(other_keys@) == ids_b,
                used@.len() == b.len(),
                forall|j: int|
                    0 <= j < b.len() ==> (#[trigger] used@[j] <==> (last_index_of(ids_b, ids_b[j])
                        == Some(j) && identities(a.take(i as int)).contains(ids_b[j]))),
                pages@.len() == i,
                forall|k: int| 0 <= k < i ==> (#[trigger] pages@[k])@ == union_head_at(a, b, k),
            decreases self.pages.len() - i,
        {
            let ghost id = a[i as int].identity;
            let ghost seen = identities(a.take(i as int));
            let ghost next = identities(a.take(i + 1));
            proof {
                assert(keys_view(own_keys@)[i as int] == id);
                lemma_last_index_of(ids_b, id);
                assert(next =~= seen.push(id));
                assert forall|x: PageIdentity| next.contains(x) <==> (seen.contains(x) || x == id) by {
                    if seen.contains(x) {
                        let k = choose|k: int| 0 <= k < seen.len() && seen[k] == x;
                        assert(next[k] == x);
                    }
                    if x == id {
                        assert(next[i as int] == x);
                    }
                }
            }
            let found = find_last(&other_keys, &own_keys[i]);
            let page = match found {
                Some(j) => {
                    if used[j] {
                        self.pages[i].copy()
                    } else {
                        used.set(j, true);
                        self.pages[i].merge(&other.pages[j])
                    }
                },
                None => self.pages[i].copy(),
            };
            assert(page@ == union_head_at(a, b, i as int));
            pages.push(page);
            proof {
                assert forall|j: int| 0 <= j < b.len() implies (#[trigger] used@[j] <==> (
                last_index_of(ids_b, ids_b[j]) == Some(j) && next.contains(ids_b[j]))) by {
                    match found {
                        Some(m) => {
                            if j != m && ids_b[j] == id {
                                assert(last_index_of(ids_b, ids_b[j]) != Some(j));
                            }
                        },
                        None => {
                            if ids_b[j] == id {
                                assert(ids_b.contains(id));
                            }
                        },
                    }
                }
            }
            i = i + 1;
        }
        assert(a.take(i as int) =~= a);
        let ghost head = pages_view(pages@);
        assert(head =~= Seq::new(a.len(), |k: int| union_head_at(a, b, k)));
        let mut j: usize = 0;
        while j < other.pages.len()
            invariant
                j <= other.pages.len(),
                a == pages_view(self.pages@),
                b == pages_view(other.pages@),
                ids_b == identities(b),
                other_keys@.len() == b.len(),
                keys_view(other_keys@) == ids_b,
                used@.len() == b.len(),
                forall|m: int|
                    0 <= m < b.len() ==> (#[trigger] used@[m] <==> (last_index_of(ids_b, ids_b[m])
                        == Some(m) && identities(a).contains(ids_b[m]))),
                pages_view(pages@) == head + union_tail(a, b, j as int),
            decreases other.pages.len() - j,
        {
            let ghost before = pages_view(pages@);
            assert(keys_view(other_keys@)[j as int] == ids_b[j as int]);
            assert(ids_b[j as int] == b[j as int].identity);
            let last = find_last(&other_keys, &other_keys[j]);
            let is_last = match last {
                Some(m) => m == j,
                None => false,
            };
            if is_last && !used[j] {
                pages.push(other.pages[j].copy());
                assert(pages_view(pages@) =~= before.push(b[j as int]));
                assert(union_appends(a, b, j as int));
            } else {
                assert(!union_appends(a, b, j as int));
            }
            j = j + 1;
        }
        PageList { pages, site: self.site.clone() }
    }
}

/// The pages that the entries of a document describe, in order; entries that
/// describe no page are passed over.
pub open spec fn pages_of_entries(entries: Seq<JsonView>) -> Seq<PageView>
    decreases entries.len(),
{
    if entries.len() == 0 {
        Seq::empty()
    } else {
        let front = pages_of_entries(entries.drop_last());
        match page_of_entry(entries.last()) {
            Some(page) => front.push(page),
            None => front,
        }
    }
}

/// The translation of a list of pages: the page at index `i` takes the title
/// `titles[i]` and keeps its metadata; a page without a title is dropped.
pub open spec fn translated_pages(pages: Seq<PageView>, titles: Seq<Option<TitleView>>) -> Seq<
    PageView,
>
    decreases pages.len(),
{
    if pages.len() == 0 {
        Seq::empty()
    } else {
        let front = translated_pages(pages.drop_last(), titles);
        let i = pages.len() - 1;
        if i < titles.len() && titles[i] is Some {
            front.push(PageView { identity: titles[i].unwrap().identity(), meta: pages[i].meta })
        } else {
            front
        }
    }
}

/// The pages of a second list as a combination with a list on `site` takes
/// them: as they are where the second list belongs to `site` too, carried
/// over with `titles` otherwise.
pub open spec fn aligned_pages(site: SiteView, other: PageListView, titles: Seq<Option<TitleView>>) -> Seq<
    PageView,
> {
    if other.site == site {
        other.pages
    } else {
        translated_pages(other.pages, titles)
    }
}

/// The views of a list of optional titles, in order.
pub open spec fn titles_view(titles: Seq<Option<Title>>) -> Seq<Option<TitleView>> {
    Seq::new(
        titles.len(),
        |i: int|
            match titles[i] {
                Some(t) => Some(t@),
                None => None,
            },
    )
}

/// The address of the service that carries the titles of `source_wiki` over
/// to `target_wiki`.
pub open spec fn change_wiki_address(source_wiki: Seq<char>, target_wiki: Seq<char>) -> Seq<char> {
    "https://wd-infernal.toolforge.org/change_wiki/"@ + source_wiki + "/"@ + target_wiki
}

impl PageList {
    /// Decodes a page document: its site from `site.wiki`, its pages from the
    /// entries of `pages`. An entry that describes no page is passed over.
    pub fn from_json(json: &JsonValue) -> (r: Result<PageList, ToolsError>)
        ensures
            match json@.at("site"@).at("wiki"@).as_str() {
                None => r matches Err(ToolsError::Json(m)) && m@ == "missing site.wiki"@,
                Some(wiki) => match site_of_wiki(wiki) {
                    None => r matches Err(ToolsError::Tool(m)) && m@ == "Unknown wiki "@ + wiki,
                    Some(site) => match json@.at("pages"@).as_array() {
                        None => r matches Err(ToolsError::Json(m)) && m@ == "missing pages"@,
                        Some(entries) => r matches Ok(list) && list@ == (PageListView {
                            site,
                            pages: pages_of_entries(entries),
                        }),
                    },
                },
            },
    {
        let wiki = match json.get("site") {
            Some(site) => site.str_at("wiki"),
            None => None,
        };
        let wiki = match wiki {
            Some(wiki) => wiki,
            None => { return Err(ToolsError::Json("missing site.wiki".to_owned())); },
        };
        let site = match Site::from_wiki(wiki) {
            Some(site) => site,
            None => {
                let mut message = "Unknown wiki ".to_owned();
                message.append(wiki);
                return Err(ToolsError::Tool(message));
            },
        };
        let entries = match json.array_at("pages") {
            Some(entries) => entries,
            None => { return Err(ToolsError::Json("missing pages".to_owned())); },
        };
        let ghost all = crate::json::items_view(entries@);
        let mut pages: Vec<Page> = Vec::new();
        let mut i: usize = 0;
        assert(all.take(0) =~= Seq::<JsonView>::empty());
        while i < entries.len()
            invariant
                i <= entries.len(),
                all == crate::json::items_view(entries@),
                pages_view(pages@) == pages_of_entries(all.take(i as int)),
            decreases entries.len() - i,
        {
            let ghost before = pages_view(pages@);
            proof {
                assert(all.take(i + 1).drop_last() =~= all.take(i as int));
                assert(all.take(i + 1).last() == entries@[i as int]@);
            }
            match Page::from_json(&entries[i]) {
                Some(page) => {
                    let ghost decoded = page@;
                    pages.push(page);
                    assert(pages_view(pages@) =~= before.push(decoded));
                },
                None => {},
            }
            i = i + 1;
        }
        assert(all.take(i as int) =~= all);
        Ok(PageList { pages, site })
    }

    /// The address to post this list's prefixed titles to, to have them
    /// carried over to `target_wiki`.
    pub fn change_wiki_url(&self, target_wiki: &str) -> (r: String)
        ensures
            r@ == change_wiki_address(self@.site.wiki, target_wiki@),
    {
        let mut url = "https://wd-infernal.toolforge.org/change_wiki/".to_owned();
        url.append(self.site.wiki());
        url.append("/");
        url.append(target_wiki);
        url
    }

    /// For each prefixed title of the source wiki, the prefixed title that
    /// the translation service's answer gives for it on the target wiki.
    /// A title that the answer does not map to a string has none.
    pub fn translation_targets(prefixed_titles: &Vec<String>, answer: &JsonValue) -> (r: Vec<
        Option<String>,
    >)
        ensures
            r@.len() == prefixed_titles@.len(),
            forall|i: int|
                0 <= i < r@.len() ==> match #[trigger] r@[i] {
                    Some(t) => answer@.at(prefixed_titles@[i]@).as_str() == Some(t@),
                    None => answer@.at(prefixed_titles@[i]@).as_str() is None,
                },
    {
        let mut out: Vec<Option<String>> = Vec::new();
        let mut i: usize = 0;
        while i < prefixed_titles.len()
            invariant
                i <= prefixed_titles.len(),
                out@.len() == i,
                forall|k: int|
                    0 <= k < i ==> match #[trigger] out@[k] {
                        Some(t) => answer@.at(prefixed_titles@[k]@).as_str() == Some(t@),
                        None => answer@.at(prefixed_titles@[k]@).as_str() is None,
                    },
            decreases prefixed_titles.len() - i,
        {
            let target = match answer.str_at(prefixed_titles[i].as_str()) {
                Some(t) => Some(t.to_owned()),
                None => None,
            };
            out.push(target);
            i = i + 1;
        }
        out
    }

    /// This list carried over to `target_wiki`: the page at index `i` takes
    /// the title `titles[i]` and keeps its metadata; a page for which `titles`
    /// holds no title is dropped.
    pub fn to_wiki(&self, target_wiki: &str, titles: &Vec<Option<Title>>) -> (r: PageList)
        requires
            site_of_wiki(target_wiki@) is Some,
        ensures
            r@.site == site_of_wiki(target_wiki@).unwrap(),
            r@.pages == translated_pages(self@.pages, titles_view(titles@)),
    {
        let site = match Site::from_wiki(target_wiki) {
            Some(site) => site,
            None => Site::from_language_project("", ""),
        };
        self.carried_over(site, titles)
    }

    /// This list with the titles `titles` on the site `site`.
    fn carried_over(&self, site: Site, titles: &Vec<Option<Title>>) -> (r: PageList)
        ensures
            r@.site == site@,
            r@.pages == translated_pages(self@.pages, titles_view(titles@)),
    {
        let ghost a = pages_view(self.pages@);
        let ghost t = titles_view(titles@);
        let mut pages: Vec<Page> = Vec::new();
        let mut i: usize = 0;
        assert(a.take(0) =~= Seq::<PageView>::empty());
        while i < self.pages.len()
            invariant
                i <= self.pages.len(),
                a == pages_view(self.pages@),
                t == titles_view(titles@),
                pages_view(pages@) == translated_pages(a.take(i as int), t),
            decreases self.pages.len() - i,
        {
            let ghost before = pages_view(pages@);
            proof {
                assert(a.take(i + 1).drop_last() =~= a.take(i as int));
                assert(a.take(i + 1)[i as int] == a[i as int]);
            }
            if i < titles.len() {
                match &titles[i] {
                    Some(title) => {
                        let page = Page {
                            title: title.clone(),
                            meta: copy_members(self.pages[i].meta()),
                        };
                        let ghost moved = page@;
                        pages.push(page);
                        assert(pages_view(pages@) =~= before.push(moved));
                    },
                    None => {},
                }
            }
            i = i + 1;
        }
        assert(a.take(i as int) =~= a);
        PageList { pages, site }
    }

    /// [`Self::subset`] for lists that may belong to different sites: where
    /// the sites differ, `other` is first carried over to this list's site
    /// with the titles `titles` (see [`Self::to_wiki`]); this list is never
    /// carried over. Where the sites agree, `titles` is not looked at.
    pub fn subset_across(&self, other: &PageList, titles: &Vec<Option<Title>>) -> (r: PageList)
        ensures
            r@.site == self@.site,
            r@.pages == subset_pages(
                self@.pages,
                aligned_pages(self@.site, other@, titles_view(titles@)),
            ),
    {
        if self.needs_translation(other) {
            let carried = other.carried_over(self.site.clone(), titles);
            self.subset(&carried)
        } else {
            self.subset(other)
        }
    }

    /// [`Self::union`] for lists that may belong to different sites: where
    /// the sites differ, `other` is first carried over to this list's site
    /// with the titles `titles` (see [`Self::to_wiki`]); this list is never
    /// carried over. Where the sites agree, `titles` is not looked at.
    pub fn union_across(&self, other: &PageList, titles: &Vec<Option<Title>>) -> (r: PageList)
        ensures
            r@.site == self@.site,
            r@.pages == union_pages(
                self@.pages,
                aligned_pages(self@.site, other@, titles_view(titles@)),
            ),
    {
        if self.needs_translation(other) {
            let carried = other.carried_over(self.site.clone(), titles);
            self.union(&carried)
        } else {
            self.union(other)
        }
    }
}

/// Reading back what was written: the entry made of the three title members
/// of a title in normal form and of well-formed metadata describes the page
/// with that title and that metadata.
pub proof fn lemma_document_decodes(
    title: TitleView,
    prefixed_title: Seq<char>,
    meta: Seq<(Seq<char>, JsonView)>,
)
    requires
        spaced(title.title) == title.title,
        meta_ok(meta),
    ensures
        page_of_entry(JsonView::Object(title_members(title, prefixed_title) + meta)) == Some(
            PageView { identity: title.identity(), meta: members_map(meta) },
        ),
{
    reveal_strlit("title");
    reveal_strlit("prefixed_title");
    reveal_strlit("namespace_id");
    reveal_with_fuel(lookup, 4);
    let head = title_members(title, prefixed_title);
    let all = head + meta;
    let entry = JsonView::Object(all);
    assert(all[0] == head[0] && all[1] == head[1] && all[2] == head[2]);
    let rest1 = all.drop_first();
    let rest2 = rest1.drop_first();
    let rest3 = rest2.drop_first();
    assert(rest1[0] == all[1]);
    assert(rest2[0] == all[2]);
    assert(rest3 =~= meta);
    assert("title"@.len() == 5 && "prefixed_title"@.len() == 14 && "namespace_id"@.len() == 12);
    assert(lookup(all, "title"@) == Some(head[0].1));
    assert(lookup(all, "namespace_id"@) == Some(head[2].1));
    assert forall|k: Seq<char>| !is_reserved_key(k) implies lookup(all, k) == lookup(meta, k) by {
        assert(all[0].0 != k && rest1[0].0 != k && rest2[0].0 != k);
    }
    assert forall|k: Seq<char>|
        (has_key(all, k) && !is_reserved_key(k)) <==> has_key(meta, k) by {
        if has_key(all, k) && !is_reserved_key(k) {
            let i = choose|i: int| 0 <= i < all.len() && #[trigger] all[i].0 == k;
            assert(i >= 3);
            assert(meta[i - 3].0 == k);
        }
        if has_key(meta, k) {
            let i = choose|i: int| 0 <= i < meta.len() && #[trigger] meta[i].0 == k;
            assert(all[i + 3].0 == k);
            assert(!is_reserved_key(meta[i].0));
        }
    }
    assert(meta_of_members(all) =~= members_map(meta));
}

/// Entries that each describe a page describe the list of those pages.
pub proof fn lemma_pages_of_entries_all(entries: Seq<JsonView>, pages: Seq<PageView>)
    requires
        entries.len() == pages.len(),
        forall|i: int| 0 <= i < entries.len() ==> page_of_entry(#[trigger] entries[i]) == Some(pages[i]),
    ensures
        pages_of_entries(entries) == pages,
    decreases entries.len(),
{
    if entries.len() == 0 {
        assert(pages =~= Seq::empty());
    } else {
        let front = entries.drop_last();
        assert forall|i: int| 0 <= i < front.len() implies page_of_entry(#[trigger] front[i])
            == Some(pages.drop_last()[i]) by {
            assert(front[i] == entries[i]);
        }
        lemma_pages_of_entries_all(front, pages.drop_last());
        assert(entries.last() == entries[entries.len() - 1]);
        assert(pages =~= pages.drop_last().push(pages.last()));
    }
}

impl Page {
    /// The metadata of the page as a list of members.
    pub closed spec fn meta_view(&self) -> Seq<(Seq<char>, JsonView)> {
        members_view(self.meta@)
    }

    /// The entry that describes the page in a page document, given the
    /// prefixed spelling of its title: the three title members, then the
    /// metadata.
    pub open spec fn document(&self, prefixed_title: Seq<char>) -> JsonView {
        JsonView::Object(title_members(self.title_view(), prefixed_title) + self.meta_view())
    }

    /// How the metadata list and the metadata mapping of a page relate.
    pub proof fn lemma_meta_view(&self)
        ensures
            members_map(self.meta_view()) == self@.meta,
    {
    }

    /// The entry that describes the page in a page document. `full_pretty` is
    /// the prefixed spelling of the title as the wiki gives it, `None` where
    /// the wiki knows no such namespace.
    pub fn as_json(&self, full_pretty: Option<String>) -> (r: JsonValue)
        ensures
            r@ == self.document(prefixed_or_empty(option_view(full_pretty))),
            page_of_entry(r@) == Some(self@),
    {
        let ghost prefixed = prefixed_or_empty(option_view(full_pretty));
        proof {
            use_type_invariant(self);
        }
        let fancy = FancyTitle::from_prefixed(self.title.clone(), full_pretty);
        let pretty = fancy.title.pretty();
        proof {
            lemma_document_decodes(self.title@, prefixed, members_view(self.meta@));
        }
        let mut members: Vec<(String, JsonValue)> = Vec::new();
        members.push(("title".to_owned(), JsonValue::string(pretty)));
        members.push(
            ("prefixed_title".to_owned(), JsonValue::string(fancy.prefixed_title.as_str())),
        );
        members.push(
            (
                "namespace_id".to_owned(),
                JsonValue::Number(json_number_of_i64(fancy.title.namespace_id())),
            ),
        );
        let ghost head = title_members(self.title_view(), prefixed);
        assert(members_view(members@) =~= head);
        let mut i: usize = 0;
        while i < self.meta.len()
            invariant
                i <= self.meta.len(),
                members_view(members@) == head + members_view(self.meta@).take(i as int),
            decreases self.meta.len() - i,
        {
            let ghost before = members_view(members@);
            let value = self.meta[i].1.copy();
            members.push((self.meta[i].0.clone(), value));
            assert(members_view(members@) =~= before.push(members_view(self.meta@)[i as int]));
            assert(members_view(self.meta@).take(i + 1) =~= members_view(self.meta@).take(i as int).push(
                members_view(self.meta@)[i as int],
            ));
            i = i + 1;
        }
        assert(members_view(self.meta@).take(i as int) =~= members_view(self.meta@));
        JsonValue::object(members)
    }
}

/// The prefixed spelling at index `i` of a list, `None` beyond its end.
pub open spec fn spelling_at(spellings: Seq<Option<String>>, i: int) -> Option<Seq<char>> {
    if 0 <= i < spellings.len() {
        option_view(spellings[i])
    } else {
        None
    }
}

impl PageList {
    /// The pages of the list as they are held.
    pub closed spec fn held_pages(&self) -> Seq<Page> {
        self.pages@
    }

    /// The page document of the list, given the prefixed spelling of each
    /// page's title: a member `pages` with one entry for each page, in order,
    /// and a member `site` that describes the site.
    pub open spec fn document(&self, spellings: Seq<Option<String>>) -> JsonView {
        JsonView::Object(
            seq![
                (
                    "pages"@,
                    JsonView::Array(
                        Seq::new(
                            self.held_pages().len(),
                            |i: int|
                                self.held_pages()[i].document(
                                    prefixed_or_empty(spelling_at(spellings, i)),
                                ),
                        ),
                    ),
                ),
                ("site"@, site_document(self@.site)),
            ],
        )
    }

    /// How the held pages and the view of a list relate.
    pub proof fn lemma_held_pages(&self)
        ensures
            pages_view(self.held_pages()) == self@.pages,
    {
    }

    /// The page document of the list. `spellings[i]` is the prefixed spelling
    /// of the title of page `i` as the wiki gives it; a page without one gets
    /// the empty string.
    pub fn as_json(&self, spellings: &Vec<Option<String>>) -> (r: JsonValue)
        ensures
            r@ == self.document(spellings@),
            r@.at("pages"@).as_array() is Some,
            pages_of_entries(r@.at("pages"@).as_array().unwrap()) == self@.pages,
    {
        let mut entries: Vec<JsonValue> = Vec::new();
        let mut i: usize = 0;
        while i < self.pages.len()
            invariant
                i <= self.pages.len(),
                entries@.len() == i,
                forall|k: int|
                    0 <= k < i ==> (#[trigger] entries@[k])@ == self.pages@[k].document(
                        prefixed_or_empty(spelling_at(spellings@, k)),
                    ),
                forall|k: int|
                    0 <= k < i ==> page_of_entry((#[trigger] entries@[k])@) == Some(
                        self.pages@[k]@,
                    ),
            decreases self.pages.len() - i,
        {
            let spelling = if i < spellings.len() {
                match &spellings[i] {
                    Some(s) => Some(s.clone()),
                    None => None,
                }
            } else {
                None
            };
            entries.push(self.pages[i].as_json(spelling));
            i = i + 1;
        }
        let ghost listed = crate::json::items_view(entries@);
        let mut members: Vec<(String, JsonValue)> = Vec::new();
        members.push(("pages".to_owned(), JsonValue::array(entries)));
        members.push(("site".to_owned(), self.site.to_json()));
        let ghost built = members_view(members@);
        let r = JsonValue::object(members);
        proof {
            let wanted = self.document(spellings@)->Object_0;
            assert(listed =~= wanted[0].1->Array_0);
            assert(built =~= wanted);
            assert(lookup(built, "pages"@) == Some(built[0].1));
            lemma_pages_of_entries_all(listed, pages_view(self.pages@));
        }
        r
    }
}

impl Clone for Page {
    fn clone(&self) -> (r: Self)
        ensures
            r@ == self@,
            r.title_view() == self.title_view(),
    {
        self.copy()
    }
}

impl Clone for PageList {
    fn clone(&self) -> (r: Self)
        ensures
            r@ == self@,
    {
        let mut pages: Vec<Page> = Vec::new();
        let mut i: usize = 0;
        while i < self.pages.len()
            invariant
                i <= self.pages.len(),
                pages@.len() == i,
                forall|k: int| 0 <= k < i ==> (#[trigger] pages@[k])@ == self.pages@[k]@,
            decreases self.pages.len() - i,
        {
            pages.push(self.pages[i].copy());
            i = i + 1;
        }
        assert(pages_view(pages@) =~= pages_view(self.pages@));
        PageList { pages, site: self.site.clone() }
    }
}

} // verus!
