//! What the tools share: the settings of their clients, and the lookup of
//! Wikidata items by the titles of pages.
//!
//! The lookup asks Wikidata in portions of fifty titles, a few portions at a
//! time; each answer adds its own titles to the result.
use vstd::prelude::*;
use vstd::string::*;
use crate::error::ToolsError;
use crate::json::{items_view, lookup, members_view, JsonValue, JsonView};
use crate::text::{join, joined, pair, pairs_view, replace_char, replaced, strings_view};

verus! {

/// Seconds after which a request is given up.
pub const DEFAULT_CLIENT_TIMEOUT_SECONDS: u64 = 60;

/// How many titles one request to Wikidata carries at most.
pub const TITLES_PER_REQUEST: usize = 50;

/// How many requests to Wikidata are under way at one time at most.
pub const MAX_CONCURRENT: usize = 5;

/// The settings that the tools share.
#[derive(Debug, Default, PartialEq)]
pub struct ToolsInterface {}

/// The parameters of the request for the items of one portion of titles.
pub open spec fn portion_parameters(wiki: Seq<char>, titles: Seq<Seq<char>>) -> Seq<
    (Seq<char>, Seq<char>),
> {
    seq![
        ("action"@, "wbgetentities"@),
        ("format"@, "json"@),
        ("sites"@, wiki),
        ("titles"@, joined(titles, "|"@)),
        ("props"@, "sitelinks"@),
        ("sitefilter"@, wiki),
    ]
}

/// The number of portions of at most fifty that `n` titles make.
pub open spec fn portion_count(n: nat) -> nat {
    ((n + 49) / 50) as nat
}

/// The portion with the number `k` of a list of titles.
pub open spec fn portion(titles: Seq<Seq<char>>, k: int) -> Seq<Seq<char>> {
    titles.subrange(50 * k, if 50 * k + 50 <= titles.len() {
        50 * k + 50
    } else {
        titles.len() as int
    })
}

/// The title that an entity has on `wiki`, written with spaces, or the
/// message that tells what the entity lacks.
pub open spec fn entity_title(entity: JsonView, wiki: Seq<char>) -> Result<Seq<char>, Seq<char>> {
    match entity.get("sitelinks"@) {
        None => Err("['sitelinks'] does not exist"@),
        Some(sitelinks) => match sitelinks.as_object() {
            None => Err("['sitelinks'] is not an object"@),
            Some(links) => match lookup(links, wiki) {
                None => Err("site link not found"@),
                Some(link) => match link.get("title"@) {
                    None => Err("['title'] does not exist"@),
                    Some(title) => match title.as_str() {
                        None => Err("['title'] is not a string"@),
                        Some(t) => Ok(replaced(t, '_', ' ')),
                    },
                },
            },
        },
    }
}

/// A mapping, kept as a list of pairs, after `key` is set to `value`: a pair
/// of that key gets the value, otherwise a new pair joins at the end.
pub open spec fn with_pair(
    pairs: Seq<(Seq<char>, Seq<char>)>,
    key: Seq<char>,
    value: Seq<char>,
) -> Seq<(Seq<char>, Seq<char>)>
    decreases pairs.len(),
{
    if pairs.len() == 0 {
        seq![(key, value)]
    } else if pairs[0].0 == key {
        pairs.update(0, (key, value))
    } else {
        seq![pairs[0]] + with_pair(pairs.drop_first(), key, value)
    }
}

/// The mapping from titles to items after the first `n` entities of an
/// answer, or the message of the first entity that lacks something.
pub open spec fn items_after_entities(
    found: Seq<(Seq<char>, Seq<char>)>,
    entities: Seq<(Seq<char>, JsonView)>,
    wiki: Seq<char>,
    n: int,
) -> Result<Seq<(Seq<char>, Seq<char>)>, Seq<char>>
    decreases n,
{
    if n <= 0 {
        Ok(found)
    } else {
        match items_after_entities(found, entities, wiki, n - 1) {
            Err(m) => Err(m),
            Ok(before) => match entity_title(entities[n - 1].1, wiki) {
                Err(m) => Err(m),
                Ok(title) => Ok(with_pair(before, title, entities[n - 1].0)),
            },
        }
    }
}

/// The mapping from titles to items after one answer.
pub open spec fn items_after_answer(
    found: Seq<(Seq<char>, Seq<char>)>,
    answer: JsonView,
    wiki: Seq<char>,
) -> Result<Seq<(Seq<char>, Seq<char>)>, Seq<char>> {
    match answer.at("entities"@).as_object() {
        None => Err("['entities'] is not an object"@),
        Some(entities) => items_after_entities(found, entities, wiki, entities.len() as int),
    }
}

/// The mapping from titles to items after the first `n` answers.
pub open spec fn items_after_answers(answers: Seq<JsonView>, wiki: Seq<char>, n: int) -> Result<
    Seq<(Seq<char>, Seq<char>)>,
    Seq<char>,
>
    decreases n,
{
    if n <= 0 {
        Ok(Seq::empty())
    } else {
        match items_after_answers(answers, wiki, n - 1) {
            Err(m) => Err(m),
            Ok(before) => items_after_answer(before, answers[n - 1], wiki),
        }
    }
}

/// A failure after some entities stays the failure after more.
pub proof fn lemma_entities_failure(
    found: Seq<(Seq<char>, Seq<char>)>,
    entities: Seq<(Seq<char>, JsonView)>,
    wiki: Seq<char>,
    n: int,
    m: int,
)
    requires
        0 <= n <= m,
        items_after_entities(found, entities, wiki, n) is Err,
    ensures
        items_after_entities(found, entities, wiki, m) == items_after_entities(
            found,
            entities,
            wiki,
            n,
        ),
    decreases m - n,
{
    if n < m {
        lemma_entities_failure(found, entities, wiki, n, m - 1);
    }
}

/// A failure after some answers stays the failure after more.
pub proof fn lemma_answers_failure(answers: Seq<JsonView>, wiki: Seq<char>, n: int, m: int)
    requires
        0 <= n <= m,
        items_after_answers(answers, wiki, n) is Err,
    ensures
        items_after_answers(answers, wiki, m) == items_after_answers(answers, wiki, n),
    decreases m - n,
{
    if n < m {
        lemma_answers_failure(answers, wiki, n, m - 1);
    }
}

/// Sets `key` to `value` in a mapping that is kept as a list of pairs.
pub fn set_pair(pairs: &mut Vec<(String, String)>, key: &str, value: &str)
    ensures
        pairs_view(final(pairs)@) == with_pair(pairs_view(old(pairs)@), key@, value@),
{
    let ghost all = pairs_view(pairs@);
    let wanted = key.to_owned();
    let mut i: usize = 0;
    assert(all.skip(0) =~= all);
    while i < pairs.len()
        invariant
            i <= pairs.len(),
            wanted@ == key@,
            pairs@ == old(pairs)@,
            all == pairs_view(pairs@),
            with_pair(all, key@, value@) == all.take(i as int) + with_pair(
                all.skip(i as int),
                key@,
                value@,
            ),
        decreases pairs.len() - i,
    {
        let ghost rest = all.skip(i as int);
        assert(rest[0] == all[i as int]);
        if pairs[i].0 == wanted {
            pairs.set(i, (key.to_owned(), value.to_owned()));
            assert(pairs_view(pairs@) =~= all.take(i as int) + rest.update(0, (key@, value@)));
            return;
        }
        proof {
            assert(rest.drop_first() =~= all.skip(i + 1));
            assert(all.take(i as int) + (seq![rest[0]] + with_pair(all.skip(i + 1), key@, value@))
                =~= all.take(i + 1) + with_pair(all.skip(i + 1), key@, value@));
        }
        i = i + 1;
    }
    assert(all.skip(i as int) =~= Seq::<(Seq<char>, Seq<char>)>::empty());
    pairs.push((key.to_owned(), value.to_owned()));
    assert(pairs_view(pairs@) =~= all.take(i as int) + seq![(key@, value@)]);
}

impl ToolsInterface {
    /// The address of the interface of Wikidata.
    pub fn wikidata_api_url() -> (r: &'static str)
        ensures
            r@ == "https://www.wikidata.org/w/api.php"@,
    {
        "https://www.wikidata.org/w/api.php"
    }

    /// The address of the interface of Wikimedia Commons.
    pub fn commons_api_url() -> (r: &'static str)
        ensures
            r@ == "https://commons.wikimedia.org/w/api.php"@,
    {
        "https://commons.wikimedia.org/w/api.php"
    }

    /// The parameters of the requests that look up the items of `titles` on
    /// `wiki`: one request for each portion of fifty titles, in order.
    pub fn generate_api_params_for_wikidata_item_for_titles(titles: &Vec<String>, wiki: &str) -> (r:
        Vec<Vec<(String, String)>>)
        ensures
            r@.len() == portion_count(titles@.len()),
            forall|k: int|
                0 <= k < r@.len() ==> pairs_view((#[trigger] r@[k])@) == portion_parameters(
                    wiki@,
                    portion(strings_view(titles@), k),
                ),
    {
        let ghost all = strings_view(titles@);
        let mut requests: Vec<Vec<(String, String)>> = Vec::new();
        let mut start: usize = 0;
        while start < titles.len()
            invariant
                start <= titles.len(),
                all == strings_view(titles@),
                start < titles.len() ==> start == 50 * requests@.len(),
                start == titles.len() ==> requests@.len() == portion_count(titles@.len()),
                forall|k: int|
                    0 <= k < requests@.len() ==> pairs_view((#[trigger] requests@[k])@)
                        == portion_parameters(wiki@, portion(all, k)),
            decreases titles.len() - start,
        {
            let end: usize = if titles.len() - start >= 50 {
                start + 50
            } else {
                titles.len()
            };
            let ghost k = requests@.len() as int;
            let mut part: Vec<String> = Vec::new();
            let mut i: usize = start;
            while i < end
                invariant
                    start <= i <= end <= titles.len(),
                    all == strings_view(titles@),
                    strings_view(part@) == all.subrange(start as int, i as int),
                decreases end - i,
            {
                let ghost so_far = strings_view(part@);
                part.push(titles[i].clone());
                assert(strings_view(part@) =~= so_far.push(all[i as int]));
                assert(all.subrange(start as int, i + 1) =~= all.subrange(
                    start as int,
                    i as int,
                ).push(all[i as int]));
                i = i + 1;
            }
            assert(strings_view(part@) == portion(all, k));
            let mut p: Vec<(String, String)> = Vec::new();
            p.push(pair("action", "wbgetentities"));
            p.push(pair("format", "json"));
            p.push(pair("sites", wiki));
            p.push(pair("titles", join(&part, "|").as_str()));
            p.push(pair("props", "sitelinks"));
            p.push(pair("sitefilter", wiki));
            assert(pairs_view(p@) =~= portion_parameters(wiki@, portion(all, k)));
            requests.push(p);
            start = end;
        }
        requests
    }

    /// Adds the items of one answer to the mapping from titles to items.
    /// Each entity of the answer has to carry its title on `wiki`; the title
    /// is kept with spaces. A failure leaves the entities before it added.
    #[verifier::loop_isolation(false)]
    pub fn add_items_of_answer(found: &mut Vec<(String, String)>, answer: &JsonValue, wiki: &str) -> (r:
        Result<(), ToolsError>)
        ensures
            match items_after_answer(pairs_view(old(found)@), answer@, wiki@) {
                Ok(items) => r is Ok && pairs_view(final(found)@) == items,
                Err(message) => r matches Err(ToolsError::Json(m)) && m@ == message,
            },
    {
        let entities = match answer.object_at("entities") {
            Some(entities) => entities,
            None => { return Err(ToolsError::Json("['entities'] is not an object".to_owned())); },
        };
        let ghost all = members_view(entities@);
        let ghost start = pairs_view(found@);
        let mut i: usize = 0;
        while i < entities.len()
            invariant
                i <= entities.len(),
                all == members_view(entities@),
                items_after_entities(start, all, wiki@, i as int) == Ok::<
                    Seq<(Seq<char>, Seq<char>)>,
                    Seq<char>,
                >(pairs_view(found@)),
            decreases entities.len() - i,
        {
            let title = match Self::title_of_entity(&entities[i].1, wiki) {
                Ok(title) => title,
                Err(e) => {
                    proof {
                        lemma_entities_failure(start, all, wiki@, i + 1, all.len() as int);
                    }
                    return Err(e);
                },
            };
            set_pair(found, title.as_str(), entities[i].0.as_str());
            i = i + 1;
        }
        Ok(())
    }

    /// The title that an entity has on `wiki`, written with spaces.
    pub fn title_of_entity(entity: &JsonValue, wiki: &str) -> (r: Result<String, ToolsError>)
        ensures
            match entity_title(entity@, wiki@) {
                Ok(title) => r matches Ok(t) && t@ == title,
                Err(message) => r matches Err(ToolsError::Json(m)) && m@ == message,
            },
    {
        let sitelinks = match entity.get("sitelinks") {
            Some(s) => s,
            None => { return Err(ToolsError::Json("['sitelinks'] does not exist".to_owned())); },
        };
        if sitelinks.as_object().is_none() {
            return Err(ToolsError::Json("['sitelinks'] is not an object".to_owned()));
        }
        let link = match sitelinks.get(wiki) {
            Some(l) => l,
            None => { return Err(ToolsError::Json("site link not found".to_owned())); },
        };
        let title = match link.get("title") {
            Some(t) => t,
            None => { return Err(ToolsError::Json("['title'] does not exist".to_owned())); },
        };
        match title.as_str() {
            Some(t) => Ok(replace_char(t, '_', ' ')),
            None => Err(ToolsError::Json("['title'] is not a string".to_owned())),
        }
    }

    /// The mapping from the titles of pages of `wiki`, written with spaces,
    /// to their Wikidata items, read from the answers to the requests of
    /// [`Self::generate_api_params_for_wikidata_item_for_titles`], in order.
    /// One entity that lacks its title fails the whole lookup.
    pub fn wikidata_item_for_titles(wiki: &str, answers: &Vec<JsonValue>) -> (r: Result<
        Vec<(String, String)>,
        ToolsError,
    >)
        ensures
            match items_after_answers(items_view(answers@), wiki@, answers@.len() as int) {
                Ok(items) => r matches Ok(found) && pairs_view(found@) == items,
                Err(message) => r matches Err(ToolsError::Json(m)) && m@ == message,
            },
    {
        let ghost all = items_view(answers@);
        let mut found: Vec<(String, String)> = Vec::new();
        assert(pairs_view(found@) =~= Seq::empty());
        let mut i: usize = 0;
        while i < answers.len()
            invariant
                i <= answers.len(),
                all == items_view(answers@),
                items_after_answers(all, wiki@, i as int) == Ok::<
                    Seq<(Seq<char>, Seq<char>)>,
                    Seq<char>,
                >(pairs_view(found@)),
            decreases answers.len() - i,
        {
            match Self::add_items_of_answer(&mut found, &answers[i], wiki) {
                Ok(_) => {},
                Err(e) => {
                    proof {
                        lemma_answers_failure(all, wiki@, i + 1, all.len() as int);
                    }
                    return Err(e);
                },
            }
            i = i + 1;
        }
        Ok(found)
    }
}

} // verus!
