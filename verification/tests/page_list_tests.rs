use tools_interface::error::ToolsError;
use tools_interface::fancy_title::FancyTitle;
use tools_interface::json::{JsonNumber, JsonValue};
use tools_interface::page_list::{Page, PageList};
use tools_interface::site::Site;
use tools_interface::title::{PageKey, Title};

fn convert(v: &serde_json::Value) -> JsonValue {
    match v {
        serde_json::Value::Null => JsonValue::Null,
        serde_json::Value::Bool(b) => JsonValue::Bool(*b),
        serde_json::Value::Number(n) => {
            if let Some(u) = n.as_u64() {
                JsonValue::Number(JsonNumber::PosInt(u))
            } else if let Some(i) = n.as_i64() {
                JsonValue::Number(JsonNumber::NegInt(i))
            } else {
                JsonValue::Number(JsonNumber::Float(n.to_string()))
            }
        }
        serde_json::Value::String(s) => JsonValue::String(s.clone()),
        serde_json::Value::Array(a) => JsonValue::Array(a.iter().map(convert).collect()),
        serde_json::Value::Object(o) => {
            JsonValue::Object(o.iter().map(|(k, v)| (k.clone(), convert(v))).collect())
        }
    }
}

fn back(v: &JsonValue) -> serde_json::Value {
    match v {
        JsonValue::Null => serde_json::Value::Null,
        JsonValue::Bool(b) => serde_json::Value::Bool(*b),
        JsonValue::Number(JsonNumber::PosInt(u)) => serde_json::Value::from(*u),
        JsonValue::Number(JsonNumber::NegInt(i)) => serde_json::Value::from(*i),
        JsonValue::Number(JsonNumber::Float(t)) => serde_json::from_str(t).unwrap(),
        JsonValue::String(s) => serde_json::Value::String(s.clone()),
        JsonValue::Array(a) => serde_json::Value::Array(a.iter().map(back).collect()),
        JsonValue::Object(o) => {
            serde_json::Value::Object(o.iter().map(|(k, v)| (k.clone(), back(v))).collect())
        }
    }
}

fn json(text: &str) -> JsonValue {
    convert(&serde_json::from_str::<serde_json::Value>(text).unwrap())
}

fn meta(text: &str) -> Vec<(String, JsonValue)> {
    match json(text) {
        JsonValue::Object(members) => members,
        _ => panic!("not an object"),
    }
}

fn page(title: &str, ns: i64, meta_text: &str) -> Page {
    Page::new(Title::new(title, ns), meta(meta_text))
}

fn list(wiki: &str, pages: Vec<Page>) -> PageList {
    PageList::new(Site::from_wiki(wiki).unwrap(), pages)
}

fn meta_of(p: &Page) -> serde_json::Value {
    back(&JsonValue::Object(
        p.meta().iter().map(|(k, v)| (k.clone(), v.copy())).collect(),
    ))
}

fn keys(l: &PageList) -> Vec<(i64, String)> {
    l.pages().iter().map(|p| (p.key().namespace_id, p.key().title)).collect()
}

fn key(ns: i64, title: &str) -> (i64, String) {
    (ns, title.to_string())
}

#[test]
fn merge_later_record_wins() {
    let a = page("A", 0, r#"{"a":1}"#);
    let b = page("B", 7, r#"{"a":2,"b":3}"#);
    let merged = a.merge(&b);
    assert_eq!(meta_of(&merged), back(&json(r#"{"a":2,"b":3}"#)));
    assert_eq!(merged.title(), a.title());
    assert_eq!(meta_of(&a), back(&json(r#"{"a":1}"#)));
    assert_eq!(meta_of(&b), back(&json(r#"{"a":2,"b":3}"#)));
    let other_way = b.merge(&a);
    assert_eq!(meta_of(&other_way), back(&json(r#"{"a":1,"b":3}"#)));
    assert_eq!(other_way.title(), b.title());
    let with_self = a.merge(&a);
    assert_eq!(with_self, a);
}

#[test]
fn page_identity_ignores_spelling_of_spaces() {
    let a = Title::new("Magnus_Manske", 0);
    let b = Title::new(" Magnus Manske ", 0);
    assert_eq!(a, b);
    assert_eq!(a.pretty(), "Magnus Manske");
    assert_eq!(a.with_underscores(), "Magnus_Manske");
    assert_eq!(a.namespace_id(), 0);
    assert_eq!(a.key(), PageKey { namespace_id: 0, title: "Magnus_Manske".to_string() });
    assert!(a.key().same_as(&b.key()));
    assert!(!a.key().same_as(&Title::new("Magnus Manske", 1).key()));
    assert!(!a.key().same_as(&Title::new("Magnus", 0).key()));
    assert_eq!(Title::new("A__B", -1).pretty(), "A  B");
    assert_eq!(Title::new("A__B", -1).with_underscores(), "A__B");
}

#[test]
fn page_new_leaves_reserved_keys_out() {
    let p = page(
        "X",
        0,
        r#"{"title":"other","namespace_id":5,"prefixed_title":"Talk:other","counter":3,"note":"n"}"#,
    );
    assert_eq!(meta_of(&p), back(&json(r#"{"counter":3,"note":"n"}"#)));
    assert_eq!(p.title().pretty(), "X");
    let twice = Page::new(
        Title::new("X", 0),
        vec![
            ("k".to_string(), JsonValue::unsigned(1)),
            ("k".to_string(), JsonValue::unsigned(2)),
        ],
    );
    assert_eq!(twice.meta().len(), 1);
    assert_eq!(twice.meta()[0].1, JsonValue::unsigned(1));
}

#[test]
fn subset_keeps_order_of_first_and_merges() {
    let a = list(
        "enwiki",
        vec![
            page("One", 0, r#"{"from":"a","n":1}"#),
            page("Two", 0, r#"{"from":"a"}"#),
            page("Three", 14, r#"{"from":"a"}"#),
            page("Four", 0, r#"{}"#),
        ],
    );
    let b = list(
        "enwiki",
        vec![
            page("Four", 0, r#"{"from":"b"}"#),
            page("Three", 0, r#"{"from":"b"}"#),
            page("One", 0, r#"{"from":"b","extra":true}"#),
        ],
    );
    let s = a.subset(&b);
    assert_eq!(s.site(), a.site());
    assert_eq!(keys(&s), vec![key(0, "One"), key(0, "Four")]);
    assert_eq!(meta_of(&s.pages()[0]), back(&json(r#"{"from":"b","n":1,"extra":true}"#)));
    assert_eq!(meta_of(&s.pages()[1]), back(&json(r#"{"from":"b"}"#)));
    assert!(s.pages().len() <= a.pages().len().min(b.pages().len()));
    let other_way = b.subset(&a);
    assert_eq!(keys(&other_way), vec![key(0, "Four"), key(0, "One")]);
    assert_eq!(meta_of(&other_way.pages()[1]), back(&json(r#"{"from":"a","n":1,"extra":true}"#)));
}

#[test]
fn subset_edge_cases() {
    let a = list("enwiki", vec![page("One", 0, r#"{"v":0}"#), page("Two", 0, "{}")]);
    let empty = list("enwiki", vec![]);
    assert_eq!(a.subset(&empty).pages().len(), 0);
    assert_eq!(empty.subset(&a).pages().len(), 0);
    let doubled = list(
        "enwiki",
        vec![page("One", 0, r#"{"v":1}"#), page("Other", 0, "{}"), page("One", 0, r#"{"v":2}"#)],
    );
    let s = a.subset(&doubled);
    assert_eq!(keys(&s), vec![key(0, "One")]);
    assert_eq!(meta_of(&s.pages()[0]), back(&json(r#"{"v":2}"#)));
    let twice = list("enwiki", vec![page("One", 0, "{}"), page("One", 0, "{}")]);
    let single = list("enwiki", vec![page("One", 0, "{}")]);
    assert_eq!(twice.subset(&single).pages().len(), 2);
    assert!(twice.subset(&single).pages().len() <= twice.pages().len());
}

#[test]
fn union_merges_in_place_and_appends_the_rest_in_order() {
    let a = list(
        "enwiki",
        vec![page("One", 0, r#"{"from":"a"}"#), page("Two", 0, r#"{"from":"a"}"#)],
    );
    let b = list(
        "enwiki",
        vec![
            page("Zeta", 0, r#"{"from":"b"}"#),
            page("Two", 0, r#"{"from":"b","more":1}"#),
            page("Alpha", 0, r#"{"from":"b"}"#),
            page("Two", 1, r#"{"from":"b"}"#),
        ],
    );
    let u = a.union(&b);
    assert_eq!(u.site(), a.site());
    assert_eq!(
        keys(&u),
        vec![key(0, "One"), key(0, "Two"), key(0, "Zeta"), key(0, "Alpha"), key(1, "Two")]
    );
    assert_eq!(meta_of(&u.pages()[0]), back(&json(r#"{"from":"a"}"#)));
    assert_eq!(meta_of(&u.pages()[1]), back(&json(r#"{"from":"b","more":1}"#)));
    assert_eq!(meta_of(&u.pages()[2]), back(&json(r#"{"from":"b"}"#)));
    assert!(u.pages().len() <= a.pages().len() + b.pages().len());
    assert!(u.pages().len() >= a.pages().len().max(b.pages().len()));
}

#[test]
fn union_without_overlap_has_every_page() {
    let a = list("enwiki", vec![page("One", 0, "{}"), page("Two", 0, "{}")]);
    let b = list("enwiki", vec![page("Three", 0, "{}"), page("One", 1, "{}"), page("Four", 0, "{}")]);
    let u = a.union(&b);
    assert_eq!(u.pages().len(), a.pages().len() + b.pages().len());
    assert_eq!(
        keys(&u),
        vec![key(0, "One"), key(0, "Two"), key(0, "Three"), key(1, "One"), key(0, "Four")]
    );
    let empty = list("enwiki", vec![]);
    assert_eq!(a.union(&empty), a);
    assert_eq!(keys(&empty.union(&b)), keys(&b));
}

#[test]
fn union_with_itself_is_the_list() {
    let a = list(
        "enwiki",
        vec![page("One", 0, r#"{"k":[1,2,{"x":null}]}"#), page("Two", 0, r#"{"n":-5,"f":1.5}"#)],
    );
    let u = a.union(&a);
    assert_eq!(u, a);
    assert_eq!(a.clone(), a);
    assert_eq!(a.pages()[0].clone(), a.pages()[0]);
    assert_eq!(a.pages()[1].meta()[0].1.clone(), a.pages()[1].meta()[0].1);
}

#[test]
fn union_uses_a_counterpart_once_and_takes_the_last_of_doubles() {
    let a = list(
        "enwiki",
        vec![page("One", 0, r#"{"a":1}"#), page("One", 0, r#"{"a":2}"#)],
    );
    let b = list(
        "enwiki",
        vec![
            page("One", 0, r#"{"b":1}"#),
            page("Two", 0, r#"{"b":2}"#),
            page("Two", 0, r#"{"b":3}"#),
            page("One", 0, r#"{"b":4}"#),
        ],
    );
    let u = a.union(&b);
    assert_eq!(keys(&u), vec![key(0, "One"), key(0, "One"), key(0, "Two")]);
    assert_eq!(meta_of(&u.pages()[0]), back(&json(r#"{"a":1,"b":4}"#)));
    assert_eq!(meta_of(&u.pages()[1]), back(&json(r#"{"a":2}"#)));
    assert_eq!(meta_of(&u.pages()[2]), back(&json(r#"{"b":3}"#)));
    let nothing = list("enwiki", vec![]);
    let doubled = list("enwiki", vec![page("X", 0, r#"{"n":1}"#), page("X", 0, r#"{"n":2}"#)]);
    let u = nothing.union(&doubled);
    assert_eq!(u.pages().len(), 1);
    assert_eq!(meta_of(&u.pages()[0]), back(&json(r#"{"n":2}"#)));
    let same_twice = a.union(&a);
    assert_eq!(keys(&same_twice), vec![key(0, "One"), key(0, "One")]);
    assert_eq!(meta_of(&same_twice.pages()[0]), back(&json(r#"{"a":2}"#)));
}

#[test]
fn lists_of_two_wikis_are_combined_after_translation() {
    let a = list("enwiki", vec![page("Biochemistry", 0, r#"{"views":10}"#)]);
    let b = list(
        "dewiki",
        vec![page("Biochemie", 0, r#"{"links":3}"#), page("Unbekannt", 0, r#"{"links":1}"#)],
    );
    assert!(a.needs_translation(&b));
    assert!(!a.needs_translation(&a));
    assert_eq!(
        b.change_wiki_url("enwiki"),
        "https://wd-infernal.toolforge.org/change_wiki/dewiki/enwiki"
    );
    let answer = json(r#"{"Biochemie":"Biochemistry","Nummer":7}"#);
    let targets = PageList::translation_targets(
        &vec!["Biochemie".to_string(), "Unbekannt".to_string(), "Nummer".to_string()],
        &answer,
    );
    assert_eq!(targets, vec![Some("Biochemistry".to_string()), None, None]);
    let titles = vec![Some(Title::new("Biochemistry", 0)), None];
    let carried = b.to_wiki("enwiki", &titles);
    assert_eq!(carried.site(), a.site());
    assert_eq!(keys(&carried), vec![key(0, "Biochemistry")]);
    assert_eq!(meta_of(&carried.pages()[0]), back(&json(r#"{"links":3}"#)));
    assert!(!a.needs_translation(&carried));

    let across = a.subset_across(&b, &titles);
    assert_eq!(across, a.subset(&carried));
    assert_eq!(a.subset_across(&a, &titles), a.subset(&a));
    let s = a.subset(&carried);
    assert_eq!(s.pages().len(), 1);
    assert_eq!(s.pages()[0].title(), &Title::new("Biochemistry", 0));
    assert_eq!(meta_of(&s.pages()[0]), back(&json(r#"{"views":10,"links":3}"#)));
    assert_eq!(s.site(), a.site());

    let others = list("dewiki", vec![page("Physik", 0, "{}"), page("Chemie", 0, "{}")]);
    let carried = others.to_wiki(
        "enwiki",
        &vec![Some(Title::new("Physics", 0)), Some(Title::new("Chemistry", 0))],
    );
    let other_titles = vec![Some(Title::new("Physics", 0)), Some(Title::new("Chemistry", 0))];
    assert_eq!(a.union_across(&others, &other_titles), a.union(&carried));
    assert_eq!(a.union_across(&a, &other_titles), a);
    assert_eq!(others.union_across(&a, &vec![None]).pages().len(), 2);
    let u = a.union(&carried);
    assert_eq!(u.pages().len(), a.pages().len() + others.pages().len());
    assert_eq!(keys(&u), vec![key(0, "Biochemistry"), key(0, "Physics"), key(0, "Chemistry")]);
}

#[test]
fn to_wiki_renames_and_drops() {
    let pl = list(
        "enwiki",
        vec![page("Biochemistry", 0, "{}"), page("Magnus_Manske", 0, "{}"), page("Lost", 0, "{}")],
    );
    let pl2 = pl.to_wiki(
        "dewiki",
        &vec![Some(Title::new("Biochemie", 0)), Some(Title::new("Magnus_Manske", 0))],
    );
    assert_eq!(pl2.pages().len(), 2);
    assert_eq!(pl2.pages()[0].title().pretty(), "Biochemie");
    assert_eq!(pl2.pages()[1].title().pretty(), "Magnus Manske");
    assert_eq!(pl2.site().wiki(), "dewiki");
    assert_eq!(pl.to_wiki("dewiki", &vec![]).pages().len(), 0);
}

#[test]
fn page_document_is_decoded() {
    let doc = json(
        r#"{"site":{"wiki":"enwiki"},"pages":[
            {"title":"Biochemistry","namespace_id":0,"prefixed_title":"Biochemistry","counter":4},
            {"title":"No namespace"},
            {"namespace_id":0},
            {"title":"Living_people","namespace_id":14,"note":{"a":[1,2]}},
            {"title":7,"namespace_id":0},
            {"title":"Float","namespace_id":1.5},
            "Biochemistry",
            {"title":"Special page","namespace_id":-1,"prefixed_title":"Special:Special page"}
        ]}"#,
    );
    let pl = PageList::from_json(&doc).unwrap();
    assert_eq!(pl.site(), &Site::from_wiki("enwiki").unwrap());
    assert_eq!(
        keys(&pl),
        vec![key(0, "Biochemistry"), key(14, "Living_people"), key(-1, "Special_page")]
    );
    assert_eq!(meta_of(&pl.pages()[0]), back(&json(r#"{"counter":4}"#)));
    assert_eq!(meta_of(&pl.pages()[1]), back(&json(r#"{"note":{"a":[1,2]}}"#)));
    assert_eq!(pl.pages()[1].title().pretty(), "Living people");
    for p in pl.pages() {
        for (k, _) in p.meta() {
            assert!(k != "title" && k != "namespace_id" && k != "prefixed_title");
        }
    }
}

#[test]
fn page_document_failures() {
    assert!(matches!(
        PageList::from_json(&json(r#"{"pages":[]}"#)),
        Err(ToolsError::Json(m)) if m == "missing site.wiki"
    ));
    assert!(matches!(
        PageList::from_json(&json(r#"{"site":"enwiki","pages":[]}"#)),
        Err(ToolsError::Json(m)) if m == "missing site.wiki"
    ));
    assert!(matches!(
        PageList::from_json(&json(r#"{"site":{"wiki":"nonsense"},"pages":[]}"#)),
        Err(ToolsError::Tool(m)) if m == "Unknown wiki nonsense"
    ));
    assert!(matches!(
        PageList::from_json(&json(r#"{"site":{"wiki":"enwiki"}}"#)),
        Err(ToolsError::Json(m)) if m == "missing pages"
    ));
    assert!(matches!(
        PageList::from_json(&json(r#"{"site":{"wiki":"enwiki"},"pages":{}}"#)),
        Err(ToolsError::Json(m)) if m == "missing pages"
    ));
    let empty = PageList::from_json(&json(r#"{"site":{"wiki":"EN-wiki "},"pages":[]}"#)).unwrap();
    assert_eq!(empty.pages().len(), 0);
    assert_eq!(empty.site().wiki(), "en_wiki");
}

#[test]
fn page_document_is_written_and_read_back() {
    let pl = list(
        "commonswiki",
        vec![
            page("Some_file.jpg", 6, r#"{"size":12,"tags":["a","b"]}"#),
            page("Gallery", 0, "{}"),
        ],
    );
    let doc = pl.as_json(&vec![Some("File:Some file.jpg".to_string())]);
    let expected = json(
        r#"{"pages":[
            {"title":"Some file.jpg","prefixed_title":"File:Some file.jpg","namespace_id":6,"size":12,"tags":["a","b"]},
            {"title":"Gallery","prefixed_title":"","namespace_id":0}
        ],"site":{"wiki":"commonswiki","language":"commons","project":"wikimedia"}}"#,
    );
    assert_eq!(back(&doc), back(&expected));
    let again = PageList::from_json(&doc).unwrap();
    assert_eq!(again, pl);
    let one = pl.pages()[1].as_json(Some("Gallery".to_string()));
    assert_eq!(
        back(&one),
        back(&json(r#"{"title":"Gallery","prefixed_title":"Gallery","namespace_id":0}"#))
    );
    let special = page("Log", -1, "{}").as_json(None);
    assert_eq!(
        back(&special),
        back(&json(r#"{"title":"Log","prefixed_title":"","namespace_id":-1}"#))
    );
}

#[test]
fn fancy_title_as_json() {
    let fancy = FancyTitle::new("Living_people", 14, Some("Category:Living people".to_string()));
    assert_eq!(fancy.title, Title::new("Living people", 14));
    assert_eq!(fancy.prefixed_title, "Category:Living people");
    assert_eq!(
        back(&fancy.to_json()),
        back(&json(
            r#"{"title":"Living people","prefixed_title":"Category:Living people","namespace_id":14}"#
        ))
    );
    let unknown = FancyTitle::new("X", 999, None);
    assert_eq!(unknown.prefixed_title, "");
    let parsed = FancyTitle::from_prefixed(Title::new("A title", -1), Some("Special:A title".to_string()));
    assert_eq!(parsed.title.namespace_id(), -1);
    assert_eq!(parsed.prefixed_title, "Special:A title");
}
