use tools_interface::a_list_building_tool::AListBuildingTool;
use tools_interface::completer::{Completer, CompleterFilter};
use tools_interface::dates::{Date, DateTime};
use tools_interface::duplicity::{Duplicity, DuplicityResult};
use tools_interface::error::ToolsError;
use tools_interface::grep::Grep;
use tools_interface::json::{JsonNumber, JsonValue};
use tools_interface::list_building::ListBuilding;
use tools_interface::missing_topics::MissingTopics;
use tools_interface::pagepile::PagePile;
use tools_interface::pageviews::{
    Pageviews, PageviewsAccess, PageviewsAgent, PageviewsGranularity, PageviewsParams,
    PageviewsResult, PageviewsStep, PageviewsTimestamp,
};
use tools_interface::persondata_template::{
    PersondataTemplatesOccOp, PersondataTemplatesParamNameOp, PersondataTemplatesParamValueOp,
    PersondataTemplatesQuery, PersondataTemplatesResult,
};
use tools_interface::persondata_vorlage::{
    PersondataVorlagenOccOp, PersondataVorlagenParamNameOp, PersondataVorlagenParamValueOp,
    PersondataVorlagenQuery,
};
use tools_interface::petscan::{ParameterOverride, PetScan, PetScanPage};
use tools_interface::quarry::Quarry;
use tools_interface::quickstatements::QuickStatements;
use tools_interface::search::{WikiSearch, WikiSearchResult};
use tools_interface::site::Site;
use tools_interface::sparql_rc::SparqlRC;
use tools_interface::title::Title;
use tools_interface::tools_interface::ToolsInterface;
use tools_interface::xtools_pages::{DeletedPages, Redirects, XtoolsPages, XtoolsPagesResult};

fn convert(v: &serde_json::Value) -> JsonValue {
    match v {
        serde_json::Value::Null => JsonValue::Null,
        serde_json::Value::Bool(b) => JsonValue::Bool(*b),
        serde_json::Value::Number(n) => {
            if let Some(u) = n.as_u64() {
                JsonValue::Number(JsonNumber::PosInt(u))
            } else if let Some(i) = n.as_i64() {
                JsonValue::Number(JsonNumber::NegInt(i))
            } else {
                JsonValue::Number(JsonNumber::Float(n.to_string()))
            }
        }
        serde_json::Value::String(s) => JsonValue::String(s.clone()),
        serde_json::Value::Array(a) => JsonValue::Array(a.iter().map(convert).collect()),
        serde_json::Value::Object(o) => {
            JsonValue::Object(o.iter().map(|(k, v)| (k.clone(), convert(v))).collect())
        }
    }
}

fn back(v: &JsonValue) -> serde_json::Value {
    match v {
        JsonValue::Null => serde_json::Value::Null,
        JsonValue::Bool(b) => serde_json::Value::Bool(*b),
        JsonValue::Number(JsonNumber::PosInt(u)) => serde_json::Value::from(*u),
        JsonValue::Number(JsonNumber::NegInt(i)) => serde_json::Value::from(*i),
        JsonValue::Number(JsonNumber::Float(t)) => serde_json::from_str(t).unwrap(),
        JsonValue::String(s) => serde_json::Value::String(s.clone()),
        JsonValue::Array(a) => serde_json::Value::Array(a.iter().map(back).collect()),
        JsonValue::Object(o) => {
            serde_json::Value::Object(o.iter().map(|(k, v)| (k.clone(), back(v))).collect())
        }
    }
}

fn json(text: &str) -> JsonValue {
    convert(&serde_json::from_str::<serde_json::Value>(text).unwrap())
}

fn pairs(items: &[(&str, &str)]) -> Vec<(String, String)> {
    items.iter().map(|(k, v)| (k.to_string(), v.to_string())).collect()
}

#[test]
fn grep_test_new() {
    let site = Site::from_wiki("enwiki").unwrap();
    let query = "^Mag.*ske$";
    let tool = Grep::new(site.clone(), query);
    assert_eq!(tool.site(), &site);
    assert_eq!(tool.query(), query);
}

#[test]
fn list_building_test_new() {
    let site = Site::from_wiki("enwiki").unwrap();
    let title = "SARS-CoV-2";
    let tool = ListBuilding::new(site.clone(), title);
    assert_eq!(tool.site(), &site);
    assert_eq!(tool.title(), title);
}

#[test]
fn test_pagepile_new() {
    let pp = PagePile::new(1);
    assert_eq!(pp.id(), 1);
}

#[test]
fn test_persondata_templates_query() {
    let query = PersondataTemplatesQuery::with_template("Roscher")
        .with_occurrence_op(4, PersondataTemplatesOccOp::Equal)
        .in_table()
        .in_template()
        .in_reference()
        .in_wikilink()
        .in_article()
        .in_comments()
        .case_sensitive()
        .parameter_name_op("name", PersondataTemplatesParamNameOp::Equal)
        .parameter_value_op("value", PersondataTemplatesParamValueOp::Equal);

    assert_eq!(query.tmpl, "Roscher");
    assert_eq!(query.with_wl, true);
    assert_eq!(query.occ, Some(4));
    assert_eq!(query.occ_op, PersondataTemplatesOccOp::Equal);
    assert_eq!(query.in_t, true);
    assert_eq!(query.in_v, true);
    assert_eq!(query.in_r, true);
    assert_eq!(query.in_l, true);
    assert_eq!(query.in_a, true);
    assert_eq!(query.in_c, true);
    assert_eq!(query.case, true);
    assert_eq!(query.param_name, "name");
    assert_eq!(query.param_name_op, PersondataTemplatesParamNameOp::Equal);
    assert_eq!(query.param_value, "value");
    assert_eq!(query.param_value_op, PersondataTemplatesParamValueOp::Equal);
}

#[test]
fn test_persondata_vorlagen_query() {
    let query = PersondataVorlagenQuery::with_template("Roscher")
        .with_occurrence(4, PersondataVorlagenOccOp::Equal)
        .in_table()
        .in_template()
        .in_reference()
        .in_wikilink()
        .in_article()
        .in_comments()
        .case_sensitive()
        .parameter_name("name", PersondataVorlagenParamNameOp::Equal)
        .parameter_value("value", PersondataVorlagenParamValueOp::Equal);

    assert_eq!(query.tmpl, "Roscher");
    assert_eq!(query.with_wl, true);
    assert_eq!(query.occ, Some(4));
    assert_eq!(query.occ_op, PersondataVorlagenOccOp::Equal);
    assert_eq!(query.in_t, true);
    assert_eq!(query.in_v, true);
    assert_eq!(query.in_r, true);
    assert_eq!(query.in_l, true);
    assert_eq!(query.in_a, true);
    assert_eq!(query.in_c, true);
    assert_eq!(query.case, true);
    assert_eq!(query.param_name, "name");
    assert_eq!(query.param_name_op, PersondataVorlagenParamNameOp::Equal);
    assert_eq!(query.param_value, "value");
    assert_eq!(query.param_value_op, PersondataVorlagenParamValueOp::Equal);
}

#[test]
fn test_petscan_new() {
    let ps = PetScan::new(123);
    assert_eq!(ps.psid(), 123);
    assert_eq!(ps.pages(), Vec::<PetScanPage>::new());
}

#[test]
fn test_petscan_into_title() {
    let ps = PetScanPage {
        page_namespace: 0,
        page_title: "Foo".to_string(),
        ..Default::default()
    };
    let title: Title = ps.into_title();
    assert_eq!(title, Title::new("Foo", 0));
}

#[test]
fn test_last_of_month() {
    assert_eq!(Pageviews::month_end(2021, 1).unwrap().format("%Y-%m-%d").unwrap(), "2021-01-31");
    assert_eq!(Pageviews::month_end(2021, 2).unwrap().format("%Y-%m-%d").unwrap(), "2021-02-28");
    assert_eq!(Pageviews::month_end(2024, 2).unwrap().format("%Y-%m-%d").unwrap(), "2024-02-29");
    assert_eq!(Pageviews::month_end(2021, 3).unwrap().format("%Y-%m-%d").unwrap(), "2021-03-31");
    assert_eq!(Pageviews::month_end(2021, 4).unwrap().format("%Y-%m-%d").unwrap(), "2021-04-30");
    assert_eq!(Pageviews::month_end(2021, 5).unwrap().format("%Y-%m-%d").unwrap(), "2021-05-31");
    assert_eq!(Pageviews::month_end(2021, 6).unwrap().format("%Y-%m-%d").unwrap(), "2021-06-30");
    assert_eq!(Pageviews::month_end(2021, 7).unwrap().format("%Y-%m-%d").unwrap(), "2021-07-31");
    assert_eq!(Pageviews::month_end(2021, 8).unwrap().format("%Y-%m-%d").unwrap(), "2021-08-31");
    assert_eq!(Pageviews::month_end(2021, 9).unwrap().format("%Y-%m-%d").unwrap(), "2021-09-30");
    assert_eq!(Pageviews::month_end(2021, 10).unwrap().format("%Y-%m-%d").unwrap(), "2021-10-31");
    assert_eq!(Pageviews::month_end(2021, 11).unwrap().format("%Y-%m-%d").unwrap(), "2021-11-30");
    assert_eq!(Pageviews::month_end(2021, 12).unwrap().format("%Y-%m-%d").unwrap(), "2021-12-31");
}

#[test]
fn test_pageviews_timestamp() {
    let time_string = "2345123159";
    let ts: PageviewsTimestamp = PageviewsTimestamp::parse(time_string).unwrap();
    let ts: String = ts.to_text();
    assert_eq!(ts, time_string);
}

#[test]
fn xtools_pages_test_new() {
    let site = Site::from_wiki("enwiki").unwrap();
    let user = "Magnus Manske";
    let end_date = Date::parse_from_str("2024-12-31", "%Y-%m-%d").unwrap();
    let tool = XtoolsPages::new(site.clone(), user).with_end_date(end_date);
    assert_eq!(tool.site(), &site);
    assert_eq!(tool.user(), user);
    assert_eq!(tool.end_date(), Some(end_date));
}

#[test]
fn a_list_building_tool_reads_rows_and_skips_broken_ones() {
    let site = Site::from_wiki("enwiki").unwrap();
    let mut tool = AListBuildingTool::new(site.clone(), "Q42");
    assert_eq!(tool.site(), &site);
    assert_eq!(tool.q(), "Q42");
    assert_eq!(
        tool.get_url(),
        "https://a-list-bulding-tool.toolforge.org/API/?wiki_db=enwiki&QID=Q42"
    );
    let answer = json(
        r#"[{"title":"Human","qid":"Q5"},{"title":"No item"},{"qid":"Q1"},{"title":7,"qid":"Q2"},"x",{"title":"Douglas Adams","qid":"Q42"}]"#,
    );
    tool.set_from_json(&answer).unwrap();
    assert_eq!(tool.results().len(), 2);
    assert_eq!(tool.results()[0].title, "Human");
    assert_eq!(tool.results()[0].qid, "Q5");
    assert_eq!(tool.results()[1].title, "Douglas Adams");
    tool.set_from_json(&json(r#"[{"title":"Third","qid":"Q3"}]"#)).unwrap();
    assert_eq!(tool.results().len(), 3);
    let failure = tool.set_from_json(&json(r#"{"title":"Human"}"#)).unwrap_err();
    assert!(matches!(failure, ToolsError::Json(m) if m == "Result is not an array"));
    assert_eq!(tool.results().len(), 3);
}

#[test]
fn list_building_reads_rows() {
    let site = Site::from_wiki("enwiki").unwrap();
    let mut tool = ListBuilding::new(site, "SARS-CoV-2");
    assert_eq!(
        tool.get_url(),
        "https://list-building.toolforge.org/api/serpentine?lang=en&title=SARS-CoV-2&qid=&k-reader=3&k-links=3&k-morelike=4&wp"
    );
    let answer = json(
        r#"{"results":[{"page_title":"COVID-19","qid":"Q84263196","description":"disease"},{"page_title":"Nameless","qid":"Q1"}]}"#,
    );
    tool.set_from_json(&answer).unwrap();
    assert_eq!(tool.results().len(), 1);
    assert_eq!(tool.results()[0].title, "COVID-19");
    assert_eq!(tool.results()[0].qid, "Q84263196");
    assert_eq!(tool.results()[0].description, "disease");
    let failure = tool.set_from_json(&json(r#"{"results":3}"#)).unwrap_err();
    assert!(matches!(failure, ToolsError::Json(m) if m == "Result is not an array"));
}

#[test]
fn completer_payload_and_answer() {
    let mut c = Completer::new("de", "en")
        .filter(CompleterFilter::Category { category: "Biologie".to_string(), depth: 0 })
        .ignore_cache();
    assert_eq!(c.tool_url(), "https://completer.toolforge.org/data");
    assert_eq!(
        Completer::new("de", "en").with_tool_url("http://localhost/data").tool_url(),
        "http://localhost/data"
    );
    let expected = json(
        r#"{"info":{"from":"de","to":"en","ignoreCache":true,"filters":[{"type":"category","specific":{"title":"Biologie","depth":0,"talk":false}}]}}"#,
    );
    assert_eq!(back(&c.generate_payload()), back(&expected));
    let answer = json(
        r#"{"data":[["Optimum",4],["Zustandsänderung",1],["short"],[3,4],"x"],"meta":{"cache_age":null,"cached":false,"debugLine":true,"id":6623,"reachedMaxStatementTime":false,"time":"0.08"},"success":true}"#,
    );
    c.from_json(&answer).unwrap();
    assert_eq!(c.id(), 6623);
    assert_eq!(
        c.results(),
        &[("Optimum".to_string(), 4), ("Zustandsänderung".to_string(), 1)]
    );
    let failure = c.from_json(&json(r#"{"success":false}"#)).unwrap_err();
    assert!(matches!(failure, ToolsError::Tool(m) if m == "Completer has failed"));
    let failure = c.from_json(&json(r#"{"success":true,"meta":{}}"#)).unwrap_err();
    assert!(matches!(failure, ToolsError::Tool(m) if m == "No ID"));
    let failure = c.from_json(&json(r#"{"success":true,"meta":{"id":9}}"#)).unwrap_err();
    assert!(matches!(failure, ToolsError::Json(m) if m == "['data'] has no array"));
    assert_eq!(c.id(), 9);
    assert_eq!(c.results().len(), 2);
}

#[test]
fn completer_filters_as_json() {
    assert_eq!(
        back(&CompleterFilter::PetScan { psid: "123".to_string() }.to_json()),
        back(&json(r#"{"type":"petscan","specific":{"id":"123"}}"#))
    );
    assert_eq!(
        back(&CompleterFilter::Template { template: "Infobox".to_string() }.to_json()),
        back(&json(r#"{"type":"template","specific":{"title":"Infobox","talk":false}}"#))
    );
}

#[test]
fn grep_url_and_titles() {
    let site = Site::from_wiki("dewiktionarywiki").unwrap();
    let tool = Grep::new(site, "^A").with_namespace(14).with_redirects().limit_100();
    assert_eq!(
        tool.get_url(),
        "https://grep.toolforge.org/index.php?lang=de&project=wiktionary&namespace=14&pattern=^A&redirects=on&limit=on"
    );
    let mut tool = Grep::new(Site::from_wiki("enwiki").unwrap(), "^Mag.*ske$");
    assert_eq!(
        tool.get_url(),
        "https://grep.toolforge.org/index.php?lang=en&project=wikipedia&namespace=0&pattern=^Mag.*ske$"
    );
    let page = "<ul>\n<li><a href=\"https://en.wikipedia.org/wiki/Magnus_Manske\">Magnus Manske</a></li>\n<li><a href=\"x\">Magnus Maske</a></li>\n<li>nothing</li></ul>";
    tool.set_from_text(page).unwrap();
    assert_eq!(tool.results(), &["Magnus Manske".to_string(), "Magnus Maske".to_string()]);
    tool.set_from_text("no list here").unwrap();
    assert!(tool.results().is_empty());
}

#[test]
fn grep_as_json_lists_titles() {
    let mut tool = Grep::new(Site::from_wiki("enwiki").unwrap(), "x").with_namespace(14);
    tool.set_from_groups(&vec![Some("Living_people".to_string()), None, Some("Births".to_string())]);
    assert_eq!(tool.results().len(), 2);
    let out = tool.as_json(&vec![Some("Category:Living people".to_string())]);
    let expected = json(
        r#"{"pages":[{"title":"Living people","prefixed_title":"Category:Living people","namespace_id":14},{"title":"Births","prefixed_title":"","namespace_id":14}],"site":{"wiki":"enwiki","language":"en","project":"wikipedia"}}"#,
    );
    assert_eq!(back(&out), back(&expected));
    let pages = out.get("pages").unwrap().as_array().unwrap();
    assert_eq!(pages.len(), 2);
    assert_eq!(pages[0].str_at("title"), Some("Living people"));
    assert_eq!(pages[0].str_at("prefixed_title"), Some("Category:Living people"));
    assert_eq!(pages[0].i64_at("namespace_id"), Some(14));
    assert_eq!(pages[1].str_at("prefixed_title"), Some(""));
}

#[test]
fn missing_topics_parameters() {
    let site = Site::from_wiki("dewiki").unwrap();
    let mt = MissingTopics::new(site.clone()).with_article("Biologie").no_template_links(true);
    assert_eq!(mt.site(), &site);
    assert_eq!(mt.tool_url(), "https://missingtopics.toolforge.org/");
    assert_eq!(
        MissingTopics::new(site.clone()).with_tool_url("http://localhost/").tool_url(),
        "http://localhost/"
    );
    assert_eq!(
        mt.generate_paramters().unwrap(),
        pairs(&[
            ("language", "de"),
            ("project", "wikipedia"),
            ("doit", "Run"),
            ("wikimode", "json"),
            ("article", "Biologie"),
            ("nosingles", "0"),
            ("no_template_links", "1"),
        ])
    );
    let mt = MissingTopics::new(site.clone()).with_category("Biologie", 2).limit(3).no_template_links(false);
    assert_eq!(
        mt.generate_paramters().unwrap(),
        pairs(&[
            ("language", "de"),
            ("project", "wikipedia"),
            ("doit", "Run"),
            ("wikimode", "json"),
            ("category", "Biologie"),
            ("depth", "2"),
            ("nosingles", "1"),
            ("no_template_links", "0"),
            ("limitnum", "3"),
        ])
    );
    let both = MissingTopics::new(site.clone()).with_category("A", 0).with_article("B");
    assert!(matches!(
        both.generate_paramters(),
        Err(ToolsError::Tool(m)) if m == "Only one of category or article can be set"
    ));
    let neither = MissingTopics::new(site);
    assert!(matches!(
        neither.generate_paramters(),
        Err(ToolsError::Tool(m)) if m == "Either category or article must be set"
    ));
}

#[test]
fn missing_topics_answer() {
    let mut mt = MissingTopics::new(Site::from_wiki("dewiki").unwrap()).with_article("Biologie");
    let answer = json(
        r#"{"results":{"Ethnobiologie":4,"Micrographia":4,"Spezielle_Botanik":6,"Wbetavirus":"many","Zellphysiologie":4},"status":"OK","url":"https://missingtopics.toolforge.org/?language=de"}"#,
    );
    mt.from_json(&answer).unwrap();
    assert_eq!(mt.results().len(), 4);
    assert_eq!(mt.results()[3].0, "Zellphysiologie");
    assert_eq!(mt.results()[3].1, 4);
    assert_eq!(mt.url_used(), "https://missingtopics.toolforge.org/?language=de");
    let failure = mt.from_json(&json(r#"{"status":"ERROR"}"#)).unwrap_err();
    assert!(matches!(failure, ToolsError::Tool(m) if m == "MissingTopics status is not OK"));
    let failure = mt.from_json(&json(r#"{"status":"OK","results":[]}"#)).unwrap_err();
    assert!(matches!(failure, ToolsError::Json(m) if m == "['results'] has no object"));
    let failure = mt.from_json(&json(r#"{"status":"OK","results":{"A":1}}"#)).unwrap_err();
    assert!(matches!(failure, ToolsError::Json(m) if m == "['url'] is missing"));
    assert_eq!(mt.results(), &[("A".to_string(), 1)]);
}

#[test]
fn pagepile_answer_and_site() {
    let mut pp = PagePile::new(51805);
    assert_eq!(
        pp.get_url(),
        "https://pagepile.toolforge.org/api.php?id=51805&action=get_data&doit&format=json"
    );
    assert_eq!(pp.site(), None);
    let answer = json(
        r#"{"language":"de","project":"wikipedia","wiki":"dewiki","pages":["A","Kategorie:B",3],"pages_returned":2,"pages_total":2}"#,
    );
    pp.set_from_json(&answer).unwrap();
    assert_eq!(pp.language().unwrap(), "de");
    assert_eq!(pp.project().unwrap(), "wikipedia");
    assert_eq!(pp.wiki().unwrap(), "dewiki");
    assert_eq!(pp.prefixed_titles(), &["A".to_string(), "Kategorie:B".to_string()]);
    assert_eq!(pp.site(), Site::from_wiki("dewiki"));

    let mut pp = PagePile::new(1);
    pp.set_from_json(&json(
        r#"{"language":"en","project":"wiktionary","pages":[],"pages_returned":0,"pages_total":0}"#,
    ))
    .unwrap();
    assert_eq!(pp.wiki(), None);
    assert_eq!(pp.site(), Some(Site::from_language_project("en", "wiktionary")));
}

#[test]
fn pagepile_failures() {
    let mut pp = PagePile::new(1);
    let failure = pp.set_from_json(&json(r#"{"wiki":"dewiki"}"#)).unwrap_err();
    assert!(matches!(failure, ToolsError::Json(m) if m == "['pages'] has no rows array"));
    assert_eq!(pp.wiki().unwrap(), "dewiki");
    let failure = pp.set_from_json(&json(r#"{"pages":["A"],"pages_total":1}"#)).unwrap_err();
    assert!(matches!(failure, ToolsError::Json(m) if m == "['pages_returned'] is not an integer"));
    let failure = pp.set_from_json(&json(r#"{"pages":["A"],"pages_returned":1}"#)).unwrap_err();
    assert!(matches!(failure, ToolsError::Json(m) if m == "['pages_total'] is not an integer"));
    let failure =
        pp.set_from_json(&json(r#"{"pages":["A"],"pages_returned":1,"pages_total":5}"#)).unwrap_err();
    assert!(matches!(failure, ToolsError::Json(m) if m == "pages_returned (1) != pages_total (5)"));
    let failure =
        pp.set_from_json(&json(r#"{"pages":["A"],"pages_returned":-3,"pages_total":-3}"#)).unwrap_err();
    assert!(
        matches!(failure, ToolsError::Json(m) if m == "pages_total (-3) != prefixed_titles.len() (1)")
    );
}

#[test]
fn quickstatements_batch() {
    let mut qs = QuickStatements::new("Magnus_Manske", "FAKE_TOKEN").batch_name("foobar");
    assert_eq!(qs.api_url(), "https://quickstatements.toolforge.org/api.php");
    qs.add_command("Q4115189\tP31\tQ1");
    assert_eq!(
        qs.generate_paramters().unwrap(),
        pairs(&[
            ("action", "import"),
            ("submit", "1"),
            ("format", "v1"),
            ("token", "FAKE_TOKEN"),
            ("username", "Magnus_Manske"),
            ("batchname", "foobar"),
            ("data", "Q4115189\tP31\tQ1\n"),
            ("compress", "1"),
            ("site", "wikidata"),
        ])
    );
    assert_eq!(qs.batch_id(), None);
    qs.set_from_json(&json(
        r#"{"batch_id":12345,"debug":{"format":"v1","openpage":0,"temporary":false},"site":"wikidata","status":"OK"}"#,
    ))
    .unwrap();
    assert_eq!(qs.batch_id(), Some(12345));
    let failure = qs.set_from_json(&json(r#"{"status":"busy"}"#)).unwrap_err();
    assert!(matches!(failure, ToolsError::Json(m) if m == "QuickStatements status is not OK: busy"));
    let failure = qs.set_from_json(&json(r#"{"status":1}"#)).unwrap_err();
    assert!(matches!(failure, ToolsError::Json(m) if m == "['status'] is not a string"));
    assert_eq!(qs.batch_id(), Some(12345));
    let qs = QuickStatements::new("u", "t").no_compression().with_api_url("http://localhost/api.php");
    assert_eq!(qs.api_url(), "http://localhost/api.php");
    assert_eq!(qs.generate_paramters().unwrap()[7], ("compress".to_string(), "0".to_string()));
}

#[test]
fn quarry_table() {
    let mut quarry = Quarry::new(82868);
    assert_eq!(quarry.id(), 82868);
    assert_eq!(quarry.get_url(), "https://quarry.wmcloud.org/query/82868/result/latest/0/json");
    let answer = json(
        r#"{"headers":["page_id","page_namespace","page_title",7,"page_title"],"rows":[[1,14,"!Hauptkategorie"],"x",[2,14,"Sachsystematik"]]}"#,
    );
    quarry.from_json(&answer).unwrap();
    assert_eq!(quarry.columns().len(), 5);
    assert_eq!(quarry.columns()[3], "");
    let column_number = quarry.colnum("page_title").unwrap();
    assert_eq!(column_number, 2);
    assert_eq!(quarry.colnum("nothing"), None);
    assert_eq!(quarry.rows().len(), 2);
    assert!(quarry.rows().iter().any(|row| row[column_number].as_str() == Some("!Hauptkategorie")));
    let failure = quarry.from_json(&json(r#"{"rows":[]}"#)).unwrap_err();
    assert!(matches!(failure, ToolsError::Json(m) if m == "No headers in Quarry JSON"));
    let failure = quarry.from_json(&json(r#"{"headers":1}"#)).unwrap_err();
    assert!(matches!(failure, ToolsError::Json(m) if m == "['headers'] is not an array in Quarry JSON"));
    let failure = quarry.from_json(&json(r#"{"headers":["a"]}"#)).unwrap_err();
    assert!(matches!(failure, ToolsError::Json(m) if m == "No rows in Quarry JSON"));
    assert_eq!(quarry.columns(), &["a".to_string()]);
    let failure = quarry.from_json(&json(r#"{"headers":["a"],"rows":{}}"#)).unwrap_err();
    assert!(matches!(failure, ToolsError::Json(m) if m == "Rows is not an array in Quarry JSON"));
}

#[test]
fn search_url_and_hits() {
    let site = Site::from_wiki("enwiki").unwrap();
    let tool = WikiSearch::new(site.clone(), "Heinrich Magnus Manske");
    assert_eq!(tool.site(), &site);
    assert_eq!(tool.query(), "Heinrich Magnus Manske");
    assert_eq!(tool.namespace_ids(), "0");
    assert_eq!(tool.offset(), 0);
    assert_eq!(tool.limit(), 10);
    assert_eq!(
        tool.get_url(),
        "https://en.wikipedia.org/w/api.php?action=query&list=search&srsearch=Heinrich Magnus Manske&srnamespace=0&sroffset=0&srlimit=10&format=json"
    );
    let mut tool = tool.with_namespace_id(4).with_limit(50).with_offset(100);
    assert_eq!(tool.namespace_ids(), "4");
    assert_eq!(
        tool.get_url(),
        "https://en.wikipedia.org/w/api.php?action=query&list=search&srsearch=Heinrich Magnus Manske&srnamespace=4&sroffset=100&srlimit=50&format=json"
    );
    let answer = json(
        r#"{"query":{"search":[{"ns":0,"title":"Magnus Manske","pageid":3361346,"size":11000,"wordcount":1200,"snippet":"<b>Heinrich</b>"},{"ns":0,"title":"Broken"}]}}"#,
    );
    tool.set_from_json(&answer).unwrap();
    assert_eq!(
        tool.results(),
        &[WikiSearchResult {
            namespace_id: 0,
            title: "Magnus Manske".to_string(),
            page_id: 3361346,
            size: 11000,
            wordcount: 1200,
            snippet: "<b>Heinrich</b>".to_string(),
        }]
    );
    let tool2 = WikiSearch::new(site, "x").with_namespace_ids("0|14");
    assert_eq!(tool2.namespace_ids(), "0|14");
    let failure = tool.set_from_json(&json(r#"{"query":{}}"#)).unwrap_err();
    assert!(matches!(failure, ToolsError::Json(m) if m == "Result is not an array"));
    assert_eq!(tool.results().len(), 1);
}

#[test]
fn persondata_template_url() {
    assert_eq!(
        PersondataTemplatesQuery::new().generate_csv_url(),
        "https://persondata.toolforge.org/vorlagen/index.php?export=1&tzoffset=0&show_occ&show_param&show_value"
    );
    let query = PersondataTemplatesQuery::with_template("Roscher")
        .with_occurrence_op(4, PersondataTemplatesOccOp::Larger)
        .in_table()
        .case_sensitive()
        .parameter_name_op("4", PersondataTemplatesParamNameOp::Missing)
        .parameter_value("x");
    assert_eq!(
        query.generate_csv_url(),
        "https://persondata.toolforge.org/vorlagen/index.php?export=1&tzoffset=0&show_occ&show_param&show_value&tmpl=Roscher&with_wl&occ=4&occ_op=gt&param=4&param_name_op=miss&value=x&in_t&case"
    );
    let query = PersondataTemplatesQuery::with_template("Roscher")
        .with_occurrence(2)
        .parameter_name("1")
        .parameter_value_op("y", PersondataTemplatesParamValueOp::NotRegexp)
        .in_template()
        .in_reference()
        .in_wikilink()
        .in_article()
        .in_comments();
    assert_eq!(
        query.generate_csv_url(),
        "https://persondata.toolforge.org/vorlagen/index.php?export=1&tzoffset=0&show_occ&show_param&show_value&tmpl=Roscher&with_wl&occ=2&param=1&value=y&param_value_op=nr&in_v&in_r&in_l&in_a&in_c"
    );
}

#[test]
fn persondata_template_results() {
    let body = "Artikel;Einbindung;1;4;Bemerkung\nAchilleus;2;a;b;c\nAias;x;only\n";
    let results = PersondataTemplatesQuery::with_template("Roscher").results_from_csv(body).unwrap();
    assert_eq!(results.len(), 2);
    assert_eq!(results[0].article(), "Achilleus");
    assert_eq!(results[0].usage_number(), 2);
    assert_eq!(results[0].params().len(), 2);
    assert_eq!(results[0].params().get(&1), Some(&"a".to_string()));
    assert_eq!(results[0].params().get(&4), Some(&"b".to_string()));
    assert_eq!(results[1].article(), "Aias");
    assert_eq!(results[1].usage_number(), 0);
    assert_eq!(results[1].params().get(&1), Some(&"only".to_string()));
    assert_eq!(results[1].params().get(&4), None);
    let header = vec!["Artikel".to_string(), "7".to_string(), "7".to_string()];
    let record = vec!["A".to_string(), "first".to_string(), "second".to_string(), "more".to_string()];
    let row = PersondataTemplatesResult::from_record(&header, &record);
    assert_eq!(row.article(), "A");
    assert_eq!(row.params().get(&7), Some(&"second".to_string()));
}

#[test]
fn persondata_vorlage_url_and_results() {
    let query = PersondataVorlagenQuery::with_template("Roscher")
        .with_occurrence(4, PersondataVorlagenOccOp::Smaller)
        .parameter_name("n", PersondataVorlagenParamNameOp::Like)
        .parameter_value("v", PersondataVorlagenParamValueOp::Contains);
    assert_eq!(
        query.generate_csv_url(),
        "https://persondata.toolforge.org/vorlagen/index.php?export=1&tzoffset=0&show_occ&show_param&show_value&tmpl=Roscher&with_wl&occ=4&occ_op=lt&param=n&param_name_op=lk&value=v&param_value_op=hs"
    );
    let results = query.results_from_csv("Artikel;Einbindung;2\nA;1;x\nB;3;y\n").unwrap();
    assert_eq!(results.len(), 2);
    assert_eq!(results[1].article(), "B");
    assert_eq!(results[1].usage_number(), 3);
    assert_eq!(results[1].params().get(&2), Some(&"y".to_string()));
}

#[test]
fn petscan_answer() {
    let mut ps = PetScan::new(25951472);
    assert_eq!(
        ps.get_url(),
        "https://petscan.wmflabs.org/?psid=25951472&format=json&output_compatability=quick-intersection"
    );
    ps.parameters_mut().push(("foo".to_string(), "bar".to_string()));
    ps.set_parameter("baz", "1");
    ps.set_parameter("foo", "again");
    assert_eq!(ps.parameters(), &pairs(&[("baz", "1"), ("foo", "again")]));
    let answer = json(
        r#"{"status":"OK","query":"https://petscan.wmflabs.org/?psid=1","namespaces":{"0":"","-2":"Media","14":"Category"},"wiki":"enwiki","pages":[{}]}"#,
    );
    let page = PetScanPage {
        page_id: 3361346,
        page_title: "Magnus_Manske".to_string(),
        ..Default::default()
    };
    ps.from_json(&answer, vec![page]).unwrap();
    assert_eq!(ps.pages().len(), 1);
    assert_eq!(ps.pages()[0].page_id, 3361346);
    assert_eq!(ps.pages()[0].page_title, "Magnus_Manske");
    assert_eq!(ps.wiki().unwrap(), "enwiki");
    assert_eq!(ps.query().unwrap(), "https://petscan.wmflabs.org/?psid=1");
    let failure = ps.from_json(&json(r#"{"status":"nope"}"#), vec![]).unwrap_err();
    assert!(matches!(failure, ToolsError::Tool(m) if m == "PetScan status is not OK"));
    let failure = ps.from_json(&json(r#"{"status":"OK"}"#), vec![]).unwrap_err();
    assert!(matches!(failure, ToolsError::Json(m) if m == "['namespaces'] has no object"));
    let failure =
        ps.from_json(&json(r#"{"status":"OK","namespaces":{"x":"y"}}"#), vec![]).unwrap_err();
    assert!(matches!(failure, ToolsError::Json(m) if m == "['namespaces'] is malformed"));
    let failure = ps.from_json(&json(r#"{"status":"OK","namespaces":{}}"#), vec![]).unwrap_err();
    assert!(matches!(failure, ToolsError::Json(m) if m == "['pages'] has no array"));
    assert_eq!(ps.pages().len(), 1);
}

#[test]
fn duplicity_answers() {
    let site = Site::from_wiki("enwiki").unwrap();
    let mut d = Duplicity::new(site.clone());
    assert_eq!(d.site(), &site);
    assert_eq!(d.generate_paramters().unwrap(), pairs(&[("action", "articles"), ("wiki", "enwiki")]));
    let answer = json(
        r#"{"status":"OK","articles":[{"title":"A","creation_date":"20240501123456"},{"title":"B","creation_date":"20231231000000"}]}"#,
    );
    d.set_from_json(&answer).unwrap();
    assert_eq!(d.results().len(), 2);
    assert_eq!(
        d.results()[0],
        DuplicityResult {
            title: "A".to_string(),
            creation_date: DateTime {
                date: Date { year: 2024, month: 5, day: 1 },
                hour: 12,
                minute: 34,
                second: 56,
            },
        }
    );
    let broken = json(
        r#"{"status":"OK","articles":[{"title":"C","creation_date":"20240501123456"},{"title":"D","creation_date":"yesterday"},{"creation_date":"x"}]}"#,
    );
    let failure = d.set_from_json(&broken).unwrap_err();
    assert!(matches!(failure, ToolsError::Json(m) if m == "DuplicityResult creation_date parse error"));
    assert_eq!(d.results().len(), 2);
    let failure = DuplicityResult::from_json(&json(r#"{"creation_date":"x"}"#)).unwrap_err();
    assert!(matches!(failure, ToolsError::Json(m) if m == "DuplicityResult title is not a string"));
    let failure = DuplicityResult::from_json(&json(r#"{"title":"x"}"#)).unwrap_err();
    assert!(
        matches!(failure, ToolsError::Json(m) if m == "DuplicityResult creation_date is not a string")
    );
    let failure = d.set_from_json(&json(r#"{"status":"OK"}"#)).unwrap_err();
    assert!(matches!(failure, ToolsError::Json(m) if m == "['results'] is not an array"));
    let failure = d.set_from_json(&json(r#"{"articles":[]}"#)).unwrap_err();
    assert!(matches!(failure, ToolsError::Tool(_)));
    let wikis = Duplicity::wikis(&json(
        r#"{"wikis":[{"wiki":"kswiki","cnt":"12"},{"wiki":"enwiki","cnt":"many"},{"wiki":"dewiki","cnt":"300"}]}"#,
    ))
    .unwrap();
    assert_eq!(wikis, vec![("kswiki".to_string(), 12), ("dewiki".to_string(), 300)]);
    assert!(matches!(
        Duplicity::wikis(&json(r#"{}"#)),
        Err(ToolsError::Json(m)) if m == "['wikis'] is not an array"
    ));
}

#[test]
fn sparql_rc_parameters_and_answer() {
    let start = Date::from_ymd_opt(2024, 5, 1).unwrap().and_midnight();
    let end = Date::from_ymd_opt(2024, 5, 2).unwrap().and_midnight();
    let rc = SparqlRC::new("SELECT ?q { ?q wdt:P31 wd:Q23413 }");
    assert!(matches!(
        rc.check_start_date(),
        Err(ToolsError::Tool(m)) if m == "SparqlRC start date is not set"
    ));
    let mut rc = rc.start(start).end(end);
    assert!(rc.check_start_date().is_ok());
    assert_eq!(rc.tool_url(), "https://wikidata-todo.toolforge.org/sparql_rc.php");
    assert_eq!(
        SparqlRC::new("x").with_tool_url("http://localhost/rc").tool_url(),
        "http://localhost/rc"
    );
    assert_eq!(
        rc.generate_paramters().unwrap(),
        pairs(&[
            ("sparql", "SELECT ?q { ?q wdt:P31 wd:Q23413 }"),
            ("start", "20240501000000"),
            ("end", "20240502000000"),
            ("user_lang", ""),
            ("no_bots", "0"),
            ("skip_unchanged", "0"),
            ("format", "json"),
        ])
    );
    let answer = json(
        r#"{"status":"OK","items":[{"id":"Q121134008","label":"Castelluzzo","comment":"c","editors":[{"user_id":"7","user_text":"A","edits":2},{"user_id":"x","user_text":"B","edits":1},{"user_id":"9","user_text":"C","edits":5}],"ts_before":"20240430235959","ts_after":"20240501120000","changed":true},{"id":"Q1","label":"no dates"}]}"#,
    );
    rc.from_json(&answer).unwrap();
    assert_eq!(rc.results().len(), 1);
    let edit = &rc.results()[0];
    assert_eq!(edit.id, "Q121134008");
    assert_eq!(edit.label, "Castelluzzo");
    assert_eq!(edit.comment, Some("c".to_string()));
    assert_eq!(edit.msg, None);
    assert_eq!(edit.editors.len(), 2);
    assert_eq!(edit.editors[1].id, 9);
    assert_eq!(edit.editors[1].edits, 5);
    assert!(edit.changed);
    assert!(!edit.created);
    assert_eq!(edit.ts_after.hour, 12);
    assert_eq!(edit.ts_before.date, Date { year: 2024, month: 4, day: 30 });
    let failure = rc.from_json(&json(r#"{"status":"bad"}"#)).unwrap_err();
    assert!(matches!(failure, ToolsError::Tool(m) if m == "SparqlRC status is not OK"));
    let failure = rc.from_json(&json(r#"{"status":"OK"}"#)).unwrap_err();
    assert!(matches!(failure, ToolsError::Json(m) if m == "['items'] has no array"));
    assert_eq!(rc.results().len(), 1);
}

#[test]
fn xtools_url_and_rows() {
    let site = Site::from_wiki("enwiki").unwrap();
    let end_date = Date::parse_from_str("2024-12-31", "%Y-%m-%d").unwrap();
    let mut tool = XtoolsPages::new(site, "Magnus Manske")
        .with_deleted_pages(DeletedPages::Live)
        .with_redirects(Redirects::NoRedirects)
        .with_namespace_id(4)
        .with_end_date(end_date);
    assert_eq!(
        XtoolsPages::new(Site::from_wiki("enwiki").unwrap(), "u")
            .with_start_date(end_date)
            .start_date(),
        Some(end_date)
    );
    assert_eq!(tool.namespace_id(), Some(4));
    assert_eq!(tool.start_date(), None);
    assert_eq!(tool.redirects(), &Redirects::NoRedirects);
    assert_eq!(tool.deleted_pages(), &DeletedPages::Live);
    assert_eq!(
        tool.get_url(),
        "https://xtools.wmcloud.org/pages/en.wikipedia.org/Magnus Manske/4/noredirects/live/1970-01-01/2024-12-31?format=tsv"
    );
    let text = "Namespace\tTitle\tDate\tOriginal\tCurrent\tAssessment\n0\tFoo\t2024-01-02 03:04\t10\t20\tB\nbroken row\n4\tBar\t2023-12-31 23:59\t1\t2\tStub\textra\n14\tBaz\t2020-02-29 00:00\t5\t6\t\n";
    tool.set_from_text(text).unwrap();
    assert_eq!(
        tool.results(),
        &[
            XtoolsPagesResult {
                title: "Foo".to_string(),
                namespace_id: 0,
                date: DateTime {
                    date: Date { year: 2024, month: 1, day: 2 },
                    hour: 3,
                    minute: 4,
                    second: 0,
                },
                original_size: 10,
                current_size: 20,
                assessment: "B".to_string(),
            },
            XtoolsPagesResult {
                title: "Baz".to_string(),
                namespace_id: 14,
                date: DateTime {
                    date: Date { year: 2020, month: 2, day: 29 },
                    hour: 0,
                    minute: 0,
                    second: 0,
                },
                original_size: 5,
                current_size: 6,
                assessment: "".to_string(),
            },
        ]
    );
    assert_eq!(XtoolsPagesResult::from_tsv_row("0\tFoo\tnot a date\t1\t2\tB"), None);
    assert_eq!(DeletedPages::All.as_str(), "all");
    assert_eq!(DeletedPages::Deleted.as_str(), "deleted");
    assert_eq!(Redirects::All.as_str(), "all");
    assert_eq!(Redirects::OnlyRedirects.as_str(), "onlyredirects");
    assert_eq!(Redirects::default(), Redirects::All);
    assert_eq!(DeletedPages::default(), DeletedPages::All);
}

#[test]
fn pageviews_url_steps_and_result() {
    let pv = Pageviews::new(PageviewsGranularity::Monthly, PageviewsAccess::All, PageviewsAgent::All);
    let start = Pageviews::month_start(2016, 1).unwrap();
    let end = Pageviews::month_end(2016, 12).unwrap();
    assert_eq!(start, Date { year: 2016, month: 1, day: 1 });
    assert_eq!(end, Date { year: 2016, month: 12, day: 31 });
    assert_eq!(
        pv.per_article_url("Barack Obama", "de.wikipedia", &start, &end),
        "https://wikimedia.org/api/rest_v1/metrics/pageviews/per-article/de.wikipedia/all-access/all-agents/Barack_Obama/monthly/20160101/20161231"
    );
    assert_eq!(Pageviews::next_step(429, Some("7")), PageviewsStep::Retry { seconds: 7 });
    assert_eq!(Pageviews::next_step(429, Some("soon")), PageviewsStep::Retry { seconds: 5 });
    assert_eq!(Pageviews::next_step(429, None), PageviewsStep::Retry { seconds: 5 });
    assert_eq!(Pageviews::next_step(200, Some("7")), PageviewsStep::Read);
    assert_eq!(Pageviews::next_step(404, None), PageviewsStep::Read);
    let answer = json(
        r#"{"items":[{"timestamp":"2016010100","views":100},{"timestamp":"2016020100","views":23},{"timestamp":"x","views":1},{"timestamp":"2016030100"}]}"#,
    );
    let result = pv.result_from_json(&answer, "Barack Obama", "de.wikipedia").unwrap();
    assert_eq!(result.project, "de.wikipedia");
    assert_eq!(result.article, "Barack_Obama");
    assert_eq!(result.len(), 2);
    assert_eq!(result.total_views(), 123);
    assert_eq!(result.checked_total_views(), Some(123));
    assert_eq!(
        result.entries[1],
        PageviewsParams {
            timestamp: PageviewsTimestamp { year: 2016, month: 2, day: 1, hour: 0 },
            views: 23,
        }
    );
    let failure = pv
        .result_from_json(&json(r#"{"status":404,"detail":"no data"}"#), "a", "b")
        .unwrap_err();
    assert!(matches!(failure, ToolsError::Tool(m) if m == "no data"));
    let failure = pv.result_from_json(&json(r#"{}"#), "a", "b").unwrap_err();
    assert!(matches!(failure, ToolsError::Json(m) if m == "No 'items' in Pageviews JSON"));
    let failure = pv.result_from_json(&json(r#"{"items":3}"#), "a", "b").unwrap_err();
    assert!(matches!(failure, ToolsError::Json(m) if m == "'items' is not an array in Pageviews JSON"));
    let big = PageviewsResult {
        project: "p".to_string(),
        article: "a".to_string(),
        granularity: PageviewsGranularity::Daily,
        access: PageviewsAccess::Desktop,
        agent: PageviewsAgent::User,
        entries: vec![
            PageviewsParams {
                timestamp: PageviewsTimestamp { year: 1, month: 1, day: 1, hour: 1 },
                views: u64::MAX,
            },
            PageviewsParams {
                timestamp: PageviewsTimestamp { year: 1, month: 1, day: 1, hour: 2 },
                views: 1,
            },
        ],
    };
    assert_eq!(big.checked_total_views(), None);
    let kept = Pageviews::collect_results(vec![
        Err(ToolsError::Tool("x".to_string())),
        Ok(result),
        Err(ToolsError::Json("y".to_string())),
        Ok(big),
    ]);
    assert_eq!(kept.len(), 2);
    assert_eq!(kept[0].article, "Barack_Obama");
    assert_eq!(kept[1].article, "a");
}

#[test]
fn pageviews_words_and_months() {
    assert_eq!(PageviewsAccess::All.as_str(), "all-access");
    assert_eq!(PageviewsAccess::Desktop.as_str(), "desktop");
    assert_eq!(PageviewsAccess::MobileApp.as_str(), "mobile-app");
    assert_eq!(PageviewsAccess::MobileWeb.as_str(), "mobile-web");
    assert_eq!(PageviewsAgent::All.as_str(), "all-agents");
    assert_eq!(PageviewsAgent::User.as_str(), "user");
    assert_eq!(PageviewsAgent::Spider.as_str(), "spider");
    assert_eq!(PageviewsAgent::Automated.as_str(), "automated");
    assert_eq!(PageviewsGranularity::Hourly.as_str(), "hourly");
    assert_eq!(PageviewsGranularity::Daily.as_str(), "daily");
    assert_eq!(PageviewsGranularity::Monthly.as_str(), "monthly");
    assert_eq!(Pageviews::month_start(2021, 13), None);
    assert_eq!(Pageviews::month_start(2021, 0), None);
    assert_eq!(Pageviews::month_end(2021, 0), Some(Date { year: 2020, month: 12, day: 31 }));
    assert_eq!(Pageviews::month_end(2021, 40), Some(Date { year: 2021, month: 12, day: 31 }));
    assert_eq!(Pageviews::month_end(1900, 2), Some(Date { year: 1900, month: 2, day: 28 }));
    assert_eq!(Pageviews::month_end(2000, 2), Some(Date { year: 2000, month: 2, day: 29 }));
    assert_eq!(Pageviews::month_end(i32::MAX, u32::MAX), None);
    assert_eq!(Pageviews::month_end(-262143, 0), None);
    assert_eq!(Pageviews::month_end(262142, 12), None);
    assert_eq!(PageviewsTimestamp::parse("201601"), None);
    assert_eq!(PageviewsTimestamp::parse("2016-01-01"), None);
    assert_eq!(
        PageviewsTimestamp { year: 7, month: 1, day: 2, hour: 3 }.to_text(),
        "0007010203"
    );
}

#[test]
fn wikidata_item_lookup() {
    let titles: Vec<String> = (0..120).map(|i| format!("T{i}")).collect();
    let requests = ToolsInterface::generate_api_params_for_wikidata_item_for_titles(&titles, "dewiki");
    assert_eq!(requests.len(), 3);
    assert_eq!(requests[0][0], ("action".to_string(), "wbgetentities".to_string()));
    assert_eq!(requests[0][2], ("sites".to_string(), "dewiki".to_string()));
    assert_eq!(requests[0][3].1.split('|').count(), 50);
    assert!(requests[0][3].1.starts_with("T0|T1|"));
    assert_eq!(requests[2][3].1.split('|').count(), 20);
    assert!(requests[2][3].1.ends_with("|T119"));
    assert_eq!(requests[1][5], ("sitefilter".to_string(), "dewiki".to_string()));
    assert!(ToolsInterface::generate_api_params_for_wikidata_item_for_titles(&vec![], "dewiki")
        .is_empty());
    let fifty: Vec<String> = (0..50).map(|i| format!("T{i}")).collect();
    assert_eq!(
        ToolsInterface::generate_api_params_for_wikidata_item_for_titles(&fifty, "dewiki").len(),
        1
    );
    let first = json(
        r#"{"entities":{"Q937":{"sitelinks":{"dewiki":{"title":"Albert_Einstein"}}},"Q935":{"sitelinks":{"dewiki":{"title":"Isaac Newton"}}}}}"#,
    );
    let second = json(
        r#"{"entities":{"Q8963":{"sitelinks":{"dewiki":{"title":"Johannes Kepler"}}},"Q1":{"sitelinks":{"dewiki":{"title":"Isaac Newton"}}}}}"#,
    );
    let found = ToolsInterface::wikidata_item_for_titles("dewiki", &vec![first, second]).unwrap();
    assert_eq!(found.len(), 3);
    let get = |t: &str| found.iter().find(|(k, _)| k == t).map(|(_, v)| v.clone());
    assert_eq!(get("Albert Einstein"), Some("Q937".to_string()));
    assert_eq!(get("Isaac Newton"), Some("Q1".to_string()));
    assert_eq!(get("Johannes Kepler"), Some("Q8963".to_string()));
    let lacking = json(r#"{"entities":{"Q1":{"sitelinks":{"enwiki":{"title":"x"}}}}}"#);
    assert!(matches!(
        ToolsInterface::wikidata_item_for_titles("dewiki", &vec![lacking]),
        Err(ToolsError::Json(m)) if m == "site link not found"
    ));
    assert!(matches!(
        ToolsInterface::wikidata_item_for_titles("dewiki", &vec![json("[]")]),
        Err(ToolsError::Json(m)) if m == "['entities'] is not an object"
    ));
    assert!(matches!(
        ToolsInterface::title_of_entity(&json(r#"{}"#), "dewiki"),
        Err(ToolsError::Json(m)) if m == "['sitelinks'] does not exist"
    ));
    assert!(matches!(
        ToolsInterface::title_of_entity(&json(r#"{"sitelinks":[]}"#), "dewiki"),
        Err(ToolsError::Json(m)) if m == "['sitelinks'] is not an object"
    ));
    assert!(matches!(
        ToolsInterface::title_of_entity(&json(r#"{"sitelinks":{"dewiki":{}}}"#), "dewiki"),
        Err(ToolsError::Json(m)) if m == "['title'] does not exist"
    ));
    assert!(matches!(
        ToolsInterface::title_of_entity(&json(r#"{"sitelinks":{"dewiki":{"title":1}}}"#), "dewiki"),
        Err(ToolsError::Json(m)) if m == "['title'] is not a string"
    ));
    assert_eq!(ToolsInterface::wikidata_api_url(), "https://www.wikidata.org/w/api.php");
    assert_eq!(ToolsInterface::commons_api_url(), "https://commons.wikimedia.org/w/api.php");
}

fn broken_record() -> csv::Error {
    csv::Error::from(std::io::Error::new(std::io::ErrorKind::Other, "cut off"))
}

#[test]
fn persondata_broken_records() {
    let header = vec!["Artikel".to_string(), "Einbindung".to_string()];
    let good = |a: &str, n: &str| Ok(vec![a.to_string(), n.to_string()]);
    let results = PersondataTemplatesQuery::results_from_records(
        &header,
        &vec![good("A", "1"), Err(broken_record()), good("B", "2")],
    );
    assert_eq!(results.len(), 2);
    assert_eq!(results[1].article(), "B");
    let strict = PersondataVorlagenQuery::results_from_records(
        &header,
        vec![good("A", "1"), Err(broken_record()), good("B", "2")],
    );
    assert!(matches!(strict, Err(ToolsError::Csv(_))));
    let fine = PersondataVorlagenQuery::results_from_records(
        &header,
        vec![good("A", "1"), good("B", "2")],
    )
    .unwrap();
    assert_eq!(fine.len(), 2);
    assert_eq!(fine[0].article(), "A");
    assert_eq!(fine[1].usage_number(), 2);
    let message = ToolsError::Csv(broken_record()).message();
    assert!(message.starts_with("CSV error: "));
    assert!(message.contains("cut off"));
}

#[test]
fn petscan_overrides() {
    let mut ps = PetScan::new(1);
    assert_eq!(ps.override_parameter("foo=bar"), ParameterOverride::Applied);
    assert_eq!(ps.override_parameter("baz=1=2"), ParameterOverride::Applied);
    assert_eq!(ps.override_parameter("foo="), ParameterOverride::Applied);
    assert_eq!(ps.override_parameter("format=csv"), ParameterOverride::Ignored);
    assert_eq!(ps.override_parameter("no equals sign"), ParameterOverride::Malformed);
    assert_eq!(ps.override_parameter(""), ParameterOverride::Malformed);
    assert_eq!(ps.override_parameter("=x"), ParameterOverride::Applied);
    assert_eq!(ps.parameters(), &pairs(&[("baz", "1=2"), ("foo", ""), ("", "x")]));
    let sound = json(r#"{"status":"OK","namespaces":{"0":""},"pages":[{"a":1},{"b":2}]}"#);
    assert_eq!(PetScan::page_entries(&sound).unwrap().len(), 2);
    assert_eq!(PetScan::page_entries(&json(r#"{"status":"OK","namespaces":{"0":""}}"#)), None);
    assert_eq!(PetScan::page_entries(&json(r#"{"status":"OK","namespaces":{"a":""},"pages":[]}"#)), None);
    assert_eq!(PetScan::page_entries(&json(r#"{"status":"no","namespaces":{},"pages":[]}"#)), None);
}
