use tools_interface::site::Site;

#[test]
fn test_site_from_wiki() {
    let site = Site::from_wiki("enwiki").unwrap();
    assert_eq!(site.wiki(), "enwiki");
    assert_eq!(site.language(), "en");
    assert_eq!(site.project(), "wikipedia");

    let site = Site::from_wiki("enwiktionarywiki").unwrap();
    assert_eq!(site.wiki(), "enwiktionarywiki");
    assert_eq!(site.language(), "en");
    assert_eq!(site.project(), "wiktionary");

    let site = Site::from_wiki("commonswiki").unwrap();
    assert_eq!(site.wiki(), "commonswiki");
    assert_eq!(site.language(), "commons");
    assert_eq!(site.project(), "wikimedia");

    let site = Site::from_wiki("wikidatawiki").unwrap();
    assert_eq!(site.wiki(), "wikidatawiki");
    assert_eq!(site.language(), "www");
    assert_eq!(site.project(), "wikidata");

    let site = Site::from_wiki("specieswiki").unwrap();
    assert_eq!(site.wiki(), "specieswiki");
    assert_eq!(site.language(), "species");
    assert_eq!(site.project(), "wikimedia");

    let site = Site::from_wiki("metawiki").unwrap();
    assert_eq!(site.wiki(), "metawiki");
    assert_eq!(site.language(), "meta");
    assert_eq!(site.project(), "wikimedia");
}

#[test]
fn test_site_from_language_project() {
    let site = Site::from_language_project("en", "wikipedia");
    assert_eq!(site.wiki(), "enwiki");
    assert_eq!(site.language(), "en");
    assert_eq!(site.project(), "wikipedia");

    let site = Site::from_language_project("en", "wiktionary");
    assert_eq!(site.wiki(), "enwiktionarywiki");
    assert_eq!(site.language(), "en");
    assert_eq!(site.project(), "wiktionary");

    let site = Site::from_language_project("commons", "wikimedia");
    assert_eq!(site.wiki(), "commonswiki");
    assert_eq!(site.language(), "commons");
    assert_eq!(site.project(), "wikimedia");

    let site = Site::from_language_project("www", "wikidata");
    assert_eq!(site.wiki(), "wikidatawiki");
    assert_eq!(site.language(), "www");
    assert_eq!(site.project(), "wikidata");

    let site = Site::from_language_project("species", "wikimedia");
    assert_eq!(site.wiki(), "specieswiki");
    assert_eq!(site.language(), "species");
    assert_eq!(site.project(), "wikimedia");

    let site = Site::from_language_project("meta", "wikimedia");
    assert_eq!(site.wiki(), "metawiki");
    assert_eq!(site.language(), "meta");
    assert_eq!(site.project(), "wikimedia");
}

#[test]
fn site_names_are_normalized() {
    let site = Site::from_wiki("  EN-Wiki\n").unwrap();
    assert_eq!(site.wiki(), "en_wiki");
    assert_eq!(site.language(), "en_");
    assert_eq!(site.project(), "wikipedia");
    assert_eq!(Site::normalize_wiki(" Zh-Min-Nan-Wikisource "), "zh_min_nan_wikisource");
    let site = Site::from_wiki("zh-min-nanwiki").unwrap();
    assert_eq!(site.language(), "zh_min_nan");
    assert_eq!(site.webserver(), "zh-min-nan.wikipedia.org");
    assert_eq!(site.language_project(), "zh-min-nan.wikipedia");
    assert_eq!(Site::from_wiki("COMMONSWIKI").unwrap().project(), "wikimedia");
}

#[test]
fn site_project_token_is_the_longest_trailing_run() {
    let site = Site::from_wiki("dewiktionarywiki").unwrap();
    assert_eq!(site.language(), "de");
    assert_eq!(site.project(), "wiktionary");
    let site = Site::from_wiki("enwiktionary").unwrap();
    assert_eq!(site.language(), "en");
    assert_eq!(site.project(), "wiktionary");
    let site = Site::from_wiki("wikiwiki").unwrap();
    assert_eq!(site.language(), "wiki");
    assert_eq!(site.project(), "wikipedia");
    let site = Site::from_wiki("xwikwikiwiki").unwrap();
    assert_eq!(site.language(), "x");
    assert_eq!(site.project(), "wikwiki");
    let site = Site::from_wiki("enwikix").unwrap();
    assert_eq!(site.language(), "en");
    assert_eq!(site.project(), "wikix");
}

#[test]
fn site_unknown_names() {
    assert_eq!(Site::from_wiki(""), None);
    assert_eq!(Site::from_wiki("wiki"), None);
    assert_eq!(Site::from_wiki("enwik"), None);
    assert_eq!(Site::from_wiki("english"), None);
    assert_eq!(Site::from_wiki("wikipedia"), None);
    assert_eq!(Site::from_wiki("en\nwiki"), None);
    assert_eq!(Site::from_wiki("enwiki\nx"), None);
}

#[test]
fn site_round_trip() {
    for wiki in [
        "commonswiki",
        "wikidatawiki",
        "specieswiki",
        "metawiki",
        "enwiki",
        "dewiktionarywiki",
        "zh_min_nanwikisourcewiki",
        "wikiwiki",
    ] {
        let site = Site::from_wiki(wiki).unwrap();
        let again = Site::from_language_project(site.language(), site.project());
        assert_eq!(again.wiki(), wiki);
        assert_eq!(again, site);
    }
    let odd = Site::from_wiki("enwiktionary").unwrap();
    assert_eq!(Site::from_language_project(odd.language(), odd.project()).wiki(), "enwiktionarywiki");
}

#[test]
fn site_webserver_and_document() {
    let site = Site::from_wiki("enwiki").unwrap();
    assert_eq!(site.webserver(), "en.wikipedia.org");
    assert_eq!(site.language_project(), "en.wikipedia");
    assert_eq!(Site::from_wiki("wikidatawiki").unwrap().webserver(), "www.wikidata.org");
    assert_eq!(Site::from_wiki("commonswiki").unwrap().webserver(), "commons.wikimedia.org");
    assert_eq!(Site::from_language_project("be_tarask", "wikipedia").webserver(), "be-tarask.wikipedia.org");
    assert!(site.same_as(&site.clone()));
    assert!(!site.same_as(&Site::from_wiki("dewiki").unwrap()));
    let doc = site.to_json();
    assert_eq!(doc.str_at("wiki"), Some("enwiki"));
    assert_eq!(doc.str_at("language"), Some("en"));
    assert_eq!(doc.str_at("project"), Some("wikipedia"));
}
