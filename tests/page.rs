use chat_interaction::page::{between, host, meta_from_page, meta_from_tags, page_tags, PageTags};

fn chars(s: &str) -> Vec<char> {
    s.chars().collect()
}

fn no_tags() -> PageTags {
    PageTags { og_title: None, title: None, og_description: None, description: None, icon: None }
}

#[test]
fn host_strips_scheme_and_path() {
    assert_eq!(host("https://example.com/a/b?c"), "example.com");
    assert_eq!(host("www.foo.org"), "www.foo.org");
    assert_eq!(host("http://localhost:8080/x"), "localhost");
    assert_eq!(host("example.org#frag"), "example.org");
    assert_eq!(host(""), "");
}

#[test]
fn title_falls_back_to_title_then_host() {
    let mut t = no_tags();
    t.title = Some("Page".to_string());
    let m = meta_from_tags("https://example.com/x", t);
    assert_eq!(m.title, "Page");
    let m = meta_from_tags("https://example.com/x", no_tags());
    assert_eq!(m.title, "example.com");
    assert_eq!(m.description, "");
    assert_eq!(m.favicon, None);
    assert_eq!(m.url, "https://example.com/x");
}

#[test]
fn open_graph_tags_win() {
    let t = PageTags {
        og_title: Some("OG".to_string()),
        title: Some("Plain".to_string()),
        og_description: Some("OG desc".to_string()),
        description: Some("Plain desc".to_string()),
        icon: Some("/icon.png".to_string()),
    };
    let m = meta_from_tags("https://example.com", t);
    assert_eq!(m.title, "OG");
    assert_eq!(m.description, "OG desc");
    assert_eq!(m.favicon, Some("/icon.png".to_string()));
}

#[test]
fn between_markers() {
    let h = chars("a <title>Hi there</title> <title>two</title>");
    assert_eq!(between(&h, "<title>", "</title>"), Some("Hi there".to_string()));
    assert_eq!(between(&h, "<h1>", "</h1>"), None);
    assert_eq!(between(&chars("<title>open"), "<title>", "</title>"), None);
    assert_eq!(between(&chars(""), "<title>", "</title>"), None);
}

#[test]
fn tags_read_from_html() {
    let html = "<html><head><title>Exemple é</title>\
        <meta property=\"og:title\" content=\"The Title\">\
        <meta name=\"description\" content=\"Plain\">\
        <link rel=\"icon\" href=\"/f.ico\"></head></html>";
    let t = page_tags(html);
    assert_eq!(t.title, Some("Exemple é".to_string()));
    assert_eq!(t.og_title, Some("The Title".to_string()));
    assert_eq!(t.og_description, None);
    assert_eq!(t.description, Some("Plain".to_string()));
    assert_eq!(t.icon, Some("/f.ico".to_string()));
    let m = meta_from_page("https://example.com/p", html);
    assert_eq!(m.title, "The Title");
    assert_eq!(m.description, "Plain");
    assert_eq!(m.favicon, Some("/f.ico".to_string()));
    assert_eq!(m.url, "https://example.com/p");
}

#[test]
fn page_without_tags_uses_host() {
    let m = meta_from_page("http://foo.org/bar", "<p>nothing</p>");
    assert_eq!(m.title, "foo.org");
    assert_eq!(m.description, "");
    assert_eq!(m.favicon, None);
}
