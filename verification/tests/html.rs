use html_panel::html::{
    Body, Button, EndpointScript, Header, Html, Paragraph, RawHtml, RefreshScript, Scripts,
    ToHTML, ToRawHtml,
};

const ENDPOINT_JS: &str = "\tfunction endpoint(arg) {\n\t\tfetch(\"http://127.0.0.1:3000\" + arg);\n\t}\n\t\t";

#[test]
fn title_wraps_value() {
    assert_eq!(ToHTML::title("My Title"), "<title>My Title</title>");
    assert_eq!(ToHTML::title(""), "<title></title>");
}

#[test]
fn description_is_meta_tag() {
    assert_eq!(
        ToHTML::description("Description of my website"),
        "<meta name=\"description\" content=\"Description of my website\">"
    );
}

#[test]
fn author_is_meta_tag() {
    assert_eq!(ToHTML::author("Marko"), "<meta name=\"author\" content=\"Marko\">");
}

#[test]
fn raw_html_starts_empty() {
    assert_eq!(RawHtml::new().inner, "");
}

#[test]
fn raw_html_add_indents_and_ends_line() {
    let mut html = RawHtml::new();
    html.add("<p>", 0);
    html.add("text", 3);
    html.add("", 1);
    assert_eq!(html.inner, "<p>\n   text\n \n");
}

#[test]
fn raw_html_add_large_indent() {
    let mut html = RawHtml::new();
    html.add("x", 255);
    assert_eq!(html.inner, format!("{}x\n", " ".repeat(255)));
}

#[test]
fn empty_header_has_charset_only() {
    let header = Header::default();
    assert_eq!(header.to_raw_html(), "<head>\n  <meta charset=\"utf-8\">\n</head>\n");
}

#[test]
fn header_writes_present_fields_in_order() {
    let header = Header {
        title: String::from("T"),
        description: String::from("D"),
        author: String::from("A"),
    };
    assert_eq!(
        header.to_raw_html(),
        "<head>\n  <meta charset=\"utf-8\">\n  <title>T</title>\n  <meta name=\"description\" content=\"D\">\n  <meta name=\"author\" content=\"A\">\n</head>\n"
    );
}

#[test]
fn header_skips_empty_description() {
    let header = Header {
        title: String::new(),
        description: String::new(),
        author: String::from("A"),
    };
    assert_eq!(
        header.to_raw_html(),
        "<head>\n  <meta charset=\"utf-8\">\n  <meta name=\"author\" content=\"A\">\n</head>\n"
    );
}

#[test]
fn header_clone_renders_alike() {
    let header = Header { title: String::from("x"), ..Default::default() };
    assert_eq!(header.clone().to_raw_html(), header.to_raw_html());
}

#[test]
fn button_calls_endpoint() {
    let button = Button { text: String::from("Refresh"), action: String::from("/refresh") };
    assert_eq!(button.to_raw_html(), "<button onclick=\"endpoint('/refresh')\">Refresh</button>");
    assert_eq!(button.clone().to_raw_html(), button.to_raw_html());
}

#[test]
fn paragraph_is_its_text() {
    let paragraph = Paragraph { text: String::from("Welcome to My world") };
    assert_eq!(paragraph.to_raw_html(), "Welcome to My world");
}

#[test]
fn endpoint_script_text() {
    assert_eq!(EndpointScript.to_raw_html(), ENDPOINT_JS);
}

#[test]
fn refresh_script_polls_every_second() {
    let js = RefreshScript.to_raw_html();
    assert!(js.starts_with("\tfunction refresh() {\n\t\tfetch(\"http://127.0.0.1:3000/refresh\")"));
    assert!(js.contains("window.location.reload(1);"));
    assert!(js.ends_with("\tsetInterval(function() {\n\t\trefresh();\n\t}, 1000);\n\t\t"));
}

#[test]
fn empty_body_and_scripts() {
    assert_eq!(Body::default().to_raw_html(), "<body>\n</body>\n");
    assert_eq!(Scripts::default().to_raw_html(), "<script>\n</script>\n");
}

#[test]
fn body_indents_each_element() {
    let mut body = Body::default();
    body.elements.push(Box::new(Paragraph { text: String::from("hi") }));
    body.elements.push(Box::new(Button { text: String::from("B"), action: String::from("/a") }));
    assert_eq!(
        body.to_raw_html(),
        "<body>\n  hi\n  <button onclick=\"endpoint('/a')\">B</button>\n</body>\n"
    );
}

#[test]
fn scripts_hold_their_elements() {
    let mut scripts = Scripts::default();
    scripts.elements.push(Box::new(EndpointScript));
    assert_eq!(scripts.to_raw_html(), format!("<script>\n  {}\n</script>\n", ENDPOINT_JS));
}

#[test]
fn nested_body_is_indented_again() {
    let mut inner = Body::default();
    inner.elements.push(Box::new(Paragraph { text: String::from("p") }));
    let mut outer = Body::default();
    outer.elements.push(Box::new(inner));
    assert_eq!(outer.to_raw_html(), "<body>\n  <body>\n  p\n</body>\n\n</body>\n");
}

#[test]
fn build_empty_page() {
    let html = Html::new(Header::default(), Body::default(), Scripts::default());
    assert_eq!(
        html.build(),
        "<!doctype html>\n<head>\n  <meta charset=\"utf-8\">\n</head>\n\n<body>\n  <script>\n</script>\n\n</body>\n\n</html>\n"
    );
}

#[test]
fn build_puts_scripts_last_in_body() {
    let header = Header { title: String::from("My Title"), ..Default::default() };
    let mut body = Body::default();
    body.elements.push(Box::new(Button {
        text: String::from("This is a button"),
        action: String::from("/action"),
    }));
    let mut scripts = Scripts::default();
    scripts.elements.push(Box::new(EndpointScript));
    let html = Html::new(header, body, scripts);
    let expected = format!(
        "<!doctype html>\n<head>\n  <meta charset=\"utf-8\">\n  <title>My Title</title>\n</head>\n\n<body>\n  <button onclick=\"endpoint('/action')\">This is a button</button>\n  <script>\n  {}\n</script>\n\n</body>\n\n</html>\n",
        ENDPOINT_JS
    );
    assert_eq!(html.build(), expected);
    // building leaves the page as it was
    assert_eq!(html.body.elements.len(), 1);
    assert_eq!(html.build(), expected);
}
