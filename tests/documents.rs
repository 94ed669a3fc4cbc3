use blog_engine::document::{parse_document, render_markdown, split_front_matter, BlogPost, ParseError};

#[test]
fn scenario_preamble_document_parses() {
    let raw = "preamble---\ntitle: Hi\ndate: 2024-01-01\nslug: hi\n---\n# Hello";
    let post = parse_document(raw).unwrap();
    assert_eq!(
        post,
        BlogPost {
            title: "Hi".to_string(),
            content: "<h1>Hello</h1>\n".to_string(),
            slug: "hi".to_string(),
            date: "2024-01-01".to_string(),
        }
    );
}

#[test]
fn scenario_single_delimiter_is_malformed() {
    assert_eq!(parse_document("title: Hi\n---\nBody"), Err(ParseError::MalformedDocument));
}

#[test]
fn no_delimiter_is_malformed() {
    assert_eq!(parse_document("just text"), Err(ParseError::MalformedDocument));
    assert_eq!(parse_document(""), Err(ParseError::MalformedDocument));
}

#[test]
fn overlapping_dashes_count_once() {
    // four dashes hold one delimiter and a stray dash, not two delimiters
    assert_eq!(parse_document("----"), Err(ParseError::MalformedDocument));
}

#[test]
fn split_keeps_later_delimiters_in_body() {
    let (meta, body) = split_front_matter("a---m---b---c").unwrap();
    assert_eq!(meta, "m");
    assert_eq!(body, "b---c");
    assert_eq!(split_front_matter("a---m"), None);
}

#[test]
fn body_may_be_empty() {
    let post = parse_document("---\ntitle: T\ndate: d\nslug: s\n---").unwrap();
    assert_eq!(post.content, "");
    assert_eq!(post.slug, "s");
}

#[test]
fn missing_title_is_named() {
    let r = parse_document("---\ndate: d\nslug: s\n---\nx");
    assert_eq!(r, Err(ParseError::MissingField("title".to_string())));
}

#[test]
fn missing_date_is_named() {
    let r = parse_document("---\ntitle: t\nslug: s\n---\nx");
    assert_eq!(r, Err(ParseError::MissingField("date".to_string())));
}

#[test]
fn missing_slug_is_named() {
    let r = parse_document("---\ntitle: t\ndate: d\n---\nx");
    assert_eq!(r, Err(ParseError::MissingField("slug".to_string())));
}

#[test]
fn empty_metadata_lacks_title() {
    let r = parse_document("------body");
    assert_eq!(r, Err(ParseError::MissingField("title".to_string())));
}

#[test]
fn non_text_field_is_missing() {
    let r = parse_document("---\ntitle: [a, b]\ndate: d\nslug: s\n---\nx");
    assert_eq!(r, Err(ParseError::MissingField("title".to_string())));
}

#[test]
fn broken_yaml_is_malformed_metadata() {
    let r = parse_document("---\ntitle: [unclosed\n---\nx");
    assert_eq!(r, Err(ParseError::MalformedMetadata));
}

#[test]
fn code_block_delimiters_stay_in_body() {
    let raw = "---\ntitle: T\ndate: d\nslug: s\n---\n```\n---\n```\n";
    let post = parse_document(raw).unwrap();
    assert_eq!(post.content, "<pre><code>---\n</code></pre>\n");
}

#[test]
fn markdown_renders_emphasis_and_links() {
    assert_eq!(
        render_markdown("*a* [l](http://x)"),
        "<p><em>a</em> <a href=\"http://x\">l</a></p>\n"
    );
}

#[test]
fn markdown_rendering_is_deterministic() {
    let body = "# T\n\nsome *text*\n\n    code\n";
    assert_eq!(render_markdown(body), render_markdown(body));
}
