use blog_engine::document::ParseError;
use blog_engine::repository::{collect_posts, is_post_file, lookup_post, post_path, LookupError, ReadFailure};

fn doc(slug: &str) -> String {
    format!("---\ntitle: T {slug}\ndate: 2024-01-01\nslug: {slug}\n---\nbody {slug}")
}

#[test]
fn listing_skips_malformed_and_unreadable() {
    let docs = vec![
        Some(doc("a")),
        Some("no delimiters".to_string()),
        None,
        Some(doc("b")),
        Some("---\ntitle: x\n---\n".to_string()),
    ];
    let posts = collect_posts(&docs);
    assert_eq!(posts.len(), 2);
    assert_eq!(posts[0].slug, "a");
    assert_eq!(posts[1].slug, "b");
    assert_eq!(posts[1].content, "<p>body b</p>\n");
}

#[test]
fn listing_of_nothing_is_empty() {
    assert!(collect_posts(&vec![]).is_empty());
}

#[test]
fn post_files_end_in_md() {
    assert!(is_post_file("hello.md"));
    assert!(is_post_file("x..md"));
    assert!(!is_post_file(".md"));
    assert!(!is_post_file("notes.txt"));
    assert!(!is_post_file("readme.mdx"));
}

#[test]
fn post_path_joins_root_slug_and_extension() {
    assert_eq!(post_path("./posts", "hi"), "./posts/hi.md");
}

#[test]
fn missing_file_is_not_found() {
    let r = lookup_post(Err(ReadFailure::Missing));
    assert_eq!(r, Err(LookupError::NotFound));
    assert_eq!(LookupError::NotFound.status_code(), 404);
}

#[test]
fn unreadable_file_is_io_error() {
    let r = lookup_post(Err(ReadFailure::Unreadable));
    assert_eq!(r, Err(LookupError::Io));
    assert_eq!(LookupError::Io.status_code(), 500);
}

#[test]
fn parse_failure_is_passed_on() {
    let r = lookup_post(Ok("title: Hi\n---\nBody".to_string()));
    assert_eq!(r, Err(LookupError::Parse(ParseError::MalformedDocument)));
    assert_eq!(r.unwrap_err().status_code(), 500);
}

#[test]
fn found_post_is_returned() {
    let post = lookup_post(Ok(doc("c"))).unwrap();
    assert_eq!(post.title, "T c");
    assert_eq!(post.date, "2024-01-01");
}
