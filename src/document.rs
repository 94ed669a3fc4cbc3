use vstd::prelude::*;
use crate::text::{chars_of, substring};

verus! {

/// The delimiter that opens and closes the metadata block is three dashes.
pub open spec fn is_delim_at(s: Seq<char>, i: int) -> bool {
    0 <= i && i + 3 <= s.len() && s[i] == '-' && s[i + 1] == '-' && s[i + 2] == '-'
}

/// The first delimiter that starts at or after `from`.
pub open spec fn find_delim(s: Seq<char>, from: int) -> Option<int>
    decreases s.len() - from,
{
    if from < 0 || from + 3 > s.len() {
        None
    } else if is_delim_at(s, from) {
        Some(from)
    } else {
        find_delim(s, from + 1)
    }
}

/// Metadata block and body of a document: the text between the first two
/// delimiters, and everything after the second one, verbatim.
pub open spec fn split_model(s: Seq<char>) -> Option<(Seq<char>, Seq<char>)> {
    match find_delim(s, 0) {
        None => None,
        Some(i) => match find_delim(s, i + 3) {
            None => None,
            Some(j) => Some((s.subrange(i + 3, j), s.subrange(j + 3, s.len() as int))),
        },
    }
}

pub proof fn lemma_find_delim_found(s: Seq<char>, from: int)
    requires
        0 <= from,
    ensures
        find_delim(s, from) matches Some(i) ==> from <= i && is_delim_at(s, i)
            && forall|k: int| from <= k < i ==> !is_delim_at(s, k),
        find_delim(s, from) is None ==> forall|k: int| from <= k ==> !is_delim_at(s, k),
    decreases s.len() - from,
{
    if from < 0 || from + 3 > s.len() {
    } else if is_delim_at(s, from) {
    } else {
        lemma_find_delim_found(s, from + 1);
        assert forall|k: int| from <= k && !(from + 1 <= k) implies !is_delim_at(s, k) by {}
    }
}

/// Skips every position in `[from, upto)`, none of which holds a delimiter.
proof fn lemma_find_delim_skip(s: Seq<char>, from: int, upto: int)
    requires
        0 <= from <= upto,
        forall|k: int| from <= k < upto ==> !is_delim_at(s, k),
    ensures
        find_delim(s, from) == find_delim(s, upto),
    decreases upto - from,
{
    if from < upto {
        if from + 3 > s.len() {
            lemma_find_delim_none_past(s, upto);
        } else {
            lemma_find_delim_skip(s, from + 1, upto);
        }
    }
}

proof fn lemma_find_delim_none_past(s: Seq<char>, from: int)
    requires
        from + 3 > s.len(),
    ensures
        find_delim(s, from) is None,
{
}

/// The position of the first delimiter at or after `from`, if any.
fn next_delim(v: &Vec<char>, from: usize) -> (r: Option<usize>)
    requires
        from <= v@.len(),
    ensures
        match r {
            None => find_delim(v@, from as int) is None,
            Some(i) => find_delim(v@, from as int) == Some(i as int) && i + 3 <= v@.len(),
        },
{
    let n = v.len();
    let mut i: usize = from;
    while n - i >= 3
        invariant
            from <= i <= n,
            n == v@.len(),
            forall|k: int| from <= k < i ==> !is_delim_at(v@, k),
        decreases n - i,
    {
        if v[i] == '-' && v[i + 1] == '-' && v[i + 2] == '-' {
            proof {
                lemma_find_delim_skip(v@, from as int, i as int);
            }
            assert(is_delim_at(v@, i as int));
            return Some(i);
        }
        i = i + 1;
    }
    proof {
        lemma_find_delim_skip(v@, from as int, i as int);
    }
    None
}

/// Splits a document into its metadata block and its body.
/// `None` when the document holds fewer than two delimiters.
pub fn split_front_matter(raw: &str) -> (r: Option<(String, String)>)
    ensures
        match r {
            None => split_model(raw@) is None,
            Some((meta, body)) => split_model(raw@) == Some((meta@, body@)),
        },
{
    let v = chars_of(raw);
    let n = v.len();
    let first = match next_delim(&v, 0) {
        None => return None,
        Some(i) => i,
    };
    proof {
        lemma_find_delim_found(v@, 0);
    }
    let second = match next_delim(&v, first + 3) {
        None => return None,
        Some(j) => j,
    };
    proof {
        lemma_find_delim_found(v@, first + 3);
    }
    let meta = substring(&v, first + 3, second);
    let body = substring(&v, second + 3, n);
    Some((meta, body))
}


#[verifier::external_type_specification]
#[verifier::external_body]
pub struct ExYamlValue(serde_yaml::Value);

#[verifier::external_type_specification]
#[verifier::external_body]
pub struct ExYamlError(serde_yaml::Error);

/// The text-valued fields that a YAML text decodes to, keyed by name;
/// `None` when the text is not a YAML document.
pub uninterp spec fn yaml_fields(text: Seq<char>) -> Option<Map<Seq<char>, Seq<char>>>;

/// What a decoded YAML value holds as a mapping: each string key whose value
/// is a string, with that string.
pub uninterp spec fn yaml_text_entries(doc: serde_yaml::Value) -> Map<Seq<char>, Seq<char>>;

/// The HTML that CommonMark rendering makes of a markdown text.
pub uninterp spec fn markdown_html(text: Seq<char>) -> Seq<char>;

/// Relies on `serde_yaml::from_str`, decoding into a `serde_yaml::Value`.
#[verifier::external_body]
fn decode_yaml(text: &str) -> (r: Result<serde_yaml::Value, serde_yaml::Error>)
    ensures
        r is Ok <==> yaml_fields(text@) is Some,
        r is Ok ==> yaml_fields(text@) == Some(yaml_text_entries(r->Ok_0)),
{
    serde_yaml::from_str::<serde_yaml::Value>(text)
}

/// Relies on `serde_yaml::Value::get` with a string key: the entry of that
/// key in a mapping, `None` for any other kind of value.
#[verifier::external_body]
fn yaml_text_field(doc: &serde_yaml::Value, key: &str) -> (r: Option<String>)
    ensures
        r is Some <==> yaml_text_entries(*doc).contains_key(key@),
        r is Some ==> r->0@ == yaml_text_entries(*doc)[key@],
{
    match doc.get(key) {
        Some(serde_yaml::Value::String(s)) => Some(s.clone()),
        _ => None,
    }
}

/// Relies on `pulldown_cmark::html::push_html` over `pulldown_cmark::Parser::new`.
#[verifier::external_body]
fn markdown_to_html(text: &str) -> (r: String)
    ensures
        r@ == markdown_html(text@),
{
    let mut out = String::new();
    pulldown_cmark::html::push_html(&mut out, pulldown_cmark::Parser::new(text));
    out
}

/// Renders a markdown body to HTML.
pub fn render_markdown(body: &str) -> (r: String)
    ensures
        r@ == markdown_html(body@),
{
    markdown_to_html(body)
}

/// A published post: metadata copied verbatim and the body rendered as HTML.
#[derive(Clone, Debug, PartialEq, Eq)]
pub struct BlogPost {
    pub title: String,
    pub content: String,
    pub slug: String,
    pub date: String,
}

pub ghost struct PostModel {
    pub title: Seq<char>,
    pub content: Seq<char>,
    pub slug: Seq<char>,
    pub date: Seq<char>,
}

impl View for BlogPost {
    type V = PostModel;

    open spec fn view(&self) -> PostModel {
        PostModel { title: self.title@, content: self.content@, slug: self.slug@, date: self.date@ }
    }
}

/// Why a document could not be turned into a post.
#[derive(Clone, Debug, PartialEq, Eq)]
pub enum ParseError {
    /// Fewer than two delimiters: no metadata block could be found.
    MalformedDocument,
    /// The metadata block is not valid YAML.
    MalformedMetadata,
    /// A required metadata field, named here, is absent or not text.
    MissingField(String),
}

pub ghost enum ParseErrorModel {
    MalformedDocument,
    MalformedMetadata,
    MissingField(Seq<char>),
}

impl View for ParseError {
    type V = ParseErrorModel;

    open spec fn view(&self) -> ParseErrorModel {
        match self {
            ParseError::MalformedDocument => ParseErrorModel::MalformedDocument,
            ParseError::MalformedMetadata => ParseErrorModel::MalformedMetadata,
            ParseError::MissingField(f) => ParseErrorModel::MissingField(f@),
        }
    }
}

pub open spec fn parse_result_view(r: Result<BlogPost, ParseError>) -> Result<PostModel, ParseErrorModel> {
    match r {
        Ok(p) => Ok(p@),
        Err(e) => Err(e@),
    }
}

/// The post that a set of metadata fields and a body make, or the first
/// required field, in the order title, date, slug, that is missing.
pub open spec fn post_from_fields(fields: Map<Seq<char>, Seq<char>>, body: Seq<char>) -> Result<PostModel, ParseErrorModel> {
    if !fields.contains_key("title"@) {
        Err(ParseErrorModel::MissingField("title"@))
    } else if !fields.contains_key("date"@) {
        Err(ParseErrorModel::MissingField("date"@))
    } else if !fields.contains_key("slug"@) {
        Err(ParseErrorModel::MissingField("slug"@))
    } else {
        Ok(PostModel {
            title: fields["title"@],
            content: markdown_html(body),
            slug: fields["slug"@],
            date: fields["date"@],
        })
    }
}

/// What parsing a document gives: split, decode the metadata, render the body.
pub open spec fn parse_model(raw: Seq<char>) -> Result<PostModel, ParseErrorModel> {
    match split_model(raw) {
        None => Err(ParseErrorModel::MalformedDocument),
        Some((meta, body)) => match yaml_fields(meta) {
            None => Err(ParseErrorModel::MalformedMetadata),
            Some(fields) => post_from_fields(fields, body),
        },
    }
}

fn required_field(doc: &serde_yaml::Value, key: &str) -> (r: Result<String, ParseError>)
    ensures
        match r {
            Ok(v) => yaml_text_entries(*doc).contains_key(key@) && v@ == yaml_text_entries(*doc)[key@],
            Err(e) => !yaml_text_entries(*doc).contains_key(key@)
                && e@ == ParseErrorModel::MissingField(key@),
        },
{
    match yaml_text_field(doc, key) {
        Some(v) => Ok(v),
        None => Err(ParseError::MissingField(key.to_owned())),
    }
}

/// Parses a document into a post; stops at the first failure.
pub fn parse_document(raw: &str) -> (r: Result<BlogPost, ParseError>)
    ensures
        parse_result_view(r) == parse_model(raw@),
{
    let (meta, body) = match split_front_matter(raw) {
        None => return Err(ParseError::MalformedDocument),
        Some(parts) => parts,
    };
    let doc = match decode_yaml(meta.as_str()) {
        Err(_) => return Err(ParseError::MalformedMetadata),
        Ok(d) => d,
    };
    let title = match required_field(&doc, "title") {
        Err(e) => return Err(e),
        Ok(v) => v,
    };
    let date = match required_field(&doc, "date") {
        Err(e) => return Err(e),
        Ok(v) => v,
    };
    let slug = match required_field(&doc, "slug") {
        Err(e) => return Err(e),
        Ok(v) => v,
    };
    let content = render_markdown(body.as_str());
    Ok(BlogPost { title, content, slug, date })
}


/// Whether the text holds two delimiters that do not overlap.
pub open spec fn has_two_delims(s: Seq<char>) -> bool {
    exists|i: int, j: int| i + 3 <= j && #[trigger] is_delim_at(s, i) && #[trigger] is_delim_at(s, j)
}

/// A document with a metadata block that decodes and holds title, date and
/// slug parses into a post that carries exactly those values.
pub proof fn lemma_complete_metadata_parses(raw: Seq<char>)
    requires
        split_model(raw) matches Some((meta, body)) && yaml_fields(meta) matches Some(f)
            && f.contains_key("title"@) && f.contains_key("date"@) && f.contains_key("slug"@),
    ensures
        split_model(raw) matches Some((meta, body)) && yaml_fields(meta) matches Some(f)
            && parse_model(raw) == Ok::<PostModel, ParseErrorModel>(PostModel {
                title: f["title"@],
                content: markdown_html(body),
                slug: f["slug"@],
                date: f["date"@],
            }),
{
}

/// A document without two delimiters fails as malformed.
pub proof fn lemma_too_few_delimiters(raw: Seq<char>)
    requires
        !has_two_delims(raw),
    ensures
        parse_model(raw) == Err::<PostModel, ParseErrorModel>(ParseErrorModel::MalformedDocument),
{
    lemma_find_delim_found(raw, 0);
    if let Some(i) = find_delim(raw, 0) {
        lemma_find_delim_found(raw, i + 3);
        if let Some(j) = find_delim(raw, i + 3) {
            assert(is_delim_at(raw, i) && is_delim_at(raw, j));
            assert(has_two_delims(raw));
        }
    }
}

/// Of the three required fields, a metadata block that lacks exactly one
/// fails with that field's name.
pub proof fn lemma_missing_field_named(raw: Seq<char>, key: Seq<char>)
    requires
        key == "title"@ || key == "date"@ || key == "slug"@,
        split_model(raw) matches Some((meta, body)) && yaml_fields(meta) matches Some(f)
            && !f.contains_key(key)
            && forall|k: Seq<char>| (k == "title"@ || k == "date"@ || k == "slug"@) && k != key
                ==> f.contains_key(k),
    ensures
        parse_model(raw) == Err::<PostModel, ParseErrorModel>(ParseErrorModel::MissingField(key)),
{
}

/// Rendering depends on the body alone: two renderings of one body agree.
pub proof fn lemma_render_deterministic(body: Seq<char>, first: Seq<char>, second: Seq<char>)
    requires
        first == markdown_html(body),
        second == markdown_html(body),
    ensures
        first == second,
{
}

} // verus!
