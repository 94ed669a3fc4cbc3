use vstd::prelude::*;
use crate::document::{parse_document, parse_model, BlogPost, ParseError, ParseErrorModel, PostModel};
use crate::text::chars_of;

verus! {

/// A file name whose extension is `md`: it ends in `.md` with something before it.
pub open spec fn is_post_name(name: Seq<char>) -> bool {
    let n = name.len() as int;
    n > 3 && name[n - 3] == '.' && name[n - 2] == 'm' && name[n - 1] == 'd'
}

/// Whether a file of this name is a post document.
pub fn is_post_file(name: &str) -> (r: bool)
    ensures
        r == is_post_name(name@),
{
    let v = chars_of(name);
    let n = v.len();
    n > 3 && v[n - 3] == '.' && v[n - 2] == 'm' && v[n - 1] == 'd'
}

/// The path of the document that backs a slug: `<root>/<slug>.md`.
pub fn post_path(root: &str, slug: &str) -> (r: String)
    ensures
        r@ == root@ + "/"@ + slug@ + ".md"@,
{
    let mut p = root.to_owned();
    p.append("/");
    p.append(slug);
    p.append(".md");
    p
}

/// The posts that a listing holds: each document that could be read and
/// parsed, in the order given; the others are left out.
pub open spec fn listing_model(docs: Seq<Option<String>>) -> Seq<PostModel>
    decreases docs.len(),
{
    if docs.len() == 0 {
        Seq::empty()
    } else {
        let rest = listing_model(docs.drop_last());
        match docs.last() {
            Some(t) => match parse_model(t@) {
                Ok(p) => rest.push(p),
                Err(_) => rest,
            },
            None => rest,
        }
    }
}

/// How many documents a listing leaves out: unreadable or malformed ones.
pub open spec fn rejected_count(docs: Seq<Option<String>>) -> nat
    decreases docs.len(),
{
    if docs.len() == 0 {
        0
    } else {
        let rest = rejected_count(docs.drop_last());
        match docs.last() {
            Some(t) => if parse_model(t@) is Ok { rest } else { rest + 1 },
            None => rest + 1,
        }
    }
}

/// Builds a listing from the documents of a scan; `None` stands for a file
/// that could not be read. Never fails: bad documents are left out.
pub fn collect_posts(docs: &Vec<Option<String>>) -> (r: Vec<BlogPost>)
    ensures
        r@.map_values(|p: BlogPost| p@) == listing_model(docs@),
{
    let mut out: Vec<BlogPost> = Vec::new();
    let mut i: usize = 0;
    while i < docs.len()
        invariant
            i <= docs@.len(),
            out@.map_values(|p: BlogPost| p@) == listing_model(docs@.subrange(0, i as int)),
        decreases docs@.len() - i,
    {
        let ghost prefix = docs@.subrange(0, i as int + 1);
        assert(prefix.drop_last() =~= docs@.subrange(0, i as int));
        assert(prefix.last() == docs@[i as int]);
        match &docs[i] {
            Some(t) => {
                match parse_document(t.as_str()) {
                    Ok(p) => {
                        out.push(p);
                    },
                    Err(_) => {},
                }
            },
            None => {},
        }
        proof {
            assert(out@.map_values(|p: BlogPost| p@) =~= listing_model(prefix));
        }
        i = i + 1;
    }
    assert(docs@.subrange(0, docs@.len() as int) =~= docs@);
    out
}

/// Whether a document was read and parses into this post.
pub open spec fn parses_to(doc: Option<String>, post: PostModel) -> bool {
    doc matches Some(t) && parse_model(t@) == Ok::<PostModel, ParseErrorModel>(post)
}

/// Every post of a listing comes from a document that parsed, and the
/// listing holds as many posts as there were documents, less the rejected ones.
pub proof fn lemma_listing_drops_only_rejected(docs: Seq<Option<String>>)
    ensures
        listing_model(docs).len() + rejected_count(docs) == docs.len(),
        forall|k: int| #![trigger listing_model(docs)[k]] 0 <= k < listing_model(docs).len() ==> exists|i: int|
            0 <= i < docs.len() && parses_to(#[trigger] docs[i], listing_model(docs)[k]),
    decreases docs.len(),
{
    if docs.len() > 0 {
        let init = docs.drop_last();
        lemma_listing_drops_only_rejected(init);
        let out = listing_model(docs);
        assert forall|k: int| #![trigger out[k]] 0 <= k < out.len() implies exists|i: int|
            0 <= i < docs.len() && parses_to(#[trigger] docs[i], out[k]) by {
            if k < listing_model(init).len() {
                let i = choose|i: int| 0 <= i < init.len() && parses_to(#[trigger] init[i], listing_model(init)[k]);
                assert(docs[i] == init[i]);
            } else {
                assert(docs[docs.len() - 1] == docs.last());
            }
        }
    }
}

/// Why reading a post's file failed.
#[derive(Clone, Copy, Debug, PartialEq, Eq)]
pub enum ReadFailure {
    /// No file backs the slug.
    Missing,
    /// The file exists but could not be read.
    Unreadable,
}

/// Why a post could not be served.
#[derive(Clone, Debug, PartialEq, Eq)]
pub enum LookupError {
    NotFound,
    Io,
    Parse(ParseError),
}

impl LookupError {
    /// The HTTP status that reports this failure: 404 for a missing post,
    /// 500 for everything else.
    pub fn status_code(&self) -> (r: u16)
        ensures
            r == (if self is NotFound { 404u16 } else { 500u16 }),
    {
        match self {
            LookupError::NotFound => 404,
            _ => 500,
        }
    }
}

/// Turns the outcome of reading a post's file into the post: a missing file
/// is `NotFound`, another read failure `Io`, a parse failure is passed on.
pub fn lookup_post(read: Result<String, ReadFailure>) -> (r: Result<BlogPost, LookupError>)
    ensures
        match read {
            Err(ReadFailure::Missing) => r == Err::<BlogPost, LookupError>(LookupError::NotFound),
            Err(ReadFailure::Unreadable) => r == Err::<BlogPost, LookupError>(LookupError::Io),
            Ok(t) => match parse_model(t@) {
                Ok(p) => r matches Ok(q) && q@ == p,
                Err(e) => r matches Err(LookupError::Parse(pe)) && pe@ == e,
            },
        },
{
    match read {
        Err(ReadFailure::Missing) => Err(LookupError::NotFound),
        Err(ReadFailure::Unreadable) => Err(LookupError::Io),
        Ok(t) => match parse_document(t.as_str()) {
            Ok(p) => Ok(p),
            Err(e) => Err(LookupError::Parse(e)),
        },
    }
}

} // verus!
