//! The answers of the embedded studio: which file a request is served, with which
//! headers, and the single-page fallback.
use vstd::prelude::*;
use crate::text::{chars_of, starts_with_chars, string_from_chars, to_owned_string};

verus! {

/// The MIME type `mime_guess` gives a path: the first type known for its extension,
/// `application/octet-stream` when there is none.
pub uninterp spec fn mime_of(path: Seq<char>) -> Seq<char>;

/// Calls `mime_guess::from_path(path).first_or_octet_stream()`, which guesses a MIME type
/// from the extension of a path. The type is named by [`mime_of`]; beyond a path without
/// any `.` (it has no extension, so the guess is `application/octet-stream`), the
/// extension table of the crate is not stated here.
#[verifier::external_body]
fn mime_type_of(path: &str) -> (r: String)
    ensures
        r@ == mime_of(path@),
        (forall|i: int| 0 <= i < path@.len() ==> path@[i] != '.') ==> r@ == "application/octet-stream"@,
{
    mime_guess::from_path(path).first_or_octet_stream().as_ref().to_string()
}

/// Where the studio redirects `/__studio`.
pub open spec fn studio_home() -> Seq<char> {
    "/__studio/"@
}

/// The answer to `/__studio`: a permanent redirect (301) to `/__studio/`.
pub fn studio_redirect() -> (r: (u16, &'static str))
    ensures
        r.0 == 301,
        r.1@ == studio_home(),
{
    (301, "/__studio/")
}

/// A path without its leading slashes.
pub open spec fn trim_slashes_spec(s: Seq<char>) -> Seq<char>
    decreases s.len(),
{
    if s.len() > 0 && s[0] == '/' {
        trim_slashes_spec(s.drop_first())
    } else {
        s
    }
}

/// The asset path of a request path: the path without its leading slashes.
pub fn asset_path(path: &str) -> (r: String)
    ensures
        r@ == trim_slashes_spec(path@),
{
    let cs = chars_of(path);
    let mut i: usize = 0;
    assert(path@.skip(0) =~= path@);
    while i < cs.len() && cs[i] == '/'
        invariant
            cs@ == path@,
            i <= cs@.len(),
            trim_slashes_spec(path@) == trim_slashes_spec(path@.skip(i as int)),
        decreases cs@.len() - i,
    {
        assert(path@.skip(i as int).drop_first() =~= path@.skip(i + 1));
        i = i + 1;
    }
    let mut rest: Vec<char> = Vec::new();
    let mut j: usize = i;
    while j < cs.len()
        invariant
            cs@ == path@,
            i <= j <= cs@.len(),
            rest@ == path@.subrange(i as int, j as int),
        decreases cs@.len() - j,
    {
        rest.push(cs[j]);
        assert(rest@ =~= path@.subrange(i as int, j + 1));
        j = j + 1;
    }
    assert(rest@ =~= path@.skip(i as int));
    string_from_chars(&rest)
}

/// Which file a studio request gets.
#[derive(Debug, Clone, Copy, PartialEq, Eq, Structural)]
pub enum StudioBody {
    /// The requested asset.
    Asset,
    /// The single-page app's `index.html`, for paths it routes itself.
    Index,
    /// No studio was built into the binary: `Studio not built`.
    NotBuilt,
}

/// The answer to a studio request.
#[derive(Debug)]
pub struct StudioResponse {
    pub status: u16,
    pub content_type: Option<String>,
    /// Whether the answer may be cached for a year (`public, max-age=31536000, immutable`).
    pub long_cache: bool,
    pub body: StudioBody,
}

/// Whether a path starts with `assets/`.
pub open spec fn under_assets(path: Seq<char>) -> bool {
    path.len() >= 7 && path.take(7) == "assets/"@
}

/// Answers a request for an asset path, given whether the asset and the index page are
/// embedded: the asset with its guessed type (cached for a year under `assets/`), else
/// the index page as HTML, else 404.
pub fn serve_file(path: &str, asset_exists: bool, index_exists: bool) -> (r: StudioResponse)
    ensures
        asset_exists ==> r.status == 200 && r.body == StudioBody::Asset && (r.content_type matches Some(t)
            && t@ == mime_of(path@)) && r.long_cache == under_assets(path@),
        !asset_exists && index_exists ==> r.status == 200 && r.body == StudioBody::Index && (r.content_type matches Some(
            t,
        ) && t@ == "text/html; charset=utf-8"@) && !r.long_cache,
        !asset_exists && !index_exists ==> r.status == 404 && r.body == StudioBody::NotBuilt && r.content_type is None
            && !r.long_cache,
{
    if asset_exists {
        let cs = chars_of(path);
        let prefix = chars_of("assets/");
        let long_cache = starts_with_chars(&cs, &prefix);
        proof {
            reveal_strlit("assets/");
        }
        StudioResponse {
            status: 200,
            content_type: Some(mime_type_of(path)),
            long_cache,
            body: StudioBody::Asset,
        }
    } else if index_exists {
        StudioResponse {
            status: 200,
            content_type: Some(to_owned_string("text/html; charset=utf-8")),
            long_cache: false,
            body: StudioBody::Index,
        }
    } else {
        StudioResponse { status: 404, content_type: None, long_cache: false, body: StudioBody::NotBuilt }
    }
}

} // verus!
