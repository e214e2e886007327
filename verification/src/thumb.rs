use vstd::prelude::*;

use scraper::{Html, Selector};

use crate::errors::PipelineError;

verus! {

/// The preview-image URL an HTML document declares through its
/// `og:image`-style metadata property, or `None` where it declares none.
/// The result depends on the document text alone.
pub uninterp spec fn og_image_of(html: Seq<char>) -> Option<Seq<char>>;

/// Relies on scraper's `Html::parse_fragment` and `Selector`: the `content`
/// attribute of the first `meta[property='og:image']` element is a function
/// of the document text alone, and this parser is error-tolerant, so there is
/// no failing case.
#[verifier::external_body]
fn extract_og_image(html: &str) -> (r: Option<String>)
    ensures
        r.deep_view() == og_image_of(html@),
{
    let fragment = Html::parse_fragment(html);
    let selector = Selector::parse("meta[property='og:image']").unwrap();
    fragment
        .select(&selector)
        .next()
        .and_then(|elem| elem.value().attr("content"))
        .map(|link| link.to_string())
}

/// The Thumbnail Resolver's computational half: takes the outcome of fetching
/// the HTML page behind an article's link (the body text, or the transport
/// failure) and returns the page's declared preview-image URL, `None` when
/// the page declares none, or the transport failure unchanged. The absence of
/// the metadata element is not an error.
pub fn resolve(page: &Result<String, PipelineError>) -> (r: Result<
    Option<String>,
    PipelineError,
>)
    ensures
        page is Ok ==> r is Ok && r->Ok_0.deep_view() == og_image_of(page->Ok_0@),
        page is Err ==> r == Err::<Option<String>, PipelineError>(page->Err_0),
{
    match page {
        Ok(html) => Ok(extract_og_image(html.as_str())),
        Err(e) => Err(*e),
    }
}

/// The per-article recovery policy of the enrichment loop: a transport or
/// parse failure while resolving one article's thumbnail is recorded as
/// "no thumbnail" instead of aborting the run.
pub fn thumbnail_of_outcome(outcome: Result<Option<String>, PipelineError>) -> (r: Option<String>)
    ensures
        outcome is Ok ==> r == outcome->Ok_0,
        outcome is Err ==> r is None,
{
    match outcome {
        Ok(found) => found,
        Err(_) => None,
    }
}

/// Resolution is idempotent: two resolutions of the same link whose page is
/// unchanged return the same preview-image URL, or agree that there is none.
pub proof fn lemma_resolution_idempotent(html: Seq<char>, r1: Option<String>, r2: Option<String>)
    requires
        r1.deep_view() == og_image_of(html),
        r2.deep_view() == og_image_of(html),
    ensures
        r1.deep_view() == r2.deep_view(),
        r1 is Some <==> r2 is Some,
{
}

} // verus!
