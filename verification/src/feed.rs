use vstd::prelude::*;

use std::str::FromStr;

use crate::article::{Article, ArticleView};
use crate::errors::PipelineError;

verus! {

/// The mathematical value of one raw feed entry, before validation.
pub struct EntryView {
    pub title: Option<Seq<char>>,
    pub description: Option<Seq<char>>,
    pub link: Option<Seq<char>>,
}

/// One entry of a parsed feed document, before validation: each of the three
/// required fields may still be missing.
#[derive(Debug, PartialEq)]
pub struct RawEntry {
    pub title: Option<String>,
    pub description: Option<String>,
    pub link: Option<String>,
}

impl View for RawEntry {
    type V = EntryView;

    open spec fn view(&self) -> EntryView {
        EntryView {
            title: self.title.deep_view(),
            description: self.description.deep_view(),
            link: self.link.deep_view(),
        }
    }
}

impl DeepView for RawEntry {
    type V = EntryView;

    open spec fn deep_view(&self) -> EntryView {
        self.view()
    }
}

/// What parsing a feed document yields: `None` when the text is not a
/// well-formed feed document, else the raw entries in document order.
pub uninterp spec fn feed_entries_of(doc: Seq<char>) -> Option<Seq<EntryView>>;

/// Relies on `rss::Channel::from_str`: whether a text parses as a feed, and
/// which items it holds, depend on the text alone; on success each item's
/// title, description and link are handed over unchanged, in document order.
#[verifier::external_body]
fn parse_feed_text(doc: &str) -> (r: Result<Vec<RawEntry>, PipelineError>)
    ensures
        match r {
            Ok(entries) => feed_entries_of(doc@) == Some(entries.deep_view()),
            Err(e) => e == PipelineError::Parse && feed_entries_of(doc@) is None,
        },
{
    match rss::Channel::from_str(doc) {
        Ok(channel) => Ok(channel
            .items()
            .iter()
            .map(|item| RawEntry {
                title: item.title().map(|s| s.to_string()),
                description: item.description().map(|s| s.to_string()),
                link: item.link().map(|s| s.to_string()),
            })
            .collect()),
        Err(_) => Err(PipelineError::Parse),
    }
}

/// A feed entry is complete when all three required fields are present.
pub open spec fn is_complete(e: EntryView) -> bool {
    e.title is Some && e.description is Some && e.link is Some
}

/// The article a complete entry yields: its three fields, no thumbnail yet.
pub open spec fn article_of(e: EntryView) -> ArticleView
    recommends
        is_complete(e),
{
    ArticleView {
        title: e.title.unwrap(),
        description: e.description.unwrap(),
        link: e.link.unwrap(),
        thumb_link: None,
    }
}

/// The articles a sequence of raw entries yields: the articles of the complete
/// entries, in order; incomplete entries are dropped.
pub open spec fn articles_of(entries: Seq<EntryView>) -> Seq<ArticleView>
    decreases entries.len(),
{
    if entries.len() == 0 {
        Seq::empty()
    } else if is_complete(entries.last()) {
        articles_of(entries.drop_last()).push(article_of(entries.last()))
    } else {
        articles_of(entries.drop_last())
    }
}

/// Validate one raw entry: a complete entry yields its article; an entry
/// missing title, description or link is rejected with `IncompleteEntry`.
pub fn validate_entry(entry: &RawEntry) -> (r: Result<Article, PipelineError>)
    ensures
        is_complete(entry@) ==> r is Ok && r->Ok_0@ == article_of(entry@),
        !is_complete(entry@) ==> r == Err::<Article, PipelineError>(
            PipelineError::IncompleteEntry,
        ),
{
    match (&entry.title, &entry.description, &entry.link) {
        (Some(title), Some(description), Some(link)) => Ok(
            (Article {
                title: title.clone(),
                description: description.clone(),
                link: link.clone(),
                thumb_link: None,
            }),
        ),
        _ => Err(PipelineError::IncompleteEntry),
    }
}

/// Map raw entries to articles: complete entries in document order,
/// incomplete entries skipped.
pub fn entries_to_articles(entries: &Vec<RawEntry>) -> (r: Vec<Article>)
    ensures
        r.deep_view() == articles_of(entries.deep_view()),
{
    let ghost evs = entries.deep_view();
    let mut out: Vec<Article> = Vec::new();
    let mut i: usize = 0;
    while i < entries.len()
        invariant
            i <= entries.len(),
            evs == entries.deep_view(),
            evs.len() == entries.len(),
            out.deep_view() == articles_of(evs.take(i as int)),
        decreases entries.len() - i,
    {
        let ghost prefix = evs.take(i as int);
        let ghost old_out = out.deep_view();
        proof {
            assert(evs.take(i + 1).drop_last() =~= prefix);
            assert(evs.take(i + 1).last() == entries[i as int]@);
        }
        match validate_entry(&entries[i]) {
            Ok(article) => {
                out.push(article);
                proof {
                    assert(out.deep_view() =~= old_out.push(article_of(entries[i as int]@)));
                }
            },
            Err(_) => (),
        }
        proof {
            assert(out.deep_view() == articles_of(evs.take(i + 1)));
        }
        i = i + 1;
    }
    proof {
        assert(evs.take(entries.len() as int) =~= evs);
    }
    out
}

/// The Feed Source Client's computational half: takes the outcome of the
/// network fetch of a feed URL (the body text, or the transport failure)
/// and returns the feed's articles.
///
/// A body that is not a well-formed feed document is rejected with `Parse`;
/// a transport failure is passed through; otherwise every complete entry
/// becomes an article, in document order, and incomplete entries are skipped.
pub fn fetch(body: &Result<String, PipelineError>) -> (r: Result<Vec<Article>, PipelineError>)
    ensures
        body is Ok && feed_entries_of(body->Ok_0@) is Some ==> r is Ok
            && r->Ok_0.deep_view() == articles_of(feed_entries_of(body->Ok_0@).unwrap()),
        body is Ok && feed_entries_of(body->Ok_0@) is None ==> r == Err::<
            Vec<Article>,
            PipelineError,
        >(PipelineError::Parse),
        body is Err ==> r == Err::<Vec<Article>, PipelineError>(body->Err_0),
{
    match body {
        Ok(doc) => match parse_feed_text(doc.as_str()) {
            Ok(entries) => Ok(entries_to_articles(&entries)),
            Err(e) => Err(e),
        },
        Err(e) => Err(*e),
    }
}

/// Fetching keeps exactly the well-formed entries, in document order: the
/// articles of a document are the articles of its complete entries, in the
/// order the document gives them, and there are as many articles as complete
/// entries.
pub proof fn lemma_fetch_keeps_complete_entries(entries: Seq<EntryView>)
    ensures
        articles_of(entries) == entries.filter(|e: EntryView| is_complete(e)).map_values(
            |e: EntryView| article_of(e),
        ),
        articles_of(entries).len() == entries.filter(|e: EntryView| is_complete(e)).len(),
    decreases entries.len(),
{
    reveal(Seq::filter);
    let pred = |e: EntryView| is_complete(e);
    let f = |e: EntryView| article_of(e);
    if entries.len() == 0 {
        assert(entries.filter(pred) =~= Seq::<EntryView>::empty());
        assert(articles_of(entries) =~= entries.filter(pred).map_values(f));
    } else {
        let dl = entries.drop_last();
        lemma_fetch_keeps_complete_entries(dl);
        assert(entries.filter(pred) == if pred(entries.last()) {
            dl.filter(pred).push(entries.last())
        } else {
            dl.filter(pred)
        });
        if pred(entries.last()) {
            assert(dl.filter(pred).push(entries.last()).map_values(f) =~= dl.filter(
                pred,
            ).map_values(f).push(f(entries.last())));
        }
        assert(articles_of(entries) =~= entries.filter(pred).map_values(f));
    }
}

/// Every article a feed yields starts without a thumbnail.
pub proof fn lemma_fetched_articles_unenriched(entries: Seq<EntryView>)
    ensures
        forall|i: int|
            0 <= i < articles_of(entries).len() ==> (#[trigger] articles_of(
                entries,
            )[i]).thumb_link is None,
    decreases entries.len(),
{
    if entries.len() > 0 {
        lemma_fetched_articles_unenriched(entries.drop_last());
    }
}

} // verus!
