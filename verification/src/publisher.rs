use vstd::prelude::*;

use crate::article::Article;
use crate::errors::PipelineError;
use crate::thumb::{og_image_of, resolve, thumbnail_of_outcome};

verus! {

/// Where one pipeline run stands: nothing done yet, feeds being aggregated,
/// or a Curated List published with `enriched` articles already processed.
/// `Published` with `enriched` equal to the list's length is terminal.
#[derive(Clone, Copy, Debug, PartialEq, Eq, Structural)]
pub enum Phase {
    Unstarted,
    Aggregating,
    Published { enriched: usize },
}

/// The Enrichment Publisher: owner of the authoritative Curated List and the
/// sole writer of published snapshots. It takes the Aggregator's list over
/// once, publishes it immediately, then attaches thumbnail resolutions one
/// article at a time, in list order, exposing a full snapshot after every
/// step. The list's length and order never change after publication.
pub struct Publisher {
    pub phase: Phase,
    pub list: Vec<Article>,
}

impl Publisher {
    /// Well-formedness: the list is empty before one is published, the
    /// enrichment mark never passes the end of the list, and every article
    /// at or beyond the mark still awaits its thumbnail.
    pub open spec fn inv(self) -> bool {
        match self.phase {
            Phase::Unstarted => self.list@.len() == 0,
            Phase::Aggregating => self.list@.len() == 0,
            Phase::Published { enriched } => enriched <= self.list@.len() && forall|i: int|
                enriched <= i < self.list@.len() ==> (#[trigger] self.list@[i]).thumb_link is None,
        }
    }

    /// A fresh run: nothing aggregated, nothing published. The presentation
    /// layer can already ask for a snapshot and render the empty list.
    pub fn new() -> (r: Publisher)
        ensures
            r.inv(),
            r.phase == Phase::Unstarted,
            r.list@.len() == 0,
    {
        Publisher { phase: Phase::Unstarted, list: Vec::new() }
    }

    /// `Unstarted -> Aggregating`: triggered once per pipeline run.
    pub fn start(&mut self)
        requires
            old(self).inv(),
            old(self).phase == Phase::Unstarted,
        ensures
            final(self).inv(),
            final(self).phase == Phase::Aggregating,
            final(self).list@ == old(self).list@,
    {
        self.phase = Phase::Aggregating;
    }

    /// `Aggregating -> Published(0)`: the Aggregator's Curated List is taken
    /// over unchanged and published at once, so placeholders can render
    /// before any thumbnail resolves.
    pub fn publish(&mut self, list: Vec<Article>)
        requires
            old(self).inv(),
            old(self).phase == Phase::Aggregating,
            forall|i: int| 0 <= i < list@.len() ==> (#[trigger] list@[i]).thumb_link is None,
        ensures
            final(self).inv(),
            final(self).phase == (Phase::Published { enriched: 0 }),
            final(self).list@ == list@,
    {
        self.list = list;
        self.phase = Phase::Published { enriched: 0 };
    }

    /// `Published(k) -> Published(k+1)`: attach the resolution outcome for
    /// the article at index `k`. The snapshot afterwards differs from the
    /// snapshot before only at index `k`, which keeps its title, description
    /// and link and holds exactly the resolved thumbnail; an empty outcome
    /// (resolution failed, or the page declares no image) leaves the article
    /// without one, and the loop moves on either way.
    pub fn enrich_next(&mut self, thumb: Option<String>)
        requires
            old(self).inv(),
            old(self).phase is Published,
            old(self).phase->enriched < old(self).list@.len(),
        ensures
            final(self).inv(),
            final(self).phase == (Phase::Published {
                enriched: (old(self).phase->enriched + 1) as usize,
            }),
            final(self).list@.len() == old(self).list@.len(),
            forall|i: int|
                0 <= i < old(self).list@.len() && i != old(self).phase->enriched
                    ==> final(self).list@[i] == old(self).list@[i],
            ({
                let k = old(self).phase->enriched as int;
                &&& final(self).list@[k].title == old(self).list@[k].title
                &&& final(self).list@[k].description == old(self).list@[k].description
                &&& final(self).list@[k].link == old(self).list@[k].link
                &&& final(self).list@[k].thumb_link == thumb
            }),
    {
        let k: usize = match self.phase {
            Phase::Published { enriched } => enriched,
            _ => 0,
        };
        let len = self.list.len();
        assert(k < len);
        let current = &self.list[k];
        let updated = Article {
            title: current.title.clone(),
            description: current.description.clone(),
            link: current.link.clone(),
            thumb_link: thumb,
        };
        self.list[k] = updated;
        self.phase = Phase::Published { enriched: k + 1 };
    }

    /// One full enrichment step: resolve the fetched page behind the current
    /// article's link and attach the outcome. On a fetched page the article
    /// gets exactly the page's declared preview image (or none, where the
    /// page declares none); on a transport failure it is left without one.
    /// Either way the article keeps its title, description and link, no
    /// other article changes, and the run advances one step.
    pub fn enrich_from_page(&mut self, page: &Result<String, PipelineError>)
        requires
            old(self).inv(),
            old(self).phase is Published,
            old(self).phase->enriched < old(self).list@.len(),
        ensures
            final(self).inv(),
            final(self).phase == (Phase::Published {
                enriched: (old(self).phase->enriched + 1) as usize,
            }),
            final(self).list@.len() == old(self).list@.len(),
            forall|i: int|
                0 <= i < old(self).list@.len() && i != old(self).phase->enriched
                    ==> final(self).list@[i] == old(self).list@[i],
            ({
                let k = old(self).phase->enriched as int;
                &&& final(self).list@[k].title == old(self).list@[k].title
                &&& final(self).list@[k].description == old(self).list@[k].description
                &&& final(self).list@[k].link == old(self).list@[k].link
                &&& (page is Ok ==> final(self).list@[k].thumb_link.deep_view() == og_image_of(
                    page->Ok_0@,
                ))
                &&& (page is Err ==> final(self).list@[k].thumb_link is None)
            }),
    {
        let thumb = thumbnail_of_outcome(resolve(page));
        self.enrich_next(thumb);
    }

    /// How many articles of the published list have been processed so far.
    pub fn progress(&self) -> (r: Option<usize>)
        ensures
            self.phase is Published <==> r is Some,
            self.phase is Published ==> r == Some(self.phase->enriched),
    {
        match self.phase {
            Phase::Published { enriched } => Some(enriched),
            _ => None,
        }
    }

    /// Whether the run has reached its terminal state: a published list with
    /// every article processed.
    pub fn is_fully_enriched(&self) -> (r: bool)
        ensures
            r <==> self.phase is Published && self.phase->enriched == self.list@.len(),
    {
        match self.phase {
            Phase::Published { enriched } => enriched == self.list.len(),
            _ => false,
        }
    }

    /// A complete, immutable snapshot of the Curated List as it stands: what
    /// the publisher emits to the presentation layer after every change.
    pub fn snapshot(&self) -> (r: Vec<Article>)
        ensures
            r@ == self.list@,
    {
        let r = self.list.clone();
        proof {
            assert forall|i: int| 0 <= i < r@.len() implies r@[i] == self.list@[i] by {
                assert(cloned::<Article>(self.list@[i], r@[i]));
            }
            assert(r@ =~= self.list@);
        }
        r
    }
}

} // verus!
