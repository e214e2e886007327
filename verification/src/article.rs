use vstd::prelude::*;

verus! {

/// The mathematical value of one article: what the contracts speak of.
pub struct ArticleView {
    pub title: Seq<char>,
    pub description: Seq<char>,
    pub link: Seq<char>,
    pub thumb_link: Option<Seq<char>>,
}

/// One curated news item.
///
/// `title`, `description` and `link` are populated at creation time from a
/// successfully parsed feed entry; `thumb_link` is absent until enrichment
/// resolves a preview image for the article's page, and may stay absent if
/// resolution fails or the page declares no image.
#[derive(Debug, PartialEq)]
pub struct Article {
    pub title: String,
    pub description: String,
    pub link: String,
    pub thumb_link: Option<String>,
}

impl View for Article {
    type V = ArticleView;

    open spec fn view(&self) -> ArticleView {
        ArticleView {
            title: self.title@,
            description: self.description@,
            link: self.link@,
            thumb_link: self.thumb_link.deep_view(),
        }
    }
}

impl DeepView for Article {
    type V = ArticleView;

    open spec fn deep_view(&self) -> ArticleView {
        self.view()
    }
}

impl Clone for Article {
    fn clone(&self) -> (r: Self)
        ensures
            r == *self,
    {
        Article {
            title: self.title.clone(),
            description: self.description.clone(),
            link: self.link.clone(),
            thumb_link: self.thumb_link.clone(),
        }
    }
}

} // verus!
