use feed_curator::aggregate::{aggregate, curate, gather};
use feed_curator::article::Article;
use feed_curator::errors::PipelineError;
use feed_curator::feed::{fetch, validate_entry, RawEntry};
use feed_curator::publisher::{Phase, Publisher};
use feed_curator::thumb::resolve;

fn item(title: &str, description: &str, link: &str) -> String {
    format!(
        "<item><title>{}</title><description>{}</description><link>{}</link></item>",
        title, description, link
    )
}

fn feed_doc(items: &[String]) -> String {
    format!(
        "<rss version=\"2.0\"><channel><title>c</title><link>https://example.com</link>\
         <description>d</description>{}</channel></rss>",
        items.concat()
    )
}

fn article(title: &str) -> Article {
    Article {
        title: title.to_string(),
        description: format!("about {}", title),
        link: format!("https://example.com/{}", title),
        thumb_link: None,
    }
}

#[test]
fn fetch_returns_wellformed_entries_in_order() {
    let doc = feed_doc(&[
        item("first", "d1", "https://example.com/1"),
        item("second", "d2", "https://example.com/2"),
        item("third", "d3", "https://example.com/3"),
    ]);
    let articles = fetch(&Ok(doc)).unwrap();
    assert_eq!(articles.len(), 3);
    assert_eq!(articles[0].title, "first");
    assert_eq!(articles[1].title, "second");
    assert_eq!(articles[2].title, "third");
    assert_eq!(articles[0].description, "d1");
    assert_eq!(articles[2].link, "https://example.com/3");
    assert!(articles.iter().all(|a| a.thumb_link.is_none()));
}

#[test]
fn fetch_skips_entry_missing_link() {
    let doc = feed_doc(&[
        item("keep-a", "d", "https://example.com/a"),
        "<item><title>broken</title><description>no link</description></item>".to_string(),
        item("keep-b", "d", "https://example.com/b"),
    ]);
    let articles = fetch(&Ok(doc)).unwrap();
    assert_eq!(articles.len(), 2);
    assert_eq!(articles[0].title, "keep-a");
    assert_eq!(articles[1].title, "keep-b");
}

#[test]
fn fetch_rejects_malformed_document() {
    let r = fetch(&Ok("this is no feed document at all".to_string()));
    assert_eq!(r, Err(PipelineError::Parse));
}

#[test]
fn fetch_passes_transport_failure_through() {
    let r = fetch(&Err(PipelineError::Transport));
    assert_eq!(r, Err(PipelineError::Transport));
}

#[test]
fn validate_entry_rejects_missing_field() {
    let entry = RawEntry {
        title: Some("t".to_string()),
        description: None,
        link: Some("https://example.com".to_string()),
    };
    assert_eq!(validate_entry(&entry), Err(PipelineError::IncompleteEntry));
}

#[test]
fn validate_entry_accepts_complete_entry() {
    let entry = RawEntry {
        title: Some("t".to_string()),
        description: Some("d".to_string()),
        link: Some("https://example.com".to_string()),
    };
    let a = validate_entry(&entry).unwrap();
    assert_eq!(a.title, "t");
    assert_eq!(a.description, "d");
    assert_eq!(a.link, "https://example.com");
    assert!(a.thumb_link.is_none());
}

#[test]
fn curated_list_length_ten_primary_five_bonus() {
    let primary: Vec<Article> = (0..10).map(|i| article(&format!("p{}", i))).collect();
    let bonus: Vec<Article> = (0..5).map(|i| article(&format!("b{}", i))).collect();
    let curated = curate(primary, bonus);
    assert_eq!(curated.len(), 12);
}

#[test]
fn curated_list_caps_primary_at_twenty_three() {
    let primary: Vec<Article> = (0..30).map(|i| article(&format!("p{}", i))).collect();
    let curated = curate(primary, Vec::new());
    assert_eq!(curated.len(), 23);
    // drawn without replacement: 23 distinct articles
    let mut titles: Vec<String> = curated.iter().map(|a| a.title.clone()).collect();
    titles.sort();
    titles.dedup();
    assert_eq!(titles.len(), 23);
}

#[test]
fn curated_list_caps_bonus_at_two() {
    let bonus: Vec<Article> = (0..5).map(|i| article(&format!("b{}", i))).collect();
    let curated = curate(Vec::new(), bonus.clone());
    assert_eq!(curated.len(), 2);
    for a in &curated {
        assert!(bonus.contains(a));
    }
}

#[test]
fn shuffle_keeps_every_article() {
    // pools below both caps: the whole input comes back, reordered
    let primary: Vec<Article> = (0..3).map(|i| article(&format!("p{}", i))).collect();
    let bonus = vec![article("b0")];
    let mut expected: Vec<String> = primary
        .iter()
        .chain(bonus.iter())
        .map(|a| a.title.clone())
        .collect();
    let curated = curate(primary, bonus);
    let mut got: Vec<String> = curated.iter().map(|a| a.title.clone()).collect();
    expected.sort();
    got.sort();
    assert_eq!(got, expected);
}

#[test]
fn gather_skips_failed_feeds() {
    let good = feed_doc(&[item("g", "d", "https://example.com/g")]);
    let bodies = vec![
        Ok(good),
        Err(PipelineError::Transport),
        Ok("garbage".to_string()),
    ];
    let articles = gather(&bodies);
    assert_eq!(articles.len(), 1);
    assert_eq!(articles[0].title, "g");
}

#[test]
fn aggregate_end_to_end() {
    let primary_items: Vec<String> = (0..10)
        .map(|i| item(&format!("p{}", i), "d", "https://example.com/p"))
        .collect();
    let bonus_items: Vec<String> = (0..5)
        .map(|i| item(&format!("b{}", i), "d", "https://example.com/b"))
        .collect();
    let bodies = vec![Ok(feed_doc(&primary_items)), Err(PipelineError::Transport)];
    let curated = aggregate(&bodies, &Ok(feed_doc(&bonus_items)));
    assert_eq!(curated.len(), 12);
    assert!(curated.iter().all(|a| a.thumb_link.is_none()));
}

#[test]
fn resolver_extracts_og_image() {
    let html = "<html><head>\
                <meta property=\"og:image\" content=\"https://img.example/x.png\">\
                </head><body></body></html>";
    let r = resolve(&Ok(html.to_string()));
    assert_eq!(r, Ok(Some("https://img.example/x.png".to_string())));
}

#[test]
fn resolver_returns_none_without_og_image() {
    let html = "<html><head><title>t</title></head><body>hello</body></html>";
    let r = resolve(&Ok(html.to_string()));
    assert_eq!(r, Ok(None));
}

#[test]
fn resolver_is_idempotent_on_unchanged_page() {
    let html = "<html><head>\
                <meta property=\"og:image\" content=\"https://img.example/a.jpg\">\
                <meta property=\"og:image\" content=\"https://img.example/b.jpg\">\
                </head></html>";
    let first = resolve(&Ok(html.to_string()));
    let second = resolve(&Ok(html.to_string()));
    assert_eq!(first, second);
    assert_eq!(first, Ok(Some("https://img.example/a.jpg".to_string())));
}

#[test]
fn resolver_passes_transport_failure_through() {
    let r = resolve(&Err(PipelineError::Transport));
    assert_eq!(r, Err(PipelineError::Transport));
}

#[test]
fn publisher_enrichment_changes_one_article_per_step() {
    let mut publisher = Publisher::new();
    assert_eq!(publisher.phase, Phase::Unstarted);
    publisher.start();
    assert_eq!(publisher.phase, Phase::Aggregating);
    publisher.publish(vec![article("a"), article("b")]);
    assert_eq!(publisher.phase, Phase::Published { enriched: 0 });
    let unenriched = publisher.snapshot();
    assert!(unenriched.iter().all(|a| a.thumb_link.is_none()));

    publisher.enrich_next(Some("https://img.example/a.png".to_string()));
    let snap1 = publisher.snapshot();
    assert_eq!(
        snap1[0].thumb_link,
        Some("https://img.example/a.png".to_string())
    );
    assert_eq!(snap1[0].title, unenriched[0].title);
    assert_eq!(snap1[1], unenriched[1]);

    publisher.enrich_next(Some("https://img.example/b.png".to_string()));
    let snap2 = publisher.snapshot();
    assert_eq!(snap2[0], snap1[0]);
    assert_eq!(
        snap2[1].thumb_link,
        Some("https://img.example/b.png".to_string())
    );
    assert!(publisher.is_fully_enriched());
}

#[test]
fn failed_thumbnail_keeps_article_and_loop_alive() {
    // the page fetch for the first article's link times out
    let mut publisher = Publisher::new();
    publisher.start();
    publisher.publish(vec![article("a"), article("b")]);
    assert_eq!(publisher.snapshot()[0].link, "https://example.com/a");
    let timed_out: Result<String, PipelineError> = Err(PipelineError::Transport);
    // the failure is recorded as "no thumbnail" and enrichment proceeds
    publisher.enrich_from_page(&timed_out);
    let snap = publisher.snapshot();
    assert_eq!(snap[0].thumb_link, None);
    assert_eq!(publisher.progress(), Some(1));
    publisher.enrich_next(Some("https://img.example/b.png".to_string()));
    assert!(publisher.is_fully_enriched());
}

#[test]
fn enrichment_step_attaches_page_image() {
    let mut publisher = Publisher::new();
    publisher.start();
    publisher.publish(vec![article("a")]);
    let page = "<html><head>\
                <meta property=\"og:image\" content=\"https://img.example/a.png\">\
                </head></html>";
    publisher.enrich_from_page(&Ok(page.to_string()));
    let snap = publisher.snapshot();
    assert_eq!(snap[0].thumb_link, Some("https://img.example/a.png".to_string()));
    assert_eq!(snap[0].title, "a");
    assert!(publisher.is_fully_enriched());
}

#[test]
fn snapshot_is_a_full_copy() {
    let mut publisher = Publisher::new();
    publisher.start();
    publisher.publish(vec![article("a")]);
    let snap = publisher.snapshot();
    assert_eq!(snap, publisher.snapshot());
    assert_eq!(snap.len(), 1);
    assert_eq!(snap[0], article("a"));
}
