use vstd::prelude::*;

use rand::seq::SliceRandom;

use crate::article::{Article, ArticleView};
use crate::errors::PipelineError;
use crate::feed::{articles_of, feed_entries_of, fetch, lemma_fetched_articles_unenriched};

verus! {

/// How many articles are drawn from the combined primary pool.
pub const PRIMARY_SAMPLE_SIZE: usize = 23;

/// How many articles are drawn from the bonus pool.
pub const BONUS_SAMPLE_SIZE: usize = 2;

/// How many articles a draw of at most `cap` takes from a pool of `pool_len`.
pub open spec fn sample_len(cap: int, pool_len: nat) -> int {
    if pool_len < cap {
        pool_len as int
    } else {
        cap
    }
}

/// The text a feed fetch brought back, or its transport failure, as a value.
pub open spec fn body_view(b: Result<String, PipelineError>) -> Result<Seq<char>, PipelineError> {
    match b {
        Ok(s) => Ok(s@),
        Err(e) => Err(e),
    }
}

/// The articles one fetched body contributes: a feed that failed in transport
/// or did not parse contributes nothing, any other feed its articles.
pub open spec fn fetched_of(body: Result<Seq<char>, PipelineError>) -> Seq<ArticleView> {
    match body {
        Ok(doc) => match feed_entries_of(doc) {
            Some(entries) => articles_of(entries),
            None => Seq::empty(),
        },
        Err(_) => Seq::empty(),
    }
}

/// The articles a list of fetched bodies contributes, concatenated in the
/// order the feeds were configured.
pub open spec fn gathered_of(bodies: Seq<Result<Seq<char>, PipelineError>>) -> Seq<ArticleView>
    decreases bodies.len(),
{
    if bodies.len() == 0 {
        Seq::empty()
    } else {
        gathered_of(bodies.drop_last()) + fetched_of(bodies.last())
    }
}

/// Every gathered article starts without a thumbnail.
pub proof fn lemma_gathered_articles_unenriched(bodies: Seq<Result<Seq<char>, PipelineError>>)
    ensures
        forall|i: int|
            0 <= i < gathered_of(bodies).len() ==> (#[trigger] gathered_of(
                bodies,
            )[i]).thumb_link is None,
    decreases bodies.len(),
{
    if bodies.len() > 0 {
        lemma_gathered_articles_unenriched(bodies.drop_last());
        match bodies.last() {
            Ok(doc) => match feed_entries_of(doc) {
                Some(entries) => lemma_fetched_articles_unenriched(entries),
                None => (),
            },
            Err(_) => (),
        }
    }
}

/// Fetch results from several feeds, concatenated in feed order; a feed whose
/// fetch or parse failed contributes zero articles rather than aborting the
/// aggregation.
pub fn gather(bodies: &Vec<Result<String, PipelineError>>) -> (r: Vec<Article>)
    ensures
        r.deep_view() == gathered_of(
            bodies@.map_values(|b: Result<String, PipelineError>| body_view(b)),
        ),
{
    let ghost bvs = bodies@.map_values(|b: Result<String, PipelineError>| body_view(b));
    let mut out: Vec<Article> = Vec::new();
    let mut i: usize = 0;
    while i < bodies.len()
        invariant
            i <= bodies.len(),
            bvs == bodies@.map_values(|b: Result<String, PipelineError>| body_view(b)),
            bvs.len() == bodies@.len(),
            out.deep_view() == gathered_of(bvs.take(i as int)),
        decreases bodies.len() - i,
    {
        let ghost old_out = out.deep_view();
        match fetch(&bodies[i]) {
            Ok(mut articles) => {
                let ghost got = articles.deep_view();
                proof {
                    assert(got == fetched_of(bvs[i as int]));
                }
                out.append(&mut articles);
                proof {
                    assert(out.deep_view() =~= old_out + got);
                }
            },
            Err(_) => {
                proof {
                    assert(fetched_of(bvs[i as int]) =~= Seq::<ArticleView>::empty());
                    assert(out.deep_view() =~= old_out + fetched_of(bvs[i as int]));
                }
            },
        }
        proof {
            assert(bvs.take(i + 1).drop_last() =~= bvs.take(i as int));
            assert(bvs.take(i + 1).last() == bvs[i as int]);
        }
        i = i + 1;
    }
    proof {
        assert(bvs.take(bodies@.len() as int) =~= bvs);
    }
    out
}

/// The Aggregator: fetch outcomes of the primary feeds and of the bonus feed
/// in, Curated List out.
///
/// The list holds a draw of at most `PRIMARY_SAMPLE_SIZE` of the gathered
/// primary articles and at most `BONUS_SAMPLE_SIZE` of the bonus feed's
/// articles, shuffled together; every article in it still awaits enrichment.
pub fn aggregate(
    primary_bodies: &Vec<Result<String, PipelineError>>,
    bonus_body: &Result<String, PipelineError>,
) -> (r: Vec<Article>)
    ensures
        r@.len() == sample_len(
            PRIMARY_SAMPLE_SIZE as int,
            gathered_of(
                primary_bodies@.map_values(|b: Result<String, PipelineError>| body_view(b)),
            ).len(),
        ) + sample_len(BONUS_SAMPLE_SIZE as int, fetched_of(body_view(*bonus_body)).len()),
        forall|i: int| 0 <= i < r@.len() ==> (#[trigger] r@[i]).thumb_link is None,
        forall|i: int|
            0 <= i < r@.len() ==> gathered_of(
                primary_bodies@.map_values(|b: Result<String, PipelineError>| body_view(b)),
            ).contains((#[trigger] r@[i])@) || fetched_of(body_view(*bonus_body)).contains(
                r@[i]@,
            ),
{
    let primary = gather(primary_bodies);
    let bonus = match fetch(bonus_body) {
        Ok(articles) => articles,
        Err(_) => Vec::new(),
    };
    proof {
        let ghost bvs = primary_bodies@.map_values(
            |b: Result<String, PipelineError>| body_view(b),
        );
        lemma_gathered_articles_unenriched(bvs);
        assert(bonus.deep_view() == fetched_of(body_view(*bonus_body)));
        match body_view(*bonus_body) {
            Ok(doc) => match feed_entries_of(doc) {
                Some(entries) => lemma_fetched_articles_unenriched(entries),
                None => (),
            },
            Err(_) => (),
        }
        assert forall|i: int| 0 <= i < primary@.len() implies (#[trigger] primary@[i]).thumb_link
            is None by {
            assert(primary.deep_view()[i] == gathered_of(bvs)[i]);
            assert(gathered_of(bvs)[i].thumb_link is None);
            assert(primary.deep_view()[i] == primary@[i].deep_view());
        }
        assert forall|i: int| 0 <= i < bonus@.len() implies (#[trigger] bonus@[i]).thumb_link
            is None by {
            let fv = fetched_of(body_view(*bonus_body));
            assert(bonus.deep_view()[i] == fv[i]);
            assert(fv[i].thumb_link is None);
            assert(bonus.deep_view()[i] == bonus@[i].deep_view());
        }
    }
    let ghost pv = primary@;
    let ghost bv = bonus@;
    let r = curate(primary, bonus);
    proof {
        let bvs = primary_bodies@.map_values(|b: Result<String, PipelineError>| body_view(b));
        let fv = fetched_of(body_view(*bonus_body));
        assert forall|i: int| 0 <= i < r@.len() implies gathered_of(bvs).contains(
            (#[trigger] r@[i])@,
        ) || fv.contains(r@[i]@) by {
            let v = r@[i];
            if pv.contains(v) {
                let j = choose|j: int| 0 <= j < pv.len() && pv[j] == v;
                assert(gathered_of(bvs)[j] == pv[j]@);
                assert(gathered_of(bvs).contains(v@));
            } else {
                assert(bv.contains(v));
                let j = choose|j: int| 0 <= j < bv.len() && bv[j] == v;
                assert(fv[j] == bv[j]@);
                assert(fv.contains(v@));
            }
        }
    }
    r
}

#[verifier::external_type_specification]
#[verifier::external_body]
pub struct ExThreadRng(rand::rngs::ThreadRng);

/// Relies on `rand::thread_rng`: a handle to the thread-local generator.
/// Nothing is promised of the numbers it will produce.
#[verifier::external_body]
fn fresh_rng() -> rand::rngs::ThreadRng {
    rand::thread_rng()
}

/// Relies on `SliceRandom::choose_multiple` (rand): it samples
/// `min(amount, len)` elements at distinct indices, without replacement;
/// which elements come back depends on the generator's state.
#[verifier::external_body]
fn sample_articles(pool: &Vec<Article>, rng: &mut rand::rngs::ThreadRng, amount: usize) -> (r: Vec<
    Article,
>)
    ensures
        r@.len() == sample_len(amount as int, pool@.len()),
        r@.to_multiset().subset_of(pool@.to_multiset()),
{
    pool.choose_multiple(rng, amount).cloned().collect()
}

/// Relies on `SliceRandom::shuffle` (rand): it permutes the slice in place,
/// so the articles afterwards are exactly the articles before, reordered.
#[verifier::external_body]
fn shuffle_articles(v: &mut Vec<Article>, rng: &mut rand::rngs::ThreadRng)
    ensures
        final(v)@.len() == old(v)@.len(),
        final(v)@.to_multiset() == old(v)@.to_multiset(),
{
    v.shuffle(rng)
}

/// The editorial weighting of the Aggregator: draw at most
/// `PRIMARY_SAMPLE_SIZE` articles from the primary pool and at most
/// `BONUS_SAMPLE_SIZE` from the bonus pool, each without replacement, then
/// shuffle the combined draw so bonus items are not distinguishable by
/// position.
///
/// The result decomposes into a primary part and a bonus part: each part is a
/// sub-multiset of its own pool (so no article is drawn more often than the
/// pool holds it, and bonus-sampled articles come only from the bonus pool),
/// the parts have the promised sizes, and the shuffled whole holds exactly
/// the two parts' articles.
pub fn curate(primary: Vec<Article>, bonus: Vec<Article>) -> (r: Vec<Article>)
    ensures
        r@.len() == sample_len(PRIMARY_SAMPLE_SIZE as int, primary@.len()) + sample_len(
            BONUS_SAMPLE_SIZE as int,
            bonus@.len(),
        ),
        exists|ps: Seq<Article>, bs: Seq<Article>|
            {
                &&& ps.to_multiset().subset_of(primary@.to_multiset())
                &&& bs.to_multiset().subset_of(bonus@.to_multiset())
                &&& ps.len() == sample_len(PRIMARY_SAMPLE_SIZE as int, primary@.len())
                &&& bs.len() == sample_len(BONUS_SAMPLE_SIZE as int, bonus@.len())
                &&& r@.to_multiset() == ps.to_multiset().add(bs.to_multiset())
            },
        forall|i: int|
            0 <= i < r@.len() ==> primary@.contains(#[trigger] r@[i]) || bonus@.contains(r@[i]),
        (forall|i: int| 0 <= i < primary@.len() ==> (#[trigger] primary@[i]).thumb_link is None)
            && (forall|i: int| 0 <= i < bonus@.len() ==> (#[trigger] bonus@[i]).thumb_link is None)
            ==> forall|i: int| 0 <= i < r@.len() ==> (#[trigger] r@[i]).thumb_link is None,
{
    let mut rng = fresh_rng();
    let mut drawn = sample_articles(&primary, &mut rng, PRIMARY_SAMPLE_SIZE);
    let mut bonus_drawn = sample_articles(&bonus, &mut rng, BONUS_SAMPLE_SIZE);
    let ghost ps = drawn@;
    let ghost bs = bonus_drawn@;
    drawn.append(&mut bonus_drawn);
    proof {
        vstd::seq_lib::lemma_multiset_commutative(ps, bs);
    }
    shuffle_articles(&mut drawn, &mut rng);
    proof {
        broadcast use vstd::seq_lib::group_to_multiset_ensures;
        broadcast use vstd::multiset::group_multiset_axioms;

        assert(ps.to_multiset().subset_of(primary@.to_multiset()) && bs.to_multiset().subset_of(
            bonus@.to_multiset(),
        ) && ps.len() == sample_len(PRIMARY_SAMPLE_SIZE as int, primary@.len()) && bs.len()
            == sample_len(BONUS_SAMPLE_SIZE as int, bonus@.len()) && drawn@.to_multiset()
            == ps.to_multiset().add(bs.to_multiset()));
        assert forall|i: int| 0 <= i < drawn@.len() implies primary@.contains(
            #[trigger] drawn@[i],
        ) || bonus@.contains(drawn@[i]) by {
            let v = drawn@[i];
            assert(drawn@.contains(v));
            assert(drawn@.to_multiset().count(v) > 0);
            if ps.to_multiset().count(v) > 0 {
                assert(primary@.to_multiset().count(v) > 0);
                assert(primary@.contains(v));
            } else {
                assert(bs.to_multiset().count(v) > 0);
                assert(bonus@.to_multiset().count(v) > 0);
                assert(bonus@.contains(v));
            }
        }
        if (forall|i: int| 0 <= i < primary@.len() ==> (#[trigger] primary@[i]).thumb_link is None)
            && (forall|i: int|
            0 <= i < bonus@.len() ==> (#[trigger] bonus@[i]).thumb_link is None) {
            assert forall|i: int| 0 <= i < drawn@.len() implies (#[trigger] drawn@[i]).thumb_link
                is None by {
                let v = drawn@[i];
                if primary@.contains(v) {
                    let j = choose|j: int| 0 <= j < primary@.len() && primary@[j] == v;
                    assert(primary@[j].thumb_link is None);
                } else {
                    assert(bonus@.contains(v));
                    let j = choose|j: int| 0 <= j < bonus@.len() && bonus@[j] == v;
                    assert(bonus@[j].thumb_link is None);
                }
            }
        }
    }
    drawn
}

} // verus!
