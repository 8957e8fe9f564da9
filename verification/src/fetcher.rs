//! What becomes of the outcomes of fetching: which articles a source
//! yields when some of its targets fail, and what a run yields when some of
//! its sources do.

use vstd::prelude::*;
use vstd::string::*;
use crate::error::{AppError, AppErrorView};
use crate::metrics::{advanced, Metrics, MetricsView};
use crate::model::Article;

verus! {

/// The articles among `outcomes`, in the order of `outcomes`.
pub open spec fn successes(outcomes: Seq<Result<Article, AppError>>) -> Seq<Article>
    decreases outcomes.len(),
{
    if outcomes.len() == 0 {
        Seq::empty()
    } else {
        let earlier = successes(outcomes.drop_last());
        match outcomes.last() {
            Ok(article) => earlier.push(article),
            Err(_) => earlier,
        }
    }
}

/// The counters after the outcomes of a source's targets were recorded: one
/// article obtained for every success, one given up for every failure.
pub open spec fn recorded(before: MetricsView, outcomes: Seq<Result<Article, AppError>>)
    -> MetricsView {
    let obtained = successes(outcomes).len();
    MetricsView {
        articles_fetched: advanced(before.articles_fetched, obtained),
        articles_failed: advanced(before.articles_failed, (outcomes.len() - obtained) as nat),
        ..before
    }
}

/// There are no more articles among outcomes than outcomes.
pub proof fn lemma_successes_len(outcomes: Seq<Result<Article, AppError>>)
    ensures
        successes(outcomes).len() <= outcomes.len(),
    decreases outcomes.len(),
{
    if outcomes.len() > 0 {
        lemma_successes_len(outcomes.drop_last());
    }
}

/// One target that delivers is enough: outcomes with a success among them
/// hold an article, so the source does not fail, whatever became of the
/// other targets.
pub proof fn lemma_one_success_suffices(outcomes: Seq<Result<Article, AppError>>, i: int)
    requires
        0 <= i < outcomes.len(),
        outcomes[i] is Ok,
    ensures
        successes(outcomes).len() > 0,
    decreases outcomes.len(),
{
    if i < outcomes.len() - 1 {
        lemma_one_success_suffices(outcomes.drop_last(), i);
    }
}

/// Where the counters have room for the outcomes, every success raises the
/// count of articles obtained by one and every failure the count of
/// articles given up by one, and the other counters stay.
pub proof fn lemma_recorded_with_room(
    before: MetricsView,
    outcomes: Seq<Result<Article, AppError>>,
)
    requires
        before.articles_fetched + successes(outcomes).len() <= u64::MAX,
        before.articles_failed + outcomes.len() - successes(outcomes).len() <= u64::MAX,
    ensures
        successes(outcomes).len() <= outcomes.len(),
        recorded(before, outcomes).articles_fetched == before.articles_fetched + successes(
            outcomes,
        ).len(),
        recorded(before, outcomes).articles_failed == before.articles_failed + outcomes.len()
            - successes(outcomes).len(),
        recorded(before, outcomes).http_requests == before.http_requests,
        recorded(before, outcomes).http_failures == before.http_failures,
{
    lemma_successes_len(outcomes);
}

/// Gathers what the targets of `source` came to. Failed targets are counted
/// and left out; they never fail the source. A source without a single
/// article reports that instead of an empty list.
pub fn collect_articles(
    source: &str,
    outcomes: Vec<Result<Article, AppError>>,
    metrics: &mut Metrics,
) -> (res: Result<Vec<Article>, AppError>)
    ensures
        final(metrics)@ == recorded(old(metrics)@, outcomes@),
        match res {
            Ok(articles) => articles@ == successes(outcomes@) && articles@.len() > 0,
            Err(e) => successes(outcomes@).len() == 0 && e@ == AppErrorView::NoArticlesError(
                source@,
            ),
        },
{
    let ghost all = outcomes@;
    let ghost start = metrics@;
    let mut rest = outcomes;
    let mut articles: Vec<Article> = Vec::new();
    let mut i: usize = 0;
    let n = rest.len();
    proof {
        assert(all.take(0) =~= Seq::<Result<Article, AppError>>::empty());
        metrics.lemma_counts_fit();
    }
    while i < n
        invariant
            i <= n,
            n == all.len(),
            rest@ == all.skip(i as int),
            articles@ == successes(all.take(i as int)),
            metrics@ == recorded(start, all.take(i as int)),
        decreases n - i,
    {
        let outcome = rest.remove(0);
        proof {
            assert(outcome == all[i as int]);
            assert(all.take(i + 1).drop_last() =~= all.take(i as int));
            assert(rest@ =~= all.skip(i + 1));
            lemma_successes_len(all.take(i as int));
        }
        match outcome {
            Ok(article) => {
                articles.push(article);
                metrics.record_article_fetched();
            },
            Err(_) => {
                metrics.record_article_failed();
            },
        }
        i += 1;
    }
    assert(all.take(n as int) =~= all);
    if articles.len() == 0 {
        Err(AppError::NoArticlesError(String::from_str(source)))
    } else {
        Ok(articles)
    }
}

/// The first `limit` of `targets`, or all of them if there are fewer.
pub open spec fn capped_targets(targets: Seq<u64>, limit: nat) -> Seq<u64> {
    if targets.len() <= limit {
        targets
    } else {
        targets.take(limit as int)
    }
}

/// Cuts the work list of a source down to its first `limit` targets.
pub fn limit_targets(targets: Vec<u64>, limit: usize) -> (res: Vec<u64>)
    ensures
        res@ == capped_targets(targets@, limit as nat),
{
    let mut kept = targets;
    if kept.len() > limit {
        kept.truncate(limit);
        assert(kept@ =~= targets@.take(limit as int));
    }
    kept
}

/// What a run returns when cancellation was requested while some sources
/// had already delivered.
#[derive(Debug, Clone, Copy)]
pub enum CancelPolicy {
    /// Return what was delivered.
    KeepPartial,
    /// Report the cancellation and return nothing.
    Discard,
}

/// The articles of the sources that delivered, source after source.
pub open spec fn merged(results: Seq<Result<Vec<Article>, AppError>>) -> Seq<Article>
    decreases results.len(),
{
    if results.len() == 0 {
        Seq::empty()
    } else {
        let earlier = merged(results.drop_last());
        match results.last() {
            Ok(articles) => earlier + articles@,
            Err(_) => earlier,
        }
    }
}

/// One source that delivers is enough: results with a source among them
/// that brought an article hold an article, so a run that was not
/// cancelled does not fail, whatever became of the other sources.
pub proof fn lemma_one_source_suffices(results: Seq<Result<Vec<Article>, AppError>>, i: int)
    requires
        0 <= i < results.len(),
        results[i] matches Ok(articles) && articles@.len() > 0,
    ensures
        merged(results).len() > 0,
    decreases results.len(),
{
    if i < results.len() - 1 {
        lemma_one_source_suffices(results.drop_last(), i);
    }
}

/// Whether a cancelled run still returns the articles it has.
pub open spec fn keeps_partial(policy: CancelPolicy) -> bool {
    policy is KeepPartial
}

/// Merges what the sources came to. A source that failed is left out and
/// does not fail the run.
///
/// The run fails in two cases only. With no article from any source it
/// reports that no articles were found, or the cancellation if one was
/// requested. With articles at hand and cancellation requested, `policy`
/// decides between the articles and the cancellation.
pub fn merge_sources(
    results: Vec<Result<Vec<Article>, AppError>>,
    cancelled: bool,
    policy: CancelPolicy,
) -> (res: Result<Vec<Article>, AppError>)
    ensures
        match res {
            Ok(articles) => {
                &&& articles@ == merged(results@)
                &&& articles@.len() > 0
                &&& cancelled ==> keeps_partial(policy)
            },
            Err(e) => if cancelled {
                &&& e@ == AppErrorView::ShutdownError
                &&& merged(results@).len() == 0 || !keeps_partial(policy)
            } else {
                &&& e@ == AppErrorView::NoArticlesError("all sources"@)
                &&& merged(results@).len() == 0
            },
        },
{
    let ghost all = results@;
    let mut rest = results;
    let mut articles: Vec<Article> = Vec::new();
    let n = rest.len();
    let mut i: usize = 0;
    assert(all.take(0) =~= Seq::<Result<Vec<Article>, AppError>>::empty());
    while i < n
        invariant
            i <= n,
            n == all.len(),
            rest@ == all.skip(i as int),
            articles@ == merged(all.take(i as int)),
        decreases n - i,
    {
        let result = rest.remove(0);
        proof {
            assert(result == all[i as int]);
            assert(all.take(i + 1).drop_last() =~= all.take(i as int));
            assert(rest@ =~= all.skip(i + 1));
        }
        match result {
            Ok(mut found) => {
                articles.append(&mut found);
            },
            Err(_) => {},
        }
        i += 1;
    }
    assert(all.take(n as int) =~= all);
    if cancelled {
        match policy {
            CancelPolicy::KeepPartial => {
                if articles.len() > 0 {
                    return Ok(articles);
                }
            },
            CancelPolicy::Discard => {},
        }
        return Err(AppError::ShutdownError);
    }
    if articles.len() == 0 {
        return Err(AppError::NoArticlesError(String::from_str("all sources")));
    }
    Ok(articles)
}

/// The fan-out over the targets of one source: which target is fetched
/// next, and whether another fetch may start.
///
/// The caller runs the fetches. It asks [`FanOut::launch`] for a target
/// whenever it could start a fetch, and tells [`FanOut::complete`] when a
/// fetch has ended, however it ended.
#[derive(Debug)]
pub struct FanOut {
    targets: Vec<u64>,
    launched: usize,
    in_flight: usize,
    limit: usize,
}

/// The mathematical content of a [`FanOut`].
pub struct FanOutView {
    pub targets: Seq<u64>,
    /// How many targets have been handed out, counted from the first.
    pub launched: nat,
    /// How many fetches are running.
    pub in_flight: nat,
    /// How many fetches may run at once.
    pub limit: nat,
}

impl FanOutView {
    /// Never more fetches are running than allowed, nor more than were
    /// started, and no target is handed out that is not there.
    pub open spec fn wf(self) -> bool {
        &&& self.limit >= 1
        &&& self.in_flight <= self.limit
        &&& self.in_flight <= self.launched
        &&& self.launched <= self.targets.len()
    }

    /// Whether a fetch may start now.
    pub open spec fn may_launch(self, cancelled: bool) -> bool {
        !cancelled && self.launched < self.targets.len() && self.in_flight < self.limit
    }

    /// Whether the fan-out is over: nothing runs, and nothing more will be
    /// started.
    pub open spec fn finished(self, cancelled: bool) -> bool {
        self.in_flight == 0 && (cancelled || self.launched == self.targets.len())
    }
}

impl View for FanOut {
    type V = FanOutView;

    closed spec fn view(&self) -> FanOutView {
        FanOutView {
            targets: self.targets@,
            launched: self.launched as nat,
            in_flight: self.in_flight as nat,
            limit: self.limit as nat,
        }
    }
}

impl FanOut {
    #[verifier::type_invariant]
    spec fn inv(self) -> bool {
        &&& self.limit >= 1
        &&& self.in_flight <= self.limit
        &&& self.in_flight <= self.launched
        &&& self.launched <= self.targets@.len()
    }

    /// A fan-out over `targets` in which at most `limit` fetches run at
    /// once. A limit of zero is refused: no fetch could ever start.
    pub fn new(targets: Vec<u64>, limit: usize) -> (res: Result<FanOut, AppError>)
        ensures
            match res {
                Ok(fan) => limit >= 1 && fan@ == (FanOutView {
                    targets: targets@,
                    launched: 0,
                    in_flight: 0,
                    limit: limit as nat,
                }),
                Err(e) => limit == 0 && e@ == AppErrorView::ConfigError(
                    "max_concurrent_requests must be greater than 0"@,
                ),
            },
    {
        if limit == 0 {
            return Err(
                AppError::ConfigError(
                    String::from_str("max_concurrent_requests must be greater than 0"),
                ),
            );
        }
        Ok(FanOut { targets, launched: 0, in_flight: 0, limit })
    }

    /// Hands out the next target if a fetch may start: if cancellation has
    /// not been requested, a target is left, and fewer fetches are running
    /// than allowed. Targets are handed out in their order.
    pub fn launch(&mut self, cancelled: bool) -> (res: Option<u64>)
        ensures
            old(self)@.wf(),
            final(self)@.wf(),
            match res {
                Some(target) => {
                    &&& old(self)@.may_launch(cancelled)
                    &&& target == old(self)@.targets[old(self)@.launched as int]
                    &&& final(self)@ == (FanOutView {
                        launched: old(self)@.launched + 1,
                        in_flight: old(self)@.in_flight + 1,
                        ..old(self)@
                    })
                },
                None => !old(self)@.may_launch(cancelled) && final(self)@ == old(self)@,
            },
    {
        proof {
            use_type_invariant(&*self);
        }
        if cancelled || self.launched >= self.targets.len() || self.in_flight >= self.limit {
            return None;
        }
        let target = self.targets[self.launched];
        self.launched = self.launched + 1;
        self.in_flight = self.in_flight + 1;
        Some(target)
    }

    /// Records that a fetch has ended. Returns whether one was running; if
    /// none was, nothing changes.
    pub fn complete(&mut self) -> (res: bool)
        ensures
            final(self)@.wf(),
            res == (old(self)@.in_flight > 0),
            final(self)@ == (FanOutView {
                in_flight: if res {
                    (old(self)@.in_flight - 1) as nat
                } else {
                    0
                },
                ..old(self)@
            }),
    {
        proof {
            use_type_invariant(&*self);
        }
        if self.in_flight == 0 {
            return false;
        }
        self.in_flight = self.in_flight - 1;
        true
    }

    /// Whether the fan-out is over.
    pub fn is_finished(&self, cancelled: bool) -> (res: bool)
        ensures
            res == self@.finished(cancelled),
    {
        self.in_flight == 0 && (cancelled || self.launched == self.targets.len())
    }

    /// How many fetches are running: never more than the limit.
    pub fn in_flight(&self) -> (n: usize)
        ensures
            n == self@.in_flight,
            n <= self@.limit,
    {
        proof {
            use_type_invariant(self);
        }
        self.in_flight
    }
}

} // verus!
