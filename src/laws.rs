use vstd::prelude::*;

use crate::error::SyncError;
use crate::issue::Issue;
use crate::sync::{lookup_step, planned_task, title_of, title_prefix, SyncSession, SyncSummary};
use crate::text::has_prefix;
use crate::urls::views;

verus! {

/// The store holds a task whose title begins with `p`.
pub open spec fn store_has(store: Seq<Seq<char>>, p: Seq<char>) -> bool {
    exists|j: int| 0 <= j < store.len() && has_prefix(#[trigger] store[j], p)
}

/// A whole run over the open issues `open` against a store of task titles
/// `store`, as a [`crate::SyncSession`] steps through it (see
/// [`lookup_step`]) when each lookup is answered from the store and each
/// task handed back is added to it: the titles reported as created, the
/// number skipped, and the store after.
pub open spec fn sync_run(store: Seq<Seq<char>>, open: Seq<Issue>, dry_run: bool) -> (
    Seq<Seq<char>>,
    nat,
    Seq<Seq<char>>,
)
    decreases open.len(),
{
    if open.len() == 0 {
        (seq![], 0, store)
    } else {
        let (titles, skipped, now) = sync_run(store, open.drop_last(), dry_run);
        let issue = open.last();
        let found = store_has(now, title_prefix(issue.id_readable@));
        let (t, s) = lookup_step(titles, skipped, issue, found);
        (t, s, if found || dry_run {
            now
        } else {
            now.push(title_of(issue))
        })
    }
}

/// The titles of the issues of `open` that have no task in `store`.
pub open spec fn missing_titles(store: Seq<Seq<char>>, open: Seq<Issue>) -> Seq<Seq<char>>
    decreases open.len(),
{
    if open.len() == 0 {
        seq![]
    } else {
        let rest = missing_titles(store, open.drop_last());
        if store_has(store, title_prefix(open.last().id_readable@)) {
            rest
        } else {
            rest.push(title_of(open.last()))
        }
    }
}

proof fn lemma_title_has_prefix(issue: Issue)
    ensures
        has_prefix(title_of(issue), title_prefix(issue.id_readable@)),
{
    let p = title_prefix(issue.id_readable@);
    assert(title_of(issue).subrange(0, p.len() as int) =~= p);
}

proof fn lemma_run_extends(store: Seq<Seq<char>>, open: Seq<Issue>, dry_run: bool)
    ensures
        ({
            let r = sync_run(store, open, dry_run);
            &&& store.len() <= r.2.len()
            &&& forall|j: int| 0 <= j < store.len() ==> r.2[j] == store[j]
            &&& r.0.len() + r.1 == open.len()
        }),
    decreases open.len(),
{
    if open.len() > 0 {
        lemma_run_extends(store, open.drop_last(), dry_run);
    }
}

proof fn lemma_store_grows(small: Seq<Seq<char>>, big: Seq<Seq<char>>, p: Seq<char>)
    requires
        store_has(small, p),
        small.len() <= big.len(),
        forall|j: int| 0 <= j < small.len() ==> big[j] == small[j],
    ensures
        store_has(big, p),
{
    let j = choose|j: int| 0 <= j < small.len() && has_prefix(#[trigger] small[j], p);
    assert(has_prefix(big[j], p));
}

proof fn lemma_run_covers(store: Seq<Seq<char>>, open: Seq<Issue>)
    ensures
        forall|k: int|
            0 <= k < open.len() ==> store_has(
                sync_run(store, open, false).2,
                title_prefix(#[trigger] open[k].id_readable@),
            ),
    decreases open.len(),
{
    if open.len() > 0 {
        let rest = open.drop_last();
        lemma_run_covers(store, rest);
        let now = sync_run(store, rest, false).2;
        let after = sync_run(store, open, false).2;
        let last = open.last();
        if !store_has(now, title_prefix(last.id_readable@)) {
            lemma_title_has_prefix(last);
            assert(after[now.len() as int] == title_of(last));
        }
        assert forall|k: int| 0 <= k < open.len() implies store_has(
            after,
            title_prefix(#[trigger] open[k].id_readable@),
        ) by {
            if k < open.len() - 1 {
                assert(open[k] == rest[k]);
                lemma_store_grows(now, after, title_prefix(open[k].id_readable@));
            }
        }
    }
}

proof fn lemma_all_found(store: Seq<Seq<char>>, open: Seq<Issue>, dry_run: bool)
    requires
        forall|k: int|
            0 <= k < open.len() ==> store_has(store, title_prefix(#[trigger] open[k].id_readable@)),
    ensures
        sync_run(store, open, dry_run) == (Seq::<Seq<char>>::empty(), open.len(), store),
    decreases open.len(),
{
    if open.len() > 0 {
        let rest = open.drop_last();
        assert forall|k: int| 0 <= k < rest.len() implies store_has(
            store,
            title_prefix(#[trigger] rest[k].id_readable@),
        ) by {
            assert(rest[k] == open[k]);
        }
        lemma_all_found(store, rest, dry_run);
        assert(store_has(store, title_prefix(open[open.len() - 1].id_readable@)));
    }
}

/// Running the synchronization a second time over the same open issues,
/// against the store that a first run (not a dry run) left behind, creates
/// nothing: every open issue is skipped as existing and the store is left
/// as it was.
pub proof fn second_run_creates_nothing(store: Seq<Seq<char>>, open: Seq<Issue>)
    ensures
        ({
            let first = sync_run(store, open, false);
            let second = sync_run(first.2, open, false);
            &&& second.0.len() == 0
            &&& second.1 == open.len()
            &&& second.2 == first.2
        }),
{
    lemma_run_covers(store, open);
    lemma_all_found(sync_run(store, open, false).2, open, false);
}

/// A dry run leaves the store as it was, and reports as created exactly the
/// titles of the open issues that have no task yet, in order; the created
/// and skipped counts add up to the number of open issues.
pub proof fn dry_run_leaves_store(store: Seq<Seq<char>>, open: Seq<Issue>)
    ensures
        sync_run(store, open, true).2 == store,
        sync_run(store, open, true).0 == missing_titles(store, open),
        sync_run(store, open, true).0.len() + sync_run(store, open, true).1 == open.len(),
    decreases open.len(),
{
    lemma_run_extends(store, open, true);
    if open.len() > 0 {
        dry_run_leaves_store(store, open.drop_last());
    }
}

/// Whether `s` begins with `p`.
pub fn starts_with(s: &str, p: &str) -> (r: bool)
    ensures
        r == has_prefix(s@, p@),
{
    let n = p.unicode_len();
    if n > s.unicode_len() {
        return false;
    }
    let mut i: usize = 0;
    while i < n
        invariant
            n == p@.len(),
            n <= s@.len(),
            i <= n,
            forall|j: int| 0 <= j < i ==> s@[j] == p@[j],
        decreases n - i,
    {
        if s.get_char(i) != p.get_char(i) {
            assert(s@.subrange(0, n as int)[i as int] != p@[i as int]);
            return false;
        }
        i = i + 1;
    }
    assert(s@.subrange(0, n as int) =~= p@);
    true
}

/// Whether some title of `store` begins with `prefix`.
pub fn store_has_prefix(store: &Vec<String>, prefix: &str) -> (r: bool)
    ensures
        r == store_has(views(store@), prefix@),
{
    let n = store.len();
    let mut i: usize = 0;
    while i < n
        invariant
            n == store@.len(),
            i <= n,
            forall|j: int| 0 <= j < i ==> !has_prefix(#[trigger] views(store@)[j], prefix@),
        decreases n - i,
    {
        if starts_with(store[i].as_str(), prefix) {
            assert(has_prefix(views(store@)[i as int], prefix@));
            return true;
        }
        i = i + 1;
    }
    false
}

/// Runs a fresh session to its end against a store held as the titles of
/// its tasks: each lookup is answered from the store and each task handed
/// back is added to it. The summary and the store come out as [`sync_run`]
/// gives them; the run fails only where the URL of an issue that has no
/// task cannot be built.
pub fn run_against_titles(session: SyncSession, store: &mut Vec<String>) -> (r: Result<
    SyncSummary,
    SyncError,
>)
    requires
        session.wf(),
        session.position() == 0,
        session.summary_view().created == 0,
        session.summary_view().skipped_existing == 0,
        session.summary_view().created_titles@.len() == 0,
        session.summary_view().open_issues_total == session.open_view().len(),
    ensures
        r is Ok ==> ({
            let summary = r->Ok_0;
            let m = sync_run(views(old(store)@), session.open_view(), summary.dry_run);
            &&& summary.dry_run == session.summary_view().dry_run
            &&& summary.open_issues_total == session.open_view().len()
            &&& views(summary.created_titles@) == m.0
            &&& summary.created == m.0.len()
            &&& summary.skipped_existing == m.1
            &&& views(final(store)@) == m.2
        }),
        r is Err ==> r->Err_0 is IssueUrl,
        r is Err ==> exists|k: int|
            0 <= k < session.open_view().len() && #[trigger] planned_task(
                session.base_view(),
                session.open_view()[k],
            ) is None,
{
    let ghost store0 = views(store@);
    let ghost open = session.open_view();
    let ghost base = session.base_view();
    let ghost dry = session.summary_view().dry_run;
    let mut run = session;
    proof {
        assert(open.take(0) =~= Seq::<Issue>::empty());
        assert(views(run.summary_view().created_titles@) =~= Seq::<Seq<char>>::empty());
    }
    loop
        invariant
            run.wf(),
            open == session.open_view(),
            base == session.base_view(),
            run.open_view() == open,
            run.base_view() == base,
            run.summary_view().dry_run == dry,
            ({
                let m = sync_run(store0, open.take(run.position() as int), dry);
                &&& views(run.summary_view().created_titles@) == m.0
                &&& run.summary_view().skipped_existing == m.1
                &&& views(store@) == m.2
            }),
        ensures
            run.wf(),
            run.position() == open.len(),
            views(run.summary_view().created_titles@) == sync_run(store0, open, dry).0,
            run.summary_view().skipped_existing == sync_run(store0, open, dry).1,
            run.summary_view().dry_run == dry,
            views(store@) == sync_run(store0, open, dry).2,
        decreases open.len() - run.position(),
    {
        let prefix = match run.current_prefix() {
            None => {
                proof {
                    assert(open.take(open.len() as int) =~= open);
                }
                break ;
            },
            Some(p) => p,
        };
        let ghost pos = run.position() as int;
        let ghost before = views(store@);
        let found = store_has_prefix(store, prefix.as_str());
        match run.on_lookup(found) {
            Err(e) => {
                assert(planned_task(base, open[pos]) is None);
                return Err(e);
            },
            Ok(Some(draft)) => {
                store.push(draft.title);
                proof {
                    assert(views(store@) =~= before.push(title_of(open[pos])));
                }
            },
            Ok(None) => {},
        }
        proof {
            assert(open.take(pos + 1).drop_last() =~= open.take(pos));
            assert(open.take(pos + 1).last() == open[pos]);
        }
    }
    Ok(run.into_summary())
}

} // verus!
