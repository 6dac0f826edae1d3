//! The crawl loop as an explicit state machine, and the download
//! dispatcher's planning and settlement.
//!
//! The loop itself is a pure transition function: the driver performs one
//! action (fetch, dispatch, pause), hands the resulting event back, and the
//! next state and action follow from state and event alone. That makes the
//! termination condition (an empty cursor), the stall guard (a repeated
//! cursor), and the pacing delay independently checkable, with all network
//! and file effects left to the driver.

use vstd::prelude::*;

use crate::model::{picture_jobs, Blog, BlogV, DownloadJob, JobV, UserInfo};
use crate::service::FetchError;
use crate::text::{pad4, pad4_str};

verus! {

/// Why a crawl ended before natural exhaustion.
#[derive(Debug, Clone, Copy, PartialEq, Eq, Structural)]
pub enum AbortReason {
    /// A profile- or page-stage fetch or decode failed; fatal, because
    /// there is no partial profile or page.
    Fetch(FetchError),
    /// Two consecutive fetches returned the same non-empty cursor.
    StallDetected,
    /// The profile decoded but carried no feed container identifier.
    FeedAddressMissing,
    /// The caller asked the crawl to stop.
    Cancelled,
}

/// The loop's control position.
#[derive(Debug, Clone, Copy, PartialEq, Eq, Structural)]
pub enum CrawlPhase {
    FetchingProfile,
    FetchingPage,
    Dispatching,
    Pausing,
    Done,
    Aborted,
}

/// The crawl's whole state: control position, the rolling cursor, the feed
/// address, the output root, and the progress counters. It lives for one
/// crawl invocation and is never persisted.
#[derive(Debug, Clone, PartialEq, Eq)]
pub struct CrawlState {
    pub phase: CrawlPhase,
    /// The feed container identifier, set once from the profile.
    pub cid: String,
    /// The cursor the current page fetch uses; empty on the first page.
    pub cursor: String,
    /// The cursor the just-fetched page reported, applied after the pause.
    pub pending_cursor: String,
    /// The output root under which page directories are created.
    pub base: String,
    /// How many page fetches have returned.
    pub pages_fetched: u64,
    /// How many pages have been fully dispatched.
    pub pages_done: u64,
    /// How many posts have been seen, for per-post directory ordinals.
    pub posts_done: u64,
    /// Why the crawl aborted, once `phase` is `Aborted`.
    pub abort: Option<AbortReason>,
}

/// The mathematical view of a `CrawlState`.
pub struct CrawlStateV {
    pub phase: CrawlPhase,
    pub cid: Seq<char>,
    pub cursor: Seq<char>,
    pub pending_cursor: Seq<char>,
    pub base: Seq<char>,
    pub pages_fetched: u64,
    pub pages_done: u64,
    pub posts_done: u64,
    pub abort: Option<AbortReason>,
}

impl View for CrawlState {
    type V = CrawlStateV;

    open spec fn view(&self) -> CrawlStateV {
        CrawlStateV {
            phase: self.phase,
            cid: self.cid@,
            cursor: self.cursor@,
            pending_cursor: self.pending_cursor@,
            base: self.base@,
            pages_fetched: self.pages_fetched,
            pages_done: self.pages_done,
            posts_done: self.posts_done,
            abort: self.abort,
        }
    }
}

/// What the driver hands back to the loop.
#[derive(Debug)]
pub enum CrawlEvent {
    /// The profile fetch settled: decoded metadata, or why it failed.
    ProfileResult(Result<UserInfo, FetchError>),
    /// A page fetch settled: the posts and the next cursor, or why it
    /// failed.
    PageResult(Result<(Vec<Blog>, String), FetchError>),
    /// Every download of the dispatched page has settled.
    Dispatched,
    /// The pacing delay has elapsed.
    Paused,
    /// The caller asked the crawl to stop.
    Cancelled,
}

/// The mathematical view of a `CrawlEvent`.
pub enum CrawlEventV {
    ProfileResult(Result<UserInfoV, FetchError>),
    PageResult(Result<(Seq<BlogV>, Seq<char>), FetchError>),
    Dispatched,
    Paused,
    Cancelled,
}

use crate::model::UserInfoV;

impl View for CrawlEvent {
    type V = CrawlEventV;

    open spec fn view(&self) -> CrawlEventV {
        match self {
            CrawlEvent::ProfileResult(res) => CrawlEventV::ProfileResult(
                match res {
                    Ok(u) => Ok(u@),
                    Err(e) => Err(*e),
                },
            ),
            CrawlEvent::PageResult(res) => CrawlEventV::PageResult(
                match res {
                    Ok(p) => Ok((p.0@.map_values(|b: Blog| b@), p.1@)),
                    Err(e) => Err(*e),
                },
            ),
            CrawlEvent::Dispatched => CrawlEventV::Dispatched,
            CrawlEvent::Paused => CrawlEventV::Paused,
            CrawlEvent::Cancelled => CrawlEventV::Cancelled,
        }
    }
}

/// What the driver is asked to do next.
#[derive(Debug)]
pub enum CrawlAction {
    /// Fetch the profile of the target user.
    FetchProfile,
    /// Fetch one page, addressed by the state's feed container and cursor.
    FetchPage,
    /// Run the given downloads, concurrently if the driver wishes, and
    /// report back once every one has settled.
    Dispatch(Vec<DownloadJob>),
    /// Sleep the given number of seconds before the next fetch.
    Pause(u64),
    /// The crawl is over; nothing more to do.
    Stop,
}

/// The mathematical view of a `CrawlAction`.
pub enum CrawlActionV {
    FetchProfile,
    FetchPage,
    Dispatch(Seq<JobV>),
    Pause(u64),
    Stop,
}

impl View for CrawlAction {
    type V = CrawlActionV;

    open spec fn view(&self) -> CrawlActionV {
        match self {
            CrawlAction::FetchProfile => CrawlActionV::FetchProfile,
            CrawlAction::FetchPage => CrawlActionV::FetchPage,
            CrawlAction::Dispatch(jobs) => CrawlActionV::Dispatch(
                jobs@.map_values(|j: DownloadJob| j@),
            ),
            CrawlAction::Pause(secs) => CrawlActionV::Pause(*secs),
            CrawlAction::Stop => CrawlActionV::Stop,
        }
    }
}

/// Addition on the progress counters, pinned at the top of the range.
pub open spec fn sat64(x: int) -> u64 {
    if x > u64::MAX {
        u64::MAX
    } else if x < 0 {
        0
    } else {
        x as u64
    }
}

fn sat_add(a: u64, b: u64) -> (r: u64)
    ensures
        r == sat64(a as int + b as int),
{
    if a > u64::MAX - b {
        u64::MAX
    } else {
        a + b
    }
}

/// The downloads of one page's posts, each post into a directory named by
/// its crawl-wide ordinal (one-based, zero-padded) under the output root.
pub open spec fn page_dir(base: Seq<char>, ordinal: u64) -> Seq<char> {
    base + seq!['/'] + pad4_str(ordinal as nat)
}

/// The downloads of the media references of one post, all into one
/// directory.
pub open spec fn pics_jobs(pics: Seq<crate::model::PictureV>, dir: Seq<char>) -> Seq<JobV>
    decreases pics.len(),
{
    if pics.len() == 0 {
        Seq::empty()
    } else {
        pics_jobs(pics.drop_last(), dir) + picture_jobs(pics.last(), dir)
    }
}

/// The downloads of the first `k` posts of a page whose crawl started with
/// `done` posts already seen.
pub open spec fn page_jobs_upto(blogs: Seq<BlogV>, base: Seq<char>, done: u64, k: int) -> Seq<JobV>
    decreases k,
{
    if k <= 0 {
        Seq::empty()
    } else {
        page_jobs_upto(blogs, base, done, k - 1) + pics_jobs(
            blogs[k - 1].pictures,
            page_dir(base, sat64(done + k)),
        )
    }
}

/// All downloads of one page.
pub open spec fn page_jobs(blogs: Seq<BlogV>, base: Seq<char>, done: u64) -> Seq<JobV> {
    page_jobs_upto(blogs, base, done, blogs.len() as int)
}

/// Plans one page's downloads, as `page_jobs` states them: posts keep their
/// source order, and each post's directory ordinal is unique by
/// construction.
pub fn plan_page_jobs(blogs: &Vec<Blog>, base: &str, posts_done: u64) -> (jobs: Vec<DownloadJob>)
    ensures
        jobs@.map_values(|j: DownloadJob| j@) == page_jobs(
            blogs@.map_values(|b: Blog| b@),
            base@,
            posts_done,
        ),
{
    let ghost bs = blogs@.map_values(|b: Blog| b@);
    let mut jobs: Vec<DownloadJob> = Vec::new();
    let n = blogs.len();
    proof {
        assert(jobs@.map_values(|j: DownloadJob| j@) =~= Seq::<JobV>::empty());
    }
    for i in 0..n
        invariant
            n == blogs.len(),
            bs == blogs@.map_values(|b: Blog| b@),
            bs.len() == n,
            jobs@.map_values(|j: DownloadJob| j@) =~= page_jobs_upto(bs, base@, posts_done, i as int),
    {
        let inc: u64 = (i as u64) + 1;
        let ordinal = sat_add(posts_done, inc);
        let mut dir = String::from_str(base);
        dir.append("/");
        let padded = pad4(ordinal);
        dir.append(padded.as_str());
        proof {
            reveal_strlit("/");
            assert(dir@ =~= page_dir(base@, ordinal));
        }
        let pics = &blogs[i].pictures;
        let m = pics.len();
        let ghost ps = bs[i as int].pictures;
        proof {
            assert(ps == pics@.map_values(|p: crate::model::Picture| p@));
            assert(pics_jobs(ps.subrange(0, 0), dir@) =~= Seq::<JobV>::empty());
        }
        let mut batch: Vec<DownloadJob> = Vec::new();
        proof {
            assert(batch@.map_values(|j: DownloadJob| j@) =~= Seq::<JobV>::empty());
        }
        for t in 0..m
            invariant
                m == pics.len(),
                ps == pics@.map_values(|p: crate::model::Picture| p@),
                ps.len() == m,
                batch@.map_values(|j: DownloadJob| j@) =~= pics_jobs(
                    ps.subrange(0, t as int),
                    dir@,
                ),
        {
            let mut one = pics[t].download_await(dir.clone());
            let ghost old_batch = batch@;
            let ghost one_view = one@;
            batch.append(&mut one);
            proof {
                let q = ps.subrange(0, t + 1);
                assert(q.drop_last() =~= ps.subrange(0, t as int));
                assert(q.last() == ps[t as int]);
                assert(batch@ =~= old_batch + one_view);
                assert(batch@.map_values(|j: DownloadJob| j@) =~= old_batch.map_values(
                    |j: DownloadJob| j@,
                ) + one_view.map_values(|j: DownloadJob| j@));
            }
        }
        proof {
            assert(ps.subrange(0, m as int) =~= ps);
        }
        let ghost old_jobs = jobs@;
        let ghost batch_view = batch@;
        jobs.append(&mut batch);
        proof {
            assert(jobs@ =~= old_jobs + batch_view);
            assert(jobs@.map_values(|j: DownloadJob| j@) =~= old_jobs.map_values(
                |j: DownloadJob| j@,
            ) + batch_view.map_values(|j: DownloadJob| j@));
        }
    }
    proof {
        assert(page_jobs_upto(bs, base@, posts_done, n as int) == page_jobs(bs, base@, posts_done));
    }
    jobs
}

/// The transition relation of the crawl loop, one step per event.
///
/// Fetching the profile succeeds into the first page fetch only when the
/// profile carries a feed address; a failed fetch or decode aborts. A
/// fetched page whose cursor repeats the cursor just used aborts as a
/// stall; otherwise the page's downloads are dispatched, a pause of
/// `pause_secs` follows, and an empty reported cursor ends the crawl. A
/// cancellation takes effect at the start of any transition. A terminal
/// state, or an event that does not answer the current phase, changes
/// nothing.
pub open spec fn spec_step(s: CrawlStateV, e: CrawlEventV, pause_secs: u64) -> (
    CrawlStateV,
    CrawlActionV,
) {
    if e is Cancelled {
        if s.phase == CrawlPhase::Done || s.phase == CrawlPhase::Aborted {
            (s, CrawlActionV::Stop)
        } else {
            (
                CrawlStateV { phase: CrawlPhase::Aborted, abort: Some(AbortReason::Cancelled), ..s },
                CrawlActionV::Stop,
            )
        }
    } else if s.phase == CrawlPhase::FetchingProfile && e is ProfileResult {
        match e->ProfileResult_0 {
            Ok(u) => if u.cid.len() == 0 {
                (
                    CrawlStateV {
                        phase: CrawlPhase::Aborted,
                        abort: Some(AbortReason::FeedAddressMissing),
                        ..s
                    },
                    CrawlActionV::Stop,
                )
            } else {
                (
                    CrawlStateV {
                        phase: CrawlPhase::FetchingPage,
                        cid: u.cid,
                        cursor: Seq::empty(),
                        ..s
                    },
                    CrawlActionV::FetchPage,
                )
            },
            Err(err) => (
                CrawlStateV {
                    phase: CrawlPhase::Aborted,
                    abort: Some(AbortReason::Fetch(err)),
                    ..s
                },
                CrawlActionV::Stop,
            ),
        }
    } else if s.phase == CrawlPhase::FetchingPage && e is PageResult {
        let fetched = sat64(s.pages_fetched + 1);
        match e->PageResult_0 {
            Ok(page) => if page.1.len() > 0 && page.1 == s.cursor {
                (
                    CrawlStateV {
                        phase: CrawlPhase::Aborted,
                        pages_fetched: fetched,
                        abort: Some(AbortReason::StallDetected),
                        ..s
                    },
                    CrawlActionV::Stop,
                )
            } else {
                (
                    CrawlStateV {
                        phase: CrawlPhase::Dispatching,
                        pending_cursor: page.1,
                        pages_fetched: fetched,
                        posts_done: sat64(s.posts_done + page.0.len()),
                        ..s
                    },
                    CrawlActionV::Dispatch(page_jobs(page.0, s.base, s.posts_done)),
                )
            },
            Err(err) => (
                CrawlStateV {
                    phase: CrawlPhase::Aborted,
                    pages_fetched: fetched,
                    abort: Some(AbortReason::Fetch(err)),
                    ..s
                },
                CrawlActionV::Stop,
            ),
        }
    } else if s.phase == CrawlPhase::Dispatching && e is Dispatched {
        (
            CrawlStateV {
                phase: CrawlPhase::Pausing,
                pages_done: sat64(s.pages_done + 1),
                ..s
            },
            CrawlActionV::Pause(pause_secs),
        )
    } else if s.phase == CrawlPhase::Pausing && e is Paused {
        if s.pending_cursor.len() == 0 {
            (CrawlStateV { phase: CrawlPhase::Done, ..s }, CrawlActionV::Stop)
        } else {
            (
                CrawlStateV {
                    phase: CrawlPhase::FetchingPage,
                    cursor: s.pending_cursor,
                    pending_cursor: Seq::empty(),
                    ..s
                },
                CrawlActionV::FetchPage,
            )
        }
    } else {
        (s, CrawlActionV::Stop)
    }
}

/// The state a crawl starts in: about to fetch the profile, cursor empty,
/// nothing counted.
pub open spec fn start_state(base: Seq<char>) -> CrawlStateV {
    CrawlStateV {
        phase: CrawlPhase::FetchingProfile,
        cid: Seq::empty(),
        cursor: Seq::empty(),
        pending_cursor: Seq::empty(),
        base: base,
        pages_fetched: 0,
        pages_done: 0,
        posts_done: 0,
        abort: None,
    }
}

/// Begins a crawl writing under `base`; the first action is the profile
/// fetch.
pub fn crawl_start(base: String) -> (r: (CrawlState, CrawlAction))
    ensures
        r.0@ == start_state(base@),
        r.1@ == CrawlActionV::FetchProfile,
{
    let state = CrawlState {
        phase: CrawlPhase::FetchingProfile,
        cid: String::new(),
        cursor: String::new(),
        pending_cursor: String::new(),
        base,
        pages_fetched: 0,
        pages_done: 0,
        posts_done: 0,
        abort: None,
    };
    (state, CrawlAction::FetchProfile)
}

/// Takes one step of the crawl loop, as `spec_step` states it.
pub fn crawl_step(state: CrawlState, event: CrawlEvent, pause_secs: u64) -> (r: (
    CrawlState,
    CrawlAction,
))
    ensures
        r.0@ == spec_step(state@, event@, pause_secs).0,
        r.1@ == spec_step(state@, event@, pause_secs).1,
{
    match event {
        CrawlEvent::Cancelled => {
            if matches!(state.phase, CrawlPhase::Done) || matches!(state.phase, CrawlPhase::Aborted)
            {
                (state, CrawlAction::Stop)
            } else {
                (
                    CrawlState {
                        phase: CrawlPhase::Aborted,
                        abort: Some(AbortReason::Cancelled),
                        ..state
                    },
                    CrawlAction::Stop,
                )
            }
        },
        CrawlEvent::ProfileResult(res) => {
            if !matches!(state.phase, CrawlPhase::FetchingProfile) {
                return (state, CrawlAction::Stop);
            }
            match res {
                Ok(u) => {
                    if u.cid.as_str().is_empty() {
                        (
                            CrawlState {
                                phase: CrawlPhase::Aborted,
                                abort: Some(AbortReason::FeedAddressMissing),
                                ..state
                            },
                            CrawlAction::Stop,
                        )
                    } else {
                        (
                            CrawlState {
                                phase: CrawlPhase::FetchingPage,
                                cid: u.cid,
                                cursor: String::new(),
                                ..state
                            },
                            CrawlAction::FetchPage,
                        )
                    }
                },
                Err(err) => (
                    CrawlState {
                        phase: CrawlPhase::Aborted,
                        abort: Some(AbortReason::Fetch(err)),
                        ..state
                    },
                    CrawlAction::Stop,
                ),
            }
        },
        CrawlEvent::PageResult(res) => {
            if !matches!(state.phase, CrawlPhase::FetchingPage) {
                return (state, CrawlAction::Stop);
            }
            let fetched = sat_add(state.pages_fetched, 1);
            match res {
                Ok(page) => {
                    let (blogs, next) = page;
                    let stalled = !next.as_str().is_empty() && crate::text::str_eq(
                        next.as_str(),
                        state.cursor.as_str(),
                    );
                    if stalled {
                        (
                            CrawlState {
                                phase: CrawlPhase::Aborted,
                                pages_fetched: fetched,
                                abort: Some(AbortReason::StallDetected),
                                ..state
                            },
                            CrawlAction::Stop,
                        )
                    } else {
                        let jobs = plan_page_jobs(&blogs, state.base.as_str(), state.posts_done);
                        let posts = sat_add(state.posts_done, blogs.len() as u64);
                        (
                            CrawlState {
                                phase: CrawlPhase::Dispatching,
                                pending_cursor: next,
                                pages_fetched: fetched,
                                posts_done: posts,
                                ..state
                            },
                            CrawlAction::Dispatch(jobs),
                        )
                    }
                },
                Err(err) => (
                    CrawlState {
                        phase: CrawlPhase::Aborted,
                        pages_fetched: fetched,
                        abort: Some(AbortReason::Fetch(err)),
                        ..state
                    },
                    CrawlAction::Stop,
                ),
            }
        },
        CrawlEvent::Dispatched => {
            if !matches!(state.phase, CrawlPhase::Dispatching) {
                return (state, CrawlAction::Stop);
            }
            let done = sat_add(state.pages_done, 1);
            (
                CrawlState { phase: CrawlPhase::Pausing, pages_done: done, ..state },
                CrawlAction::Pause(pause_secs),
            )
        },
        CrawlEvent::Paused => {
            if !matches!(state.phase, CrawlPhase::Pausing) {
                return (state, CrawlAction::Stop);
            }
            if state.pending_cursor.as_str().is_empty() {
                (CrawlState { phase: CrawlPhase::Done, ..state }, CrawlAction::Stop)
            } else {
                (
                    CrawlState {
                        phase: CrawlPhase::FetchingPage,
                        cursor: state.pending_cursor,
                        pending_cursor: String::new(),
                        ..state
                    },
                    CrawlAction::FetchPage,
                )
            }
        },
    }
}

/// The crawl as the driver runs it, over a given script of page-fetch
/// results: from a page-fetching state, each page result is stepped
/// through fetch, dispatch, and pause, until the loop leaves the
/// page-fetching phase or the script runs out. The pause length does not
/// affect the state, so the script alone decides the outcome.
pub open spec fn run_from(
    s: CrawlStateV,
    pages: Seq<Result<(Seq<BlogV>, Seq<char>), FetchError>>,
    i: int,
) -> CrawlStateV
    decreases pages.len() - i,
{
    if s.phase != CrawlPhase::FetchingPage || i < 0 || i >= pages.len() {
        s
    } else {
        let after_fetch = spec_step(s, CrawlEventV::PageResult(pages[i]), 0).0;
        if after_fetch.phase == CrawlPhase::Dispatching {
            let after_dispatch = spec_step(after_fetch, CrawlEventV::Dispatched, 0).0;
            let after_pause = spec_step(after_dispatch, CrawlEventV::Paused, 0).0;
            run_from(after_pause, pages, i + 1)
        } else {
            after_fetch
        }
    }
}

/// A whole crawl: the profile result first, then the page script.
pub open spec fn spec_crawl(
    base: Seq<char>,
    profile: Result<UserInfoV, FetchError>,
    pages: Seq<Result<(Seq<BlogV>, Seq<char>), FetchError>>,
) -> CrawlStateV {
    let after_profile = spec_step(
        start_state(base),
        CrawlEventV::ProfileResult(profile),
        0,
    ).0;
    run_from(after_profile, pages, 0)
}

/// The cursor a successful page result reports.
pub open spec fn cursor_of(page: Result<(Seq<BlogV>, Seq<char>), FetchError>) -> Seq<char> {
    page->Ok_0.1
}

proof fn lemma_run_exhausts(
    s: CrawlStateV,
    pages: Seq<Result<(Seq<BlogV>, Seq<char>), FetchError>>,
    i: int,
)
    requires
        s.phase == CrawlPhase::FetchingPage,
        0 <= i < pages.len(),
        forall|j: int| i <= j < pages.len() ==> pages[j] is Ok,
        cursor_of(pages[pages.len() - 1]).len() == 0,
        forall|j: int| i <= j < pages.len() - 1 ==> cursor_of(pages[j]).len() > 0,
        s.cursor != cursor_of(pages[i]) || cursor_of(pages[i]).len() == 0,
        forall|j: int| i <= j < pages.len() - 1 ==> cursor_of(#[trigger] pages[j]) != cursor_of(pages[j + 1]),
        s.pages_fetched + (pages.len() - i) <= u64::MAX,
        s.pages_done + (pages.len() - i) <= u64::MAX,
    ensures
        run_from(s, pages, i).phase == CrawlPhase::Done,
        run_from(s, pages, i).pages_fetched == s.pages_fetched + (pages.len() - i),
        run_from(s, pages, i).pages_done == s.pages_done + (pages.len() - i),
        run_from(s, pages, i).abort == s.abort,
    decreases pages.len() - i,
{
    let after_fetch = spec_step(s, CrawlEventV::PageResult(pages[i]), 0).0;
    let after_dispatch = spec_step(after_fetch, CrawlEventV::Dispatched, 0).0;
    let after_pause = spec_step(after_dispatch, CrawlEventV::Paused, 0).0;
    assert(after_fetch.phase == CrawlPhase::Dispatching);
    assert(run_from(s, pages, i) == run_from(after_pause, pages, i + 1));
    if i == pages.len() - 1 {
        assert(after_pause.phase == CrawlPhase::Done);
        assert(run_from(after_pause, pages, i + 1) == after_pause);
    } else {
        assert(after_pause.phase == CrawlPhase::FetchingPage);
        assert(after_pause.cursor == cursor_of(pages[i]));
        lemma_run_exhausts(after_pause, pages, i + 1);
    }
}

/// Termination: a script of successful pages whose cursors advance and
/// whose last cursor is empty is visited page by page, exactly once each,
/// and the crawl ends in `Done`.
pub proof fn lemma_crawl_terminates(
    base: Seq<char>,
    u: UserInfoV,
    pages: Seq<Result<(Seq<BlogV>, Seq<char>), FetchError>>,
)
    requires
        u.cid.len() > 0,
        pages.len() >= 1,
        pages.len() <= u64::MAX,
        forall|j: int| 0 <= j < pages.len() ==> pages[j] is Ok,
        cursor_of(pages[pages.len() - 1]).len() == 0,
        forall|j: int| 0 <= j < pages.len() - 1 ==> cursor_of(pages[j]).len() > 0,
        forall|j: int| 0 <= j < pages.len() - 1 ==> cursor_of(#[trigger] pages[j]) != cursor_of(pages[j + 1]),
    ensures
        spec_crawl(base, Ok(u), pages).phase == CrawlPhase::Done,
        spec_crawl(base, Ok(u), pages).pages_fetched == pages.len(),
        spec_crawl(base, Ok(u), pages).pages_done == pages.len(),
        spec_crawl(base, Ok(u), pages).abort is None,
{
    let s1 = spec_step(start_state(base), CrawlEventV::ProfileResult(Ok(u)), 0).0;
    assert(s1.phase == CrawlPhase::FetchingPage);
    assert(s1.cursor.len() == 0);
    if cursor_of(pages[0]).len() > 0 {
        assert(s1.cursor != cursor_of(pages[0]));
    }
    lemma_run_exhausts(s1, pages, 0);
}

/// Stall safety: when the second fetched page repeats the first page's
/// non-empty cursor, the crawl aborts with `StallDetected` after exactly
/// two fetches, however long the script goes on.
pub proof fn lemma_crawl_stalls(
    base: Seq<char>,
    u: UserInfoV,
    pages: Seq<Result<(Seq<BlogV>, Seq<char>), FetchError>>,
)
    requires
        u.cid.len() > 0,
        pages.len() >= 2,
        pages[0] is Ok,
        pages[1] is Ok,
        cursor_of(pages[0]).len() > 0,
        cursor_of(pages[1]) == cursor_of(pages[0]),
    ensures
        spec_crawl(base, Ok(u), pages).phase == CrawlPhase::Aborted,
        spec_crawl(base, Ok(u), pages).abort == Some(AbortReason::StallDetected),
        spec_crawl(base, Ok(u), pages).pages_fetched == 2,
        spec_crawl(base, Ok(u), pages).pages_done == 1,
{
    let s1 = spec_step(start_state(base), CrawlEventV::ProfileResult(Ok(u)), 0).0;
    assert(s1.phase == CrawlPhase::FetchingPage);
    assert(s1.cursor != cursor_of(pages[0]));
    let after_fetch = spec_step(s1, CrawlEventV::PageResult(pages[0]), 0).0;
    let after_dispatch = spec_step(after_fetch, CrawlEventV::Dispatched, 0).0;
    let after_pause = spec_step(after_dispatch, CrawlEventV::Paused, 0).0;
    assert(after_fetch.phase == CrawlPhase::Dispatching);
    assert(after_pause.phase == CrawlPhase::FetchingPage);
    assert(after_pause.cursor == cursor_of(pages[0]));
    let stalled = spec_step(after_pause, CrawlEventV::PageResult(pages[1]), 0).0;
    assert(stalled.phase == CrawlPhase::Aborted);
    assert(run_from(after_pause, pages, 1) == stalled);
    assert(spec_crawl(base, Ok(u), pages) == stalled);
}

/// Missing feed address: a profile without a feed container aborts the
/// crawl before any page fetch is attempted.
pub proof fn lemma_crawl_missing_feed_address(
    base: Seq<char>,
    u: UserInfoV,
    pages: Seq<Result<(Seq<BlogV>, Seq<char>), FetchError>>,
)
    requires
        u.cid.len() == 0,
    ensures
        spec_crawl(base, Ok(u), pages).phase == CrawlPhase::Aborted,
        spec_crawl(base, Ok(u), pages).abort == Some(AbortReason::FeedAddressMissing),
        spec_crawl(base, Ok(u), pages).pages_fetched == 0,
{
}

/// A failed profile fetch aborts the crawl before any page fetch.
pub proof fn lemma_crawl_profile_failure(
    base: Seq<char>,
    err: FetchError,
    pages: Seq<Result<(Seq<BlogV>, Seq<char>), FetchError>>,
)
    ensures
        spec_crawl(base, Err(err), pages).phase == CrawlPhase::Aborted,
        spec_crawl(base, Err(err), pages).abort == Some(AbortReason::Fetch(err)),
        spec_crawl(base, Err(err), pages).pages_fetched == 0,
{
}

/// Relies on rand::random: a fresh value drawn from the thread-local
/// generator; nothing is promised of it.
pub assume_specification<T>[ rand::random::<T> ]() -> (r: T)
    where
        rand::distr::StandardUniform: rand::distr::Distribution<T>,
;

/// A jittered politeness delay: a duration drawn from the given range of
/// whole seconds, bounds included.
pub fn random_pause_between(lo: u64, hi: u64) -> (d: u64)
    requires
        lo <= hi,
        hi - lo < u64::MAX,
    ensures
        lo <= d <= hi,
{
    let r = rand::random::<u64>();
    lo + r % (hi - lo + 1)
}

/// The default politeness delay before the next fetch: jittered over two
/// to six whole seconds.
pub fn random_pause_secs() -> (d: u64)
    ensures
        2 <= d <= 6,
{
    random_pause_between(2, 6)
}

/// Why one download settled without success.
#[derive(Debug, Clone, Copy, PartialEq, Eq, Structural)]
pub enum DownloadFailure {
    /// The asset's fetch answered with a non-success status.
    Http(u16),
    /// The asset's fetch did not complete.
    Transport,
}

/// How a dispatched page settled: the page counts as processed whatever
/// the per-item outcomes were, with the outcomes tallied.
#[derive(Debug, Clone, Copy, PartialEq, Eq, Structural)]
pub struct PageReport {
    pub processed: bool,
    pub attempted: u64,
    pub succeeded: u64,
    pub failed: u64,
}

/// How many of the settled downloads succeeded.
pub open spec fn count_ok(outcomes: Seq<Option<DownloadFailure>>) -> int
    decreases outcomes.len(),
{
    if outcomes.len() == 0 {
        0int
    } else {
        count_ok(outcomes.drop_last()) + if outcomes.last() is None {
            1int
        } else {
            0int
        }
    }
}

proof fn lemma_count_ok_bounds(outcomes: Seq<Option<DownloadFailure>>)
    ensures
        0 <= count_ok(outcomes) <= outcomes.len(),
    decreases outcomes.len(),
{
    if outcomes.len() > 0 {
        lemma_count_ok_bounds(outcomes.drop_last());
    }
}

/// Settles one dispatched page: every outcome is counted, a failure on one
/// item neither hides the others nor un-processes the page.
pub fn settle_page(outcomes: &Vec<Option<DownloadFailure>>) -> (r: PageReport)
    ensures
        r.processed,
        r.attempted == outcomes@.len(),
        r.succeeded == count_ok(outcomes@),
        r.failed == outcomes@.len() - count_ok(outcomes@),
{
    let n = outcomes.len();
    let mut succeeded: u64 = 0;
    let mut failed: u64 = 0;
    proof {
        assert(count_ok(outcomes@.subrange(0, 0)) == 0);
    }
    for i in 0..n
        invariant
            n == outcomes@.len(),
            succeeded == count_ok(outcomes@.subrange(0, i as int)),
            succeeded + failed == i,
    {
        proof {
            let q = outcomes@.subrange(0, i + 1);
            assert(q.drop_last() =~= outcomes@.subrange(0, i as int));
            assert(q.last() == outcomes@[i as int]);
            lemma_count_ok_bounds(outcomes@.subrange(0, i as int));
        }
        if outcomes[i].is_none() {
            succeeded = succeeded + 1;
        } else {
            failed = failed + 1;
        }
    }
    proof {
        assert(outcomes@.subrange(0, n as int) =~= outcomes@);
    }
    PageReport { processed: true, attempted: n as u64, succeeded, failed }
}

} // verus!
