use feed_spider::crawl::{
    crawl_start, crawl_step, plan_page_jobs, random_pause_between, random_pause_secs,
    settle_page, AbortReason,
    CrawlAction, CrawlEvent, CrawlPhase, CrawlState, DownloadFailure,
};
use feed_spider::model::{Blog, Picture, UserInfo};
use feed_spider::service::FetchError;

fn profile(cid: &str) -> UserInfo {
    UserInfo::new(
        1,
        "n".to_string(),
        'm',
        "".to_string(),
        0,
        "0".to_string(),
        "".to_string(),
        "".to_string(),
        "".to_string(),
        cid.to_string(),
    )
}

fn empty_page(cursor: &str) -> CrawlEvent {
    CrawlEvent::PageResult(Ok((Vec::new(), cursor.to_string())))
}

fn run_page(state: CrawlState, cursor: &str) -> CrawlState {
    let (state, action) = crawl_step(state, empty_page(cursor), 2);
    if matches!(state.phase, CrawlPhase::Aborted) {
        assert!(matches!(action, CrawlAction::Stop));
        return state;
    }
    assert!(matches!(state.phase, CrawlPhase::Dispatching));
    assert!(matches!(action, CrawlAction::Dispatch(_)));
    let (state, action) = crawl_step(state, CrawlEvent::Dispatched, 2);
    assert!(matches!(state.phase, CrawlPhase::Pausing));
    assert!(matches!(action, CrawlAction::Pause(2)));
    let (state, _) = crawl_step(state, CrawlEvent::Paused, 2);
    state
}

#[test]
fn crawl_visits_every_page_and_ends_done() {
    let (state, action) = crawl_start("res".to_string());
    assert!(matches!(action, CrawlAction::FetchProfile));
    let (mut state, action) = crawl_step(
        state,
        CrawlEvent::ProfileResult(Ok(profile("107603"))),
        2,
    );
    assert!(matches!(state.phase, CrawlPhase::FetchingPage));
    assert!(matches!(action, CrawlAction::FetchPage));
    assert_eq!(state.cid, "107603");
    for cursor in ["c1", "c2", "c3", ""] {
        state = run_page(state, cursor);
    }
    assert!(matches!(state.phase, CrawlPhase::Done));
    assert_eq!(state.pages_fetched, 4);
    assert_eq!(state.pages_done, 4);
    assert_eq!(state.abort, None);
}

#[test]
fn repeated_cursor_aborts_after_two_fetches() {
    let (state, _) = crawl_start("res".to_string());
    let (mut state, _) = crawl_step(state, CrawlEvent::ProfileResult(Ok(profile("cid"))), 2);
    state = run_page(state, "c1");
    assert!(matches!(state.phase, CrawlPhase::FetchingPage));
    state = run_page(state, "c1");
    assert!(matches!(state.phase, CrawlPhase::Aborted));
    assert_eq!(state.abort, Some(AbortReason::StallDetected));
    assert_eq!(state.pages_fetched, 2);
    assert_eq!(state.pages_done, 1);
}

#[test]
fn missing_feed_address_aborts_without_page_fetch() {
    let (state, _) = crawl_start("res".to_string());
    let (state, action) = crawl_step(state, CrawlEvent::ProfileResult(Ok(profile(""))), 2);
    assert!(matches!(state.phase, CrawlPhase::Aborted));
    assert!(matches!(action, CrawlAction::Stop));
    assert_eq!(state.abort, Some(AbortReason::FeedAddressMissing));
    assert_eq!(state.pages_fetched, 0);
}

#[test]
fn profile_fetch_failure_aborts() {
    let (state, _) = crawl_start("res".to_string());
    let (state, action) = crawl_step(
        state,
        CrawlEvent::ProfileResult(Err(FetchError::Transport)),
        2,
    );
    assert!(matches!(state.phase, CrawlPhase::Aborted));
    assert!(matches!(action, CrawlAction::Stop));
    assert_eq!(
        state.abort,
        Some(AbortReason::Fetch(FetchError::Transport))
    );
}

#[test]
fn page_fetch_failure_aborts() {
    let (state, _) = crawl_start("res".to_string());
    let (state, _) = crawl_step(state, CrawlEvent::ProfileResult(Ok(profile("cid"))), 2);
    let (state, _) = crawl_step(
        state,
        CrawlEvent::PageResult(Err(FetchError::Http(429))),
        2,
    );
    assert!(matches!(state.phase, CrawlPhase::Aborted));
    assert_eq!(
        state.abort,
        Some(AbortReason::Fetch(FetchError::Http(429)))
    );
    assert_eq!(state.pages_fetched, 1);
}

#[test]
fn cancellation_takes_effect_at_next_transition() {
    let (state, _) = crawl_start("res".to_string());
    let (state, _) = crawl_step(state, CrawlEvent::ProfileResult(Ok(profile("cid"))), 2);
    let (state, action) = crawl_step(state, CrawlEvent::Cancelled, 2);
    assert!(matches!(state.phase, CrawlPhase::Aborted));
    assert!(matches!(action, CrawlAction::Stop));
    assert_eq!(state.abort, Some(AbortReason::Cancelled));
}

#[test]
fn dispatch_plans_jobs_for_each_post_with_unique_directories() {
    let pic = |id: &str, url: &str| {
        Picture::new(id.to_string(), url.to_string(), "".to_string(), "".to_string())
    };
    let blog = |pics: Vec<Picture>| {
        Blog::new(
            "b".to_string(),
            "".to_string(),
            "".to_string(),
            "".to_string(),
            "".to_string(),
            "".to_string(),
            "".to_string(),
            pics,
        )
    };
    let blogs = vec![
        blog(vec![pic("a", "http://h/a.jpg")]),
        blog(vec![pic("b", "http://h/b.png"), pic("c", "http://h/c.gif")]),
    ];
    let jobs = plan_page_jobs(&blogs, "res", 0);
    assert_eq!(jobs.len(), 3);
    assert_eq!(jobs[0].path, "res/0001/a.jpg");
    assert_eq!(jobs[0].url, "http://h/a.jpg");
    assert_eq!(jobs[1].path, "res/0002/b.png");
    assert_eq!(jobs[2].path, "res/0002/c.gif");

    // A later page keeps numbering where the earlier one stopped.
    let jobs2 = plan_page_jobs(&blogs, "res", 2);
    assert_eq!(jobs2[0].path, "res/0003/a.jpg");
}

#[test]
fn media_variants_are_planned_independently() {
    let p = Picture::new(
        "m".to_string(),
        "http://h/n.jpg".to_string(),
        "http://h/l.jpg".to_string(),
        "http://h/v.mp4".to_string(),
    );
    let jobs = p.download_await("d".to_string());
    assert_eq!(jobs.len(), 3);
    assert_eq!(jobs[0].path, "d/m.jpg");
    assert_eq!(jobs[0].url, "http://h/n.jpg");
    assert_eq!(jobs[1].path, "d/m-large.jpg");
    assert_eq!(jobs[1].url, "http://h/l.jpg");
    assert_eq!(jobs[2].path, "d/m-video.mp4");
    assert_eq!(jobs[2].url, "http://h/v.mp4");
}

#[test]
fn empty_media_reference_plans_no_download() {
    let p = Picture::new("m".to_string(), "".to_string(), "".to_string(), "".to_string());
    assert_eq!(p.download_await("d".to_string()).len(), 0);
    let p2 = Picture::default("m".to_string(), "".to_string());
    assert_eq!(p2.download_await("d".to_string()).len(), 0);
}

#[test]
fn blog_plans_one_directory_per_media_reference() {
    let pic = |id: &str| {
        Picture::new(id.to_string(), format!("http://h/{}.jpg", id), "".to_string(), "".to_string())
    };
    let b = Blog::new(
        "b".to_string(),
        "".to_string(),
        "".to_string(),
        "".to_string(),
        "".to_string(),
        "".to_string(),
        "".to_string(),
        vec![pic("x"), pic("y")],
    );
    let jobs = b.download_await();
    assert_eq!(jobs.len(), 2);
    assert_eq!(jobs[0].path, "0/x.jpg");
    assert_eq!(jobs[1].path, "1/y.jpg");
}

#[test]
fn one_failure_does_not_unprocess_the_page() {
    let outcomes = vec![None, Some(DownloadFailure::Http(404)), None];
    let report = settle_page(&outcomes);
    assert!(report.processed);
    assert_eq!(report.attempted, 3);
    assert_eq!(report.succeeded, 2);
    assert_eq!(report.failed, 1);
}

#[test]
fn all_outcomes_are_counted() {
    let report = settle_page(&Vec::new());
    assert!(report.processed);
    assert_eq!(report.attempted, 0);
    let outcomes = vec![
        Some(DownloadFailure::Transport),
        Some(DownloadFailure::Http(500)),
    ];
    let report = settle_page(&outcomes);
    assert!(report.processed);
    assert_eq!(report.succeeded, 0);
    assert_eq!(report.failed, 2);
}

#[test]
fn pause_is_jittered_within_bounds() {
    for _ in 0..100 {
        let d = random_pause_secs();
        assert!((2..=6).contains(&d));
    }
}

#[test]
fn pause_range_is_configurable() {
    for _ in 0..50 {
        let d = random_pause_between(1, 3);
        assert!((1..=3).contains(&d));
    }
    assert_eq!(random_pause_between(5, 5), 5);
}
