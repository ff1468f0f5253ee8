use ferritecad_app::frames::{FrameScheduler, Repaint};

/// One second on the scheduler's clock, whose ticks are nanoseconds.
const SECOND: u64 = 1_000_000_000;
const MILLISECOND: u64 = 1_000_000;

/// A moment well after the clock started.
const NOW: u64 = 42 * SECOND;

#[test]
fn many_immediate_reasons_make_one_window_request() {
    let mut frames = FrameScheduler::default();

    assert!(frames.request_now(), "the first reason requested nothing");
    for _ in 0..21 {
        assert!(
            !frames.request_now(),
            "a second reason made a second OS request"
        );
    }

    frames.frame_started();
    assert!(
        frames.request_now(),
        "starting a frame did not open the slot for the next one"
    );
}

#[test]
fn the_earliest_delayed_repaint_is_the_only_timer() {
    let mut frames = FrameScheduler::default();
    let now = NOW;
    let late = now + 2 * SECOND;
    let early = now + SECOND;

    assert_eq!(frames.request_at(late, now), Some(late));
    assert_eq!(frames.request_at(late + SECOND, now), None);
    assert_eq!(frames.request_at(early, now), Some(early));
    assert!(!frames.take_due(now + 999 * MILLISECOND));
    assert!(frames.take_due(early));
    assert!(!frames.take_due(late));
}

#[test]
fn an_immediate_frame_supersedes_a_delayed_one() {
    let mut frames = FrameScheduler::default();
    let now = NOW;
    let later = now + SECOND;

    assert_eq!(frames.request_at(later, now), Some(later));
    assert!(frames.request_now());
    assert!(
        !frames.take_due(later),
        "the cancelled timer requested an extra frame"
    );
    assert_eq!(
        frames.request_at(later + SECOND, later),
        None,
        "a timer was installed while an earlier frame was queued"
    );
}

#[test]
fn a_moment_already_past_is_no_timer() {
    let mut frames = FrameScheduler::default();
    assert_eq!(frames.request_at(NOW, NOW), None);
    assert_eq!(frames.request_at(NOW - 1, NOW), None);
    assert!(!frames.take_due(NOW + SECOND), "a refused deadline left a timer behind");
}

#[test]
fn a_timer_fires_once_and_only_when_due() {
    let mut frames = FrameScheduler::default();
    assert!(!frames.take_due(NOW), "a timer nobody set fired");
    assert_eq!(frames.request_at(NOW + SECOND, NOW), Some(NOW + SECOND));
    assert!(!frames.take_due(NOW + SECOND - 1));
    assert!(frames.take_due(NOW + SECOND));
    assert!(!frames.take_due(NOW + 5 * SECOND), "one timer fired twice");
}

#[test]
fn a_repaint_that_is_due_draws_now_and_asks_the_window_once() {
    let mut frames = FrameScheduler::default();
    assert_eq!(
        frames.repaint_at(NOW, NOW),
        Repaint::Now { ask_window: true }
    );
    assert_eq!(
        frames.repaint_at(NOW - SECOND, NOW),
        Repaint::Now { ask_window: false },
        "a second immediate frame asked the window again"
    );
    assert_eq!(
        frames.repaint_at(NOW + SECOND, NOW),
        Repaint::Nothing,
        "a timer was installed behind a queued frame"
    );

    frames.frame_started();
    assert_eq!(frames.repaint_at(NOW + SECOND, NOW), Repaint::Until(NOW + SECOND));
    assert_eq!(frames.repaint_at(NOW + 2 * SECOND, NOW), Repaint::Nothing);
    assert_eq!(
        frames.repaint_at(NOW + 500 * MILLISECOND, NOW),
        Repaint::Until(NOW + 500 * MILLISECOND)
    );
}
