use noir_compute::watermark::WatermarkError;
use noir_compute::watermark::WatermarkFrontier;
use noir_compute::window::EventTimeWindow;
use noir_compute::window::WindowAccumulator;

#[test]
fn frontier_emits_the_minimum_once_all_report() {
    let mut frontier = WatermarkFrontier::new(3);
    // nothing is forwarded while some replica is silent
    assert_eq!(frontier.update(0, 100), Ok(None));
    assert_eq!(frontier.update(1, 50), Ok(None));
    // the last replica reports: the minimum is forwarded
    assert_eq!(frontier.update(2, 80), Ok(Some(50)));
}

#[test]
fn frontier_watermarks_never_decrease() {
    let mut frontier = WatermarkFrontier::new(2);
    assert_eq!(frontier.update(0, 10), Ok(None));
    assert_eq!(frontier.update(1, 30), Ok(Some(10)));
    // the minimum did not move: nothing is forwarded
    assert_eq!(frontier.update(1, 40), Ok(None));
    // the minimum moved: the new minimum is forwarded, above the last one
    assert_eq!(frontier.update(0, 25), Ok(Some(25)));
    let mut last = 25;
    for (replica, ts) in [(0usize, 60i64), (1, 70), (0, 90), (1, 95)] {
        if let Ok(Some(w)) = frontier.update(replica, ts) {
            assert!(w > last, "a forwarded watermark regressed");
            last = w;
        }
    }
}

#[test]
fn frontier_rejects_a_regressing_watermark() {
    let mut frontier = WatermarkFrontier::new(1);
    assert_eq!(frontier.update(0, 100), Ok(Some(100)));
    assert_eq!(frontier.update(0, 99), Err(WatermarkError::Regression));
    // the frontier is untouched by the rejected update
    assert_eq!(frontier.update(0, 100), Ok(None));
}

#[test]
fn tumbling_windows_cover_each_timestamp_once() {
    let windows = EventTimeWindow::tumbling(1000);
    assert_eq!(windows.window_starts(0), vec![0]);
    assert_eq!(windows.window_starts(999), vec![0]);
    assert_eq!(windows.window_starts(1000), vec![1000]);
    assert_eq!(windows.window_starts(1500), vec![1000]);
}

#[test]
fn sliding_windows_cover_each_timestamp_per_step() {
    let windows = EventTimeWindow::sliding(1000, 500);
    // every timestamp past the ramp-up falls in size / step = 2 windows
    assert_eq!(windows.window_starts(250), vec![0]);
    assert_eq!(windows.window_starts(600), vec![0, 500]);
    assert_eq!(windows.window_starts(1600), vec![1000, 1500]);
    assert_eq!(windows.window_starts(1500), vec![1000, 1500]);
}

#[test]
fn windows_close_in_ascending_end_order() {
    let mut open: Vec<WindowAccumulator<u32>> = Vec::new();
    // windows arrive out of order and are kept sorted by start
    noir_compute::window::insert_window(&mut open, WindowAccumulator::new(1000, 500));
    noir_compute::window::insert_window(&mut open, WindowAccumulator::new(0, 500));
    noir_compute::window::insert_window(&mut open, WindowAccumulator::new(500, 500));
    assert_eq!(open.len(), 3);
    assert_eq!(open[0].start, 0);
    assert_eq!(open[1].start, 500);
    assert_eq!(open[2].start, 1000);
    // a watermark at 1100 closes the windows ending at 500 and 1000, oldest
    // first, and leaves the one ending at 1500 open
    let ready = noir_compute::window::close_ready(&mut open, 500, 1100);
    let ends: Vec<u64> = ready.into_iter().map(|acc| acc.close().0).collect();
    assert_eq!(ends, vec![500, 1000]);
    assert_eq!(open.len(), 1);
    assert_eq!(open[0].start, 1000);
}

#[test]
fn closed_window_is_stamped_with_its_end() {
    let mut acc: WindowAccumulator<&str> = WindowAccumulator::new(1000, 1000);
    acc.add("a", 1000);
    acc.add("b", 1700);
    acc.add("a", 1999);
    let (ts, elements) = acc.close();
    assert_eq!(ts, 2000);
    assert_eq!(elements, vec!["a", "b", "a"]);
}
