use hat_ble::miflora::history::{
    device_boot_time, next_page_end, normalize_range, page_size_or_default, plan_history,
    record_time, HistoryPlan, RecordRange, DEFAULT_PAGE_SIZE,
};

fn pages(from: u16, to: u16, page_size: u16) -> Vec<(u16, u16)> {
    let plan = HistoryPlan { range: RecordRange { from, to }, page_size, clear: false };
    plan.pages().into_iter().map(|p| (p.from, p.to)).collect()
}

#[test]
fn inverted_range_is_swapped() {
    assert_eq!(normalize_range(Some(5), Some(2), 10), RecordRange { from: 2, to: 5 });
    assert_eq!(normalize_range(Some(2), Some(5), 10), RecordRange { from: 2, to: 5 });
}

#[test]
fn upper_end_is_clamped() {
    assert_eq!(normalize_range(Some(0), Some(50), 10), RecordRange { from: 0, to: 10 });
    assert_eq!(normalize_range(Some(50), Some(3), 10), RecordRange { from: 3, to: 10 });
    assert_eq!(normalize_range(Some(50), Some(60), 10), RecordRange { from: 50, to: 10 });
    assert_eq!(normalize_range(None, Some(65535), 7), RecordRange { from: 0, to: 7 });
}

#[test]
fn missing_bounds_mean_everything() {
    assert_eq!(normalize_range(None, None, 10), RecordRange { from: 0, to: 10 });
    assert_eq!(normalize_range(Some(4), None, 10), RecordRange { from: 4, to: 10 });
    assert_eq!(normalize_range(None, Some(4), 10), RecordRange { from: 0, to: 4 });
    assert_eq!(normalize_range(Some(12), None, 10), RecordRange { from: 10, to: 10 });
}

#[test]
fn empty_store_is_not_read() {
    assert_eq!(plan_history(None, None, None, false, 0), None);
    assert_eq!(plan_history(Some(5), Some(2), Some(3), true, 0), None);
}

#[test]
fn plan_holds_range_page_and_clear() {
    assert_eq!(
        plan_history(Some(5), Some(2), Some(3), true, 10),
        Some(HistoryPlan { range: RecordRange { from: 2, to: 5 }, page_size: 3, clear: false })
    );
    assert_eq!(
        plan_history(None, None, None, true, 10),
        Some(HistoryPlan { range: RecordRange { from: 0, to: 10 }, page_size: 10, clear: true })
    );
    assert_eq!(
        plan_history(Some(0), Some(99), Some(1), true, 10),
        Some(HistoryPlan { range: RecordRange { from: 0, to: 10 }, page_size: 10, clear: true })
    );
    assert_eq!(
        plan_history(None, None, None, false, 10).map(|p| p.clear),
        Some(false)
    );
    assert_eq!(
        plan_history(Some(1), None, None, true, 10).map(|p| p.clear),
        Some(false)
    );
    assert_eq!(
        plan_history(None, Some(9), None, true, 10).map(|p| p.clear),
        Some(false)
    );
}

#[test]
fn page_size_has_a_default() {
    assert_eq!(DEFAULT_PAGE_SIZE, 10);
    assert_eq!(page_size_or_default(None), 10);
    assert_eq!(page_size_or_default(Some(0)), 10);
    assert_eq!(page_size_or_default(Some(1)), 10);
    assert_eq!(page_size_or_default(Some(2)), 2);
    assert_eq!(page_size_or_default(Some(65535)), 65535);
}

#[test]
fn pages_end_at_the_range() {
    assert_eq!(next_page_end(0, 10, 25), 10);
    assert_eq!(next_page_end(20, 10, 25), 25);
    assert_eq!(next_page_end(15, 10, 25), 25);
    assert_eq!(next_page_end(65530, 10, 65535), 65535);
    assert_eq!(next_page_end(50, 10, 10), 10);
}

#[test]
fn pages_cover_the_range() {
    assert_eq!(pages(0, 25, 10), vec![(0, 10), (10, 20), (20, 25)]);
    assert_eq!(pages(2, 5, 3), vec![(2, 5)]);
    assert_eq!(pages(2, 5, 2), vec![(2, 4), (4, 5)]);
    assert_eq!(pages(0, 20, 10), vec![(0, 10), (10, 20)]);
    assert_eq!(pages(7, 7, 10), vec![(7, 7)]);
    assert_eq!(pages(50, 10, 10), vec![(50, 10)]);
    assert_eq!(pages(65530, 65535, 4), vec![(65530, 65534), (65534, 65535)]);
    assert_eq!(pages(0, 3, 0), vec![(0, 3)]);
}

#[test]
fn record_times_count_back() {
    assert_eq!(device_boot_time(1_000_000, 400), Some(999_600));
    assert_eq!(device_boot_time(100, 400), None);
    assert_eq!(record_time(999_600, 600), Some(999_000));
    assert_eq!(record_time(10, 11), None);
    assert_eq!(record_time(10, 10), Some(0));
}
