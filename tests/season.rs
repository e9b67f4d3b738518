use chrono::Datelike;
use gt_tracker_rs::Season;

#[test]
fn year_is_correct() {
    let now = chrono::Utc::now();
    let month = now.month();

    let year = if month > 4 {
        now.year() + 1
    } else {
        now.year()
    };

    assert_eq!(Season::Spring.get_year(), year);
}

#[test]
fn term_is_correct() {
    let id = Season::Spring.get_id();
    let year = Season::Spring.get_year();

    let term = format!("{}0{}", year, id);

    assert_eq!(Season::Spring.get_term(), term);
}

#[test]
fn spring_uses_current_year_through_april() {
    for month in 1..=4 {
        assert_eq!(Season::Spring.year_for(2025, month), 2025);
        assert_eq!(Season::Spring.term_for(2025, month), "202502");
    }
}

#[test]
fn spring_uses_next_year_from_may() {
    for month in 5..=12 {
        assert_eq!(Season::Spring.year_for(2025, month), 2026);
        assert_eq!(Season::Spring.term_for(2025, month), "202602");
    }
}

#[test]
fn fall_and_summer_ids_ignore_month() {
    for month in 1..=12 {
        assert_eq!(Season::Fall.term_for(2025, month), "202508");
        assert_eq!(Season::Summer.term_for(2025, month), "202505");
        assert_eq!(Season::Fall.year_for(2025, month), 2025);
    }
}

#[test]
fn season_ids() {
    assert_eq!(Season::Fall.get_id(), 8);
    assert_eq!(Season::Spring.get_id(), 2);
    assert_eq!(Season::Summer.get_id(), 5);
}

#[test]
fn season_names() {
    assert_eq!(Season::Fall.name(), "Fall");
    assert_eq!(Season::Spring.name(), "Spring");
    assert_eq!(Season::Summer.name(), "Summer");
}

#[test]
fn current_term_has_year_and_id() {
    let term = Season::Fall.get_term();
    assert!(term.ends_with("08"));
    assert_eq!(term, format!("{}08", Season::Fall.get_year()));
}
