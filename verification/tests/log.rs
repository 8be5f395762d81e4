use parc::input::Input;
use parc::log::{Level, Log, Logger};
use parc::provider::{CopyTarget, Drawable, Provider, Response};
use parc::viewport::View;

fn texts(log: &Log, view: &View) -> Vec<String> {
    log.draw(view).into_iter().map(|row| row.text).collect()
}

fn numbered(count: usize) -> Log {
    let mut log = Log::new();
    for i in 0..count {
        log.record(&format!("line {}", i));
    }
    log
}

#[test]
fn a_new_log_is_empty() {
    let log = Log::new();
    assert_eq!(log.lines_count(), 0);
    assert!(log.draw(&View::new(80, 24)).is_empty());
}

#[test]
fn every_level_is_kept() {
    let logger = Logger::new();
    assert!(logger.enabled(Level::Error));
    assert!(logger.enabled(Level::Warn));
    assert!(logger.enabled(Level::Info));
    assert!(logger.enabled(Level::Debug));
    assert!(logger.enabled(Level::Trace));
}

#[test]
fn levels_are_ranked_from_the_gravest() {
    assert_eq!(Level::Error.rank(), 1);
    assert_eq!(Level::Warn.rank(), 2);
    assert_eq!(Level::Info.rank(), 3);
    assert_eq!(Level::Debug.rank(), 4);
    assert_eq!(Level::Trace.rank(), 5);
}

#[test]
fn the_logger_writes_to_the_log() {
    let logger = Logger::new();
    let mut log = Log::new();
    logger.log(Level::Info, "started", &mut log);
    logger.log(Level::Trace, "copy: [dir] src", &mut log);
    assert_eq!(log.lines_count(), 2);
    assert_eq!(texts(&log, &View::new(80, 24)), vec!["started", "copy: [dir] src"]);
}

#[test]
fn lines_are_kept_in_the_order_they_came() {
    let mut log = Log::new();
    log.record("one");
    log.record("two");
    log.record("three");
    assert_eq!(log.lines_count(), 3);
    assert_eq!(texts(&log, &View::new(80, 24)), vec!["one", "two", "three"]);
}

#[test]
fn the_window_shows_its_part_of_the_log() {
    let log = numbered(10);
    let mut view = View::new(80, 3);
    assert_eq!(texts(&log, &view), vec!["line 0", "line 1", "line 2"]);
    view.set_first_line_offset(4);
    assert_eq!(texts(&log, &view), vec!["line 4", "line 5", "line 6"]);
    view.set_first_line_offset(8);
    assert_eq!(texts(&log, &view), vec!["line 8", "line 9"]);
    view.set_first_line_offset(9);
    assert_eq!(texts(&log, &view), vec!["line 9"]);
    view.set_first_line_offset(50);
    assert_eq!(texts(&log, &view), vec!["line 9"]);
}

#[test]
fn log_rows_are_plain() {
    let log = numbered(2);
    for row in log.draw(&View::new(80, 24)) {
        assert!(!row.directory);
        assert!(!row.selected);
    }
}

#[test]
fn the_log_takes_no_key() {
    let mut log = numbered(3);
    let mut view = View::new(80, 2);
    for input in [
        Input::KeyDown,
        Input::KeyUp,
        Input::KeyEnter,
        Input::KeyBackspace,
        Input::Character(' '),
        Input::Character('c'),
        Input::Character('x'),
    ] {
        assert!(matches!(log.handle_input(&input, &mut view, &Log::new()), Response::Unhandled));
    }
    assert_eq!(view.first_line_offset(), 0);
    assert_eq!(log.lines_count(), 3);
}

#[test]
fn the_log_rejects_copies() {
    let log = numbered(1);
    assert!(log.copy_to(&vec!["home".to_string()], &Vec::new()).is_none());
    assert!(log.location().is_none());
    assert_eq!(log.lines_count(), 1);
}

#[test]
fn the_log_ignores_what_is_not_for_it() {
    let mut log = numbered(4);
    let mut view = View::new(80, 2);
    view.set_first_line_offset(2);
    log.handle_window_scrolled(&view);
    log.refresh(Vec::new(), &mut view);
    log.copy_finished(true);
    assert_eq!(log.lines_count(), 4);
    assert_eq!(view.first_line_offset(), 2);
    assert_eq!(texts(&log, &view), vec!["line 2", "line 3"]);
}
