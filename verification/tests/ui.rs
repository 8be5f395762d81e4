use parc::directory::Directory;
use parc::entry::{EntryKind, FsEntry, Listing, Metadata};
use parc::input::Input;
use parc::log::Log;
use parc::pane::Pane;
use parc::provider::{Drawable, Provider};
use parc::ui::{Action, Event, UI};

fn entry(name: &str, kind: EntryKind) -> FsEntry {
    FsEntry { name: name.to_string(), kind, metadata: Metadata { len: 0, read_only: false } }
}

fn path(names: &[&str]) -> Vec<String> {
    names.iter().map(|n| n.to_string()).collect()
}

fn files(place: &[&str], count: usize) -> Pane {
    let mut listing = Vec::new();
    for i in 0..count {
        listing.push(entry(&format!("f{:03}", i), EntryKind::File));
    }
    Pane::Directory(Directory::open(path(place), listing))
}

fn directory(pane: &Pane) -> &Directory {
    match pane {
        Pane::Directory(directory) => directory,
        Pane::Log(_) => panic!("the pane is a log"),
    }
}

fn log(pane: &Pane) -> &Log {
    match pane {
        Pane::Log(log) => log,
        Pane::Directory(_) => panic!("the pane is a directory"),
    }
}

fn key(ui: &mut UI<Pane>, input: Input) -> Action {
    ui.step(Event::Key(input))
}

fn two_panes() -> UI<Pane> {
    let left = Pane::Directory(Directory::open(
        path(&["src"]),
        vec![entry("a.txt", EntryKind::File), entry("sub", EntryKind::Directory)],
    ));
    let right = Pane::Directory(Directory::open(path(&["dst"]), Vec::new()));
    UI::new(left, right, 80, 20)
}

#[test]
fn a_new_session_shows_the_main_pane() {
    let ui = two_panes();
    assert!(matches!(ui.action(), Action::Show));
    assert_eq!(directory(ui.main_provider()).path(), &path(&["src"]));
    assert_eq!(directory(ui.background_provider()).path(), &path(&["dst"]));
    assert_eq!(ui.main_view().first_line_offset(), 0);
    assert_eq!(ui.main_view().width(), 80);
    assert_eq!(ui.main_view().height(), 20);
    assert_eq!(ui.background_view().height(), 20);
    assert_eq!(ui.status_line(), "");
    assert_eq!(ui.activated_extra_provider(), None);
    let rows: Vec<String> = ui.draw().into_iter().map(|r| r.text).collect();
    assert_eq!(rows, vec!["sub", "a.txt"]);
}

#[test]
fn the_status_line_can_be_set() {
    let mut ui = two_panes();
    ui.set_status("ready");
    assert_eq!(ui.status_line(), "ready");
}

#[test]
fn the_quit_keys_end_the_session() {
    for quit in [Input::Character('q'), Input::KeyF10] {
        let mut ui = two_panes();
        assert!(matches!(key(&mut ui, quit), Action::Quit));
        assert!(matches!(ui.action(), Action::Quit));
        assert!(matches!(key(&mut ui, Input::KeyDown), Action::Quit));
        assert_eq!(directory(ui.main_provider()).selected_entry_idx(), 0);
    }
}

#[test]
fn tab_exchanges_the_panes() {
    let mut ui = two_panes();
    key(&mut ui, Input::KeyDown);
    assert!(matches!(key(&mut ui, Input::Character('\t')), Action::Show));
    assert_eq!(directory(ui.main_provider()).path(), &path(&["dst"]));
    assert_eq!(directory(ui.background_provider()).path(), &path(&["src"]));
    assert_eq!(directory(ui.background_provider()).selected_entry_idx(), 1);
    key(&mut ui, Input::Character('\t'));
    assert_eq!(directory(ui.main_provider()).path(), &path(&["src"]));
    assert_eq!(directory(ui.main_provider()).selected_entry_idx(), 1);
}

#[test]
fn tab_takes_the_window_along() {
    let mut ui = UI::new(files(&["a"], 100), files(&["b"], 100), 80, 20);
    key(&mut ui, Input::KeyNPage);
    assert_eq!(ui.main_view().first_line_offset(), 20);
    key(&mut ui, Input::Character('\t'));
    assert_eq!(ui.main_view().first_line_offset(), 0);
    assert_eq!(ui.background_view().first_line_offset(), 20);
    key(&mut ui, Input::Character('\t'));
    assert_eq!(ui.main_view().first_line_offset(), 20);
}

#[test]
fn paging_an_empty_directory_does_nothing() {
    let empty = Pane::Directory(Directory::open(path(&["empty"]), Vec::new()));
    let other = Pane::Directory(Directory::open(path(&["other"]), Vec::new()));
    let mut ui = UI::new(empty, other, 80, 20);
    assert_eq!(ui.main_provider().lines_count(), 0);
    assert!(ui.draw().is_empty());
    assert!(matches!(key(&mut ui, Input::KeyNPage), Action::Show));
    assert_eq!(ui.main_view().first_line_offset(), 0);
    assert!(matches!(key(&mut ui, Input::KeyPPage), Action::Show));
    assert_eq!(ui.main_view().first_line_offset(), 0);
    assert!(matches!(key(&mut ui, Input::KeyDown), Action::Show));
    assert_eq!(directory(ui.main_provider()).selected_entry_idx(), 0);
    assert_eq!(ui.main_view().first_line_offset(), 0);
    assert_eq!(ui.status_line(), "");
    assert!(ui.draw().is_empty());
}

#[test]
fn three_pages_down_lead_to_row_sixty() {
    let mut ui = UI::new(files(&["a"], 100), files(&["b"], 1), 80, 20);
    key(&mut ui, Input::KeyNPage);
    key(&mut ui, Input::KeyNPage);
    key(&mut ui, Input::KeyNPage);
    assert_eq!(ui.main_view().first_line_offset(), 60);
    let selected = directory(ui.main_provider()).selected_entry_idx();
    assert!(60 <= selected && selected <= 79);
    assert_eq!(selected, 60);
    let rows = ui.draw();
    assert_eq!(rows.len(), 20);
    assert_eq!(rows[0].text, "f060");
    assert!(rows[0].selected);
    assert_eq!(rows[19].text, "f079");
}

#[test]
fn paging_pulls_a_cursor_below_the_window_up() {
    let mut ui = UI::new(files(&["a"], 100), files(&["b"], 1), 80, 20);
    for _ in 0..4 {
        key(&mut ui, Input::KeyNPage);
    }
    assert_eq!(ui.main_view().first_line_offset(), 80);
    for _ in 0..15 {
        key(&mut ui, Input::KeyDown);
    }
    assert_eq!(directory(ui.main_provider()).selected_entry_idx(), 95);
    key(&mut ui, Input::KeyPPage);
    assert_eq!(ui.main_view().first_line_offset(), 60);
    assert_eq!(directory(ui.main_provider()).selected_entry_idx(), 79);
}

#[test]
fn paging_stops_at_both_ends() {
    let mut ui = UI::new(files(&["a"], 50), files(&["b"], 1), 80, 20);
    key(&mut ui, Input::KeyNPage);
    key(&mut ui, Input::KeyNPage);
    assert_eq!(ui.main_view().first_line_offset(), 40);
    key(&mut ui, Input::KeyNPage);
    assert_eq!(ui.main_view().first_line_offset(), 49);
    assert_eq!(directory(ui.main_provider()).selected_entry_idx(), 49);
    key(&mut ui, Input::KeyNPage);
    assert_eq!(ui.main_view().first_line_offset(), 49);
    key(&mut ui, Input::KeyPPage);
    assert_eq!(ui.main_view().first_line_offset(), 29);
    key(&mut ui, Input::KeyPPage);
    assert_eq!(ui.main_view().first_line_offset(), 9);
    key(&mut ui, Input::KeyPPage);
    assert_eq!(ui.main_view().first_line_offset(), 0);
    key(&mut ui, Input::KeyPPage);
    assert_eq!(ui.main_view().first_line_offset(), 0);
}

#[test]
fn an_auxiliary_pane_comes_and_goes() {
    let mut ui = UI::new(files(&["a"], 100), files(&["b"], 3), 80, 20);
    let mut lines = Log::new();
    lines.record("started");
    ui.add_provider(Input::Character('l'), Pane::Log(lines));
    key(&mut ui, Input::KeyNPage);
    key(&mut ui, Input::KeyDown);
    key(&mut ui, Input::Character(' '));
    assert_eq!(ui.main_view().first_line_offset(), 20);
    assert_eq!(directory(ui.main_provider()).selected_entry_idx(), 21);

    assert!(matches!(key(&mut ui, Input::Character('l')), Action::Show));
    assert_eq!(ui.activated_extra_provider(), Some(0));
    assert_eq!(log(ui.main_provider()).lines_count(), 1);
    assert_eq!(ui.main_view().first_line_offset(), 0);
    let rows: Vec<String> = ui.draw().into_iter().map(|r| r.text).collect();
    assert_eq!(rows, vec!["started"]);

    assert!(matches!(key(&mut ui, Input::Character('q')), Action::Show));
    assert_eq!(ui.activated_extra_provider(), None);
    let main = directory(ui.main_provider());
    assert_eq!(main.path(), &path(&["a"]));
    assert_eq!(main.selected_entry_idx(), 21);
    assert!(main.marked_entries().contains("f021"));
    assert_eq!(main.entries().len(), 100);
    assert_eq!(ui.main_view().first_line_offset(), 20);
    assert_eq!(directory(ui.background_provider()).path(), &path(&["b"]));

    assert!(matches!(key(&mut ui, Input::Character('q')), Action::Quit));
}

#[test]
fn the_key_of_an_auxiliary_pane_counts_once() {
    let mut ui = two_panes();
    ui.add_provider(Input::Character('l'), Pane::Log(Log::new()));
    ui.add_provider(Input::Character('m'), files(&["m"], 2));
    key(&mut ui, Input::Character('l'));
    assert_eq!(ui.activated_extra_provider(), Some(0));
    key(&mut ui, Input::Character('m'));
    assert_eq!(ui.activated_extra_provider(), Some(0));
    assert_eq!(log(ui.main_provider()).lines_count(), 0);
    key(&mut ui, Input::Character('l'));
    assert_eq!(ui.activated_extra_provider(), Some(0));
    assert_eq!(ui.status_line(), "");
    key(&mut ui, Input::KeyF10);
    assert_eq!(ui.activated_extra_provider(), None);
    key(&mut ui, Input::Character('m'));
    assert_eq!(ui.activated_extra_provider(), Some(1));
    assert_eq!(directory(ui.main_provider()).path(), &path(&["m"]));
    key(&mut ui, Input::Character('q'));
    assert_eq!(directory(ui.main_provider()).path(), &path(&["src"]));
}

#[test]
fn the_first_pane_of_a_key_is_the_one_that_comes() {
    let mut ui = two_panes();
    ui.add_provider(Input::Character('x'), files(&["first"], 1));
    ui.add_provider(Input::Character('x'), files(&["second"], 1));
    key(&mut ui, Input::Character('x'));
    assert_eq!(ui.activated_extra_provider(), Some(0));
    assert_eq!(directory(ui.main_provider()).path(), &path(&["first"]));
}

#[test]
fn an_auxiliary_pane_gets_a_window_of_the_same_size() {
    let mut ui = UI::new(files(&["a"], 100), files(&["b"], 3), 132, 43);
    key(&mut ui, Input::KeyNPage);
    ui.add_provider(Input::Character('l'), Pane::Log(Log::new()));
    key(&mut ui, Input::Character('l'));
    assert_eq!(ui.main_view().first_line_offset(), 0);
    assert_eq!(ui.main_view().width(), 132);
    assert_eq!(ui.main_view().height(), 43);
}

#[test]
fn a_key_that_nothing_takes_is_named_on_the_status_line() {
    let mut ui = two_panes();
    assert!(matches!(key(&mut ui, Input::Character('x')), Action::Show));
    assert_eq!(ui.status_line(), "Unhandled input: Character('x')");
    key(&mut ui, Input::KeyLeft);
    assert_eq!(ui.status_line(), "Unhandled input: KeyLeft");
    key(&mut ui, Input::KeyDown);
    assert_eq!(ui.status_line(), "Unhandled input: KeyLeft");
}

#[test]
fn the_log_pane_leaves_every_key() {
    let mut ui = two_panes();
    ui.add_provider(Input::Character('l'), Pane::Log(Log::new()));
    key(&mut ui, Input::Character('l'));
    key(&mut ui, Input::KeyDown);
    assert_eq!(ui.status_line(), "Unhandled input: KeyDown");
    key(&mut ui, Input::Character('c'));
    assert_eq!(ui.status_line(), "Unhandled input: Character('c')");
    assert!(matches!(ui.action(), Action::Show));
}

#[test]
fn entering_a_directory_asks_for_its_listing() {
    let mut ui = two_panes();
    match key(&mut ui, Input::KeyEnter) {
        Action::List(place) => assert_eq!(place, path(&["src", "sub"])),
        other => panic!("{:?}", other),
    }
    match key(&mut ui, Input::KeyDown) {
        Action::List(place) => assert_eq!(place, path(&["src", "sub"])),
        other => panic!("{:?}", other),
    }
    let shown = ui.step(Event::Listed(Listing::Complete(vec![
        entry("b.txt", EntryKind::File),
        entry("inner", EntryKind::Directory),
    ])));
    assert!(matches!(shown, Action::Show));
    let main = directory(ui.main_provider());
    assert_eq!(main.path(), &path(&["src", "sub"]));
    assert_eq!(main.entries().len(), 2);
    assert_eq!(main.entries()[0].name, "inner");
    assert_eq!(main.selected_entry_idx(), 0);
}

#[test]
fn going_up_lands_on_the_directory_left() {
    let mut ui = two_panes();
    key(&mut ui, Input::KeyEnter);
    ui.step(Event::Listed(Listing::Complete(vec![entry("b.txt", EntryKind::File)])));
    match key(&mut ui, Input::KeyBackspace) {
        Action::List(place) => assert_eq!(place, path(&["src"])),
        other => panic!("{:?}", other),
    }
    ui.step(Event::Listed(Listing::Complete(vec![
        entry("a.txt", EntryKind::File),
        entry("sub", EntryKind::Directory),
        entry("lib", EntryKind::Directory),
    ])));
    let main = directory(ui.main_provider());
    assert_eq!(main.path(), &path(&["src"]));
    assert_eq!(main.selected_entry_idx(), 1);
    assert_eq!(main.entries()[1].name, "sub");
}

#[test]
fn a_directory_that_cannot_be_read_is_shown_empty() {
    let mut ui = two_panes();
    key(&mut ui, Input::KeyEnter);
    assert!(matches!(ui.step(Event::Listed(Listing::Unreadable)), Action::Show));
    let main = directory(ui.main_provider());
    assert_eq!(main.path(), &path(&["src", "sub"]));
    assert_eq!(main.lines_count(), 0);
}

#[test]
fn a_listing_that_nobody_waits_for_is_dropped() {
    let mut ui = two_panes();
    assert!(matches!(ui.step(Event::Listed(Listing::Complete(Vec::new()))), Action::Show));
    assert_eq!(directory(ui.main_provider()).entries().len(), 2);
    assert!(matches!(ui.step(Event::Copied(true)), Action::Show));
    assert_eq!(directory(ui.main_provider()).entries().len(), 2);
}

#[test]
fn a_marked_tree_is_copied_to_the_other_pane() {
    let mut ui = two_panes();
    key(&mut ui, Input::Character(' '));
    key(&mut ui, Input::KeyDown);
    key(&mut ui, Input::Character(' '));
    assert_eq!(directory(ui.main_provider()).marked_entries().len(), 2);

    let mut copied: Vec<(Vec<String>, Vec<String>)> = Vec::new();
    let mut listed: Vec<Vec<String>> = Vec::new();
    let mut action = key(&mut ui, Input::Character('c'));
    loop {
        action = match action {
            Action::List(place) => {
                listed.push(place.clone());
                let children = if place == path(&["src", "sub"]) {
                    vec![entry("b.txt", EntryKind::File)]
                } else if place == path(&["dst"]) {
                    vec![entry("a.txt", EntryKind::File), entry("sub", EntryKind::Directory)]
                } else if place == path(&["src"]) {
                    vec![entry("a.txt", EntryKind::File), entry("sub", EntryKind::Directory)]
                } else {
                    panic!("{:?}", place)
                };
                ui.step(Event::Listed(Listing::Complete(children)))
            },
            Action::Copy { from, to } => {
                copied.push((from, to));
                ui.step(Event::Copied(true))
            },
            Action::Show => break,
            Action::Quit => panic!("the session ended"),
        };
    }
    assert_eq!(
        copied,
        vec![
            (path(&["src", "sub", "b.txt"]), path(&["dst", "sub", "b.txt"])),
            (path(&["src", "a.txt"]), path(&["dst", "a.txt"])),
        ]
    );
    assert_eq!(listed, vec![path(&["src", "sub"]), path(&["dst"]), path(&["src"])]);
    let main = directory(ui.main_provider());
    assert!(main.marked_entries().is_empty());
    assert_eq!(main.path(), &path(&["src"]));
    assert_eq!(main.entries().len(), 2);
    let other = directory(ui.background_provider());
    assert_eq!(other.path(), &path(&["dst"]));
    assert_eq!(other.entries().len(), 2);
    assert_eq!(other.entries()[0].name, "sub");
    assert_eq!(other.entries()[1].name, "a.txt");
    assert_eq!(ui.status_line(), "");
}

#[test]
fn a_failed_copy_keeps_the_marks() {
    let mut ui = two_panes();
    key(&mut ui, Input::Character(' '));
    key(&mut ui, Input::KeyDown);
    key(&mut ui, Input::Character(' '));
    match key(&mut ui, Input::KeyF5) {
        Action::List(place) => assert_eq!(place, path(&["src", "sub"])),
        other => panic!("{:?}", other),
    }
    assert!(matches!(ui.step(Event::Listed(Listing::Unreadable)), Action::Show));
    let main = directory(ui.main_provider());
    assert_eq!(main.marked_entries().len(), 2);
    assert!(main.marked_entries().contains("a.txt"));
    assert!(main.marked_entries().contains("sub"));
    assert_eq!(ui.status_line(), "Copy failed");
}

#[test]
fn a_file_that_fails_ends_the_copy() {
    let mut ui = two_panes();
    key(&mut ui, Input::KeyDown);
    key(&mut ui, Input::Character(' '));
    match key(&mut ui, Input::Character('c')) {
        Action::Copy { from, to } => {
            assert_eq!(from, path(&["src", "a.txt"]));
            assert_eq!(to, path(&["dst", "a.txt"]));
        },
        other => panic!("{:?}", other),
    }
    assert!(matches!(key(&mut ui, Input::KeyDown), Action::Copy { .. }));
    assert!(matches!(ui.step(Event::Copied(false)), Action::Show));
    assert_eq!(ui.status_line(), "Copy failed");
    assert!(directory(ui.main_provider()).marked_entries().contains("a.txt"));
}

#[test]
fn copying_without_marks_lists_both_panes_anew() {
    let mut ui = two_panes();
    match key(&mut ui, Input::Character('c')) {
        Action::List(place) => assert_eq!(place, path(&["dst"])),
        other => panic!("{:?}", other),
    }
    match ui.step(Event::Listed(Listing::Complete(vec![entry("new", EntryKind::File)]))) {
        Action::List(place) => assert_eq!(place, path(&["src"])),
        other => panic!("{:?}", other),
    }
    assert!(matches!(ui.step(Event::Listed(Listing::Complete(Vec::new()))), Action::Show));
    assert_eq!(directory(ui.background_provider()).entries().len(), 1);
    assert_eq!(directory(ui.main_provider()).entries().len(), 0);
}

#[test]
fn nothing_can_be_copied_to_the_log() {
    let left = Pane::Directory(Directory::open(
        path(&["src"]),
        vec![entry("a.txt", EntryKind::File)],
    ));
    let mut ui = UI::new(left, Pane::Log(Log::new()), 80, 20);
    key(&mut ui, Input::Character(' '));
    assert!(matches!(key(&mut ui, Input::Character('c')), Action::Show));
    assert_eq!(ui.status_line(), "Copy failed");
    assert!(directory(ui.main_provider()).marked_entries().contains("a.txt"));
    assert_eq!(log(ui.background_provider()).lines_count(), 0);
}

#[test]
fn a_link_is_reported_and_passed_over() {
    let left = Pane::Directory(Directory::open(
        path(&["src"]),
        vec![
            entry("ln", EntryKind::Symlink),
            entry("f", EntryKind::File),
            entry("ln2", EntryKind::Symlink),
        ],
    ));
    let right = Pane::Directory(Directory::open(path(&["dst"]), Vec::new()));
    let mut ui = UI::new(left, right, 80, 20);
    ui.add_provider(Input::Character('l'), Pane::Log(Log::new()));
    key(&mut ui, Input::Character(' '));
    key(&mut ui, Input::KeyDown);
    key(&mut ui, Input::Character(' '));
    key(&mut ui, Input::KeyDown);
    key(&mut ui, Input::Character(' '));
    match key(&mut ui, Input::Character('c')) {
        Action::Copy { from, to } => {
            assert_eq!(from, path(&["src", "f"]));
            assert_eq!(to, path(&["dst", "f"]));
        },
        other => panic!("{:?}", other),
    }
    match ui.step(Event::Copied(true)) {
        Action::List(place) => assert_eq!(place, path(&["dst"])),
        other => panic!("{:?}", other),
    }
    ui.step(Event::Listed(Listing::Complete(vec![entry("f", EntryKind::File)])));
    ui.step(Event::Listed(Listing::Complete(vec![
        entry("ln", EntryKind::Symlink),
        entry("f", EntryKind::File),
        entry("ln2", EntryKind::Symlink),
    ])));
    assert!(directory(ui.main_provider()).marked_entries().is_empty());
    key(&mut ui, Input::Character('l'));
    let rows: Vec<String> = ui.draw().into_iter().map(|r| r.text).collect();
    assert_eq!(
        rows,
        vec![
            "copy: [link] ln",
            "copy: copying links is not yet supported",
            "copy: [link] ln2",
            "copy: copying links is not yet supported",
        ]
    );
}

#[test]
fn a_copy_of_links_alone_is_done_at_once() {
    let left = Pane::Directory(Directory::open(
        path(&["src"]),
        vec![entry("ln", EntryKind::Symlink)],
    ));
    let mut ui = UI::new(left, Pane::Log(Log::new()), 80, 20);
    ui.add_provider(Input::Character('d'), files(&["dst"], 0));
    key(&mut ui, Input::Character(' '));
    key(&mut ui, Input::Character('\t'));
    key(&mut ui, Input::Character('d'));
    key(&mut ui, Input::Character('\t'));
    assert_eq!(directory(ui.main_provider()).path(), &path(&["src"]));
    assert_eq!(directory(ui.background_provider()).path(), &path(&["dst"]));
    match key(&mut ui, Input::Character('c')) {
        Action::List(place) => assert_eq!(place, path(&["dst"])),
        other => panic!("{:?}", other),
    }
    assert!(directory(ui.main_provider()).marked_entries().is_empty());
}

#[test]
fn diagnostics_reach_the_log_wherever_it_is() {
    let mut ui = two_panes();
    ui.add_provider(Input::Character('l'), Pane::Log(Log::new()));
    assert!(matches!(ui.step(Event::Diagnostic("parc started".to_string())), Action::Show));
    key(&mut ui, Input::KeyEnter);
    assert!(matches!(
        ui.step(Event::Diagnostic("listing".to_string())),
        Action::List(_)
    ));
    ui.step(Event::Listed(Listing::Complete(Vec::new())));
    key(&mut ui, Input::Character('l'));
    ui.step(Event::Diagnostic("shown".to_string()));
    let rows: Vec<String> = ui.draw().into_iter().map(|r| r.text).collect();
    assert_eq!(rows, vec!["parc started", "listing", "shown"]);
    assert_eq!(log(ui.main_provider()).lines_count(), 3);
}

#[test]
fn a_directory_that_is_read_in_part_shows_what_was_read() {
    let mut ui = two_panes();
    key(&mut ui, Input::KeyEnter);
    let shown = ui.step(Event::Listed(Listing::Partial(vec![
        entry("readable", EntryKind::File),
        entry("also", EntryKind::Directory),
    ])));
    assert!(matches!(shown, Action::Show));
    let main = directory(ui.main_provider());
    assert_eq!(main.lines_count(), 2);
    assert_eq!(main.entries()[0].name, "also");
}

#[test]
fn a_copy_ends_where_a_directory_is_read_in_part() {
    let mut ui = two_panes();
    key(&mut ui, Input::Character(' '));
    assert!(matches!(key(&mut ui, Input::Character('c')), Action::List(_)));
    let next = ui.step(Event::Listed(Listing::Partial(Vec::new())));
    assert!(matches!(next, Action::Show));
    assert_eq!(ui.status_line(), "Copy failed");
    assert!(directory(ui.main_provider()).marked_entries().contains("sub"));
}

#[test]
fn the_session_says_whether_a_copy_is_under_way() {
    let mut ui = two_panes();
    assert!(!ui.is_copying());
    key(&mut ui, Input::KeyDown);
    key(&mut ui, Input::Character(' '));
    assert!(matches!(key(&mut ui, Input::Character('c')), Action::Copy { .. }));
    assert!(ui.is_copying());
    assert!(matches!(ui.step(Event::Copied(true)), Action::List(_)));
    assert!(!ui.is_copying());
    ui.step(Event::Listed(Listing::Complete(Vec::new())));
    ui.step(Event::Listed(Listing::Complete(Vec::new())));
    assert!(!ui.is_copying());
    assert!(matches!(ui.action(), Action::Show));
}
