use parc::color::{fg, init, pair, COLOR_DEFAULT};

#[test]
fn pair_is_the_attribute_of_its_index() {
    assert_eq!(pair(0, 0), pancurses::COLOR_PAIR(1));
    assert_eq!(pair(4, 8), pancurses::COLOR_PAIR(4 * 16 + 8 + 1));
    assert_ne!(pair(0, 0), 1);
}

#[test]
fn fg_draws_on_the_default_background() {
    assert_eq!(fg(pancurses::COLOR_BLUE), pair(pancurses::COLOR_BLUE, COLOR_DEFAULT));
    assert_eq!(fg(4), pancurses::COLOR_PAIR(73));
}

#[test]
fn init_lists_every_pair() {
    let pairs = init();
    assert_eq!(pairs.len(), 81);
    assert_eq!(pairs[0].index, 1);
    assert_eq!(pairs[0].foreground, 0);
    assert_eq!(pairs[0].background, 0);
    let blue_on_default = pairs[4 * 9 + 8];
    assert_eq!(blue_on_default.index, 73);
    assert_eq!(blue_on_default.foreground, 4);
    assert_eq!(blue_on_default.background, -1);
    let last = pairs[80];
    assert_eq!(last.index, 8 * 16 + 8 + 1);
    assert_eq!(last.foreground, -1);
    assert_eq!(last.background, -1);
}
