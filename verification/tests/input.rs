use parc::input::{describe, describe_unhandled, Command, Input};

#[test]
fn the_special_keys_have_their_commands() {
    assert_eq!(Input::KeyF10.command(), Some(Command::Quit));
    assert_eq!(Input::KeyPPage.command(), Some(Command::PageUp));
    assert_eq!(Input::KeyNPage.command(), Some(Command::PageDown));
    assert_eq!(Input::KeyDown.command(), Some(Command::SelectNext));
    assert_eq!(Input::KeyUp.command(), Some(Command::SelectPrevious));
    assert_eq!(Input::KeyEnter.command(), Some(Command::Enter));
    assert_eq!(Input::KeyBackspace.command(), Some(Command::Ascend));
    assert_eq!(Input::KeyF5.command(), Some(Command::Copy));
}

#[test]
fn the_characters_have_their_commands() {
    assert_eq!(Input::Character('q').command(), Some(Command::Quit));
    assert_eq!(Input::Character('\t').command(), Some(Command::SwitchPane));
    assert_eq!(Input::Character('\n').command(), Some(Command::Enter));
    assert_eq!(Input::Character('\u{7f}').command(), Some(Command::Ascend));
    assert_eq!(Input::Character(' ').command(), Some(Command::ToggleMark));
    assert_eq!(Input::Character('c').command(), Some(Command::Copy));
}

#[test]
fn other_keys_have_no_command() {
    assert_eq!(Input::Character('l').command(), None);
    assert_eq!(Input::Character('Q').command(), None);
    assert_eq!(Input::Character('C').command(), None);
    assert_eq!(Input::KeyLeft.command(), None);
    assert_eq!(Input::KeyRight.command(), None);
    assert_eq!(Input::KeyHome.command(), None);
    assert_eq!(Input::KeyF1.command(), None);
    assert_eq!(Input::KeyResize.command(), None);
    assert_eq!(Input::Unknown(27).command(), None);
}

#[test]
fn an_unhandled_key_is_named() {
    assert_eq!(describe_unhandled(&Input::Character('x')), "Unhandled input: Character('x')");
    assert_eq!(describe_unhandled(&Input::KeyLeft), "Unhandled input: KeyLeft");
    assert_eq!(describe_unhandled(&Input::Unknown(-3)), "Unhandled input: Unknown(-3)");
    assert_eq!(describe_unhandled(&Input::Character('\n')), "Unhandled input: Character('\\n')");
}

#[test]
fn the_notice_is_that_of_the_terminal_library() {
    let ours = describe_unhandled(&Input::KeyHome);
    let theirs = format!("Unhandled input: {:?}", pancurses::Input::KeyHome);
    assert_eq!(ours, theirs);
    let ours = describe_unhandled(&Input::Character('z'));
    let theirs = format!("Unhandled input: {:?}", pancurses::Input::Character('z'));
    assert_eq!(ours, theirs);
}

#[test]
fn every_named_key_is_written_as_the_terminal_library_writes_it() {
    let keys = [
        (Input::KeyCodeYes, pancurses::Input::KeyCodeYes),
        (Input::KeyBreak, pancurses::Input::KeyBreak),
        (Input::KeyDown, pancurses::Input::KeyDown),
        (Input::KeyUp, pancurses::Input::KeyUp),
        (Input::KeyLeft, pancurses::Input::KeyLeft),
        (Input::KeyRight, pancurses::Input::KeyRight),
        (Input::KeyHome, pancurses::Input::KeyHome),
        (Input::KeyBackspace, pancurses::Input::KeyBackspace),
        (Input::KeyF0, pancurses::Input::KeyF0),
        (Input::KeyF1, pancurses::Input::KeyF1),
        (Input::KeyF2, pancurses::Input::KeyF2),
        (Input::KeyF3, pancurses::Input::KeyF3),
        (Input::KeyF4, pancurses::Input::KeyF4),
        (Input::KeyF5, pancurses::Input::KeyF5),
        (Input::KeyF6, pancurses::Input::KeyF6),
        (Input::KeyF7, pancurses::Input::KeyF7),
        (Input::KeyF8, pancurses::Input::KeyF8),
        (Input::KeyF9, pancurses::Input::KeyF9),
        (Input::KeyF10, pancurses::Input::KeyF10),
        (Input::KeyF11, pancurses::Input::KeyF11),
        (Input::KeyF12, pancurses::Input::KeyF12),
        (Input::KeyF13, pancurses::Input::KeyF13),
        (Input::KeyF14, pancurses::Input::KeyF14),
        (Input::KeyF15, pancurses::Input::KeyF15),
        (Input::KeyDL, pancurses::Input::KeyDL),
        (Input::KeyIL, pancurses::Input::KeyIL),
        (Input::KeyDC, pancurses::Input::KeyDC),
        (Input::KeyIC, pancurses::Input::KeyIC),
        (Input::KeyEIC, pancurses::Input::KeyEIC),
        (Input::KeyClear, pancurses::Input::KeyClear),
        (Input::KeyEOS, pancurses::Input::KeyEOS),
        (Input::KeyEOL, pancurses::Input::KeyEOL),
        (Input::KeySF, pancurses::Input::KeySF),
        (Input::KeySR, pancurses::Input::KeySR),
        (Input::KeyNPage, pancurses::Input::KeyNPage),
        (Input::KeyPPage, pancurses::Input::KeyPPage),
        (Input::KeySTab, pancurses::Input::KeySTab),
        (Input::KeyCTab, pancurses::Input::KeyCTab),
        (Input::KeyCATab, pancurses::Input::KeyCATab),
        (Input::KeyEnter, pancurses::Input::KeyEnter),
        (Input::KeySReset, pancurses::Input::KeySReset),
        (Input::KeyReset, pancurses::Input::KeyReset),
        (Input::KeyPrint, pancurses::Input::KeyPrint),
        (Input::KeyLL, pancurses::Input::KeyLL),
        (Input::KeyAbort, pancurses::Input::KeyAbort),
        (Input::KeySHelp, pancurses::Input::KeySHelp),
        (Input::KeyLHelp, pancurses::Input::KeyLHelp),
        (Input::KeyBTab, pancurses::Input::KeyBTab),
        (Input::KeyBeg, pancurses::Input::KeyBeg),
        (Input::KeyCancel, pancurses::Input::KeyCancel),
        (Input::KeyClose, pancurses::Input::KeyClose),
        (Input::KeyCommand, pancurses::Input::KeyCommand),
        (Input::KeyCopy, pancurses::Input::KeyCopy),
        (Input::KeyCreate, pancurses::Input::KeyCreate),
        (Input::KeyEnd, pancurses::Input::KeyEnd),
        (Input::KeyExit, pancurses::Input::KeyExit),
        (Input::KeyFind, pancurses::Input::KeyFind),
        (Input::KeyHelp, pancurses::Input::KeyHelp),
        (Input::KeyMark, pancurses::Input::KeyMark),
        (Input::KeyMessage, pancurses::Input::KeyMessage),
        (Input::KeyMove, pancurses::Input::KeyMove),
        (Input::KeyNext, pancurses::Input::KeyNext),
        (Input::KeyOpen, pancurses::Input::KeyOpen),
        (Input::KeyOptions, pancurses::Input::KeyOptions),
        (Input::KeyPrevious, pancurses::Input::KeyPrevious),
        (Input::KeyRedo, pancurses::Input::KeyRedo),
        (Input::KeyReference, pancurses::Input::KeyReference),
        (Input::KeyRefresh, pancurses::Input::KeyRefresh),
        (Input::KeyReplace, pancurses::Input::KeyReplace),
        (Input::KeyRestart, pancurses::Input::KeyRestart),
        (Input::KeyResume, pancurses::Input::KeyResume),
        (Input::KeySave, pancurses::Input::KeySave),
        (Input::KeySBeg, pancurses::Input::KeySBeg),
        (Input::KeySCancel, pancurses::Input::KeySCancel),
        (Input::KeySCommand, pancurses::Input::KeySCommand),
        (Input::KeySCopy, pancurses::Input::KeySCopy),
        (Input::KeySCreate, pancurses::Input::KeySCreate),
        (Input::KeySDC, pancurses::Input::KeySDC),
        (Input::KeySDL, pancurses::Input::KeySDL),
        (Input::KeySelect, pancurses::Input::KeySelect),
        (Input::KeySEnd, pancurses::Input::KeySEnd),
        (Input::KeySEOL, pancurses::Input::KeySEOL),
        (Input::KeySExit, pancurses::Input::KeySExit),
        (Input::KeySFind, pancurses::Input::KeySFind),
        (Input::KeySHome, pancurses::Input::KeySHome),
        (Input::KeySIC, pancurses::Input::KeySIC),
        (Input::KeySLeft, pancurses::Input::KeySLeft),
        (Input::KeySMessage, pancurses::Input::KeySMessage),
        (Input::KeySMove, pancurses::Input::KeySMove),
        (Input::KeySNext, pancurses::Input::KeySNext),
        (Input::KeySOptions, pancurses::Input::KeySOptions),
        (Input::KeySPrevious, pancurses::Input::KeySPrevious),
        (Input::KeySPrint, pancurses::Input::KeySPrint),
        (Input::KeySRedo, pancurses::Input::KeySRedo),
        (Input::KeySReplace, pancurses::Input::KeySReplace),
        (Input::KeySRight, pancurses::Input::KeySRight),
        (Input::KeySResume, pancurses::Input::KeySResume),
        (Input::KeySSave, pancurses::Input::KeySSave),
        (Input::KeySSuspend, pancurses::Input::KeySSuspend),
        (Input::KeySUndo, pancurses::Input::KeySUndo),
        (Input::KeySuspend, pancurses::Input::KeySuspend),
        (Input::KeyUndo, pancurses::Input::KeyUndo),
        (Input::KeyResize, pancurses::Input::KeyResize),
        (Input::KeyEvent, pancurses::Input::KeyEvent),
        (Input::KeyMouse, pancurses::Input::KeyMouse),
        (Input::KeyA1, pancurses::Input::KeyA1),
        (Input::KeyA3, pancurses::Input::KeyA3),
        (Input::KeyB2, pancurses::Input::KeyB2),
        (Input::KeyC1, pancurses::Input::KeyC1),
        (Input::KeyC3, pancurses::Input::KeyC3),
    ];
    assert_eq!(keys.len(), 110);
    for (ours, theirs) in keys {
        assert_eq!(describe(&ours), format!("{:?}", theirs));
        assert_eq!(ours.name(), format!("{:?}", theirs));
    }
}

#[test]
fn characters_are_written_as_the_terminal_library_writes_them() {
    for c in ['a', 'Z', '0', ' ', '\n', '\t', '\r', '\'', '"', '\\', '\0', '\u{7f}', '\u{e9}', '\u{4e2d}', '\u{1f600}', '\u{200b}'] {
        assert_eq!(
            describe(&Input::Character(c)),
            format!("{:?}", pancurses::Input::Character(c))
        );
        assert_eq!(Input::Character(c).name(), "Character");
    }
    assert_eq!(describe(&Input::Character('x')), "Character('x')");
    assert_eq!(describe(&Input::Character('\n')), "Character('\\n')");
    assert_eq!(describe(&Input::Character('\'')), "Character('\\'')");
}

#[test]
fn codes_are_written_as_the_terminal_library_writes_them() {
    for code in [0, 1, -1, 7, 10, 255, 263, 1000, -4096, i32::MAX, i32::MIN] {
        assert_eq!(describe(&Input::Unknown(code)), format!("{:?}", pancurses::Input::Unknown(code)));
        assert_eq!(Input::Unknown(code).name(), "Unknown");
    }
    assert_eq!(describe(&Input::Unknown(263)), "Unknown(263)");
    assert_eq!(describe(&Input::Unknown(-3)), "Unknown(-3)");
    assert_eq!(describe(&Input::Unknown(i32::MIN)), "Unknown(-2147483648)");
}
