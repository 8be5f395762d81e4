//! Keys as the terminal reports them, and the commands bound to them.
use vstd::prelude::*;

verus! {

/// One input event from the terminal: a character, or one of the keys that
/// the curses libraries know by name, or a code that they have no name for.
#[derive(Clone, Copy, Debug, PartialEq, Eq, Structural)]
pub enum Input {
    Character(char),
    Unknown(i32),
    KeyCodeYes,
    KeyBreak,
    KeyDown,
    KeyUp,
    KeyLeft,
    KeyRight,
    KeyHome,
    KeyBackspace,
    KeyF0,
    KeyF1,
    KeyF2,
    KeyF3,
    KeyF4,
    KeyF5,
    KeyF6,
    KeyF7,
    KeyF8,
    KeyF9,
    KeyF10,
    KeyF11,
    KeyF12,
    KeyF13,
    KeyF14,
    KeyF15,
    KeyDL,
    KeyIL,
    KeyDC,
    KeyIC,
    KeyEIC,
    KeyClear,
    KeyEOS,
    KeyEOL,
    KeySF,
    KeySR,
    KeyNPage,
    KeyPPage,
    KeySTab,
    KeyCTab,
    KeyCATab,
    KeyEnter,
    KeySReset,
    KeyReset,
    KeyPrint,
    KeyLL,
    KeyAbort,
    KeySHelp,
    KeyLHelp,
    KeyBTab,
    KeyBeg,
    KeyCancel,
    KeyClose,
    KeyCommand,
    KeyCopy,
    KeyCreate,
    KeyEnd,
    KeyExit,
    KeyFind,
    KeyHelp,
    KeyMark,
    KeyMessage,
    KeyMove,
    KeyNext,
    KeyOpen,
    KeyOptions,
    KeyPrevious,
    KeyRedo,
    KeyReference,
    KeyRefresh,
    KeyReplace,
    KeyRestart,
    KeyResume,
    KeySave,
    KeySBeg,
    KeySCancel,
    KeySCommand,
    KeySCopy,
    KeySCreate,
    KeySDC,
    KeySDL,
    KeySelect,
    KeySEnd,
    KeySEOL,
    KeySExit,
    KeySFind,
    KeySHome,
    KeySIC,
    KeySLeft,
    KeySMessage,
    KeySMove,
    KeySNext,
    KeySOptions,
    KeySPrevious,
    KeySPrint,
    KeySRedo,
    KeySReplace,
    KeySRight,
    KeySResume,
    KeySSave,
    KeySSuspend,
    KeySUndo,
    KeySuspend,
    KeyUndo,
    KeyResize,
    KeyEvent,
    KeyMouse,
    KeyA1,
    KeyA3,
    KeyB2,
    KeyC1,
    KeyC3,
}

/// What a key asks for.
#[derive(Clone, Copy, Debug, PartialEq, Eq, Structural)]
pub enum Command {
    /// Leave an auxiliary pane, or the program.
    Quit,
    /// Exchange the main and the background pane.
    SwitchPane,
    PageUp,
    PageDown,
    SelectNext,
    SelectPrevious,
    /// Open the selected subdirectory.
    Enter,
    /// Open the parent directory.
    Ascend,
    /// Mark or unmark the selected entry.
    ToggleMark,
    /// Copy the marked entries to the other pane.
    Copy,
}

impl Input {
    /// The command bound to this key, if there is one.
    pub open spec fn spec_command(self) -> Option<Command> {
        match self {
            Input::KeyF10 => Some(Command::Quit),
            Input::KeyPPage => Some(Command::PageUp),
            Input::KeyNPage => Some(Command::PageDown),
            Input::KeyDown => Some(Command::SelectNext),
            Input::KeyUp => Some(Command::SelectPrevious),
            Input::KeyEnter => Some(Command::Enter),
            Input::KeyBackspace => Some(Command::Ascend),
            Input::KeyF5 => Some(Command::Copy),
            Input::Character(c) => if c == 'q' {
                Some(Command::Quit)
            } else if c == '\t' {
                Some(Command::SwitchPane)
            } else if c == '\n' {
                Some(Command::Enter)
            } else if c == '\u{7f}' {
                Some(Command::Ascend)
            } else if c == ' ' {
                Some(Command::ToggleMark)
            } else if c == 'c' {
                Some(Command::Copy)
            } else {
                None
            },
            _ => None,
        }
    }

    /// The command bound to this key, if there is one.
    #[verifier::when_used_as_spec(spec_command)]
    pub fn command(self) -> (command: Option<Command>)
        ensures
            command == self.spec_command(),
    {
        match self {
            Input::KeyF10 => Some(Command::Quit),
            Input::KeyPPage => Some(Command::PageUp),
            Input::KeyNPage => Some(Command::PageDown),
            Input::KeyDown => Some(Command::SelectNext),
            Input::KeyUp => Some(Command::SelectPrevious),
            Input::KeyEnter => Some(Command::Enter),
            Input::KeyBackspace => Some(Command::Ascend),
            Input::KeyF5 => Some(Command::Copy),
            Input::Character(c) => if c == 'q' {
                Some(Command::Quit)
            } else if c == '\t' {
                Some(Command::SwitchPane)
            } else if c == '\n' {
                Some(Command::Enter)
            } else if c == '\u{7f}' {
                Some(Command::Ascend)
            } else if c == ' ' {
                Some(Command::ToggleMark)
            } else if c == 'c' {
                Some(Command::Copy)
            } else {
                None
            },
            _ => None,
        }
    }
}

/// The name of the kind of key that `input` is: the name of its variant.
pub open spec fn key_name(input: Input) -> Seq<char> {
    match input {
        Input::Character(_) => "Character"@,
        Input::Unknown(_) => "Unknown"@,
        Input::KeyCodeYes => "KeyCodeYes"@,
        Input::KeyBreak => "KeyBreak"@,
        Input::KeyDown => "KeyDown"@,
        Input::KeyUp => "KeyUp"@,
        Input::KeyLeft => "KeyLeft"@,
        Input::KeyRight => "KeyRight"@,
        Input::KeyHome => "KeyHome"@,
        Input::KeyBackspace => "KeyBackspace"@,
        Input::KeyF0 => "KeyF0"@,
        Input::KeyF1 => "KeyF1"@,
        Input::KeyF2 => "KeyF2"@,
        Input::KeyF3 => "KeyF3"@,
        Input::KeyF4 => "KeyF4"@,
        Input::KeyF5 => "KeyF5"@,
        Input::KeyF6 => "KeyF6"@,
        Input::KeyF7 => "KeyF7"@,
        Input::KeyF8 => "KeyF8"@,
        Input::KeyF9 => "KeyF9"@,
        Input::KeyF10 => "KeyF10"@,
        Input::KeyF11 => "KeyF11"@,
        Input::KeyF12 => "KeyF12"@,
        Input::KeyF13 => "KeyF13"@,
        Input::KeyF14 => "KeyF14"@,
        Input::KeyF15 => "KeyF15"@,
        Input::KeyDL => "KeyDL"@,
        Input::KeyIL => "KeyIL"@,
        Input::KeyDC => "KeyDC"@,
        Input::KeyIC => "KeyIC"@,
        Input::KeyEIC => "KeyEIC"@,
        Input::KeyClear => "KeyClear"@,
        Input::KeyEOS => "KeyEOS"@,
        Input::KeyEOL => "KeyEOL"@,
        Input::KeySF => "KeySF"@,
        Input::KeySR => "KeySR"@,
        Input::KeyNPage => "KeyNPage"@,
        Input::KeyPPage => "KeyPPage"@,
        Input::KeySTab => "KeySTab"@,
        Input::KeyCTab => "KeyCTab"@,
        Input::KeyCATab => "KeyCATab"@,
        Input::KeyEnter => "KeyEnter"@,
        Input::KeySReset => "KeySReset"@,
        Input::KeyReset => "KeyReset"@,
        Input::KeyPrint => "KeyPrint"@,
        Input::KeyLL => "KeyLL"@,
        Input::KeyAbort => "KeyAbort"@,
        Input::KeySHelp => "KeySHelp"@,
        Input::KeyLHelp => "KeyLHelp"@,
        Input::KeyBTab => "KeyBTab"@,
        Input::KeyBeg => "KeyBeg"@,
        Input::KeyCancel => "KeyCancel"@,
        Input::KeyClose => "KeyClose"@,
        Input::KeyCommand => "KeyCommand"@,
        Input::KeyCopy => "KeyCopy"@,
        Input::KeyCreate => "KeyCreate"@,
        Input::KeyEnd => "KeyEnd"@,
        Input::KeyExit => "KeyExit"@,
        Input::KeyFind => "KeyFind"@,
        Input::KeyHelp => "KeyHelp"@,
        Input::KeyMark => "KeyMark"@,
        Input::KeyMessage => "KeyMessage"@,
        Input::KeyMove => "KeyMove"@,
        Input::KeyNext => "KeyNext"@,
        Input::KeyOpen => "KeyOpen"@,
        Input::KeyOptions => "KeyOptions"@,
        Input::KeyPrevious => "KeyPrevious"@,
        Input::KeyRedo => "KeyRedo"@,
        Input::KeyReference => "KeyReference"@,
        Input::KeyRefresh => "KeyRefresh"@,
        Input::KeyReplace => "KeyReplace"@,
        Input::KeyRestart => "KeyRestart"@,
        Input::KeyResume => "KeyResume"@,
        Input::KeySave => "KeySave"@,
        Input::KeySBeg => "KeySBeg"@,
        Input::KeySCancel => "KeySCancel"@,
        Input::KeySCommand => "KeySCommand"@,
        Input::KeySCopy => "KeySCopy"@,
        Input::KeySCreate => "KeySCreate"@,
        Input::KeySDC => "KeySDC"@,
        Input::KeySDL => "KeySDL"@,
        Input::KeySelect => "KeySelect"@,
        Input::KeySEnd => "KeySEnd"@,
        Input::KeySEOL => "KeySEOL"@,
        Input::KeySExit => "KeySExit"@,
        Input::KeySFind => "KeySFind"@,
        Input::KeySHome => "KeySHome"@,
        Input::KeySIC => "KeySIC"@,
        Input::KeySLeft => "KeySLeft"@,
        Input::KeySMessage => "KeySMessage"@,
        Input::KeySMove => "KeySMove"@,
        Input::KeySNext => "KeySNext"@,
        Input::KeySOptions => "KeySOptions"@,
        Input::KeySPrevious => "KeySPrevious"@,
        Input::KeySPrint => "KeySPrint"@,
        Input::KeySRedo => "KeySRedo"@,
        Input::KeySReplace => "KeySReplace"@,
        Input::KeySRight => "KeySRight"@,
        Input::KeySResume => "KeySResume"@,
        Input::KeySSave => "KeySSave"@,
        Input::KeySSuspend => "KeySSuspend"@,
        Input::KeySUndo => "KeySUndo"@,
        Input::KeySuspend => "KeySuspend"@,
        Input::KeyUndo => "KeyUndo"@,
        Input::KeyResize => "KeyResize"@,
        Input::KeyEvent => "KeyEvent"@,
        Input::KeyMouse => "KeyMouse"@,
        Input::KeyA1 => "KeyA1"@,
        Input::KeyA3 => "KeyA3"@,
        Input::KeyB2 => "KeyB2"@,
        Input::KeyC1 => "KeyC1"@,
        Input::KeyC3 => "KeyC3"@,
    }
}

impl Input {
    /// The name of the kind of key: the name of the variant.
    pub fn name(&self) -> (name: &'static str)
        ensures
            name@ == key_name(*self),
    {
        match self {
            Input::Character(_) => "Character",
            Input::Unknown(_) => "Unknown",
            Input::KeyCodeYes => "KeyCodeYes",
            Input::KeyBreak => "KeyBreak",
            Input::KeyDown => "KeyDown",
            Input::KeyUp => "KeyUp",
            Input::KeyLeft => "KeyLeft",
            Input::KeyRight => "KeyRight",
            Input::KeyHome => "KeyHome",
            Input::KeyBackspace => "KeyBackspace",
            Input::KeyF0 => "KeyF0",
            Input::KeyF1 => "KeyF1",
            Input::KeyF2 => "KeyF2",
            Input::KeyF3 => "KeyF3",
            Input::KeyF4 => "KeyF4",
            Input::KeyF5 => "KeyF5",
            Input::KeyF6 => "KeyF6",
            Input::KeyF7 => "KeyF7",
            Input::KeyF8 => "KeyF8",
            Input::KeyF9 => "KeyF9",
            Input::KeyF10 => "KeyF10",
            Input::KeyF11 => "KeyF11",
            Input::KeyF12 => "KeyF12",
            Input::KeyF13 => "KeyF13",
            Input::KeyF14 => "KeyF14",
            Input::KeyF15 => "KeyF15",
            Input::KeyDL => "KeyDL",
            Input::KeyIL => "KeyIL",
            Input::KeyDC => "KeyDC",
            Input::KeyIC => "KeyIC",
            Input::KeyEIC => "KeyEIC",
            Input::KeyClear => "KeyClear",
            Input::KeyEOS => "KeyEOS",
            Input::KeyEOL => "KeyEOL",
            Input::KeySF => "KeySF",
            Input::KeySR => "KeySR",
            Input::KeyNPage => "KeyNPage",
            Input::KeyPPage => "KeyPPage",
            Input::KeySTab => "KeySTab",
            Input::KeyCTab => "KeyCTab",
            Input::KeyCATab => "KeyCATab",
            Input::KeyEnter => "KeyEnter",
            Input::KeySReset => "KeySReset",
            Input::KeyReset => "KeyReset",
            Input::KeyPrint => "KeyPrint",
            Input::KeyLL => "KeyLL",
            Input::KeyAbort => "KeyAbort",
            Input::KeySHelp => "KeySHelp",
            Input::KeyLHelp => "KeyLHelp",
            Input::KeyBTab => "KeyBTab",
            Input::KeyBeg => "KeyBeg",
            Input::KeyCancel => "KeyCancel",
            Input::KeyClose => "KeyClose",
            Input::KeyCommand => "KeyCommand",
            Input::KeyCopy => "KeyCopy",
            Input::KeyCreate => "KeyCreate",
            Input::KeyEnd => "KeyEnd",
            Input::KeyExit => "KeyExit",
            Input::KeyFind => "KeyFind",
            Input::KeyHelp => "KeyHelp",
            Input::KeyMark => "KeyMark",
            Input::KeyMessage => "KeyMessage",
            Input::KeyMove => "KeyMove",
            Input::KeyNext => "KeyNext",
            Input::KeyOpen => "KeyOpen",
            Input::KeyOptions => "KeyOptions",
            Input::KeyPrevious => "KeyPrevious",
            Input::KeyRedo => "KeyRedo",
            Input::KeyReference => "KeyReference",
            Input::KeyRefresh => "KeyRefresh",
            Input::KeyReplace => "KeyReplace",
            Input::KeyRestart => "KeyRestart",
            Input::KeyResume => "KeyResume",
            Input::KeySave => "KeySave",
            Input::KeySBeg => "KeySBeg",
            Input::KeySCancel => "KeySCancel",
            Input::KeySCommand => "KeySCommand",
            Input::KeySCopy => "KeySCopy",
            Input::KeySCreate => "KeySCreate",
            Input::KeySDC => "KeySDC",
            Input::KeySDL => "KeySDL",
            Input::KeySelect => "KeySelect",
            Input::KeySEnd => "KeySEnd",
            Input::KeySEOL => "KeySEOL",
            Input::KeySExit => "KeySExit",
            Input::KeySFind => "KeySFind",
            Input::KeySHome => "KeySHome",
            Input::KeySIC => "KeySIC",
            Input::KeySLeft => "KeySLeft",
            Input::KeySMessage => "KeySMessage",
            Input::KeySMove => "KeySMove",
            Input::KeySNext => "KeySNext",
            Input::KeySOptions => "KeySOptions",
            Input::KeySPrevious => "KeySPrevious",
            Input::KeySPrint => "KeySPrint",
            Input::KeySRedo => "KeySRedo",
            Input::KeySReplace => "KeySReplace",
            Input::KeySRight => "KeySRight",
            Input::KeySResume => "KeySResume",
            Input::KeySSave => "KeySSave",
            Input::KeySSuspend => "KeySSuspend",
            Input::KeySUndo => "KeySUndo",
            Input::KeySuspend => "KeySuspend",
            Input::KeyUndo => "KeyUndo",
            Input::KeyResize => "KeyResize",
            Input::KeyEvent => "KeyEvent",
            Input::KeyMouse => "KeyMouse",
            Input::KeyA1 => "KeyA1",
            Input::KeyA3 => "KeyA3",
            Input::KeyB2 => "KeyB2",
            Input::KeyC1 => "KeyC1",
            Input::KeyC3 => "KeyC3",
        }
    }
}

/// How a character is written out for the user: between single quotes, with an
/// escape where it could not be read otherwise.
pub uninterp spec fn char_text(c: char) -> Seq<char>;

/// The text that std's `Debug` gives for a `char`, as `format!` writes it
/// with `{:?}`. Taken on trust: the text depends on the character alone.
#[verifier::external_body]
fn debug_char(c: char) -> (text: String)
    ensures
        text@ == char_text(c),
{
    format!("{:?}", c)
}

/// How a key code is written out for the user: as a decimal number.
pub uninterp spec fn code_text(code: i32) -> Seq<char>;

/// The text that std's `Debug` gives for an `i32`, as `format!` writes it
/// with `{:?}`. Taken on trust: the text depends on the number alone.
#[verifier::external_body]
fn debug_code(code: i32) -> (text: String)
    ensures
        text@ == code_text(code),
{
    format!("{:?}", code)
}

/// How a key is written out for the user: the name of its kind, with the
/// character or the code that it holds in round brackets behind it.
pub open spec fn input_text(input: Input) -> Seq<char> {
    match input {
        Input::Character(c) => key_name(input) + "("@ + char_text(c) + ")"@,
        Input::Unknown(code) => key_name(input) + "("@ + code_text(code) + ")"@,
        _ => key_name(input),
    }
}

/// How the key `input` is written out for the user.
pub fn describe(input: &Input) -> (text: String)
    ensures
        text@ == input_text(*input),
{
    let name = String::from_str(input.name());
    match input {
        Input::Character(c) => name.concat("(").concat(debug_char(*c).as_str()).concat(")"),
        Input::Unknown(code) => name.concat("(").concat(debug_code(*code).as_str()).concat(")"),
        _ => name,
    }
}

/// The notice for a key that nothing has taken.
pub open spec fn unhandled_notice(input: Input) -> Seq<char> {
    "Unhandled input: "@ + input_text(input)
}

/// The notice for a key that nothing has taken.
pub fn describe_unhandled(input: &Input) -> (notice: String)
    ensures
        notice@ == unhandled_notice(*input),
{
    let notice = String::from_str("Unhandled input: ");
    notice.concat(describe(input).as_str())
}

} // verus!
