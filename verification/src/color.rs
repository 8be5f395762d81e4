//! Color pairs for the screen: every foreground on every background, the
//! terminal's own default among both.
use vstd::prelude::*;

verus! {

/// The code that stands for the terminal's default color: the one behind the
/// eight basic colors, which have the codes 0 to 7.
pub const COLOR_DEFAULT: i16 = 8;

/// The number of the pair of the colors `fg` and `bg`: four bits for each
/// code, and one more so that no pair has the number 0.
pub open spec fn pair_index(fg: i16, bg: i16) -> int {
    fg * 16 + bg + 1
}

/// The color that the terminal is told for the code `code`: -1, which is its
/// word for the default, or the code itself.
pub open spec fn terminal_color(code: i16) -> i16 {
    if code == COLOR_DEFAULT {
        -1i16
    } else {
        code
    }
}

/// One color pair as the terminal is to learn it.
#[derive(Clone, Copy, Debug, PartialEq, Eq, Structural)]
pub struct PairInit {
    pub index: i16,
    pub foreground: i16,
    pub background: i16,
}

/// The pair that is made of the color codes `fg` and `bg`.
pub open spec fn pair_init(fg: i16, bg: i16) -> PairInit {
    PairInit {
        index: pair_index(fg, bg) as i16,
        foreground: terminal_color(fg),
        background: terminal_color(bg),
    }
}

/// What the terminal library makes of the number of a color pair: the
/// attribute that, set on a window, draws in that pair.
pub uninterp spec fn color_pair_attr(n: u32) -> u32;

/// `pancurses::COLOR_PAIR`. Taken on trust: the attribute depends on the
/// number alone.
#[verifier::external_body]
fn color_pair(n: u32) -> (attr: u32)
    ensures
        attr == color_pair_attr(n),
{
    pancurses::COLOR_PAIR(n)
}

/// The number of the pair of the colors `fg` and `bg`.
fn index(fg: i16, bg: i16) -> (index: i16)
    requires
        0 <= fg < 16,
        0 <= bg < 16,
    ensures
        index == pair_index(fg, bg),
{
    let high = fg as u16;
    let low = bg as u16;
    assert((high << 4 | low) == high * 16 + low) by (bit_vector)
        requires
            high < 16,
            low < 16,
    ;
    ((high << 4 | low) + 1) as i16
}

/// The pairs that the terminal has to learn before anything is drawn: one
/// for every foreground and background among the eight basic colors and the
/// default, the backgrounds of one foreground side by side.
pub fn init() -> (pairs: Vec<PairInit>)
    ensures
        pairs.len() == 81,
        forall|fg: i16, bg: i16|
            0 <= fg <= COLOR_DEFAULT && 0 <= bg <= COLOR_DEFAULT ==> pairs[fg * 9 + bg]
                == #[trigger] pair_init(fg, bg),
{
    let mut pairs: Vec<PairInit> = Vec::new();
    let mut fg: i16 = 0;
    while fg <= COLOR_DEFAULT
        invariant
            0 <= fg <= COLOR_DEFAULT + 1,
            pairs.len() == fg * 9,
            forall|f: i16, b: i16|
                0 <= f < fg && 0 <= b <= COLOR_DEFAULT ==> pairs[f * 9 + b] == #[trigger] pair_init(
                    f,
                    b,
                ),
        decreases COLOR_DEFAULT + 1 - fg,
    {
        let mut bg: i16 = 0;
        while bg <= COLOR_DEFAULT
            invariant
                0 <= fg <= COLOR_DEFAULT,
                0 <= bg <= COLOR_DEFAULT + 1,
                pairs.len() == fg * 9 + bg,
                forall|f: i16, b: i16|
                    0 <= f < fg && 0 <= b <= COLOR_DEFAULT ==> pairs[f * 9 + b]
                        == #[trigger] pair_init(f, b),
                forall|b: i16| 0 <= b < bg ==> pairs[fg * 9 + b] == #[trigger] pair_init(fg, b),
            decreases COLOR_DEFAULT + 1 - bg,
        {
            let fg_color: i16 = if fg == COLOR_DEFAULT { -1 } else { fg };
            let bg_color: i16 = if bg == COLOR_DEFAULT { -1 } else { bg };
            pairs.push(
                PairInit { index: index(fg, bg), foreground: fg_color, background: bg_color },
            );
            bg += 1;
        }
        fg += 1;
    }
    pairs
}

/// The attribute that draws in the colors `fg` on `bg`.
pub fn pair(fg: i16, bg: i16) -> (attr: u32)
    requires
        0 <= fg < 16,
        0 <= bg < 16,
    ensures
        attr == color_pair_attr(pair_index(fg, bg) as u32),
{
    color_pair(index(fg, bg) as u32)
}

/// The attribute that draws in the color `color` on the terminal's default
/// background.
pub fn fg(color: i16) -> (attr: u32)
    requires
        0 <= color < 16,
    ensures
        attr == color_pair_attr(pair_index(color, COLOR_DEFAULT) as u32),
{
    pair(color, COLOR_DEFAULT)
}

} // verus!
