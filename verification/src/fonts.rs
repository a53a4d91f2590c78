//! Glyphs of the patched "Nerd Fonts" that prompts are drawn with.

use vstd::prelude::*;

verus! {

pub struct NerdFonts;

impl NerdFonts {
    pub const LEFT_HARD_DIVIDER: char = '\u{e0b0}';

    pub const SHIP_WHEEL: char = '\u{2388}';

    pub const FA_WARNING: char = '\u{f071}';

    pub const PL_BRANCH: char = '\u{e0a0}';

    pub const LOWER_RIGHT_PENCIL: char = '\u{270e}';

    pub const HEAVY_CHECK_MARK: char = '\u{2714}';

    pub const OPEN_CENTRE_TEARDROP_SPOKED_ASTERISK: char = '\u{273c}';

    pub const FULLWIDTH_PLUS_SIGN: char = '+';

    pub const UPWARDS_BLACK_ARROW: char = '\u{2b06}';

    pub const DOWNWARDS_BLACK_ARROW: char = '\u{2b07}';

    pub const MD_SSH: char = '\u{f08c0}';

    pub const FA_LOCK: char = '\u{f023}';

    pub const MD_DOCKER: char = '\u{f0868}';

    pub const BLACK_CIRCLE: char = '\u{25cf}';

    pub const TILDE: char = '~';

    pub const HEAVY_MULTIPLICATION_X: char = '\u{2716}';

    pub const CLOCKWISE_OPEN_CIRCLE_ARROW: char = '\u{21bb}';
}

} // verus!
