//! The decisions behind the interactive prompts: mapping the user's
//! answers to configuration values. The prompting itself is input/output
//! and lives in the surrounding program.

use vstd::prelude::*;

use crate::cookie_detector::eq_ignore_ascii_case;
use crate::quality::QualityPreset;
use crate::text::chars_of;

verus! {

/// Interactive-mode decision helpers.
pub struct InteractiveMode {}

impl InteractiveMode {
    /// The quality preset a menu answer selects; anything unrecognized
    /// selects the default.
    pub fn choice_to_quality(choice: &str) -> (r: QualityPreset)
        ensures
            choice@ == "2"@ ==> r is MaxAudio,
            choice@ == "3"@ ==> r is MinVideo,
            choice@ == "4"@ ==> r is MinSize,
            choice@ != "2"@ && choice@ != "3"@ && choice@ != "4"@ ==> r is MaxVideo,
    {
        proof {
            reveal_strlit("2");
            reveal_strlit("3");
            reveal_strlit("4");
            assert("2"@ =~= seq!['2']);
            assert("3"@ =~= seq!['3']);
            assert("4"@ =~= seq!['4']);
            assert("2"@[0] == '2' && "3"@[0] == '3' && "4"@[0] == '4');
            assert("2"@ != "3"@ && "2"@ != "4"@ && "3"@ != "4"@);
        }
        let cs = chars_of(choice);
        let is2 = crate::text::eq_str(cs.as_slice(), "2");
        let is3 = crate::text::eq_str(cs.as_slice(), "3");
        let is4 = crate::text::eq_str(cs.as_slice(), "4");
        proof {
            assert(is2 == (choice@ == "2"@));
            assert(is3 == (choice@ == "3"@));
            assert(is4 == (choice@ == "4"@));
        }
        if is2 {
            QualityPreset::MaxAudio
        } else if is3 {
            QualityPreset::MinVideo
        } else if is4 {
            QualityPreset::MinSize
        } else {
            QualityPreset::MaxVideo
        }
    }

    /// Whether a trimmed answer affirms the question: `y` or `yes` in
    /// any ASCII case, or the Japanese affirmative.
    pub fn answer_is_yes(answer: &str) -> (r: bool)
        ensures
            r == (eq_ignore_ascii_case(answer@, "y"@) || eq_ignore_ascii_case(answer@, "yes"@)
                || answer@ == "はい"@),
    {
        let cs = chars_of(answer);
        crate::cookie_detector::chars_eq_ignore_case(cs.as_slice(), "y")
            || crate::cookie_detector::chars_eq_ignore_case(cs.as_slice(), "yes")
            || crate::text::eq_str(cs.as_slice(), "はい")
    }
}

} // verus!