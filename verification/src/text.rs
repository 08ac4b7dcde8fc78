//! Textual rendering: the real part, a sign, the magnitude of the imaginary
//! part and the letter `i`, as in `3+4i` and `3-4i`.

use crate::number::Complex;
use std::fmt::Display;
use vstd::prelude::*;
use vstd::std_specs::cmp::{PartialOrdIs, PartialOrdSpec};
use vstd::std_specs::convert::FromSpec;
use vstd::string::*;

verus! {

/// The text of a magnitude, given the text of the number and whether the
/// number is negative: a negative number's text without its leading minus
/// sign, and any other text as it is.
pub open spec fn magnitude_text(text: Seq<char>, negative: bool) -> Seq<char> {
    if negative && text.len() > 0 && text[0] == '-' {
        text.skip(1)
    } else {
        text
    }
}

/// The rendering of a complex number, given the texts of its two parts and
/// whether the imaginary part is negative.
pub open spec fn rendering(re_text: Seq<char>, im_text: Seq<char>, im_negative: bool) -> Seq<
    char,
> {
    re_text + seq![if im_negative { '-' } else { '+' }] + magnitude_text(im_text, im_negative)
        + seq!['i']
}

/// Assembles the rendering of a complex number from the texts of its two
/// parts. The sign between them is `-` when the imaginary part is negative
/// and `+` otherwise, and the imaginary part follows without a sign of its
/// own.
pub fn render(re_text: &str, im_text: &str, im_negative: bool) -> (s: String)
    ensures
        s@ == rendering(re_text@, im_text@, im_negative),
{
    let len = im_text.unicode_len();
    let strip = im_negative && len > 0 && im_text.get_char(0) == '-';
    let magnitude = if strip {
        im_text.substring_char(1, len)
    } else {
        im_text
    };
    proof {
        reveal_strlit("-");
        reveal_strlit("+");
        reveal_strlit("i");
        assert(im_text@.subrange(1, len as int) == im_text@.skip(1));
    }
    let mut s = String::from_str(re_text);
    if im_negative {
        s.append("-");
    } else {
        s.append("+");
    }
    s.append(magnitude);
    s.append("i");
    s
}

impl<T: Display + From<i8> + PartialOrd> Complex<T> {
    /// Holds when the imaginary part is strictly below the scalar's zero.
    pub open spec fn im_negative(self) -> bool {
        self.im.is_lt(&T::from_spec(0i8))
    }

    /// Renders the number as `<re><sign><im>i`. The sign is chosen by
    /// comparing the imaginary part with zero, and the two parts are written
    /// as the scalar writes itself.
    pub fn to_text(&self) -> (s: String)
        ensures
            exists|re_text: String, im_text: String, negative: bool|
                {
                    &&& to_string_from_display_ensures::<T>(&self.re, re_text)
                    &&& to_string_from_display_ensures::<T>(&self.im, im_text)
                    &&& T::obeys_partial_cmp_spec() && T::obeys_from_spec() ==> negative
                        == self.im_negative()
                    &&& s@ == rendering(re_text@, im_text@, negative)
                },
    {
        let zero = T::from(0i8);
        let negative = self.im < zero;
        let re_text = self.re.to_string();
        let im_text = self.im.to_string();
        render(re_text.as_str(), im_text.as_str(), negative)
    }
}

} // verus!
