//! The Yes/No conclusion drawn for a boolean value.

use vstd::prelude::*;

verus! {

/// The color a conclusion is drawn in.
#[derive(Clone, Copy, Debug, PartialEq, Eq)]
pub enum ConclusionColor {
    Green,
    Red,
}

/// A boolean outcome, displayed as "Yes" or "No".
#[derive(Clone, Copy, Debug, PartialEq, Eq)]
pub struct Conclusion(pub bool);

/// The label a conclusion renders as: "Yes" for true, "No" for false.
pub open spec fn conclusion_label(b: bool) -> Seq<char> {
    if b {
        seq!['Y', 'e', 's']
    } else {
        seq!['N', 'o']
    }
}

impl Conclusion {
    /// The label shown for this conclusion.
    pub fn value(&self) -> (r: &'static str)
        ensures
            r@ == conclusion_label(self.0),
    {
        if self.0 {
            proof {
                reveal_strlit("Yes");
                assert("Yes"@ =~= conclusion_label(true));
            }
            "Yes"
        } else {
            proof {
                reveal_strlit("No");
                assert("No"@ =~= conclusion_label(false));
            }
            "No"
        }
    }

    /// The color the label is drawn in: green for true, red for false.
    pub fn color(&self) -> (c: ConclusionColor)
        ensures
            c == (if self.0 {
                ConclusionColor::Green
            } else {
                ConclusionColor::Red
            }),
    {
        if self.0 {
            ConclusionColor::Green
        } else {
            ConclusionColor::Red
        }
    }
}

} // verus!
