use vstd::prelude::*;

verus! {

/// The answer `IDYES` of a Windows yes/no message box.
pub const ANSWER_YES: i32 = 6;

/// The uninstaller goes on only when the user answered yes.
pub fn confirmed(answer: i32) -> (yes: bool)
    ensures
        yes == (answer == ANSWER_YES),
{
    answer == ANSWER_YES
}

} // verus!
