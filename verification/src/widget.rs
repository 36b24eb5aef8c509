use vstd::prelude::*;

verus! {

/// The toggle switch's interaction rule: a click flips the boolean the
/// switch edits, and anything else leaves it alone.  The painting of the
/// switch reads the resulting state; it has no logic of its own.
pub fn toggle(on: &mut bool, clicked: bool) -> (switched: bool)
    ensures
        *final(on) == (if clicked {
            !*old(on)
        } else {
            *old(on)
        }),
        switched == clicked,
{
    if clicked {
        *on = !*on;
    }
    clicked
}

/// The widget demo drives a single toggle switch bound to one boolean and
/// reports whether this frame's interaction switched it.
pub fn demo(on: &mut bool, clicked: bool) -> (switched: bool)
    ensures
        *final(on) == (if clicked {
            !*old(on)
        } else {
            *old(on)
        }),
        switched == clicked,
{
    toggle(on, clicked)
}

} // verus!
