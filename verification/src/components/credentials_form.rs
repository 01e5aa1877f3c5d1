//! Which row of the credentials form the virtual keyboard types into.

use crate::components::virtual_keyboard::InputField;
use vstd::prelude::*;

verus! {

/// The row that last gained keyboard focus, given the row before this frame
/// and which rows gained focus in this frame. When several rows gain focus at
/// once, the confirm-password row wins over the password row, which wins over
/// the username row.
pub open spec fn focus_after(
    last: InputField,
    username_gained: bool,
    password_gained: bool,
    confirm_gained: bool,
) -> InputField {
    if confirm_gained {
        InputField::ConfirmPassword
    } else if password_gained {
        InputField::Password
    } else if username_gained {
        InputField::Username
    } else {
        last
    }
}

/// Track the focused row across a frame of the credentials form.
pub fn last_focused_after(
    last: InputField,
    username_gained: bool,
    password_gained: bool,
    confirm_gained: bool,
) -> (f: InputField)
    ensures
        f == focus_after(last, username_gained, password_gained, confirm_gained),
{
    let mut last_focused = last;
    if username_gained {
        last_focused = InputField::Username;
    }
    if password_gained {
        last_focused = InputField::Password;
    }
    if confirm_gained {
        last_focused = InputField::ConfirmPassword;
    }
    last_focused
}

/// A frame in which no row gains focus keeps the row the keyboard types
/// into; a row that gains focus alone becomes that row.
pub proof fn focus_follows_the_last_focused_row(last: InputField)
    ensures
        focus_after(last, false, false, false) == last,
        focus_after(last, true, false, false) == InputField::Username,
        focus_after(last, false, true, false) == InputField::Password,
        focus_after(last, false, false, true) == InputField::ConfirmPassword,
{
}

} // verus!
