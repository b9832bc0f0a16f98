use vstd::prelude::*;
use web_sys::KeyboardEvent;

verus! {

#[verifier::external_type_specification]
#[verifier::external_body]
pub struct ExKeyboardEvent(KeyboardEvent);

/// A handler of the `keydown`, `keyup` and deprecated `keypress` events that
/// any key of a keyboard fires, as the browser delivers them.
pub trait KeyboardHandler {
    /// Handles the `keydown` event.
    fn handle_keydown(&self, event: &KeyboardEvent);

    /// Handles the `keyup` event.
    fn handle_keyup(&self, event: &KeyboardEvent);

    /// Handles the deprecated `keypress` event.
    fn handle_keypress(&self, event: &KeyboardEvent);
}

} // verus!
