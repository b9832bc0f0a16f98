use vstd::prelude::*;
use crate::key_code::{KeyError, KeyIdentity};

verus! {

/// The three keyboard events a handler reacts to.
#[derive(Debug, Clone, Copy, PartialEq, Eq, Structural)]
pub enum KeyEventKind {
    /// The key went down, or repeated while held.
    Down,
    /// The key was released.
    Up,
    /// The deprecated composite key-press event.
    Press,
}

/// A handler of the keyboard events of one key.
///
/// `keydown` and `keyup` are always handled; handling `keypress` is a
/// capability that a handler may lack.
pub trait KeyHandler {
    /// The integer encoding of the key this handler is for; it never changes.
    spec fn key(&self) -> nat;

    /// Whether the handler has a callback for the key-press event.
    spec fn keypress_capable(&self) -> bool;

    /// The callback for `kind` has run to completion on the handler's state.
    spec fn handled(&self, kind: KeyEventKind) -> bool;

    /// The key this handler is for.
    fn identity(&self) -> (r: KeyIdentity)
        ensures
            r@ == self.key(),
    ;

    /// Whether the handler has a callback for the key-press event.
    fn has_keypress(&self) -> (r: bool)
        ensures
            r == self.keypress_capable(),
    ;

    /// Handles the `keydown` event.
    fn handle_keydown(&self)
        ensures
            self.handled(KeyEventKind::Down),
    ;

    /// Handles the `keyup` event.
    fn handle_keyup(&self)
        ensures
            self.handled(KeyEventKind::Up),
    ;

    /// Handles the deprecated `keypress` event, where the handler can.
    fn handle_keypress(&self) -> (r: Result<(), KeyError>)
        ensures
            r is Ok <==> self.keypress_capable(),
            r is Ok ==> self.handled(KeyEventKind::Press),
            r matches Err(e) ==> e == KeyError::MisconfiguredCapability,
    ;
}

} // verus!
