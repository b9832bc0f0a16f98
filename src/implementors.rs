use vstd::prelude::*;
use crate::handler::{KeyEventKind, KeyHandler as KeyHandlerTrait};
use crate::key_code::{is_known_code, resolve, KeyError, KeyIdentity};

verus! {

/// The default handler record: one key, the state it owns, and the callbacks
/// that receive that state by reference.
///
/// The key-press callback is present only where key-press events were
/// enabled when the record was built.
pub struct KeyHandler<State, F1: Fn(&State), F2: Fn(&State), F3: Fn(&State)> {
    key: KeyIdentity,
    state: State,
    handle_keydown_impl: F1,
    handle_keyup_impl: F2,
    handle_keypress_impl: Option<F3>,
}

impl<State, F1: Fn(&State), F2: Fn(&State), F3: Fn(&State)> KeyHandler<State, F1, F2, F3> {
    #[verifier::type_invariant]
    spec fn inv(&self) -> bool {
        &&& self.handle_keydown_impl.requires((&self.state,))
        &&& self.handle_keyup_impl.requires((&self.state,))
        &&& self.handle_keypress_impl matches Some(f) ==> f.requires((&self.state,))
    }

    /// The key of the record.
    pub closed spec fn key_identity(&self) -> KeyIdentity {
        self.key
    }

    /// The state the record owns.
    pub closed spec fn state(&self) -> State {
        self.state
    }

    /// The key-down callback.
    pub closed spec fn keydown_impl(&self) -> F1 {
        self.handle_keydown_impl
    }

    /// The key-up callback.
    pub closed spec fn keyup_impl(&self) -> F2 {
        self.handle_keyup_impl
    }

    /// The key-press callback, if any.
    pub closed spec fn keypress_impl(&self) -> Option<F3> {
        self.handle_keypress_impl
    }

    /// The state the record owns.
    pub fn get_state(&self) -> (r: &State)
        ensures
            *r == self.state(),
    {
        &self.state
    }
}

/// The handler record's type; its constructor is declared under this name.
#[allow(non_camel_case_types)]
pub type key_handler_ty<State, F1, F2, F3> = KeyHandler<State, F1, F2, F3>;

impl<State, F1: Fn(&State), F2: Fn(&State), F3: Fn(&State)> key_handler_ty<State, F1, F2, F3> {
    /// Builds a record for the key whose integer encoding is `key_id`.
    ///
    /// Fails with `UnknownKeyCode` where `key_id` names no key, and otherwise
    /// with `MisconfiguredCapability` where a key-press callback is given
    /// while key-press events are not enabled.
    pub fn new(
        key_id: u8,
        state: State,
        handle_keydown_impl: F1,
        handle_keyup_impl: F2,
        handle_keypress_impl: Option<F3>,
        keypress_enabled: bool,
    ) -> (r: Result<Self, KeyError>)
        requires
            handle_keydown_impl.requires((&state,)),
            handle_keyup_impl.requires((&state,)),
            handle_keypress_impl matches Some(f) ==> f.requires((&state,)),
        ensures
            r is Ok <==> is_known_code(key_id as int) && (handle_keypress_impl is Some
                ==> keypress_enabled),
            !is_known_code(key_id as int) ==> r matches Err(KeyError::UnknownKeyCode),
            is_known_code(key_id as int) && handle_keypress_impl is Some && !keypress_enabled
                ==> r matches Err(KeyError::MisconfiguredCapability),
            r matches Ok(h) ==> {
                &&& h.key_identity()@ == key_id
                &&& h.key() == key_id
                &&& h.keypress_capable() == handle_keypress_impl is Some
                &&& h.state() == state
                &&& h.keydown_impl() == handle_keydown_impl
                &&& h.keyup_impl() == handle_keyup_impl
                &&& h.keypress_impl() == handle_keypress_impl
            },
    {
        let key = match resolve(key_id as u32) {
            Ok(key) => key,
            Err(e) => return Err(e),
        };
        if handle_keypress_impl.is_some() && !keypress_enabled {
            return Err(KeyError::MisconfiguredCapability);
        }
        Ok(KeyHandler { key, state, handle_keydown_impl, handle_keyup_impl, handle_keypress_impl })
    }
}

impl<State, F1: Fn(&State), F2: Fn(&State), F3: Fn(&State)> KeyHandlerTrait for KeyHandler<
    State,
    F1,
    F2,
    F3,
> {
    open spec fn key(&self) -> nat {
        self.key_identity()@
    }

    open spec fn keypress_capable(&self) -> bool {
        self.keypress_impl() is Some
    }

    open spec fn handled(&self, kind: KeyEventKind) -> bool {
        match kind {
            KeyEventKind::Down => self.keydown_impl().ensures((&self.state(),), ()),
            KeyEventKind::Up => self.keyup_impl().ensures((&self.state(),), ()),
            KeyEventKind::Press => match self.keypress_impl() {
                Some(f) => f.ensures((&self.state(),), ()),
                None => false,
            },
        }
    }

    fn identity(&self) -> (r: KeyIdentity) {
        self.key
    }

    fn has_keypress(&self) -> (r: bool) {
        self.handle_keypress_impl.is_some()
    }

    fn handle_keydown(&self) {
        proof {
            use_type_invariant(self);
        }
        (self.handle_keydown_impl)(&self.state)
    }

    fn handle_keyup(&self) {
        proof {
            use_type_invariant(self);
        }
        (self.handle_keyup_impl)(&self.state)
    }

    fn handle_keypress(&self) -> (r: Result<(), KeyError>) {
        proof {
            use_type_invariant(self);
        }
        match &self.handle_keypress_impl {
            Some(f) => {
                f(&self.state);
                Ok(())
            },
            None => Err(KeyError::MisconfiguredCapability),
        }
    }
}

} // verus!
