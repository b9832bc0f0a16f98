use vstd::prelude::*;
use uievents_code::KeyboardEventCode;

verus! {

/// Number of codes in the key identity table: `KeyboardEventCode`, built with
/// its `enum` feature alone, has this many variants, numbered from zero.
pub const KNOWN_CODES: u8 = 162;

#[verifier::external_type_specification]
#[verifier::external_body]
pub struct ExKeyboardEventCode(KeyboardEventCode);

/// Relies on `KeyboardEventCode::from_repr`, written by strum's `FromRepr`
/// derive: a match of the discriminant against the implicit discriminants
/// `0, 1, 2, ...` of the variants, `None` for any other value.
pub assume_specification[ KeyboardEventCode::from_repr ](discriminant: u8) -> (r: Option<KeyboardEventCode>)
    ensures
        r.is_some() <==> discriminant < KNOWN_CODES,
;

/// Whether `raw` is the integer encoding of a key of the table.
pub open spec fn is_known_code(raw: int) -> bool {
    0 <= raw < KNOWN_CODES
}

/// The failures of this library.
#[derive(Debug, Clone, Copy, PartialEq, Eq, Structural)]
pub enum KeyError {
    /// A raw integer that names no key of the table.
    UnknownKeyCode,
    /// A key-press callback, or a key-press event, where key-press events are
    /// not enabled.
    MisconfiguredCapability,
}

/// A key of the table, validated once when it was resolved from its raw code.
#[derive(Debug, Clone, Copy)]
pub struct KeyIdentity {
    code: KeyboardEventCode,
    repr: u8,
}

impl View for KeyIdentity {
    type V = nat;

    /// The integer encoding of the key.
    closed spec fn view(&self) -> nat {
        self.repr as nat
    }
}

impl KeyIdentity {
    #[verifier::type_invariant]
    spec fn inv(&self) -> bool {
        is_known_code(self.repr as int)
    }

    /// The integer encoding of the key.
    pub fn repr(&self) -> (r: u8)
        ensures
            r as nat == self@,
            is_known_code(r as int),
    {
        proof {
            use_type_invariant(self);
        }
        self.repr
    }

    /// The variant of the key identity table.
    pub fn code(&self) -> KeyboardEventCode {
        self.code
    }
}

impl PartialEq for KeyIdentity {
    fn eq(&self, other: &KeyIdentity) -> (r: bool)
        ensures
            r == (self@ == other@),
    {
        self.repr == other.repr
    }
}

impl Eq for KeyIdentity {}

impl vstd::std_specs::cmp::PartialEqSpecImpl for KeyIdentity {
    open spec fn obeys_eq_spec() -> bool {
        true
    }

    open spec fn eq_spec(&self, other: &KeyIdentity) -> bool {
        self@ == other@
    }
}

/// Resolves a raw key code to the key it names; never falls back to some
/// other key.
pub fn resolve(raw: u32) -> (r: Result<KeyIdentity, KeyError>)
    ensures
        r is Ok <==> is_known_code(raw as int),
        r matches Ok(id) ==> id@ == raw,
        r matches Err(e) ==> e == KeyError::UnknownKeyCode,
{
    if raw > 255 {
        return Err(KeyError::UnknownKeyCode);
    }
    let repr = raw as u8;
    match KeyboardEventCode::from_repr(repr) {
        Some(code) => Ok(KeyIdentity { code, repr }),
        None => Err(KeyError::UnknownKeyCode),
    }
}

} // verus!
