//! What is known of a device before any event is read: its identity and its buttons.

use evdev::{AttributeSetRef, Key};
use vstd::prelude::*;

verus! {

/// `evdev::Key`: a key or button code of the input subsystem.
#[verifier::external_type_specification]
#[verifier::external_body]
pub struct ExKey(Key);

/// `evdev::AttributeSetRef`: a borrowed bit set of capability codes.
#[verifier::external_type_specification]
#[verifier::external_body]
#[verifier::reject_recursive_types(T)]
pub struct ExAttributeSetRef<T>(AttributeSetRef<T>);

/// The button codes whose bit is set in `keys`.
pub uninterp spec fn supported_codes(keys: &AttributeSetRef<Key>) -> Set<u16>;

/// `evdev::AttributeSetRef::contains`, asked for the key with the given code:
/// true exactly when the bit of that code is set.
#[verifier::external_body]
fn contains_code(keys: &AttributeSetRef<Key>, code: u16) -> (found: bool)
    ensures
        found == supported_codes(keys).contains(code),
{
    keys.contains(Key::new(code))
}

/// The button codes of a device that may report no button set at all.
pub open spec fn codes_of(keys: Option<&AttributeSetRef<Key>>) -> Set<u16> {
    match keys {
        Some(set) => supported_codes(set),
        None => Set::empty(),
    }
}

/// The identity a device reports of itself.
#[derive(Clone, Debug, PartialEq, Eq)]
pub struct DeviceIdentity {
    pub vendor: u16,
    pub product: u16,
    pub version: u16,
    /// The display name, where the device has one.
    pub name: Option<String>,
}

impl DeviceIdentity {
    /// The display name as a sequence of characters.
    pub open spec fn name_chars(self) -> Option<Seq<char>> {
        match self.name {
            Some(name) => Some(name@),
            None => None,
        }
    }
}

/// Whether the device reports the button with the given code.
pub fn has_key(keys: Option<&AttributeSetRef<Key>>, code: u16) -> (found: bool)
    ensures
        found == codes_of(keys).contains(code),
{
    match keys {
        Some(set) => contains_code(set, code),
        None => false,
    }
}

} // verus!
