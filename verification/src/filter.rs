//! The suitability filter: which devices are worth normalising at all.

use crate::codes::{BTN_SOUTH, BTN_TOUCH};
use crate::device::{codes_of, has_key, DeviceIdentity};
use crate::output::{OUTPUT_NAME, OUTPUT_VERSION};
use evdev::{AttributeSetRef, Key};
use vstd::prelude::*;
use vstd::string::StrSliceExecFns;

verus! {

/// The name of the virtual pad followed by a space: the start of the name
/// under which a known redirection layer presents its own copy of the pad.
pub const RESERVED_NAME_PREFIX: &'static str = "Microsoft X-Box 360 pad ";

/// Whether `text` begins with `prefix`.
pub fn starts_with(text: &str, prefix: &str) -> (found: bool)
    ensures
        found == prefix@.is_prefix_of(text@),
{
    let wanted = prefix.unicode_len();
    if text.unicode_len() < wanted {
        return false;
    }
    let mut at: usize = 0;
    while at < wanted
        invariant
            at <= wanted == prefix@.len() <= text@.len(),
            forall|i: int| 0 <= i < at ==> text@[i] == prefix@[i],
        decreases wanted - at,
    {
        if text.get_char(at) != prefix.get_char(at) {
            assert(text@.subrange(0, prefix@.len() as int)[at as int] != prefix@[at as int]);
            return false;
        }
        at += 1;
    }
    assert(prefix@ =~= text@.subrange(0, prefix@.len() as int));
    true
}

/// Whether a device of this name is taken for a copy of the virtual pad: its
/// name begins with the reserved prefix, or it has no name.
pub open spec fn name_is_reserved(name: Option<Seq<char>>) -> bool {
    match name {
        Some(chars) => RESERVED_NAME_PREFIX@.is_prefix_of(chars),
        None => true,
    }
}

/// Whether a device is to be normalised: it has the south button of a gamepad,
/// and is neither a touch device, nor the virtual pad itself, nor a copy of it.
pub open spec fn spec_suitable(codes: Set<u16>, version: u16, name: Option<Seq<char>>) -> bool {
    &&& codes.contains(BTN_SOUTH)
    &&& !codes.contains(BTN_TOUCH)
    &&& version != OUTPUT_VERSION
    &&& !name_is_reserved(name)
}

/// Decides whether a device is to be normalised.
pub fn is_suitable(keys: Option<&AttributeSetRef<Key>>, identity: &DeviceIdentity) -> (useful: bool)
    ensures
        useful == spec_suitable(codes_of(keys), identity.version, identity.name_chars()),
{
    let mut useful = false;
    if has_key(keys, BTN_SOUTH) {
        useful = true;
    }
    if has_key(keys, BTN_TOUCH) {
        useful = false;
    }
    if identity.version == OUTPUT_VERSION {
        useful = false;
    }
    let reserved = match &identity.name {
        Some(name) => starts_with(name.as_str(), RESERVED_NAME_PREFIX),
        None => true,
    };
    if reserved {
        useful = false;
    }
    useful
}

/// The touch rule overrides the south-button rule: a device with both buttons
/// is rejected, whatever else is known of it.
pub proof fn lemma_touch_overrides_south(codes: Set<u16>, version: u16, name: Option<Seq<char>>)
    requires
        codes.contains(BTN_SOUTH),
        codes.contains(BTN_TOUCH),
    ensures
        !spec_suitable(codes, version, name),
{
}

/// The virtual pad never takes itself, nor a copy of itself, for a device to
/// normalise, whatever buttons it reports.
pub proof fn lemma_own_output_is_rejected(codes: Set<u16>, version: u16, name: Option<Seq<char>>)
    requires
        version == OUTPUT_VERSION || name_is_reserved(name),
    ensures
        !spec_suitable(codes, version, name),
{
}

/// The reserved prefix is the name of the virtual pad followed by one space.
pub proof fn lemma_reserved_prefix_is_output_name_and_space()
    ensures
        RESERVED_NAME_PREFIX@ == OUTPUT_NAME@.push(' '),
{
    reveal_strlit("Microsoft X-Box 360 pad ");
    reveal_strlit("Microsoft X-Box 360 pad");
    assert(RESERVED_NAME_PREFIX@ =~= OUTPUT_NAME@.push(' '));
}

} // verus!
