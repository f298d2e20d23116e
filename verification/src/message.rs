use vstd::prelude::*;

verus! {

/// The event type of the application: an uninhabited enumeration.
///
/// Its single variant carries `core::convert::Infallible`, the standard
/// library's type with no values, so no value of `Message` can ever be
/// constructed either: the update step of the shell is unreachable at the
/// type level, not through a runtime fallthrough that would silently swallow
/// future events.
#[derive(Debug)]
pub enum Message {
    Never(core::convert::Infallible),
}

} // verus!
