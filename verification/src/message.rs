//! Services, messages, and the conversions between typed messages and the
//! wire sets.

use vstd::prelude::*;
use vstd::std_specs::convert::{IntoSpec, TryFromSpec};

verus! {

/// A protocol: the closed set of messages that clients send and the closed
/// set that servers send.
pub trait Service {
    /// Everything a client may put on the wire: requests and updates.
    type Req;

    /// Everything a server may put on the wire: responses.
    type Res;
}

/// The shape of a call, independent of the messages that it carries.
pub trait InteractionPattern {
}

/// A request of service `S`, bound to the interaction pattern it follows.
pub trait Msg<S: Service>: Into<S::Req> + TryFrom<S::Req> {
    /// The interaction pattern of calls that this request opens.
    type Pattern: InteractionPattern;
}

/// Whether the conversion of `T` into the wire set `W` is specified, so that
/// [`wire_of`] says what it yields.
pub open spec fn encodes<T: Into<W>, W>() -> bool {
    T::obeys_into_spec()
}

/// The wire value that stands for the typed message `t`.
pub open spec fn wire_of<T: Into<W>, W>(t: T) -> W {
    t.into_spec()
}

/// Whether the recovery of `T` from the wire set `W` is specified, so that
/// [`typed_of`] says what it yields.
pub open spec fn decodes<T: TryFrom<W>, W>() -> bool {
    T::obeys_try_from_spec()
}

/// The typed message that the wire value `w` holds, if it holds a `T`.
pub open spec fn typed_of<T: TryFrom<W>, W>(w: W) -> Option<T> {
    match T::try_from_spec(w) {
        Ok(t) => Some(t),
        Err(_) => None,
    }
}

/// `T` travels through `W` without loss: both conversions are specified, and
/// recovering what was converted gives the value back.
pub open spec fn lossless<T: Into<W> + TryFrom<W>, W>() -> bool {
    &&& encodes::<T, W>()
    &&& decodes::<T, W>()
    &&& forall|t: T| #[trigger] typed_of::<T, W>(wire_of::<T, W>(t)) == Some(t)
}

/// Converts a typed message into its wire set.
pub fn to_wire<T: Into<W>, W>(t: T) -> (w: W)
    ensures
        encodes::<T, W>() ==> w == wire_of::<T, W>(t),
{
    t.into()
}

/// Recovers a typed message from a wire value. `None` is a type mismatch: the
/// wire value holds some other message.
pub fn downcast<T: TryFrom<W>, W>(w: W) -> (r: Option<T>)
    ensures
        decodes::<T, W>() ==> r == typed_of::<T, W>(w),
{
    match T::try_from(w) {
        Ok(t) => Some(t),
        Err(_) => None,
    }
}

} // verus!
