//! The server side shared by all interaction patterns: the typed update
//! source, the race between two pending results, and the server's error.

use crate::message::{decodes, downcast, lossless, typed_of, wire_of, Service};
use crate::transport::ConnectionErrors;
use std::marker::PhantomData;
use vstd::prelude::*;

verus! {

/// Why a server call failed.
#[derive(Debug)]
pub enum RpcServerError<C: ConnectionErrors> {
    /// The transport failed to read an update.
    RecvError(C::RecvError),
    /// The transport failed to write a response.
    SendError(C::SendError),
    /// A message arrived that is not an update of this call.
    UnexpectedUpdateMessage,
}

/// What one element of the raw incoming stream means to a server call.
#[derive(Debug)]
pub enum UpdateStep<C: ConnectionErrors, T> {
    /// A typed update, for the handler.
    Update(T),
    /// The raw stream ended cleanly: the handler's update sequence ends.
    End,
    /// The error signal fires with this failure. The handler sees nothing.
    Failed(RpcServerError<C>),
    /// A failure after the signal has fired. Nobody sees it.
    Dropped,
}

/// The failure that a raw element stands for, if it stands for one: a read
/// that failed, or a message that is no `T`.
pub open spec fn failure_of<S: Service, C: ConnectionErrors, T: TryFrom<S::Req>>(
    raw: Result<S::Req, C::RecvError>,
) -> Option<RpcServerError<C>> {
    match raw {
        Ok(w) => if typed_of::<T, S::Req>(w) is Some {
            None
        } else {
            Some(RpcServerError::UnexpectedUpdateMessage)
        },
        Err(e) => Some(RpcServerError::RecvError(e)),
    }
}

/// What a source whose signal has (`fired`) or has not fired makes of one
/// raw element.
pub open spec fn element_step<S: Service, C: ConnectionErrors, T: TryFrom<S::Req>>(
    fired: bool,
    raw: Result<S::Req, C::RecvError>,
) -> UpdateStep<C, T> {
    match failure_of::<S, C, T>(raw) {
        None => UpdateStep::Update(typed_of::<T, S::Req>(raw->Ok_0)->Some_0),
        Some(e) => if fired {
            UpdateStep::Dropped
        } else {
            UpdateStep::Failed(e)
        },
    }
}

/// What a source whose signal has (`fired`) or has not fired makes of what
/// the raw stream produced, an element or its end: whether the signal has
/// fired afterwards, and the step.
pub open spec fn received<S: Service, C: ConnectionErrors, T: TryFrom<S::Req>>(
    fired: bool,
    raw: Option<Result<S::Req, C::RecvError>>,
) -> (bool, UpdateStep<C, T>) {
    match raw {
        None => (fired, UpdateStep::End),
        Some(element) => (
            fired || failure_of::<S, C, T>(element) is Some,
            element_step::<S, C, T>(fired, element),
        ),
    }
}

/// Whether some element of `raws` stands for a failure.
pub open spec fn any_failure<S: Service, C: ConnectionErrors, T: TryFrom<S::Req>>(
    raws: Seq<Result<S::Req, C::RecvError>>,
) -> bool {
    exists|j: int| 0 <= j < raws.len() && (#[trigger] failure_of::<S, C, T>(raws[j])) is Some
}

/// Whether the signal of a source has fired once the source, starting with
/// `fired`, has received `raws`.
pub open spec fn fired_after<S: Service, C: ConnectionErrors, T: TryFrom<S::Req>>(
    fired: bool,
    raws: Seq<Result<S::Req, C::RecvError>>,
) -> bool
    decreases raws.len(),
{
    if raws.len() == 0 {
        fired
    } else {
        received::<S, C, T>(fired_after::<S, C, T>(fired, raws.drop_last()), Some(raws.last())).0
    }
}

/// The steps that a source, starting with `fired`, answers to `raws`, one for
/// each element.
pub open spec fn steps_of<S: Service, C: ConnectionErrors, T: TryFrom<S::Req>>(
    fired: bool,
    raws: Seq<Result<S::Req, C::RecvError>>,
) -> Seq<UpdateStep<C, T>>
    decreases raws.len(),
{
    if raws.len() == 0 {
        Seq::empty()
    } else {
        steps_of::<S, C, T>(fired, raws.drop_last()).push(
            received::<S, C, T>(
                fired_after::<S, C, T>(fired, raws.drop_last()),
                Some(raws.last()),
            ).1,
        )
    }
}

/// The typed update source of one server call.
///
/// It is fed the elements of the raw incoming stream and splits them in two:
/// the typed updates, which go to the handler, and one error signal, which
/// fires at the first element that is a failed read or not an update.
pub struct UpdateStream<S: Service, C: ConnectionErrors, T: TryFrom<S::Req>> {
    fired: bool,
    marker: PhantomData<(S, C, T)>,
}

impl<S: Service, C: ConnectionErrors, T: TryFrom<S::Req>> UpdateStream<S, C, T> {
    /// Whether the error signal has fired.
    pub closed spec fn fired(&self) -> bool {
        self.fired
    }

    /// The source that has received nothing.
    pub closed spec fn fresh() -> Self {
        UpdateStream { fired: false, marker: PhantomData }
    }

    /// The signal of the source that has received nothing has not fired.
    pub proof fn fresh_has_not_fired()
        ensures
            !Self::fresh().fired(),
    {
    }

    /// A source that has received nothing.
    pub(crate) fn new() -> (source: Self)
        ensures
            source == Self::fresh(),
            !source.fired(),
    {
        UpdateStream { fired: false, marker: PhantomData }
    }

    /// Whether the error signal has fired.
    pub fn has_fired(&self) -> (fired: bool)
        ensures
            fired == self.fired(),
    {
        self.fired
    }

    /// Takes what the raw stream produced: an element, or `None` at its end.
    ///
    /// A clean end and a read that failed are answered as [`received`] says,
    /// whatever the conversion does, and so is a message where the
    /// conversion is specified. Where it is not, a message is still either
    /// an update, or a failure that fires the signal if it has not fired.
    pub fn receive(&mut self, raw: Option<Result<S::Req, C::RecvError>>) -> (step: UpdateStep<C, T>)
        ensures
            decodes::<T, S::Req>() || !(raw matches Some(Ok(_))) ==> (final(self).fired(), step)
                == received::<S, C, T>(old(self).fired(), raw),
            raw matches Some(Ok(_)) ==> {
                ||| step is Update && final(self).fired() == old(self).fired()
                ||| final(self).fired() && step == if old(self).fired() {
                    UpdateStep::<C, T>::Dropped
                } else {
                    UpdateStep::Failed(RpcServerError::UnexpectedUpdateMessage)
                }
            },
    {
        let failure = match raw {
            None => {
                return UpdateStep::End;
            },
            Some(Ok(w)) => match downcast::<T, S::Req>(w) {
                Some(update) => {
                    return UpdateStep::Update(update);
                },
                None => RpcServerError::UnexpectedUpdateMessage,
            },
            Some(Err(e)) => RpcServerError::RecvError(e),
        };
        if self.fired {
            UpdateStep::Dropped
        } else {
            self.fired = true;
            UpdateStep::Failed(failure)
        }
    }
}

/// An update that travels without loss arrives as itself: what the client's
/// sink writes for it, the source hands to the handler as that update,
/// whether or not its signal has fired.
pub proof fn update_survives_the_wire<S: Service, C: ConnectionErrors, T: Into<S::Req> + TryFrom<
    S::Req,
>>(update: T, fired: bool)
    requires
        lossless::<T, S::Req>(),
    ensures
        failure_of::<S, C, T>(Ok(wire_of::<T, S::Req>(update))) is None,
        element_step::<S, C, T>(fired, Ok(wire_of::<T, S::Req>(update))) == UpdateStep::<
            C,
            T,
        >::Update(update),
{
    assert(typed_of::<T, S::Req>(wire_of::<T, S::Req>(update)) == Some(update));
}

/// The signal has fired after `raws` exactly if it had fired before or some
/// element of `raws` stands for a failure.
pub proof fn fired_after_is_any_failure<S: Service, C: ConnectionErrors, T: TryFrom<S::Req>>(
    fired: bool,
    raws: Seq<Result<S::Req, C::RecvError>>,
)
    ensures
        fired_after::<S, C, T>(fired, raws) == (fired || any_failure::<S, C, T>(raws)),
    decreases raws.len(),
{
    if raws.len() > 0 {
        let front = raws.drop_last();
        fired_after_is_any_failure::<S, C, T>(fired, front);
        if any_failure::<S, C, T>(front) {
            let j = choose|j: int|
                0 <= j < front.len() && (#[trigger] failure_of::<S, C, T>(front[j])) is Some;
            assert(failure_of::<S, C, T>(raws[j]) is Some);
        }
        if failure_of::<S, C, T>(raws.last()) is Some {
            assert(failure_of::<S, C, T>(raws[raws.len() - 1]) is Some);
        }
        if any_failure::<S, C, T>(raws) {
            let j = choose|j: int|
                0 <= j < raws.len() && (#[trigger] failure_of::<S, C, T>(raws[j])) is Some;
            if j < front.len() {
                assert(failure_of::<S, C, T>(front[j]) is Some);
            }
        }
    }
}

/// The source answers each element by itself, knowing only whether its
/// signal has fired: it has if it had at the start or an earlier element
/// stands for a failure.
pub proof fn steps_of_at<S: Service, C: ConnectionErrors, T: TryFrom<S::Req>>(
    fired: bool,
    raws: Seq<Result<S::Req, C::RecvError>>,
    i: int,
)
    requires
        0 <= i < raws.len(),
    ensures
        steps_of::<S, C, T>(fired, raws).len() == raws.len(),
        steps_of::<S, C, T>(fired, raws)[i] == element_step::<S, C, T>(
            fired || any_failure::<S, C, T>(raws.take(i)),
            raws[i],
        ),
    decreases raws.len(),
{
    let front = raws.drop_last();
    steps_of_len::<S, C, T>(fired, raws);
    steps_of_len::<S, C, T>(fired, front);
    if i == raws.len() - 1 {
        assert(raws.take(i) == front);
        fired_after_is_any_failure::<S, C, T>(fired, front);
    } else {
        steps_of_at::<S, C, T>(fired, front, i);
        assert(front.take(i) == raws.take(i));
    }
}

/// The source answers every element with one step.
pub proof fn steps_of_len<S: Service, C: ConnectionErrors, T: TryFrom<S::Req>>(
    fired: bool,
    raws: Seq<Result<S::Req, C::RecvError>>,
)
    ensures
        steps_of::<S, C, T>(fired, raws).len() == raws.len(),
    decreases raws.len(),
{
    if raws.len() > 0 {
        steps_of_len::<S, C, T>(fired, raws.drop_last());
    }
}

/// A raw element that is not a `T`, or a read that failed, never reaches the
/// handler as an update: the step that answers it is the error signal if no
/// failure came before, and nothing at all if one did.
pub proof fn failure_is_never_an_update<S: Service, C: ConnectionErrors, T: TryFrom<S::Req>>(
    raws: Seq<Result<S::Req, C::RecvError>>,
    i: int,
)
    requires
        0 <= i < raws.len(),
        failure_of::<S, C, T>(raws[i]) is Some,
    ensures
        !(steps_of::<S, C, T>(false, raws)[i] is Update),
        steps_of::<S, C, T>(false, raws)[i] == if any_failure::<S, C, T>(raws.take(i)) {
            UpdateStep::<C, T>::Dropped
        } else {
            UpdateStep::Failed(failure_of::<S, C, T>(raws[i])->Some_0)
        },
{
    steps_of_at::<S, C, T>(false, raws, i);
}

/// Every update that reaches the handler is the typed content of the raw
/// element at its place, and every raw element that holds a `T` reaches the
/// handler, in the order of arrival.
pub proof fn updates_are_the_typed_elements<S: Service, C: ConnectionErrors, T: TryFrom<S::Req>>(
    raws: Seq<Result<S::Req, C::RecvError>>,
    i: int,
)
    requires
        0 <= i < raws.len(),
    ensures
        steps_of::<S, C, T>(false, raws)[i] is Update <==> failure_of::<S, C, T>(raws[i]) is None,
        steps_of::<S, C, T>(false, raws)[i] matches UpdateStep::Update(u) ==> raws[i] is Ok
            && typed_of::<T, S::Req>(raws[i]->Ok_0) == Some(u),
{
    steps_of_at::<S, C, T>(false, raws, i);
}

/// The error signal fires at most once.
pub proof fn signal_fires_at_most_once<S: Service, C: ConnectionErrors, T: TryFrom<S::Req>>(
    raws: Seq<Result<S::Req, C::RecvError>>,
    i: int,
    j: int,
)
    requires
        0 <= i < raws.len(),
        0 <= j < raws.len(),
        steps_of::<S, C, T>(false, raws)[i] is Failed,
        steps_of::<S, C, T>(false, raws)[j] is Failed,
    ensures
        i == j,
{
    steps_of_at::<S, C, T>(false, raws, i);
    steps_of_at::<S, C, T>(false, raws, j);
    if i < j {
        assert(raws.take(j)[i] == raws[i]);
    } else if j < i {
        assert(raws.take(i)[j] == raws[j]);
    }
}

/// A raw stream without failures never fires the signal: every element is an
/// update.
pub proof fn clean_stream_never_fires<S: Service, C: ConnectionErrors, T: TryFrom<S::Req>>(
    raws: Seq<Result<S::Req, C::RecvError>>,
)
    requires
        !any_failure::<S, C, T>(raws),
    ensures
        !fired_after::<S, C, T>(false, raws),
        forall|i: int|
            0 <= i < raws.len() ==> (#[trigger] steps_of::<S, C, T>(false, raws)[i]) is Update,
{
    fired_after_is_any_failure::<S, C, T>(false, raws);
    assert forall|i: int| 0 <= i < raws.len() implies (#[trigger] steps_of::<S, C, T>(
        false,
        raws,
    )[i]) is Update by {
        steps_of_at::<S, C, T>(false, raws, i);
        assert(failure_of::<S, C, T>(raws[i]) is None);
    }
}

/// Settles a race between two pending results: the first that has a value
/// wins, and a tie goes to `first`. `None` is a result that is still
/// pending, so the race is undecided while both are `None`.
pub fn race2<T>(first: Option<T>, second: Option<T>) -> (winner: Option<T>)
    ensures
        winner == if first is Some {
            first
        } else {
            second
        },
{
    match first {
        Some(value) => Some(value),
        None => second,
    }
}

/// The server's end of one substream, on which one call is served.
pub struct RpcChannel<S: Service, C: ConnectionErrors> {
    marker: PhantomData<(S, C)>,
}

impl<S: Service, C: ConnectionErrors> RpcChannel<S, C> {
    /// The channel of a substream that was just accepted.
    pub fn new() -> Self {
        RpcChannel { marker: PhantomData }
    }
}

} // verus!
