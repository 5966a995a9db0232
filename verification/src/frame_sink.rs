//! Push channels for composited frames.

use tokio::sync::mpsc::Sender;
use vstd::prelude::*;

verus! {

/// tokio's sending half of a bounded channel.
#[verifier::external_type_specification]
#[verifier::external_body]
#[verifier::reject_recursive_types(T)]
pub struct ExSender<T>(tokio::sync::mpsc::Sender<T>);

/// A push channel for frames. `offered` is every frame that was handed to the channel so far, in
/// order; only [`FrameSink::push`] adds to it.
#[verifier::reject_recursive_types(T)]
pub struct FrameSink<T: View> {
    sender: Sender<T>,
    offered: Ghost<Seq<T::V>>,
}

/// A sink for frames of type `T`, seen through the channel that it pushes to and the frames, by view,
/// that it has handed to the channel.
#[verifier::ext_equal]
#[verifier::reject_recursive_types(T)]
pub ghost struct SinkView<T, V> {
    pub target: Sender<T>,
    pub offered: Seq<V>,
}

impl<T: View> View for FrameSink<T> {
    type V = SinkView<T, T::V>;

    closed spec fn view(&self) -> SinkView<T, T::V> {
        SinkView { target: self.sender, offered: self.offered@ }
    }
}

impl<T, V> SinkView<T, V> {
    /// A sink on `target` that was offered nothing.
    pub open spec fn fresh(target: Sender<T>) -> Self {
        SinkView { target, offered: Seq::empty() }
    }

    /// The sink after it was offered `frame`.
    pub open spec fn pushed(self, frame: V) -> Self {
        SinkView { offered: self.offered.push(frame), ..self }
    }
}

/// An optional sink, by view.
pub open spec fn view_of<T: View>(sink: Option<FrameSink<T>>) -> Option<SinkView<T, T::V>> {
    match sink {
        Some(s) => Some(s@),
        None => None,
    }
}

/// What an optional sink has become after it was offered `frame`.
pub open spec fn after_offer<T, V>(sink: Option<SinkView<T, V>>, frame: V) -> Option<
    SinkView<T, V>,
> {
    match sink {
        Some(s) => Some(s.pushed(frame)),
        None => None,
    }
}

impl<T: View> FrameSink<T> {
    /// A sink on `sender` that was offered nothing.
    pub fn new(sender: Sender<T>) -> (s: Self)
        ensures
            s@ == SinkView::<T, T::V>::fresh(sender),
    {
        FrameSink { sender, offered: Ghost(Seq::empty()) }
    }

    /// Hands `frame` to tokio's `Sender::try_send` on the sink's target, which stays the same, and so
    /// adds it to what was offered. The call never blocks. Whether there is room in the channel, and
    /// a receiver at its end, rests with the host; nothing is claimed of that outcome: a frame that
    /// finds no room is dropped.
    #[verifier::external_body]
    fn push(&mut self, frame: T)
        ensures
            final(self)@ == old(self)@.pushed(frame@),
    {
        let _ = self.sender.try_send(frame);
    }

    /// Offers a frame to the channel, without ever blocking.
    pub fn offer(&mut self, frame: T)
        ensures
            final(self)@ == old(self)@.pushed(frame@),
    {
        self.push(frame);
    }
}

} // verus!
