use vstd::prelude::*;

verus! {

/// A subscriber to events of type `E`. Implementations run arbitrary user
/// code, so the method carries no contract; the registry only promises
/// delivery order, never anything about what a listener does.
pub trait EventListener<E> {
    fn receive(&self, event: &E);
}

/// A source of events of type `E` that keeps its listeners of type `L` in
/// registration order. Registration appends; delivery (an implementation
/// detail of each source) walks the listeners front to back.
pub trait EventSource<E, L: EventListener<E>> {
    /// The registered listeners, in registration order.
    spec fn listeners_view(&self) -> Seq<L>;

    fn register_listener(&mut self, listener: L)
        ensures
            final(self).listeners_view() == old(self).listeners_view().push(listener),
    ;
}

} // verus!
