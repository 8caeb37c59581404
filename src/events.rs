use vstd::prelude::*;

use crate::details::{DetailsView, ToplevelDetails};

verus! {

/// An event that the compositor sends on one toplevel handle.
#[derive(Debug, PartialEq, Eq)]
pub enum ToplevelEvent {
    Title(String),
    AppId(String),
    /// The full new set of state flags.
    State(Vec<u8>),
    OutputEnter,
    OutputLeave,
    Parent,
    /// The preceding property events form a consistent snapshot.
    Done,
    /// The window is gone; no further event refers to it.
    Closed,
    /// An event this bridge does not interpret.
    Other,
}

/// An event that the compositor sends on the toplevel manager.
#[derive(Debug, Clone, Copy, PartialEq, Eq)]
pub enum ManagerEvent {
    /// A new toplevel handle with the given object id.
    Toplevel(u32),
    /// The manager will send nothing more.
    Finished,
    Other,
}

/// An event that the compositor sends on the seat.
#[derive(Debug, Clone, Copy, PartialEq, Eq)]
pub enum SeatEvent {
    Capabilities,
    Name,
    Other,
}

/// A request from the presentation layer to the bridge loop.
#[derive(Debug, Clone, Copy, PartialEq, Eq)]
pub enum ToplevelAction {
    /// A hint to poll again soon; changes nothing.
    Refresh,
    /// Stop the bridge loop.
    Exit,
}

/// What the bridge loop reads from its inbound channel.
#[derive(Debug, Clone, Copy, PartialEq, Eq)]
pub enum ActionEvent {
    Msg(ToplevelAction),
    /// The presentation layer dropped its sending side.
    ChannelClosed,
}

/// A signal from the bridge to the presentation layer, generic over the
/// handle type `H` and the seat type `S` that the consumer acts on.
#[derive(Debug, PartialEq, Eq)]
pub enum ToplevelSignal<H, S> {
    AddUpdateToplevel(H, ToplevelDetails),
    RemoveToplevel(H),
    SeatChanged(S),
    Closed,
}

/// The mathematical value of a `ToplevelSignal`.
pub enum SignalView<H, S> {
    AddUpdateToplevel(H, DetailsView),
    RemoveToplevel(H),
    SeatChanged(S),
    Closed,
}

impl<H, S> View for ToplevelSignal<H, S> {
    type V = SignalView<H, S>;

    open spec fn view(&self) -> SignalView<H, S> {
        match self {
            ToplevelSignal::AddUpdateToplevel(h, d) => SignalView::AddUpdateToplevel(*h, d@),
            ToplevelSignal::RemoveToplevel(h) => SignalView::RemoveToplevel(*h),
            ToplevelSignal::SeatChanged(s) => SignalView::SeatChanged(*s),
            ToplevelSignal::Closed => SignalView::Closed,
        }
    }
}

/// The details after one property event; other events leave them as they are.
pub open spec fn details_after(d: DetailsView, ev: ToplevelEvent) -> DetailsView {
    match ev {
        ToplevelEvent::Title(t) => DetailsView { title: Some(t@), ..d },
        ToplevelEvent::AppId(a) => DetailsView { app_id: Some(a@), ..d },
        ToplevelEvent::State(s) => DetailsView { state: s@, ..d },
        _ => d,
    }
}

/// Events that only change properties: neither `Done` nor `Closed`.
pub open spec fn is_property_event(ev: ToplevelEvent) -> bool {
    !(ev is Done) && !(ev is Closed)
}

} // verus!
