//! Toplevel-window protocol bridge: the registry of announced windows, the
//! translation of protocol events into signals for a presentation layer, the
//! shutdown rules of the bridge loop, and the choice of protocol request for
//! each per-window action.

mod bridge;
mod details;
mod events;
mod laws;
mod outbound;
mod registry;
mod switcher;

pub use bridge::{BridgeView, StagingData};
pub use details::{DetailsView, ToplevelDetails};
pub use events::{
    ActionEvent, ManagerEvent, SeatEvent, SignalView, ToplevelAction, ToplevelEvent,
    ToplevelSignal,
};
pub use laws::{
    lemma_closed_removes_one, lemma_done_reports_last_values, lemma_finished_closes_once,
    lemma_repeated_done_is_cumulative,
};
pub use outbound::Outbound;
pub use registry::ToplevelRegistry;
pub use switcher::{
    window_request, Effect, Message, Selection, SwitcherModel, SwitcherView, WindowAction,
    WindowRequest,
};
