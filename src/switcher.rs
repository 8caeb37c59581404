use vstd::prelude::*;

use crate::details::{DetailsView, ToplevelDetails};
use crate::registry::ToplevelRegistry;

verus! {

/// A per-window action that the presentation layer issues on a handle.
#[derive(Debug, Clone, Copy, PartialEq, Eq)]
pub enum WindowAction {
    Activate,
    Minimize,
    Maximize,
    Unmaximize,
    Close,
}

/// A protocol request on a toplevel handle; activation names the seat.
#[derive(Debug, PartialEq, Eq)]
pub enum WindowRequest<S> {
    Activate(S),
    SetMinimized,
    SetMaximized,
    UnsetMaximized,
    Close,
}

/// `r` is the request for `action` given the seat observed so far: nothing
/// for an activation while no seat is known, else the matching request.
pub open spec fn is_request_for<S: Clone>(
    action: WindowAction,
    seat: Option<S>,
    r: Option<WindowRequest<S>>,
) -> bool {
    match action {
        WindowAction::Activate => match seat {
            None => r is None,
            Some(s) => match r {
                Some(WindowRequest::Activate(t)) => cloned(s, t),
                _ => false,
            },
        },
        WindowAction::Minimize => r == Some(WindowRequest::<S>::SetMinimized),
        WindowAction::Maximize => r == Some(WindowRequest::<S>::SetMaximized),
        WindowAction::Unmaximize => r == Some(WindowRequest::<S>::UnsetMaximized),
        WindowAction::Close => r == Some(WindowRequest::<S>::Close),
    }
}

/// The protocol request that carries out `action`; `None` for an activation
/// while no seat has been observed.
pub fn window_request<S: Clone>(action: WindowAction, seat: &Option<S>) -> (r: Option<
    WindowRequest<S>,
>)
    ensures
        is_request_for(action, *seat, r),
{
    match action {
        WindowAction::Activate => match seat {
            Some(s) => Some(WindowRequest::Activate(s.clone())),
            None => None,
        },
        WindowAction::Minimize => Some(WindowRequest::SetMinimized),
        WindowAction::Maximize => Some(WindowRequest::SetMaximized),
        WindowAction::Unmaximize => Some(WindowRequest::UnsetMaximized),
        WindowAction::Close => Some(WindowRequest::Close),
    }
}

/// The focused control: one of a window's three buttons, or the run button
/// above the list.
#[derive(Debug, Clone, Copy, PartialEq, Eq, Structural)]
pub enum Selection {
    WindowActivate(usize),
    WindowMaxToggle(usize),
    WindowClose(usize),
    RunButton,
}

/// An input to the presentation layer: a signal from the bridge, a click on
/// a window's button, or a key.
#[derive(Debug)]
pub enum Message<H, S> {
    UpdateApplication(u32, ToplevelDetails),
    RemoveApplication(u32),
    NewSeat(S),
    Window(H, WindowAction),
    ArrowUp,
    ArrowDown,
    ArrowLeft,
    ArrowRight,
    Select,
    Back,
    NoOp,
    Finish,
}

/// What the presentation layer must do after a message.
#[derive(Debug, PartialEq, Eq)]
pub enum Effect<H, S> {
    Nothing,
    /// Issue `request` on `handle` if there is one, then send a refresh hint
    /// to the bridge; hide the switcher if `hide` is set.
    Window { handle: H, request: Option<WindowRequest<S>>, hide: bool },
    /// Leave the application.
    Quit,
}

pub open spec fn selection_up(s: Selection) -> Selection {
    match s {
        Selection::WindowActivate(i) => if i == 0 {
            Selection::RunButton
        } else {
            Selection::WindowActivate((i - 1) as usize)
        },
        Selection::WindowMaxToggle(i) => if i == 0 {
            Selection::RunButton
        } else {
            Selection::WindowMaxToggle((i - 1) as usize)
        },
        Selection::WindowClose(i) => if i == 0 {
            Selection::RunButton
        } else {
            Selection::WindowClose((i - 1) as usize)
        },
        Selection::RunButton => Selection::RunButton,
    }
}

/// Moving down stops one row past the last window.
pub open spec fn selection_down(s: Selection, n: nat) -> Selection {
    match s {
        Selection::WindowActivate(i) => if i < n {
            Selection::WindowActivate((i + 1) as usize)
        } else {
            s
        },
        Selection::WindowMaxToggle(i) => if i < n {
            Selection::WindowMaxToggle((i + 1) as usize)
        } else {
            s
        },
        Selection::WindowClose(i) => if i < n {
            Selection::WindowClose((i + 1) as usize)
        } else {
            s
        },
        Selection::RunButton => Selection::WindowActivate(0),
    }
}

pub open spec fn selection_left(s: Selection) -> Selection {
    match s {
        Selection::WindowMaxToggle(i) => Selection::WindowActivate(i),
        Selection::WindowClose(i) => Selection::WindowMaxToggle(i),
        _ => s,
    }
}

pub open spec fn selection_right(s: Selection) -> Selection {
    match s {
        Selection::WindowActivate(i) => Selection::WindowMaxToggle(i),
        Selection::WindowMaxToggle(i) => Selection::WindowClose(i),
        _ => s,
    }
}

/// The mathematical state of the presentation layer.
pub struct SwitcherView<S> {
    pub windows: Map<u32, DetailsView>,
    pub seat: Option<S>,
    pub selection: Selection,
}

/// The state after `msg`.
pub open spec fn switcher_step<H, S>(v: SwitcherView<S>, msg: Message<H, S>) -> SwitcherView<S> {
    match msg {
        Message::UpdateApplication(id, d) => SwitcherView { windows: v.windows.insert(id, d@), ..v },
        Message::RemoveApplication(id) => SwitcherView { windows: v.windows.remove(id), ..v },
        Message::NewSeat(s) => SwitcherView { seat: Some(s), ..v },
        Message::ArrowUp => SwitcherView { selection: selection_up(v.selection), ..v },
        Message::ArrowDown => SwitcherView {
            selection: selection_down(v.selection, v.windows.len()),
            ..v
        },
        Message::ArrowLeft => SwitcherView { selection: selection_left(v.selection), ..v },
        Message::ArrowRight => SwitcherView { selection: selection_right(v.selection), ..v },
        _ => v,
    }
}

/// `e` is what must follow `msg` in state `v`.
pub open spec fn is_effect_for<H, S: Clone>(
    v: SwitcherView<S>,
    msg: Message<H, S>,
    e: Effect<H, S>,
) -> bool {
    match msg {
        Message::Window(h, a) => match e {
            Effect::Window { handle, request, hide } => handle == h && is_request_for(
                a,
                v.seat,
                request,
            ) && hide == (a is Activate),
            _ => false,
        },
        Message::Finish => e is Quit,
        _ => e is Nothing,
    }
}

/// The presentation layer's own copy of the window list, rebuilt from the
/// bridge's signals, with the seat last reported and the focused control.
pub struct SwitcherModel<S> {
    windows: ToplevelRegistry,
    seat: Option<S>,
    selection: Selection,
}

impl<S> View for SwitcherModel<S> {
    type V = SwitcherView<S>;

    closed spec fn view(&self) -> SwitcherView<S> {
        SwitcherView { windows: self.windows@, seat: self.seat, selection: self.selection }
    }
}

impl<S: Clone> SwitcherModel<S> {
    /// No windows, no seat, the first window's activate button focused.
    pub fn new() -> (r: Self)
        ensures
            r@ == (SwitcherView::<S> {
                windows: Map::empty(),
                seat: None,
                selection: Selection::WindowActivate(0),
            }),
    {
        SwitcherModel {
            windows: ToplevelRegistry::new(),
            seat: None,
            selection: Selection::WindowActivate(0),
        }
    }

    pub fn selection(&self) -> (r: Selection)
        ensures
            r == self@.selection,
    {
        self.selection
    }

    pub fn seat(&self) -> (r: &Option<S>)
        ensures
            *r == self@.seat,
    {
        &self.seat
    }

    pub fn windows(&self) -> (r: &ToplevelRegistry)
        ensures
            r@ == self@.windows,
    {
        &self.windows
    }

    /// Applies `msg` and says what must be done outside.
    pub fn update<H>(&mut self, msg: Message<H, S>) -> (e: Effect<H, S>)
        ensures
            final(self)@ == switcher_step(old(self)@, msg),
            is_effect_for(old(self)@, msg, e),
    {
        match msg {
            Message::UpdateApplication(id, d) => {
                self.windows.replace(id, d);
                Effect::Nothing
            },
            Message::RemoveApplication(id) => {
                self.windows.remove(id);
                Effect::Nothing
            },
            Message::NewSeat(s) => {
                self.seat = Some(s);
                Effect::Nothing
            },
            Message::Window(h, a) => {
                let request = window_request(a, &self.seat);
                let hide = match a {
                    WindowAction::Activate => true,
                    _ => false,
                };
                Effect::Window { handle: h, request, hide }
            },
            Message::ArrowUp => {
                self.selection =
                    match self.selection {
                        Selection::WindowActivate(i) => if i == 0 {
                            Selection::RunButton
                        } else {
                            Selection::WindowActivate(i - 1)
                        },
                        Selection::WindowMaxToggle(i) => if i == 0 {
                            Selection::RunButton
                        } else {
                            Selection::WindowMaxToggle(i - 1)
                        },
                        Selection::WindowClose(i) => if i == 0 {
                            Selection::RunButton
                        } else {
                            Selection::WindowClose(i - 1)
                        },
                        Selection::RunButton => Selection::RunButton,
                    };
                Effect::Nothing
            },
            Message::ArrowDown => {
                let n = self.windows.len();
                self.selection =
                    match self.selection {
                        Selection::WindowActivate(i) => if i < n {
                            Selection::WindowActivate(i + 1)
                        } else {
                            Selection::WindowActivate(i)
                        },
                        Selection::WindowMaxToggle(i) => if i < n {
                            Selection::WindowMaxToggle(i + 1)
                        } else {
                            Selection::WindowMaxToggle(i)
                        },
                        Selection::WindowClose(i) => if i < n {
                            Selection::WindowClose(i + 1)
                        } else {
                            Selection::WindowClose(i)
                        },
                        Selection::RunButton => Selection::WindowActivate(0),
                    };
                Effect::Nothing
            },
            Message::ArrowLeft => {
                self.selection =
                    match self.selection {
                        Selection::WindowMaxToggle(i) => Selection::WindowActivate(i),
                        Selection::WindowClose(i) => Selection::WindowMaxToggle(i),
                        other => other,
                    };
                Effect::Nothing
            },
            Message::ArrowRight => {
                self.selection =
                    match self.selection {
                        Selection::WindowActivate(i) => Selection::WindowMaxToggle(i),
                        Selection::WindowMaxToggle(i) => Selection::WindowClose(i),
                        other => other,
                    };
                Effect::Nothing
            },
            Message::Finish => Effect::Quit,
            Message::Select | Message::Back | Message::NoOp => Effect::Nothing,
        }
    }
}

} // verus!
