use vstd::prelude::*;

use calloop::channel::SyncSender;

use crate::outbound::Outbound;

use crate::details::{empty_details, DetailsView};
use crate::events::{
    details_after, ActionEvent, ManagerEvent, SeatEvent, SignalView, ToplevelAction,
    ToplevelEvent, ToplevelSignal,
};
use crate::registry::ToplevelRegistry;

verus! {

/// The mathematical state of the bridge loop.
pub struct BridgeView<H, S> {
    /// The loop must stop after the current iteration.
    pub exit: bool,
    /// The closing signal has been sent; later events are discarded.
    pub closed: bool,
    pub windows: Map<u32, DetailsView>,
    /// Every signal handed to the outbound channel, oldest first. The
    /// channel is lossy: a signal offered while it is full is dropped.
    pub emitted: Seq<SignalView<H, S>>,
}

/// How many closing signals a log holds.
pub open spec fn count_closed<H, S>(log: Seq<SignalView<H, S>>) -> nat
    decreases log.len(),
{
    if log.len() == 0 {
        0
    } else {
        count_closed(log.drop_last()) + if log.last() is Closed {
            1nat
        } else {
            0nat
        }
    }
}

/// The bridge closes once: before that its log holds no closing signal,
/// after that exactly one, as its last entry.
pub open spec fn bridge_wf<H, S>(b: BridgeView<H, S>) -> bool {
    &&& b.windows.dom().finite()
    &&& count_closed(b.emitted) == if b.closed {
        1nat
    } else {
        0nat
    }
    &&& b.closed ==> b.exit && b.emitted.len() > 0 && b.emitted.last() is Closed
}

/// The bridge after an event on toplevel handle `h` with object id `id`.
/// Events on a handle that is not tracked are discarded.
pub open spec fn toplevel_step<H, S>(
    b: BridgeView<H, S>,
    id: u32,
    h: H,
    ev: ToplevelEvent,
) -> BridgeView<H, S> {
    if b.closed || !b.windows.contains_key(id) {
        b
    } else {
        match ev {
            ToplevelEvent::Done => BridgeView {
                emitted: b.emitted.push(SignalView::AddUpdateToplevel(h, b.windows[id])),
                ..b
            },
            ToplevelEvent::Closed => BridgeView {
                windows: b.windows.remove(id),
                emitted: b.emitted.push(SignalView::RemoveToplevel(h)),
                ..b
            },
            _ => BridgeView {
                windows: b.windows.insert(id, details_after(b.windows[id], ev)),
                ..b
            },
        }
    }
}

/// The bridge after an event on the toplevel manager.
pub open spec fn manager_step<H, S>(b: BridgeView<H, S>, ev: ManagerEvent) -> BridgeView<H, S> {
    if b.closed {
        b
    } else {
        match ev {
            ManagerEvent::Toplevel(id) => BridgeView {
                windows: b.windows.insert(id, empty_details()),
                ..b
            },
            ManagerEvent::Finished => BridgeView { exit: true, ..b },
            ManagerEvent::Other => b,
        }
    }
}

/// The bridge after an event on seat `s`.
pub open spec fn seat_step<H, S>(b: BridgeView<H, S>, s: S, ev: SeatEvent) -> BridgeView<H, S> {
    if !b.closed && ev is Capabilities {
        BridgeView { emitted: b.emitted.push(SignalView::SeatChanged(s)), ..b }
    } else {
        b
    }
}

/// The bridge after an event on its inbound channel.
pub open spec fn action_step<H, S>(b: BridgeView<H, S>, ev: ActionEvent) -> BridgeView<H, S> {
    match ev {
        ActionEvent::Msg(ToplevelAction::Refresh) => b,
        _ => BridgeView { exit: true, ..b },
    }
}

/// The bridge after it has sent its closing signal.
pub open spec fn close_step<H, S>(b: BridgeView<H, S>) -> BridgeView<H, S> {
    if b.closed {
        b
    } else {
        BridgeView { exit: true, closed: true, emitted: b.emitted.push(SignalView::Closed), ..b }
    }
}

pub proof fn lemma_count_closed_push<H, S>(log: Seq<SignalView<H, S>>, s: SignalView<H, S>)
    ensures
        count_closed(log.push(s)) == count_closed(log) + if s is Closed {
            1nat
        } else {
            0nat
        },
{
    assert(log.push(s).drop_last() =~= log);
}

/// The state that the bridge loop owns: the window registry, the exit flag,
/// and the sending side of the outbound signal channel.
#[verifier::reject_recursive_types(H)]
#[verifier::reject_recursive_types(S)]
pub struct StagingData<H, S> {
    exit: bool,
    closed: bool,
    registry: ToplevelRegistry,
    out: Outbound<ToplevelSignal<H, S>>,
}

impl<H, S> View for StagingData<H, S> {
    type V = BridgeView<H, S>;

    closed spec fn view(&self) -> BridgeView<H, S> {
        BridgeView {
            exit: self.exit,
            closed: self.closed,
            windows: self.registry@,
            emitted: self.out.offered().map_values(|s: ToplevelSignal<H, S>| s@),
        }
    }
}

impl<H, S> StagingData<H, S> {
    /// A bridge that tracks no window and sends its signals to `sender`.
    pub fn new(sender: SyncSender<ToplevelSignal<H, S>>) -> (r: Self)
        ensures
            r@ == (BridgeView::<H, S> {
                exit: false,
                closed: false,
                windows: Map::empty(),
                emitted: Seq::empty(),
            }),
            bridge_wf(r@),
    {
        let r = StagingData {
            exit: false,
            closed: false,
            registry: ToplevelRegistry::new(),
            out: Outbound::new(sender),
        };
        assert(r@.emitted =~= Seq::<SignalView<H, S>>::empty());
        r
    }

    fn emit(&mut self, sig: ToplevelSignal<H, S>)
        ensures
            final(self)@ == (BridgeView { emitted: old(self)@.emitted.push(sig@), ..old(self)@ }),
    {
        let ghost v = sig@;
        self.out.offer(sig);
        assert(self@.emitted =~= old(self)@.emitted.push(v));
    }

    /// Handles an event on toplevel handle `handle`, whose object id is `id`.
    pub fn toplevel_event(&mut self, id: u32, handle: H, ev: ToplevelEvent)
        requires
            bridge_wf(old(self)@),
        ensures
            final(self)@ == toplevel_step(old(self)@, id, handle, ev),
            bridge_wf(final(self)@),
    {
        if self.closed || !self.registry.contains(id) {
            return;
        }
        match ev {
            ToplevelEvent::Done => {
                match self.registry.get(id) {
                    Some(d) => {
                        proof {
                            lemma_count_closed_push(
                                self@.emitted,
                                SignalView::<H, S>::AddUpdateToplevel(handle, d@),
                            );
                        }
                        self.emit(ToplevelSignal::AddUpdateToplevel(handle, d));
                    },
                    None => {},
                }
            },
            ToplevelEvent::Closed => {
                self.registry.remove(id);
                proof {
                    lemma_count_closed_push(self@.emitted, SignalView::<H, S>::RemoveToplevel(handle));
                }
                self.emit(ToplevelSignal::RemoveToplevel(handle));
            },
            _ => {
                self.registry.update(id, ev);
            },
        }
    }

    /// Handles an event on the toplevel manager.
    pub fn manager_event(&mut self, ev: ManagerEvent)
        requires
            bridge_wf(old(self)@),
        ensures
            final(self)@ == manager_step(old(self)@, ev),
            bridge_wf(final(self)@),
    {
        if self.closed {
            return;
        }
        match ev {
            ManagerEvent::Toplevel(id) => {
                self.registry.announce(id);
            },
            ManagerEvent::Finished => {
                self.exit = true;
            },
            ManagerEvent::Other => {},
        }
    }

    /// Handles an event on seat `seat`; each capability report is passed on.
    pub fn seat_event(&mut self, seat: S, ev: SeatEvent)
        requires
            bridge_wf(old(self)@),
        ensures
            final(self)@ == seat_step(old(self)@, seat, ev),
            bridge_wf(final(self)@),
    {
        if self.closed {
            return;
        }
        if let SeatEvent::Capabilities = ev {
            proof {
                lemma_count_closed_push(self@.emitted, SignalView::<H, S>::SeatChanged(seat));
            }
            self.emit(ToplevelSignal::SeatChanged(seat));
        }
    }

    /// Handles what arrived on the inbound action channel.
    pub fn action_event(&mut self, ev: ActionEvent)
        requires
            bridge_wf(old(self)@),
        ensures
            final(self)@ == action_step(old(self)@, ev),
            bridge_wf(final(self)@),
    {
        match ev {
            ActionEvent::Msg(ToplevelAction::Refresh) => {},
            _ => {
                self.exit = true;
            },
        }
    }

    /// Whether the loop should dispatch another round.
    pub fn keep_running(&self) -> (r: bool)
        ensures
            r == !self@.exit,
    {
        !self.exit
    }

    /// Sends the closing signal, once; the loop ends after it.
    pub fn close(&mut self)
        requires
            bridge_wf(old(self)@),
        ensures
            final(self)@ == close_step(old(self)@),
            bridge_wf(final(self)@),
    {
        if self.closed {
            return;
        }
        self.exit = true;
        self.closed = true;
        proof {
            lemma_count_closed_push(self@.emitted, SignalView::<H, S>::Closed);
        }
        self.emit(ToplevelSignal::Closed);
    }

    /// The window registry.
    pub fn registry(&self) -> (r: &ToplevelRegistry)
        ensures
            r@ == self@.windows,
    {
        &self.registry
    }
}

} // verus!
