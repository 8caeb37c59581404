use calloop::channel::{sync_channel, Channel};
use consolation::{
    ActionEvent, ManagerEvent, SeatEvent, StagingData, ToplevelAction, ToplevelDetails,
    ToplevelEvent, ToplevelSignal,
};

type Signal = ToplevelSignal<u32, u32>;

const ACTIVATED: u8 = 2;

fn drain(rx: &Channel<Signal>) -> Vec<Signal> {
    let mut out = Vec::new();
    while let Ok(s) = rx.try_recv() {
        out.push(s);
    }
    out
}

fn bridge(capacity: usize) -> (StagingData<u32, u32>, Channel<Signal>) {
    let (tx, rx) = sync_channel::<Signal>(capacity);
    (StagingData::new(tx), rx)
}

fn details(title: Option<&str>, app_id: Option<&str>, state: Vec<u8>) -> ToplevelDetails {
    ToplevelDetails {
        title: title.map(|t| t.to_string()),
        app_id: app_id.map(|a| a.to_string()),
        state,
        parent: None,
    }
}

#[test]
fn editor_window_is_reported_then_removed() {
    let (mut b, rx) = bridge(50);
    b.manager_event(ManagerEvent::Toplevel(1));
    b.toplevel_event(1, 1, ToplevelEvent::Title("Editor".to_string()));
    b.toplevel_event(1, 1, ToplevelEvent::AppId("editor".to_string()));
    b.toplevel_event(1, 1, ToplevelEvent::State(vec![ACTIVATED]));
    b.toplevel_event(1, 1, ToplevelEvent::Done);
    assert_eq!(
        drain(&rx),
        vec![ToplevelSignal::AddUpdateToplevel(
            1,
            details(Some("Editor"), Some("editor"), vec![ACTIVATED])
        )]
    );
    b.toplevel_event(1, 1, ToplevelEvent::Closed);
    assert_eq!(drain(&rx), vec![ToplevelSignal::RemoveToplevel(1)]);
    assert!(!b.registry().contains(1));
    assert_eq!(b.registry().len(), 0);
}

#[test]
fn unset_fields_are_none_at_done() {
    let (mut b, rx) = bridge(50);
    b.manager_event(ManagerEvent::Toplevel(4));
    b.toplevel_event(4, 40, ToplevelEvent::Title("first".to_string()));
    b.toplevel_event(4, 40, ToplevelEvent::OutputEnter);
    b.toplevel_event(4, 40, ToplevelEvent::Title("second".to_string()));
    b.toplevel_event(4, 40, ToplevelEvent::Parent);
    b.toplevel_event(4, 40, ToplevelEvent::Done);
    assert_eq!(
        drain(&rx),
        vec![ToplevelSignal::AddUpdateToplevel(40, details(Some("second"), None, vec![]))]
    );
}

#[test]
fn repeated_done_reports_cumulative_details() {
    let (mut b, rx) = bridge(50);
    b.manager_event(ManagerEvent::Toplevel(2));
    b.toplevel_event(2, 2, ToplevelEvent::Title("a".to_string()));
    b.toplevel_event(2, 2, ToplevelEvent::Done);
    b.toplevel_event(2, 2, ToplevelEvent::AppId("x".to_string()));
    b.toplevel_event(2, 2, ToplevelEvent::Done);
    b.toplevel_event(2, 2, ToplevelEvent::Done);
    let full = details(Some("a"), Some("x"), vec![]);
    assert_eq!(
        drain(&rx),
        vec![
            ToplevelSignal::AddUpdateToplevel(2, details(Some("a"), None, vec![])),
            ToplevelSignal::AddUpdateToplevel(2, details(Some("a"), Some("x"), vec![])),
            ToplevelSignal::AddUpdateToplevel(2, full),
        ]
    );
}

#[test]
fn state_is_replaced_not_merged() {
    let (mut b, rx) = bridge(50);
    b.manager_event(ManagerEvent::Toplevel(3));
    b.toplevel_event(3, 3, ToplevelEvent::State(vec![0, 2]));
    b.toplevel_event(3, 3, ToplevelEvent::State(vec![1]));
    b.toplevel_event(3, 3, ToplevelEvent::Done);
    assert_eq!(
        drain(&rx),
        vec![ToplevelSignal::AddUpdateToplevel(3, details(None, None, vec![1]))]
    );
}

#[test]
fn closed_on_untracked_handle_sends_nothing() {
    let (mut b, rx) = bridge(50);
    b.manager_event(ManagerEvent::Toplevel(1));
    b.toplevel_event(9, 9, ToplevelEvent::Closed);
    assert!(drain(&rx).is_empty());
    assert_eq!(b.registry().len(), 1);
}

#[test]
fn closed_removes_only_that_handle() {
    let (mut b, rx) = bridge(50);
    b.manager_event(ManagerEvent::Toplevel(1));
    b.manager_event(ManagerEvent::Toplevel(2));
    b.toplevel_event(1, 1, ToplevelEvent::Closed);
    assert_eq!(drain(&rx), vec![ToplevelSignal::RemoveToplevel(1)]);
    assert!(b.registry().contains(2));
    assert_eq!(b.registry().len(), 1);
    b.toplevel_event(1, 1, ToplevelEvent::Closed);
    b.toplevel_event(1, 1, ToplevelEvent::Done);
    assert!(drain(&rx).is_empty());
}

#[test]
fn events_for_unknown_handle_are_discarded() {
    let (mut b, rx) = bridge(50);
    b.toplevel_event(5, 5, ToplevelEvent::Title("ghost".to_string()));
    b.toplevel_event(5, 5, ToplevelEvent::Done);
    b.toplevel_event(5, 5, ToplevelEvent::Other);
    assert!(drain(&rx).is_empty());
    assert_eq!(b.registry().len(), 0);
    assert!(b.keep_running());
}

#[test]
fn full_queue_drops_without_error() {
    let (mut b, rx) = bridge(1);
    b.manager_event(ManagerEvent::Toplevel(1));
    b.toplevel_event(1, 1, ToplevelEvent::Title("one".to_string()));
    b.toplevel_event(1, 1, ToplevelEvent::Done);
    b.toplevel_event(1, 1, ToplevelEvent::Title("two".to_string()));
    b.toplevel_event(1, 1, ToplevelEvent::Done);
    assert_eq!(
        drain(&rx),
        vec![ToplevelSignal::AddUpdateToplevel(1, details(Some("one"), None, vec![]))]
    );
    assert!(b.keep_running());
}

#[test]
fn finished_with_unread_signals_closes_last() {
    let (mut b, rx) = bridge(50);
    b.manager_event(ManagerEvent::Toplevel(1));
    b.toplevel_event(1, 1, ToplevelEvent::Done);
    b.seat_event(7, SeatEvent::Capabilities);
    b.toplevel_event(1, 1, ToplevelEvent::Closed);
    assert!(b.keep_running());
    b.manager_event(ManagerEvent::Finished);
    assert!(!b.keep_running());
    b.close();
    let got = drain(&rx);
    assert_eq!(got.len(), 4);
    assert_eq!(got[3], ToplevelSignal::Closed);
    assert_eq!(got[1], ToplevelSignal::SeatChanged(7));
}

#[test]
fn close_sends_one_closing_signal() {
    let (mut b, rx) = bridge(50);
    b.manager_event(ManagerEvent::Finished);
    b.close();
    b.close();
    assert_eq!(drain(&rx), vec![ToplevelSignal::Closed]);
}

#[test]
fn events_after_close_are_discarded() {
    let (mut b, rx) = bridge(50);
    b.close();
    b.manager_event(ManagerEvent::Toplevel(1));
    b.toplevel_event(1, 1, ToplevelEvent::Done);
    b.seat_event(1, SeatEvent::Capabilities);
    assert_eq!(drain(&rx), vec![ToplevelSignal::Closed]);
    assert_eq!(b.registry().len(), 0);
}

#[test]
fn seat_capabilities_are_not_deduplicated() {
    let (mut b, rx) = bridge(50);
    b.seat_event(3, SeatEvent::Capabilities);
    b.seat_event(3, SeatEvent::Name);
    b.seat_event(3, SeatEvent::Capabilities);
    b.seat_event(3, SeatEvent::Other);
    assert_eq!(
        drain(&rx),
        vec![ToplevelSignal::SeatChanged(3), ToplevelSignal::SeatChanged(3)]
    );
}

#[test]
fn refresh_keeps_running_exit_stops() {
    let (mut b, rx) = bridge(50);
    b.action_event(ActionEvent::Msg(ToplevelAction::Refresh));
    assert!(b.keep_running());
    b.action_event(ActionEvent::Msg(ToplevelAction::Exit));
    assert!(!b.keep_running());
    assert!(drain(&rx).is_empty());
}

#[test]
fn closed_action_channel_stops() {
    let (mut b, _rx) = bridge(50);
    b.manager_event(ManagerEvent::Other);
    assert!(b.keep_running());
    b.action_event(ActionEvent::ChannelClosed);
    assert!(!b.keep_running());
}

#[test]
fn dropped_receiver_does_not_fail() {
    let (mut b, rx) = bridge(50);
    drop(rx);
    b.manager_event(ManagerEvent::Toplevel(1));
    b.toplevel_event(1, 1, ToplevelEvent::Done);
    b.close();
    assert!(!b.keep_running());
}

#[test]
fn reannounce_resets_details() {
    let (mut b, rx) = bridge(50);
    b.manager_event(ManagerEvent::Toplevel(1));
    b.toplevel_event(1, 1, ToplevelEvent::Title("t".to_string()));
    b.manager_event(ManagerEvent::Toplevel(1));
    b.toplevel_event(1, 1, ToplevelEvent::Done);
    assert_eq!(
        drain(&rx),
        vec![ToplevelSignal::AddUpdateToplevel(1, ToplevelDetails::new())]
    );
}

#[test]
fn outbound_keeps_first_offer_when_full() {
    let (tx, rx) = sync_channel::<u32>(1);
    let mut out = consolation::Outbound::new(tx);
    out.offer(10);
    out.offer(20);
    assert_eq!(rx.try_recv().ok(), Some(10));
    assert!(rx.try_recv().is_err());
    out.offer(30);
    assert_eq!(rx.try_recv().ok(), Some(30));
}
