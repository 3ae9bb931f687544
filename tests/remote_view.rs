use gchemol_core::Molecule;
use gchemol_view::net::{
    append_events, events_of, new_channel, MAX_WORKER_THREADS, read_molecule_stream, stop_server_on_exit, view_molecule, AppError, NetworkServer,
    RemoteCommand, ServerPhase, StreamEvent, StreamReceiver,
};
use gchemol_view::scene::{SceneChange, SceneState};
use gchemol_view::task::ChannelClosed;

fn titles(scene: &SceneState) -> Option<Vec<String>> {
    scene.molecules().map(|mols| mols.iter().map(|m| m.title()).collect())
}

fn pull(receiver: &StreamReceiver) -> Vec<StreamEvent> {
    let mut events = Vec::new();
    read_molecule_stream(receiver, &mut events);
    events
}

fn pull_server(server: &NetworkServer) -> Vec<StreamEvent> {
    let mut events = Vec::new();
    server.read_stream(&mut events);
    events
}

#[test]
fn view_molecule_queues_a_load() {
    let (tx, rx) = new_channel();
    let receiver = StreamReceiver(rx);
    assert_eq!(view_molecule(&tx, vec![Molecule::new("m1"), Molecule::new("m2")]), Ok(()));
    let events = pull(&receiver);
    assert_eq!(events.len(), 1);
    let mut scene = SceneState::new();
    let results = scene.apply_events(events);
    assert_eq!(results, vec![Ok(SceneChange::Installed { replaced: false })]);
    assert_eq!(titles(&scene), Some(vec!["m1".to_string(), "m2".to_string()]));
    assert!(pull(&receiver).is_empty());
}

#[test]
fn view_molecule_fails_when_viewer_is_gone() {
    let (tx, rx) = new_channel();
    drop(rx);
    assert_eq!(view_molecule(&tx, vec![Molecule::new("m1")]), Err(AppError::ChannelClosed));
    assert_eq!(view_molecule(&tx, vec![]), Err(AppError::ChannelClosed));
}

#[test]
fn app_error_reports() {
    let e = AppError::from(ChannelClosed);
    assert_eq!(e, AppError::ChannelClosed);
    assert_eq!(e.status_code(), 500);
    assert_eq!(e.reason(), "viewer is not accepting commands");
    assert_eq!(AppError::Decode.status_code(), 500);
    assert_eq!(AppError::Decode.reason(), "invalid molecule list");
    assert_eq!(AppError::Internal.status_code(), 500);
    assert_eq!(AppError::Internal.reason(), "internal error");
}

#[test]
fn two_producers_are_dispatched_one_tick_each() {
    let rt = tokio::runtime::Runtime::new().expect("runtime");
    let (tx, rx) = new_channel();
    let receiver = StreamReceiver(rx);
    let tx_a = tx.clone();
    let tx_b = tx.clone();
    drop(tx);
    let a = rt.spawn_blocking(move || view_molecule(&tx_a, vec![Molecule::new("a")]));
    let b = rt.spawn_blocking(move || view_molecule(&tx_b, vec![Molecule::new("b")]));
    while receiver.0.len() == 0 {
        std::hint::spin_loop();
    }
    let mut scene = SceneState::new();
    let first = pull(&receiver);
    assert_eq!(first.len(), 1);
    scene.apply_events(first);
    let first_title = titles(&scene).unwrap();
    assert!(first_title == vec!["a".to_string()] || first_title == vec!["b".to_string()]);
    assert_eq!(rt.block_on(a).unwrap(), Ok(()));
    assert_eq!(rt.block_on(b).unwrap(), Ok(()));
    let second = pull(&receiver);
    assert_eq!(second.len(), 1);
    scene.apply_events(second);
    let second_title = titles(&scene).unwrap();
    assert_ne!(first_title, second_title);
    assert!(pull(&receiver).is_empty());
}

#[test]
fn server_listens_once_and_stop_discards_queued_command() {
    let mut server = NetworkServer::new(2).expect("runtime");
    assert_eq!(server.phase(), ServerPhase::Idle);
    assert!(pull_server(&server).is_empty());
    let (tx_ready, rx_ready) = crossbeam_channel::bounded::<()>(1);
    let started = server.listen(move |tx| async move {
        let _ = view_molecule(&tx, vec![Molecule::new("queued")]);
        let _ = tx_ready.send(());
        std::future::pending::<()>().await
    });
    assert!(started);
    assert_eq!(server.phase(), ServerPhase::Listening);
    assert!(!server.listen(|_tx| async {}));
    rx_ready.recv().expect("command queued");
    stop_server_on_exit(0, &mut server);
    assert_eq!(server.phase(), ServerPhase::Listening);
    server.stop();
    assert_eq!(server.phase(), ServerPhase::Stopped);
    assert!(pull_server(&server).is_empty());
    assert!(!server.listen(|_tx| async {}));
    assert!(pull_server(&server).is_empty());
}

#[test]
fn server_hands_queued_commands_to_the_loop() {
    let mut server = NetworkServer::new(2).expect("runtime");
    let (tx_ready, rx_ready) = crossbeam_channel::bounded::<()>(1);
    assert!(server.listen(move |tx| async move {
        let _ = tx.send(RemoteCommand::Delete);
        let _ = tx_ready.send(());
        std::future::pending::<()>().await
    }));
    rx_ready.recv().expect("command queued");
    let events = pull_server(&server);
    assert_eq!(events.len(), 1);
    let mut scene = SceneState::new();
    assert_eq!(scene.apply_events(events), vec![Ok(SceneChange::Unchanged)]);
    stop_server_on_exit(1, &mut server);
    assert_eq!(server.phase(), ServerPhase::Stopped);
    assert!(pull_server(&server).is_empty());
}

#[test]
fn read_molecule_stream_appends_after_earlier_events() {
    let (tx, rx) = new_channel();
    let receiver = StreamReceiver(rx);
    let mut events = vec![StreamEvent(RemoteCommand::Label { delete: true })];
    read_molecule_stream(&receiver, &mut events);
    assert_eq!(events.len(), 1);
    assert_eq!(view_molecule(&tx, vec![Molecule::new("m")]), Ok(()));
    read_molecule_stream(&receiver, &mut events);
    assert_eq!(events.len(), 2);
    assert!(matches!(events[0], StreamEvent(RemoteCommand::Label { delete: true })));
    match &events[1] {
        StreamEvent(RemoteCommand::Load(mols)) => {
            assert_eq!(mols.len(), 1);
            assert_eq!(mols[0].title(), "m");
        }
        other => panic!("unexpected event {other:?}"),
    }
}

#[test]
fn events_of_wraps_each_command_in_order() {
    let events = events_of(vec![
        RemoteCommand::Delete,
        RemoteCommand::Label { delete: false },
        RemoteCommand::Load(vec![]),
    ]);
    assert_eq!(events.len(), 3);
    assert!(matches!(events[0], StreamEvent(RemoteCommand::Delete)));
    assert!(matches!(events[1], StreamEvent(RemoteCommand::Label { delete: false })));
    assert!(matches!(&events[2], StreamEvent(RemoteCommand::Load(m)) if m.is_empty()));
    assert!(events_of(vec![]).is_empty());
}

#[test]
fn stop_before_listening_is_a_no_op() {
    let mut server = NetworkServer::new(2).expect("runtime");
    server.stop();
    assert_eq!(server.phase(), ServerPhase::Idle);
    stop_server_on_exit(1, &mut server);
    assert_eq!(server.phase(), ServerPhase::Idle);
    assert!(server.listen(|_tx| async {}));
    assert_eq!(server.phase(), ServerPhase::Listening);
    server.stop();
    assert_eq!(server.phase(), ServerPhase::Stopped);
    server.stop();
    assert_eq!(server.phase(), ServerPhase::Stopped);
    assert!(!server.listen(|_tx| async {}));
}

#[test]
fn server_needs_a_worker_count_in_range() {
    assert!(NetworkServer::new(0).is_none());
    assert!(NetworkServer::new(MAX_WORKER_THREADS + 1).is_none());
    let server = NetworkServer::new(1).expect("runtime");
    assert_eq!(server.phase(), ServerPhase::Idle);
}

#[test]
fn append_events_keeps_earlier_events_first() {
    let mut events = vec![StreamEvent(RemoteCommand::Delete)];
    append_events(&mut events, vec![RemoteCommand::Label { delete: false }, RemoteCommand::Load(vec![])]);
    assert_eq!(events.len(), 3);
    assert!(matches!(events[0], StreamEvent(RemoteCommand::Delete)));
    assert!(matches!(events[1], StreamEvent(RemoteCommand::Label { delete: false })));
    assert!(matches!(&events[2], StreamEvent(RemoteCommand::Load(m)) if m.is_empty()));
    append_events(&mut events, vec![]);
    assert_eq!(events.len(), 3);
}

#[test]
fn empty_queue_writes_no_event() {
    let (_tx, rx) = new_channel();
    let receiver = StreamReceiver(rx);
    let mut events = vec![StreamEvent(RemoteCommand::Delete)];
    read_molecule_stream(&receiver, &mut events);
    assert_eq!(events.len(), 1);
}
