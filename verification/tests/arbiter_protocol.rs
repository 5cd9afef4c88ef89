use cohort_sim::arbiter::{ArbiterTables, ConstPolicy, ServeOutcome, PROB_SCALE};
use cohort_sim::messages::{InboundMessage, ParticipantId, ProtocolError};
use cohort_sim::worker::{Phase, Worker};

use crossbeam::channel::unbounded;

#[test]
fn always_pass_participant_graduates() {
    let (tx, rx) = unbounded::<InboundMessage>();
    let (vtx, vrx) = unbounded::<bool>();
    let id = ParticipantId { group: 0, index: 0 };
    let mut t = ArbiterTables::new(3, 3, 1);
    t.register(id, vtx, 5000).unwrap();

    let policy = ConstPolicy { threshold_raw: PROB_SCALE };
    let mut w = Worker::new(id, 5000, 3, 3);
    let mut messages: u32 = 0;
    while !w.is_done() {
        let msg = w.begin_attempt(10);
        tx.send(InboundMessage::Progress(msg)).unwrap();
        assert_eq!(t.serve_one(&rx, &policy), Ok(ServeOutcome::Progressed));
        let verdict = vrx.recv().unwrap();
        assert!(verdict);
        w.receive_verdict(verdict);
        messages += 1;
    }
    tx.send(InboundMessage::Shutdown).unwrap();
    assert_eq!(t.serve_one(&rx, &policy), Ok(ServeOutcome::ShutdownSeen));

    assert_eq!(messages, 3);
    assert_eq!(w.phase, Phase::Graduated);
    assert_eq!(t.records[0].history.len(), 4);
    assert_eq!(t.records[0].passes, 3);
    assert_eq!(t.records[0].fails, 0);

    let stats = t.aggregate();
    assert_eq!(stats.len(), 1);
    assert_eq!(stats[0].total, 1);
    assert_eq!(stats[0].graduated, 1);
    assert_eq!(stats[0].dropped_out, 0);
    assert_eq!(stats[0].dropout_percent, 0);
}

#[test]
fn zero_threshold_participant_drops_out() {
    let (tx, rx) = unbounded::<InboundMessage>();
    let (vtx, vrx) = unbounded::<bool>();
    let id = ParticipantId { group: 0, index: 0 };
    let mut t = ArbiterTables::new(3, 3, 1);
    t.register(id, vtx, 400).unwrap();

    let policy = ConstPolicy { threshold_raw: 0 };
    let mut w = Worker::new(id, 400, 3, 3);
    let mut messages: u32 = 0;
    while !w.is_done() {
        let msg = w.begin_attempt(1);
        assert_eq!(msg.stage_index, 0);
        tx.send(InboundMessage::Progress(msg)).unwrap();
        assert_eq!(t.serve_one(&rx, &policy), Ok(ServeOutcome::Progressed));
        let verdict = vrx.recv().unwrap();
        assert!(!verdict);
        w.receive_verdict(verdict);
        messages += 1;
    }
    tx.send(InboundMessage::Shutdown).unwrap();
    assert_eq!(t.serve_one(&rx, &policy), Ok(ServeOutcome::ShutdownSeen));

    assert_eq!(messages, 3);
    assert_eq!(w.phase, Phase::DroppedOut);
    assert_eq!(w.stage_index, 0);
    assert_eq!(t.records[0].history.len(), 4);
    assert_eq!(t.records[0].passes, 0);
    assert_eq!(t.records[0].fails, 3);

    let stats = t.aggregate();
    assert_eq!(stats[0].total, 1);
    assert_eq!(stats[0].graduated, 0);
    assert_eq!(stats[0].dropped_out, 1);
    assert_eq!(stats[0].dropout_percent, 100);
}

#[test]
fn shutdown_drains_messages_queued_ahead() {
    let (tx, rx) = unbounded::<InboundMessage>();
    let mut t = ArbiterTables::new(3, 3, 1);
    let mut replies = Vec::new();
    for k in 0..3u32 {
        let (vtx, vrx) = unbounded::<bool>();
        let id = ParticipantId { group: 0, index: k };
        t.register(id, vtx, 100 + k as u64).unwrap();
        replies.push(vrx);
        let mut w = Worker::new(id, 100 + k as u64, 3, 3);
        let msg = w.begin_attempt(5);
        tx.send(InboundMessage::Progress(msg)).unwrap();
    }
    tx.send(InboundMessage::Shutdown).unwrap();

    let policy = ConstPolicy { threshold_raw: PROB_SCALE };
    let mut steps: u32 = 0;
    loop {
        match t.serve_one(&rx, &policy) {
            Ok(ServeOutcome::Progressed) => steps += 1,
            Ok(ServeOutcome::ShutdownSeen) => break,
            Err(e) => panic!("unexpected protocol error: {:?}", e),
        }
    }
    assert_eq!(steps, 3);
    for k in 0..3usize {
        assert_eq!(t.records[k].history.len(), 2);
        assert_eq!(replies[k].try_recv(), Ok(true));
        assert!(replies[k].try_recv().is_err());
    }
}

#[test]
fn duplicate_id_is_refused_at_setup() {
    let (vtx1, _vrx1) = unbounded::<bool>();
    let (vtx2, _vrx2) = unbounded::<bool>();
    let id = ParticipantId { group: 0, index: 7 };
    let mut t = ArbiterTables::new(3, 3, 1);
    assert_eq!(t.register(id, vtx1, 10), Ok(()));
    assert_eq!(t.register(id, vtx2, 20), Err(ProtocolError::DuplicateParticipant));
    assert_eq!(t.records.len(), 1);
    assert_eq!(t.records[0].history, vec![10]);
}

#[test]
fn unknown_id_is_a_protocol_violation() {
    let (tx, rx) = unbounded::<InboundMessage>();
    let (vtx, _vrx) = unbounded::<bool>();
    let mut t = ArbiterTables::new(3, 3, 2);
    t.register(ParticipantId { group: 0, index: 0 }, vtx, 10).unwrap();

    let mut stranger = Worker::new(ParticipantId { group: 1, index: 5 }, 10, 3, 3);
    let msg = stranger.begin_attempt(0);
    tx.send(InboundMessage::Progress(msg)).unwrap();

    let policy = ConstPolicy { threshold_raw: PROB_SCALE };
    assert_eq!(t.serve_one(&rx, &policy), Err(ProtocolError::UnknownParticipant));
    assert_eq!(t.records[0].history.len(), 1);
}

#[test]
fn disconnected_inbound_channel_is_reported() {
    let (tx, rx) = unbounded::<InboundMessage>();
    let mut t = ArbiterTables::new(3, 3, 1);
    drop(tx);
    let policy = ConstPolicy { threshold_raw: 0 };
    assert_eq!(t.serve_one(&rx, &policy), Err(ProtocolError::InboundClosed));
}

#[test]
fn closed_reply_channel_is_reported() {
    let (tx, rx) = unbounded::<InboundMessage>();
    let (vtx, vrx) = unbounded::<bool>();
    let id = ParticipantId { group: 0, index: 0 };
    let mut t = ArbiterTables::new(3, 3, 1);
    t.register(id, vtx, 10).unwrap();
    drop(vrx);

    let mut w = Worker::new(id, 10, 3, 3);
    let msg = w.begin_attempt(0);
    tx.send(InboundMessage::Progress(msg)).unwrap();
    let policy = ConstPolicy { threshold_raw: PROB_SCALE };
    assert_eq!(t.serve_one(&rx, &policy), Err(ProtocolError::ReplyChannelClosed));
    assert_eq!(t.records[0].history.len(), 2);
}

#[test]
fn replies_are_keyed_by_id() {
    let (tx, rx) = unbounded::<InboundMessage>();
    let (vtx_a, vrx_a) = unbounded::<bool>();
    let (vtx_b, vrx_b) = unbounded::<bool>();
    let id_a = ParticipantId { group: 0, index: 0 };
    let id_b = ParticipantId { group: 1, index: 0 };
    let mut t = ArbiterTables::new(3, 3, 2);
    t.register(id_a, vtx_a, 10).unwrap();
    t.register(id_b, vtx_b, 20).unwrap();

    let mut wa = Worker::new(id_a, 10, 3, 3);
    let mut wb = Worker::new(id_b, 20, 3, 3);
    let ma1 = wa.begin_attempt(0);
    let mb1 = wb.begin_attempt(0);
    tx.send(InboundMessage::Progress(ma1)).unwrap();
    tx.send(InboundMessage::Progress(mb1)).unwrap();
    wa.receive_verdict(true);
    let ma2 = wa.begin_attempt(0);
    tx.send(InboundMessage::Progress(ma2)).unwrap();
    tx.send(InboundMessage::Shutdown).unwrap();

    let policy = ConstPolicy { threshold_raw: PROB_SCALE };
    loop {
        match t.serve_one(&rx, &policy) {
            Ok(ServeOutcome::Progressed) => {},
            Ok(ServeOutcome::ShutdownSeen) => break,
            Err(e) => panic!("unexpected protocol error: {:?}", e),
        }
    }
    let got_a: Vec<bool> = vrx_a.try_iter().collect();
    let got_b: Vec<bool> = vrx_b.try_iter().collect();
    assert_eq!(got_a.len(), 2);
    assert_eq!(got_b.len(), 1);
    assert_eq!(t.records[0].history.len(), 3);
    assert_eq!(t.records[1].history.len(), 2);
}

#[test]
fn tally_freezes_once_terminal() {
    let (tx, rx) = unbounded::<InboundMessage>();
    let (vtx, vrx) = unbounded::<bool>();
    let id = ParticipantId { group: 0, index: 0 };
    let mut t = ArbiterTables::new(3, 3, 1);
    t.register(id, vtx, 10).unwrap();

    let policy = ConstPolicy { threshold_raw: 0 };
    let mut w = Worker::new(id, 10, 3, 3);
    for _ in 0..3 {
        let msg = w.begin_attempt(0);
        tx.send(InboundMessage::Progress(msg)).unwrap();
        t.serve_one(&rx, &policy).unwrap();
        w.receive_verdict(vrx.recv().unwrap());
    }
    assert_eq!(t.records[0].fails, 3);

    // A straggler report for an already-terminal participant is still
    // recorded and answered, but consumes no further tally.
    let mut straggler = Worker::new(id, 10, 3, 3);
    let msg = straggler.begin_attempt(0);
    tx.send(InboundMessage::Progress(msg)).unwrap();
    assert_eq!(t.serve_one(&rx, &policy), Ok(ServeOutcome::Progressed));
    assert_eq!(t.records[0].history.len(), 5);
    assert_eq!(t.records[0].fails, 3);
    assert_eq!(t.records[0].passes, 0);
    assert_eq!(vrx.recv(), Ok(false));
}
