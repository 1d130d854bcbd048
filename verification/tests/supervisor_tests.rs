use ingest::channel::forward_chunk;
use ingest::supervisor::{Action, Event, Phase, Supervisor};
use ingest::CHUNK_SIZE;

fn drained_instance(sup: &mut Supervisor, reads: &[usize]) -> Vec<Action> {
    let mut actions = Vec::new();
    actions.push(sup.step(Event::Launch));
    actions.push(sup.step(Event::SpawnOk));
    for len in reads {
        let action = sup.step(Event::ReadOk(*len));
        actions.push(action);
        if action == Action::SendChunk {
            actions.push(sup.step(Event::SendOk));
        }
    }
    actions
}

#[test]
fn three_reads_then_eof_forwards_three_chunks_and_restarts() {
    let mut sup = Supervisor::new();
    let actions = drained_instance(&mut sup, &[100, 65088, 1, 0]);
    let sends: Vec<&Action> = actions
        .iter()
        .filter(|a| **a == Action::SendChunk)
        .collect();
    assert_eq!(sends.len(), 3);
    assert_eq!(
        actions,
        vec![
            Action::Spawn,
            Action::Read,
            Action::SendChunk,
            Action::Read,
            Action::SendChunk,
            Action::Read,
            Action::SendChunk,
            Action::Read,
            Action::AwaitExit,
        ]
    );
    assert_eq!(sup.phase, Phase::AwaitingExit);
    // No termination request: the exit leads to a restart.
    assert_eq!(sup.step(Event::Exited(false)), Action::Relaunch);
    assert_eq!(sup.phase, Phase::RestartPending);
    assert_eq!(sup.step(Event::Launch), Action::Spawn);
    assert_eq!(sup.phase, Phase::Spawning);
}

#[test]
fn termination_request_stops_after_reap() {
    let mut sup = Supervisor::new();
    drained_instance(&mut sup, &[42, 0]);
    assert_eq!(sup.step(Event::Exited(true)), Action::Stop);
    assert_eq!(sup.phase, Phase::Terminated);
    assert!(sup.is_finished());
}

#[test]
fn read_error_is_treated_as_end_of_stream() {
    let mut sup = Supervisor::new();
    drained_instance(&mut sup, &[9]);
    assert_eq!(sup.step(Event::ReadErr), Action::AwaitExit);
    assert_eq!(sup.phase, Phase::AwaitingExit);
    assert!(!sup.running);
    assert_eq!(sup.step(Event::Exited(false)), Action::Relaunch);
}

#[test]
fn spawn_failure_aborts() {
    let mut sup = Supervisor::new();
    assert_eq!(sup.step(Event::Launch), Action::Spawn);
    assert_eq!(sup.step(Event::SpawnErr), Action::Abort);
    assert_eq!(sup.phase, Phase::Aborted);
    assert!(sup.is_finished());
}

#[test]
fn send_failure_terminates_at_once() {
    let mut sup = Supervisor::new();
    sup.step(Event::Launch);
    sup.step(Event::SpawnOk);
    assert_eq!(sup.step(Event::ReadOk(512)), Action::SendChunk);
    assert_eq!(sup.step(Event::SendErr), Action::SetTerminatedStop);
    assert_eq!(sup.phase, Phase::Terminated);
    assert!(sup.is_finished());
    // The running flag is not cleared on this path and nothing is reaped.
    assert!(sup.running);
    assert!(sup.handle_held);
}

#[test]
fn running_flag_follows_each_instance() {
    let mut sup = Supervisor::new();
    for _cycle in 0..3 {
        sup.step(Event::Launch);
        sup.step(Event::SpawnOk);
        assert!(!sup.running);
        sup.step(Event::ReadOk(17));
        assert!(sup.running);
        sup.step(Event::SendOk);
        sup.step(Event::ReadOk(0));
        assert!(!sup.running);
        sup.step(Event::Exited(false));
        assert!(!sup.running);
    }
}

#[test]
fn forwarding_delivers_chunks_in_order() {
    let (sender, receiver) = crossbeam_channel::bounded::<(usize, [u8; CHUNK_SIZE])>(4);
    let mut sup = Supervisor::new();
    sup.step(Event::Launch);
    sup.step(Event::SpawnOk);

    let mut data = [0u8; CHUNK_SIZE];
    data[0] = 0xAB;
    data[64] = 0xCD;
    assert_eq!(sup.step(Event::ReadOk(65)), Action::SendChunk);
    assert_eq!(forward_chunk(&mut sup, &sender, 65, &data), Action::Read);
    data[0] = 0xEF;
    assert_eq!(sup.step(Event::ReadOk(1)), Action::SendChunk);
    assert_eq!(forward_chunk(&mut sup, &sender, 1, &data), Action::Read);
    assert_eq!(sup.phase, Phase::Draining);

    let (len1, buf1) = receiver.recv().unwrap();
    assert_eq!(len1, 65);
    assert_eq!(buf1[0], 0xAB);
    assert_eq!(buf1[64], 0xCD);
    let (len2, buf2) = receiver.recv().unwrap();
    assert_eq!(len2, 1);
    assert_eq!(buf2[0], 0xEF);
}

#[test]
fn forwarding_to_a_gone_consumer_terminates() {
    let (sender, receiver) = crossbeam_channel::bounded::<(usize, [u8; CHUNK_SIZE])>(1);
    drop(receiver);
    let mut sup = Supervisor::new();
    sup.step(Event::Launch);
    sup.step(Event::SpawnOk);
    assert_eq!(sup.step(Event::ReadOk(3)), Action::SendChunk);
    let data = [7u8; CHUNK_SIZE];
    assert_eq!(
        forward_chunk(&mut sup, &sender, 3, &data),
        Action::SetTerminatedStop
    );
    assert_eq!(sup.phase, Phase::Terminated);
    assert!(sup.is_finished());
}
