use meili::addr::SocketAddress;
use meili::poll::{Disposition, PollAction, PollLoop, ReceiveOutcome, NET_BUFF_SIZE};

#[test]
fn a_loop_without_sockets_only_sleeps() {
    let mut poll = PollLoop::new(0, 4000000);
    for _ in 0..1000 {
        assert_eq!(poll.next_action(), PollAction::Sleep { nanos: 4000000 });
        poll.slept();
    }
}

#[test]
fn each_sweep_tries_every_socket_once_and_then_sleeps() {
    let mut poll = PollLoop::new(3, 250);
    let mut actions = Vec::new();
    for _ in 0..3 {
        loop {
            let action = poll.next_action();
            actions.push(action);
            match action {
                PollAction::Receive { .. } => {
                    poll.received(ReceiveOutcome::WouldBlock);
                }
                PollAction::Sleep { .. } => {
                    poll.slept();
                    break;
                }
            }
        }
    }
    let sweep = vec![
        PollAction::Receive { socket: 0 },
        PollAction::Receive { socket: 1 },
        PollAction::Receive { socket: 2 },
        PollAction::Sleep { nanos: 250 },
    ];
    assert_eq!(actions, [sweep.clone(), sweep.clone(), sweep].concat());
}

#[test]
fn receive_outcomes_are_told_apart() {
    let from = SocketAddress::v4(10, 0, 0, 7, 40000);
    let mut poll = PollLoop::new(3, 1);
    assert_eq!(
        poll.received(ReceiveOutcome::Datagram { bytes: 512, from }),
        Disposition::Dispatch { socket: 0, bytes: 512, from }
    );
    assert_eq!(poll.received(ReceiveOutcome::WouldBlock), Disposition::Skip);
    assert_eq!(poll.received(ReceiveOutcome::Failed), Disposition::Report { socket: 2 });
    assert_eq!(poll.next_action(), PollAction::Sleep { nanos: 1 });
}

#[test]
fn a_failing_socket_is_tried_again_next_sweep() {
    let mut poll = PollLoop::new(1, 9);
    assert_eq!(poll.received(ReceiveOutcome::Failed), Disposition::Report { socket: 0 });
    poll.slept();
    assert_eq!(poll.next_action(), PollAction::Receive { socket: 0 });
    assert_eq!(poll.sockets, 1);
}

#[test]
fn reports_out_of_turn_change_nothing() {
    let mut poll = PollLoop::new(2, 5);
    poll.slept();
    assert_eq!(poll.next_action(), PollAction::Receive { socket: 0 });
    poll.received(ReceiveOutcome::WouldBlock);
    poll.received(ReceiveOutcome::WouldBlock);
    let before = poll;
    assert_eq!(poll.received(ReceiveOutcome::Failed), Disposition::Skip);
    assert_eq!(poll, before);
    assert_eq!(poll.next_action(), PollAction::Sleep { nanos: 5 });
}

#[test]
fn the_receive_buffer_size() {
    assert_eq!(NET_BUFF_SIZE, 32535);
}
