use hull::cmd::signal::{relay, trapped_signals, SignalHandler, INTERRUPT};
use signal_hook::{SIGABRT, SIGHUP, SIGINT, SIGPIPE, SIGQUIT, SIGTERM, SIGUSR1, SIGUSR2};

#[test]
fn the_relay_listens_for_the_eight_signals() {
    assert_eq!(
        trapped_signals(),
        vec![SIGINT, SIGTERM, SIGPIPE, SIGQUIT, SIGHUP, SIGABRT, SIGUSR1, SIGUSR2]
    );
}

#[test]
fn the_fixed_numbers_are_those_of_the_platform() {
    let numbers = trapped_signals();
    assert_eq!(numbers.len(), 8);
    assert_eq!(numbers[0], 2);
    assert_eq!(numbers[1], 15);
    assert_eq!(numbers[3], 3);
    assert_eq!(numbers[4], 1);
    assert_eq!(INTERRUPT, SIGINT);
}

#[test]
fn an_interrupt_is_swallowed() {
    assert_eq!(relay(SIGINT), None);
    assert_eq!(relay(2), None);
}

#[test]
fn every_other_trapped_signal_is_passed_on() {
    for signal in trapped_signals().into_iter().skip(1) {
        assert_eq!(relay(signal), Some(signal));
    }
    assert_eq!(relay(SIGTERM), Some(15));
}

#[test]
fn a_run_of_signals_keeps_its_order_and_loses_only_the_interrupts() {
    let trapped = [SIGHUP, SIGINT, SIGTERM, SIGTERM, SIGINT, SIGUSR1, SIGQUIT];
    let relayed: Vec<i32> = trapped.iter().filter_map(|signal| relay(*signal)).collect();
    assert_eq!(relayed, vec![SIGHUP, SIGTERM, SIGTERM, SIGUSR1, SIGQUIT]);
}

#[test]
fn the_signal_channel_has_no_limit() {
    let mut handler = SignalHandler::new();
    let receiver = handler.receiver();
    let sender = handler.sender();
    assert_eq!(receiver.capacity(), None);
    for signal in 0..1000 {
        assert!(sender.try_send(signal).is_ok());
    }
    for signal in 0..1000 {
        assert_eq!(receiver.try_recv(), Ok(signal));
    }
}

#[test]
fn every_receiver_drains_the_channel_of_the_handler() {
    let mut handler = SignalHandler::new();
    let first = handler.receiver();
    let second = handler.receiver();
    assert!(first.same_channel(&second));
    handler.sender().send(SIGTERM).unwrap();
    assert_eq!(second.recv(), Ok(SIGTERM));
    let mut other = SignalHandler::new();
    assert!(!first.same_channel(&other.receiver()));
}

#[test]
fn no_two_of_the_trapped_signals_share_a_number() {
    let numbers = trapped_signals();
    for i in 0..numbers.len() {
        for j in (i + 1)..numbers.len() {
            assert_ne!(numbers[i], numbers[j]);
        }
    }
}

#[test]
fn each_number_is_one_that_its_signal_has_somewhere() {
    let numbers = trapped_signals();
    assert!([13, 7].contains(&numbers[2]));
    assert!([6, 22].contains(&numbers[5]));
    assert!([10, 16, 18, 25, 30].contains(&numbers[6]));
    assert!([12, 17, 19, 26, 31].contains(&numbers[7]));
}
