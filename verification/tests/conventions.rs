// The three result conventions, the tag on each request, the configuration and
// the readiness probe: everything that needs no stack behind it.

use lwip::config::{AddressedIo, Config, ProtocolRule};
use lwip::convention::{Convention, FAILURE, SUCCESS};
use lwip::netif::{IpAddr, Netif};
use lwip::reply::{Outcome, Output, Reply};
use lwip::request::{Hints, Message, PollFd, Request, Resolution};
use lwip::is_netif_initialised;

fn empty_message() -> Message {
    Message { name: vec![], iov: vec![], control: vec![], flags: 0 }
}

fn one_of_each() -> Vec<Request> {
    vec![
        Request::Socket { family: 2, socket_type: 1, protocol: 0 },
        Request::SetSockOpt { sock: 1, level: 2, optname: 3, optval: vec![4] },
        Request::GetSockOpt { sock: 1, level: 2, optname: 3, optlen: 4 },
        Request::Bind { sock: 1, name: vec![2, 0] },
        Request::Connect { sock: 1, name: vec![2, 0] },
        Request::Listen { sock: 1, backlog: 5 },
        Request::Accept { sock: 1, namelen: 16 },
        Request::GetSockName { sock: 1, namelen: 16 },
        Request::GetPeerName { sock: 1, namelen: 16 },
        Request::Send { sock: 1, mem: vec![9], flags: 0 },
        Request::SendTo { sock: 1, mem: vec![9], flags: 0, to: vec![2, 0] },
        Request::SendMsg { sock: 1, message: empty_message(), flags: 0 },
        Request::Recv { sock: 1, len: 8, flags: 0 },
        Request::RecvFrom { sock: 1, len: 8, flags: 0, fromlen: 16 },
        Request::RecvMsg { sock: 1, message: empty_message(), flags: 0 },
        Request::GetAddrInfo { nodename: None, servname: None, hints: None },
        Request::FreeAddrInfo { ai: Resolution { token: 1 } },
        Request::Shutdown { sock: 1, how: 2 },
        Request::Poll { fds: vec![], timeout: 0 },
        Request::Fcntl { s: 1, cmd: 4, val: 1 },
        Request::Ioctl { s: 1, cmd: 0x4004_667f, argp: 0 },
    ]
}

#[test]
fn success_is_zero_and_failure_is_minus_one() {
    assert_eq!(SUCCESS, 0);
    assert_eq!(FAILURE, -1);
}

#[test]
fn binary_outcome_keeps_zero() {
    assert_eq!(Convention::BinaryOutcome.surface(0), 0);
}

#[test]
fn binary_outcome_folds_seven_into_minus_one() {
    assert_eq!(Convention::BinaryOutcome.surface(7), -1);
}

#[test]
fn binary_outcome_folds_every_nonzero_value() {
    for raw in [1, -1, 2, -2, 110, 111, -110, i32::MAX, i32::MIN] {
        assert_eq!(Convention::BinaryOutcome.surface(raw), -1, "raw {}", raw);
    }
}

#[test]
fn binary_outcome_is_zero_or_minus_one_over_a_range() {
    for raw in -300..=300 {
        let code = Convention::BinaryOutcome.surface(raw);
        assert!(code == 0 || code == -1);
        assert_eq!(code == 0, raw == 0);
    }
}

#[test]
fn raw_passthrough_keeps_every_value() {
    for raw in [0, 1, -1, 7, -7, 1460, i32::MAX, i32::MIN] {
        assert_eq!(Convention::RawPassthrough.surface(raw), raw);
    }
}

#[test]
fn handle_or_error_keeps_every_value() {
    for raw in [0, 1, 5, -1, -12, i32::MAX, i32::MIN] {
        assert_eq!(Convention::HandleOrError.surface(raw), raw);
    }
}

#[test]
fn handle_zero_is_not_a_failure() {
    assert_eq!(Convention::HandleOrError.surface(0), 0);
    assert_ne!(Convention::HandleOrError.surface(3), Convention::BinaryOutcome.surface(3));
}

#[test]
fn every_request_has_its_convention() {
    let expected = [
        Convention::HandleOrError,
        Convention::BinaryOutcome,
        Convention::BinaryOutcome,
        Convention::BinaryOutcome,
        Convention::BinaryOutcome,
        Convention::BinaryOutcome,
        Convention::HandleOrError,
        Convention::RawPassthrough,
        Convention::RawPassthrough,
        Convention::RawPassthrough,
        Convention::RawPassthrough,
        Convention::RawPassthrough,
        Convention::RawPassthrough,
        Convention::RawPassthrough,
        Convention::RawPassthrough,
        Convention::RawPassthrough,
        Convention::RawPassthrough,
        Convention::RawPassthrough,
        Convention::RawPassthrough,
        Convention::RawPassthrough,
        Convention::RawPassthrough,
    ];
    let requests = one_of_each();
    assert_eq!(requests.len(), expected.len());
    for (request, convention) in requests.iter().zip(expected.iter()) {
        assert_eq!(request.convention(), *convention, "{:?}", request);
    }
}

#[test]
fn complete_surfaces_the_reply_under_the_convention_of_the_request() {
    for request in one_of_each() {
        for raw in [0, 7, -1, 42] {
            let outcome = request.complete(Reply { code: raw, output: Output::Bytes(vec![1, 2]) });
            let code = match request.convention() {
                Convention::BinaryOutcome => {
                    if raw == 0 {
                        0
                    } else {
                        -1
                    }
                },
                _ => raw,
            };
            assert_eq!(outcome, Outcome { code, output: Output::Bytes(vec![1, 2]) });
        }
    }
}

#[test]
fn complete_hands_every_kind_of_output_on() {
    let request = Request::RecvFrom { sock: 1, len: 8, flags: 0, fromlen: 16 };
    let datagram = Output::Datagram { data: vec![1, 2, 3], from: vec![2, 0, 0, 53] };
    assert_eq!(
        request.complete(Reply { code: 3, output: datagram }),
        Outcome { code: 3, output: Output::Datagram { data: vec![1, 2, 3], from: vec![2, 0, 0, 53] } }
    );
    let polled = vec![PollFd { fd: 4, events: 1, revents: 1 }];
    assert_eq!(
        request.complete(Reply { code: 1, output: Output::Polled(polled.clone()) }),
        Outcome { code: 1, output: Output::Polled(polled) }
    );
    let message = Message { name: vec![7], iov: vec![vec![1], vec![2, 3]], control: vec![], flags: 8 };
    assert_eq!(
        request.complete(Reply { code: 3, output: Output::Message(message) }),
        Outcome {
            code: 3,
            output: Output::Message(Message {
                name: vec![7],
                iov: vec![vec![1], vec![2, 3]],
                control: vec![],
                flags: 8,
            }),
        }
    );
    assert_eq!(
        request.complete(Reply { code: 0, output: Output::Resolution(Resolution { token: 77 }) }),
        Outcome { code: 0, output: Output::Resolution(Resolution { token: 77 }) }
    );
    assert_eq!(
        request.complete(Reply { code: -1, output: Output::Nothing }),
        Outcome { code: -1, output: Output::Nothing }
    );
}

#[test]
fn config_keeps_its_two_choices() {
    let config = Config::new(AddressedIo::Strict, ProtocolRule::Force(17));
    assert_eq!(config.addressed_io(), AddressedIo::Strict);
    assert_eq!(config.protocol(), ProtocolRule::Force(17));
    let config = Config::new(AddressedIo::Permissive, ProtocolRule::PassThrough);
    assert_eq!(config.addressed_io(), AddressedIo::Permissive);
    assert_eq!(config.protocol(), ProtocolRule::PassThrough);
}

#[test]
fn protocol_passes_through_unless_forced() {
    let pass = Config::new(AddressedIo::Permissive, ProtocolRule::PassThrough);
    assert_eq!(pass.effective_protocol(6), 6);
    assert_eq!(pass.effective_protocol(0), 0);
    assert_eq!(pass.effective_protocol(-3), -3);
    let forced = Config::new(AddressedIo::Permissive, ProtocolRule::Force(0));
    assert_eq!(forced.effective_protocol(6), 0);
    assert_eq!(forced.effective_protocol(17), 0);
    assert_eq!(forced.effective_protocol(0), 0);
}

#[test]
fn hints_are_plain_values() {
    let hints = Hints { flags: 1, family: 2, socktype: 1, protocol: 6 };
    let copy = hints;
    assert_eq!(hints, copy);
}

#[test]
fn probe_is_false_on_the_all_zero_address() {
    let netif = Netif { ip_addr: IpAddr { addr: 0 } };
    assert!(!is_netif_initialised(&netif));
}

#[test]
fn probe_is_true_on_any_other_address() {
    for addr in [1, 0x0100_007f, 0xc0a8_0001, 0x8000_0000, u32::MAX] {
        let netif = Netif { ip_addr: IpAddr { addr } };
        assert!(is_netif_initialised(&netif), "address {:#x}", addr);
    }
}

#[test]
fn probe_answers_the_same_when_asked_again() {
    for addr in [0, 1, 0xc0a8_0001] {
        let netif = Netif { ip_addr: IpAddr { addr } };
        let before = netif;
        let first = is_netif_initialised(&netif);
        let second = is_netif_initialised(&netif);
        let third = is_netif_initialised(&netif);
        assert_eq!(first, second);
        assert_eq!(second, third);
        assert_eq!(netif, before);
    }
}
