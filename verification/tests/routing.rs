use ucli::codec::{ClientCodec, ServerCodec};
use ucli::connection::ConnectionId;
use ucli::discovery::{discover_service, Advertisement, PathCheck, ResolvedService};
use ucli::lifecycle::Lifecycle;
use ucli::message::{ClientMessage, ServerMessage, UnityLogType};
use ucli::pump::{
    CommandInvocation, ReadAction, ReadEvent, ReadPump, WriteAction, WriteEvent, WritePump,
};
use ucli::registry::ConnectionRegistry;
use ucli::router::{
    dispatch, AcceptAction, AcceptEvent, DeliveryAction, DispatchAction, InboundEvent,
    OutboundEvent, Router,
};
use ucli::DiscoveryArgs;

type Command = (u64, u64, String, Vec<String>);

/// One end of a client's socket, as the bytes in flight in each direction.
struct Wire {
    to_server: Vec<u8>,
    to_client: Vec<u8>,
}

fn spawn(router: &mut Router) -> (ConnectionId, u64) {
    match router.on_accept(AcceptEvent::Connected) {
        AcceptAction::Spawn { id, handle, replaced } => {
            assert_eq!(replaced, None);
            (id, handle)
        }
        _ => panic!(),
    }
}

/// Drives the server side for everything that is in flight towards it on the
/// connection `id`, and returns the commands that reached the adapter.
fn serve(id: ConnectionId, wire: &mut Wire, adapter_registered: bool) -> Vec<Command> {
    let mut commands = Vec::new();
    let mut pump = ReadPump::new(id);
    let mut codec = ServerCodec::default();
    while let Ok(Some(message)) = codec.decode(&mut wire.to_server) {
        match pump.step(ReadEvent::Message(message)) {
            ReadAction::Forward(invocation) => {
                match dispatch(adapter_registered, InboundEvent::Command(invocation)) {
                    DispatchAction::Invoke { id_hi, id_lo, cmd, args } => {
                        commands.push((id_hi, id_lo, cmd, args))
                    }
                    DispatchAction::Discard => {}
                    DispatchAction::Exit => panic!(),
                }
            }
            ReadAction::Terminate { .. } => panic!(),
        }
    }
    commands
}

/// Carries out what the event-delivery loop decides for `event`: the message
/// is written to the wire whose handle the router names.
fn deliver(router: &Router, event: OutboundEvent, wires: &mut [(u64, ConnectionId, Wire)]) -> bool {
    match router.deliver(event) {
        DeliveryAction::Enqueue { handle, message } => {
            let (_, id, wire) = wires.iter_mut().find(|(h, _, _)| *h == handle).unwrap();
            let mut pump = WritePump::new(*id);
            match pump.step(WriteEvent::Message(message)) {
                WriteAction::Write(message) => {
                    ServerCodec::default().encode(message, &mut wire.to_client).unwrap();
                }
                WriteAction::Terminate { .. } => panic!(),
            }
            true
        }
        DeliveryAction::Discard => false,
        DeliveryAction::Exit => panic!(),
    }
}

#[test]
fn general_use_case() {
    const PROJECT_PATH: &str = "foo/bar/baz";
    const PROJECT_NAME: &str = "My Unity Project";
    const UNITY_VERSION: &str = "2023.5.30";

    let mut lifecycle: Lifecycle<(), ()> = Lifecycle::new();
    assert!(lifecycle.run((), ()));
    assert!(lifecycle.is_running());

    let advertisement = Advertisement::new(
        "some-instance".to_string(),
        "some-host.local.".to_string(),
        5000,
        PROJECT_PATH.to_string(),
        PROJECT_NAME.to_string(),
        UNITY_VERSION.to_string(),
    );
    assert_eq!(
        advertisement.properties,
        vec![
            (ucli::PROJECT_PATH_PROP_KEY.to_string(), PROJECT_PATH.to_string()),
            (ucli::PROJECT_NAME_PROP_KEY.to_string(), PROJECT_NAME.to_string()),
            (ucli::UNITY_VERSION_PROP_KEY.to_string(), UNITY_VERSION.to_string()),
        ]
    );
    let resolved = ResolvedService {
        fullname: format!("{}.{}", advertisement.instance_name, advertisement.service_type),
        hostname: advertisement.host_name.clone(),
        address: Some([127, 0, 0, 1]),
        port: advertisement.port,
        project_path: Some(advertisement.properties[0].1.clone()),
        project_name: Some(advertisement.properties[1].1.clone()),
        unity_version: Some(advertisement.properties[2].1.clone()),
    };
    let no_filter =
        DiscoveryArgs { path: None, project: None, session: None, discovery_timeout: None };
    let found_a =
        discover_service(&vec![(resolved.clone(), PathCheck::Unresolved)], &no_filter);
    let found_b = discover_service(&vec![(resolved, PathCheck::Unresolved)], &no_filter);
    assert!(!found_a.is_empty(), "Cannot find service!");
    assert!(!found_b.is_empty(), "Cannot find service!");
    let port_a = found_a[0].port;
    let port_b = found_b[0].port;
    assert_eq!(port_a, port_b);

    let mut router = Router::new();
    let (id_a, handle_a) = spawn(&mut router);
    let (id_b, handle_b) = spawn(&mut router);
    let mut wires = vec![
        (handle_a, id_a, Wire { to_server: Vec::new(), to_client: Vec::new() }),
        (handle_b, id_b, Wire { to_server: Vec::new(), to_client: Vec::new() }),
    ];

    let cmd = "foo".to_string();
    let args = vec!["bar".to_string(), "baz".to_string()];
    let msg = ClientMessage::CommandRequest {
        cmd: "foo".to_string(),
        args: vec!["bar".to_string(), "baz".to_string()],
    };
    ClientCodec::default().write(&msg, &mut wires[0].2.to_server).unwrap();

    let mut commands = serve(id_a, &mut wires[0].2, lifecycle.adapter().is_some());
    commands.extend(serve(id_b, &mut wires[1].2, lifecycle.adapter().is_some()));

    assert!(lifecycle.is_running());
    assert_eq!(1, commands.len());
    let (id_hi_a, id_lo_a, cmd_recvd, args_recvd) = commands.remove(0);
    assert_eq!((cmd_recvd, args_recvd), (cmd, args));
    assert_eq!(ConnectionId::from_u64_pair(id_hi_a, id_lo_a), id_a);

    let log_a = "log to connection A";
    let st_a = "some stack trace A".repeat(100);
    let event = lifecycle
        .on_unity_console_log(id_hi_a, id_lo_a, 0, log_a.to_string(), st_a.clone())
        .unwrap();
    assert!(deliver(&router, event, &mut wires));

    let msg = ClientCodec::default().read(&mut wires[0].2.to_client);
    match msg {
        Ok(ServerMessage::UnityConsoleOutput { log_type: _, log, stack_trace }) => {
            assert_eq!((log.as_str(), stack_trace.as_str()), (log_a, st_a.as_ref()));
        }
        _ => {
            panic!();
        }
    }
    assert!(wires[1].2.to_client.is_empty());

    assert!(lifecycle.stop().is_some());
    lifecycle.teardown();

    assert!(!lifecycle.is_running());
}

#[test]
fn command_and_its_result_stay_with_their_client() {
    let mut lifecycle: Lifecycle<(), ()> = Lifecycle::new();
    assert!(lifecycle.run((), ()));
    let mut router = Router::new();
    let (id_a, handle_a) = spawn(&mut router);
    let (id_b, handle_b) = spawn(&mut router);
    assert_ne!(id_a, id_b);
    assert_ne!(handle_a, handle_b);
    let mut wires = vec![
        (handle_a, id_a, Wire { to_server: Vec::new(), to_client: Vec::new() }),
        (handle_b, id_b, Wire { to_server: Vec::new(), to_client: Vec::new() }),
    ];

    let request = ClientMessage::CommandRequest {
        cmd: "foo".to_string(),
        args: vec!["--bar".to_string(), "42".to_string()],
    };
    ClientCodec::new().write(&request, &mut wires[0].2.to_server).unwrap();

    let commands = serve(id_a, &mut wires[0].2, true);
    assert_eq!(
        commands,
        vec![(
            id_a.as_u64_pair().0,
            id_a.as_u64_pair().1,
            "foo".to_string(),
            vec!["--bar".to_string(), "42".to_string()]
        )]
    );
    assert!(serve(id_b, &mut wires[1].2, true).is_empty());

    let (hi, lo, _, _) = commands[0].clone();
    let event = lifecycle.on_command_finish(hi, lo, true, Some("ok".to_string())).unwrap();
    assert!(deliver(&router, event, &mut wires));

    assert_eq!(
        ClientCodec::new().read(&mut wires[0].2.to_client),
        Ok(ServerMessage::CommandFinished { is_success: true, msg: Some("ok".to_string()) })
    );
    assert!(wires[0].2.to_client.is_empty());
    assert!(wires[1].2.to_client.is_empty());
}

#[test]
fn event_for_each_of_two_clients_reaches_only_that_client() {
    let mut router = Router::new();
    let a = ConnectionId::from_u64_pair(1, 2);
    let b = ConnectionId::from_u64_pair(1, 3);
    assert_eq!(router.register(a), AcceptAction::Spawn { id: a, handle: 0, replaced: None });
    assert_eq!(router.register(b), AcceptAction::Spawn { id: b, handle: 1, replaced: None });
    assert_eq!(
        router.deliver(OutboundEvent::Event { id: a, message: ServerMessage::IsBusy }),
        DeliveryAction::Enqueue { handle: 0, message: ServerMessage::IsBusy }
    );
    assert_eq!(
        router.deliver(OutboundEvent::Event { id: b, message: ServerMessage::Compiling }),
        DeliveryAction::Enqueue { handle: 1, message: ServerMessage::Compiling }
    );
    assert_eq!(router.deliver(OutboundEvent::Closed), DeliveryAction::Exit);
}

#[test]
fn event_for_a_closed_connection_is_dropped() {
    let mut router = Router::new();
    let a = ConnectionId::from_u64_pair(7, 7);
    let b = ConnectionId::from_u64_pair(8, 8);
    router.register(a);
    router.register(b);
    assert!(router.is_connected(a));

    let mut pump = ReadPump::new(a);
    let released = match pump.step(ReadEvent::Closed) {
        ReadAction::Terminate { release } => release,
        ReadAction::Forward(_) => panic!(),
    };
    assert_eq!(released, a);
    assert_eq!(router.release(released), Some(0));
    assert!(!router.is_connected(a));
    assert!(router.is_connected(b));

    assert_eq!(
        router.deliver(OutboundEvent::Event { id: a, message: ServerMessage::IsBusy }),
        DeliveryAction::Discard
    );
    assert_eq!(
        router.deliver(OutboundEvent::Event { id: b, message: ServerMessage::IsBusy }),
        DeliveryAction::Enqueue { handle: 1, message: ServerMessage::IsBusy }
    );
    // the write pump releases the same connection once more: nothing changes
    assert_eq!(router.release(a), None);
    assert!(router.is_connected(b));
}

#[test]
fn event_for_an_unknown_connection_is_dropped() {
    let router = Router::new();
    assert_eq!(
        router.deliver(OutboundEvent::Event {
            id: ConnectionId::from_u64_pair(0, 0),
            message: ServerMessage::IsBusy
        }),
        DeliveryAction::Discard
    );
}

#[test]
fn registering_an_identifier_again_replaces_its_channel() {
    let mut router = Router::new();
    let a = ConnectionId::from_u64_pair(5, 5);
    assert_eq!(router.register(a), AcceptAction::Spawn { id: a, handle: 0, replaced: None });
    assert_eq!(router.register(a), AcceptAction::Spawn { id: a, handle: 1, replaced: Some(0) });
    assert_eq!(
        router.deliver(OutboundEvent::Event { id: a, message: ServerMessage::IsBusy }),
        DeliveryAction::Enqueue { handle: 1, message: ServerMessage::IsBusy }
    );
}

#[test]
fn failed_accept_keeps_the_loop_going() {
    let mut router = Router::new();
    assert_eq!(router.on_accept(AcceptEvent::Failed), AcceptAction::Retry);
    let (_, handle) = spawn(&mut router);
    assert_eq!(handle, 0);
    assert_eq!(router.on_accept(AcceptEvent::Failed), AcceptAction::Retry);
    let (_, handle) = spawn(&mut router);
    assert_eq!(handle, 1);
}

#[test]
fn commands_are_dropped_while_no_adapter_is_registered() {
    let invocation = CommandInvocation {
        id: ConnectionId::from_u64_pair(0xa1a2a3a4b1b2c1c2, 0xd1d2d3d4d5d6d7d8),
        cmd: "foo".to_string(),
        args: vec!["x".to_string()],
    };
    assert_eq!(
        dispatch(false, InboundEvent::Command(invocation.clone())),
        DispatchAction::Discard
    );
    assert_eq!(
        dispatch(true, InboundEvent::Command(invocation)),
        DispatchAction::Invoke {
            id_hi: 0xa1a2a3a4b1b2c1c2,
            id_lo: 0xd1d2d3d4d5d6d7d8,
            cmd: "foo".to_string(),
            args: vec!["x".to_string()],
        }
    );
    assert_eq!(dispatch(true, InboundEvent::Closed), DispatchAction::Exit);
    assert_eq!(dispatch(false, InboundEvent::Closed), DispatchAction::Exit);
}

#[test]
fn read_pump_forwards_in_order_and_stops_for_good() {
    let id = ConnectionId::from_u64_pair(1, 1);
    let mut pump = ReadPump::new(id);
    assert_eq!(pump.id(), id);
    assert!(pump.is_alive());
    for name in ["first", "second", "third"] {
        let message =
            ClientMessage::CommandRequest { cmd: name.to_string(), args: vec![name.to_string()] };
        assert_eq!(
            pump.step(ReadEvent::Message(message)),
            ReadAction::Forward(CommandInvocation {
                id,
                cmd: name.to_string(),
                args: vec![name.to_string()]
            })
        );
        assert!(pump.is_alive());
    }
    assert_eq!(pump.step(ReadEvent::Malformed), ReadAction::Terminate { release: id });
    assert!(!pump.is_alive());
    let late = ClientMessage::CommandRequest { cmd: "late".to_string(), args: Vec::new() };
    assert_eq!(pump.step(ReadEvent::Message(late)), ReadAction::Terminate { release: id });
    assert!(!pump.is_alive());

    for event in [ReadEvent::Closed, ReadEvent::ForwardFailed, ReadEvent::Malformed] {
        let mut pump = ReadPump::new(id);
        assert_eq!(pump.step(event), ReadAction::Terminate { release: id });
        assert!(!pump.is_alive());
    }
}

#[test]
fn write_pump_writes_in_order_and_stops_for_good() {
    let id = ConnectionId::from_u64_pair(2, 2);
    let mut pump = WritePump::new(id);
    assert_eq!(pump.id(), id);
    assert!(pump.is_alive());
    assert_eq!(
        pump.step(WriteEvent::Message(ServerMessage::IsBusy)),
        WriteAction::Write(ServerMessage::IsBusy)
    );
    assert_eq!(
        pump.step(WriteEvent::Message(ServerMessage::Compiling)),
        WriteAction::Write(ServerMessage::Compiling)
    );
    assert_eq!(pump.step(WriteEvent::WriteFailed), WriteAction::Terminate { release: id });
    assert!(!pump.is_alive());
    assert_eq!(
        pump.step(WriteEvent::Message(ServerMessage::IsBusy)),
        WriteAction::Terminate { release: id }
    );

    let mut pump = WritePump::new(id);
    assert_eq!(pump.step(WriteEvent::ChannelClosed), WriteAction::Terminate { release: id });
    assert!(!pump.is_alive());
}

#[test]
fn registry_insert_lookup_remove() {
    let mut registry = ConnectionRegistry::new();
    let a = ConnectionId::from_u64_pair(0, 1);
    let b = ConnectionId::from_u64_pair(1, 0);
    assert_eq!(registry.lookup(a), None);
    assert_eq!(registry.insert(a, 10), None);
    assert_eq!(registry.insert(b, 20), None);
    assert_eq!(registry.lookup(a), Some(10));
    assert_eq!(registry.lookup(b), Some(20));
    assert_eq!(registry.insert(a, 11), Some(10));
    assert_eq!(registry.lookup(a), Some(11));
    assert_eq!(registry.remove(a), Some(11));
    assert_eq!(registry.lookup(a), None);
    assert_eq!(registry.remove(a), None);
    assert_eq!(registry.lookup(b), Some(20));
}

#[test]
fn connection_identifiers() {
    let id = ConnectionId::from_u64_pair(0xa1a2a3a4b1b2c1c2, 0xd1d2d3d4d5d6d7d8);
    assert_eq!(id.value, 0xa1a2a3a4b1b2c1c2d1d2d3d4d5d6d7d8);
    assert_eq!(id.as_u64_pair(), (0xa1a2a3a4b1b2c1c2, 0xd1d2d3d4d5d6d7d8));
    assert_eq!(ConnectionId::from_u64_pair(0, 0).value, 0);
    assert_eq!(ConnectionId::from_u64_pair(u64::MAX, u64::MAX).value, u128::MAX);
    assert_eq!(ConnectionId { value: u128::MAX }.as_u64_pair(), (u64::MAX, u64::MAX));
    assert_eq!(ConnectionId { value: 1 << 64 }.as_u64_pair(), (1, 0));
    let uuid = uuid::Uuid::from_u64_pair(0xa1a2a3a4b1b2c1c2, 0xd1d2d3d4d5d6d7d8);
    assert_eq!(uuid.as_u128(), id.value);
    assert_eq!(uuid.as_u64_pair(), id.as_u64_pair());
}

#[test]
fn minted_identifiers_are_random_version_four() {
    let first = ConnectionId::mint();
    let second = ConnectionId::mint();
    assert_ne!(first, second);
    for id in [first, second] {
        assert_eq!(uuid::Uuid::from_u128(id.value).get_version_num(), 4);
        assert_eq!((id.value >> 76) & 0xf, 4);
        assert_eq!((id.value >> 62) & 0x3, 2);
    }
}

#[test]
fn application_events_carry_their_connection() {
    let mut lifecycle: Lifecycle<u8, u8> = Lifecycle::new();
    assert_eq!(
        lifecycle.on_unity_console_log(1, 2, 3, "l".to_string(), "s".to_string()),
        None
    );
    assert_eq!(lifecycle.on_command_finish(1, 2, true, None), None);
    lifecycle.run(0, 0);
    assert_eq!(
        lifecycle.on_unity_console_log(1, 2, 3, "l".to_string(), "s".to_string()),
        Some(OutboundEvent::Event {
            id: ConnectionId { value: (1 << 64) + 2 },
            message: ServerMessage::UnityConsoleOutput {
                log_type: UnityLogType::Log,
                log: "l".to_string(),
                stack_trace: "s".to_string(),
            },
        })
    );
    assert_eq!(
        lifecycle.on_unity_console_log(0, 0, 99, String::new(), String::new()),
        Some(OutboundEvent::Event {
            id: ConnectionId { value: 0 },
            message: ServerMessage::UnityConsoleOutput {
                log_type: UnityLogType::Unknown,
                log: String::new(),
                stack_trace: String::new(),
            },
        })
    );
    assert_eq!(
        lifecycle.on_command_finish(u64::MAX, 0, false, Some("no".to_string())),
        Some(OutboundEvent::Event {
            id: ConnectionId { value: u128::MAX - u64::MAX as u128 },
            message: ServerMessage::CommandFinished {
                is_success: false,
                msg: Some("no".to_string())
            },
        })
    );
}
