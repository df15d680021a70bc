use clipsync::command::{decode, Arg, Command};
use clipsync::connection::{ConnectError, ConnectionManager};
use clipsync::dispatch::{
    connect_finished, dispatch, handle_request, yank_finished, CallError, Completion, Step,
};
use clipsync::notification::Notification;

fn reply(text: &str) -> Step {
    Step::Reply { text: text.to_string() }
}

fn connected(address: &str, handle: u32) -> ConnectionManager<u32> {
    let mut manager = ConnectionManager::new();
    let done = connect_finished(&mut manager, address.to_string(), Ok(handle));
    assert_eq!(done, Completion { reply: "Ok".to_string(), notice: None });
    manager
}

#[test]
fn yank_while_disconnected_is_refused() {
    let mut manager: ConnectionManager<u32> = ConnectionManager::new();
    let command = decode("yank", &[Arg::Text("hello".to_string())]).unwrap();
    assert_eq!(command, Command::Yank { text: "hello".to_string() });
    assert_eq!(dispatch(&mut manager, command), reply("Yank error"));
    assert!(!manager.is_connected());
}

#[test]
fn connect_then_status_names_the_address() {
    let mut manager: ConnectionManager<u32> = ConnectionManager::new();
    let command = decode("connect", &[Arg::Text("http://127.0.0.1:8089".to_string())]).unwrap();
    assert_eq!(command, Command::Connect { address: "http://127.0.0.1:8089".to_string() });
    let step = dispatch(&mut manager, command);
    assert_eq!(step, Step::OpenSession { address: "http://127.0.0.1:8089".to_string() });
    assert!(!manager.is_connected());
    let done = connect_finished(&mut manager, "http://127.0.0.1:8089".to_string(), Ok(1));
    assert_eq!(done.reply, "Ok");
    assert_eq!(done.notice, None);
    assert_eq!(
        dispatch(&mut manager, Command::Status),
        reply("connected to http://127.0.0.1:8089")
    );
}

#[test]
fn unrecognized_command_is_answered_not_failed() {
    let mut manager: ConnectionManager<u32> = ConnectionManager::new();
    let args = [Arg::Other("1".to_string()), Arg::Text("x".to_string())];
    let command = decode("frobnicate", &args).unwrap();
    assert_eq!(
        command,
        Command::Unrecognized { name: "frobnicate".to_string(), raw: "1x".to_string() }
    );
    assert_eq!(dispatch(&mut manager, command), reply("received unknown event type"));
    let mut manager = connected("http://a:1", 5);
    assert_eq!(
        handle_request(&mut manager, "frobnicate", &args),
        reply("received unknown event type")
    );
    assert_eq!(manager.describe(), Some("http://a:1".to_string()));
}

#[test]
fn status_while_disconnected() {
    let mut manager: ConnectionManager<u32> = ConnectionManager::new();
    assert_eq!(dispatch(&mut manager, Command::Status), reply("disconnected"));
}

#[test]
fn status_after_disconnect_is_disconnected() {
    let mut manager = connected("http://127.0.0.1:8089", 1);
    assert_eq!(dispatch(&mut manager, Command::Disconnect), reply("Ok"));
    assert!(!manager.is_connected());
    assert_eq!(dispatch(&mut manager, Command::Status), reply("disconnected"));
}

#[test]
fn disconnect_while_disconnected_is_ok() {
    let mut manager: ConnectionManager<u32> = ConnectionManager::new();
    assert_eq!(dispatch(&mut manager, Command::Disconnect), reply("Ok"));
    assert_eq!(dispatch(&mut manager, Command::Disconnect), reply("Ok"));
    assert!(!manager.is_connected());
}

#[test]
fn yank_while_connected_is_sent() {
    let mut manager = connected("http://127.0.0.1:8089", 1);
    let step = dispatch(&mut manager, Command::Yank { text: "line one\nline two".to_string() });
    assert_eq!(step, Step::SendYank { text: "line one\nline two".to_string() });
    assert_eq!(manager.describe(), Some("http://127.0.0.1:8089".to_string()));
    assert_eq!(manager.current().unwrap().session_handle, 1);
}

#[test]
fn connect_does_not_touch_the_manager_before_the_attempt_ends() {
    let mut manager = connected("http://a:1", 1);
    let step = dispatch(&mut manager, Command::Connect { address: "http://b:2".to_string() });
    assert_eq!(step, Step::OpenSession { address: "http://b:2".to_string() });
    assert_eq!(manager.describe(), Some("http://a:1".to_string()));
}

#[test]
fn failed_connect_is_answered_and_echoed() {
    let mut manager: ConnectionManager<u32> = ConnectionManager::new();
    let error = ConnectError { message: "transport error".to_string() };
    let done = connect_finished(&mut manager, "http://127.0.0.1:8089".to_string(), Err(error));
    assert_eq!(done.reply, "Error connecting");
    assert_eq!(
        done.notice,
        Some(Notification::Echo {
            message: "failed to connect to client: transport error".to_string()
        })
    );
    assert!(!manager.is_connected());
    assert_eq!(dispatch(&mut manager, Command::Status), reply("disconnected"));
}

#[test]
fn failed_connect_keeps_the_earlier_connection() {
    let mut manager = connected("http://a:1", 1);
    let error = ConnectError { message: "refused".to_string() };
    let done = connect_finished(&mut manager, "http://b:2".to_string(), Err(error));
    assert_eq!(done.reply, "Error connecting");
    assert_eq!(dispatch(&mut manager, Command::Status), reply("connected to http://a:1"));
    assert_eq!(manager.current().unwrap().session_handle, 1);
}

#[test]
fn two_connects_leave_the_second() {
    let mut manager = connected("http://a:1", 1);
    let done = connect_finished(&mut manager, "http://b:2".to_string(), Ok(2));
    assert_eq!(done, Completion { reply: "Ok".to_string(), notice: None });
    assert_eq!(dispatch(&mut manager, Command::Status), reply("connected to http://b:2"));
    assert_eq!(manager.current().unwrap().session_handle, 2);
    assert_eq!(dispatch(&mut manager, Command::Disconnect), reply("Ok"));
    assert_eq!(dispatch(&mut manager, Command::Status), reply("disconnected"));
    assert!(manager.current().is_none());
}

#[test]
fn finished_yank_is_ok_or_the_error() {
    assert_eq!(yank_finished(Ok(())), Ok("Ok".to_string()));
    let error = CallError { message: "broken pipe".to_string() };
    assert_eq!(yank_finished(Err(error.clone())), Err(error));
}

#[test]
fn request_that_does_not_decode_is_answered() {
    let mut manager = connected("http://a:1", 1);
    let expected = reply("couldn't convert message into known message type");
    assert_eq!(handle_request(&mut manager, "yank", &[]), expected);
    assert_eq!(handle_request(&mut manager, "yank", &[Arg::Other("3".to_string())]), expected);
    assert_eq!(
        handle_request(&mut manager, "connect", &[Arg::Text("no address".to_string())]),
        expected
    );
    assert_eq!(manager.describe(), Some("http://a:1".to_string()));
}

#[test]
fn requests_run_decode_then_dispatch() {
    let mut manager: ConnectionManager<u32> = ConnectionManager::new();
    let yank = [Arg::Text("hello".to_string())];
    assert_eq!(handle_request(&mut manager, "status", &[]), reply("disconnected"));
    assert_eq!(handle_request(&mut manager, "yank", &yank), reply("Yank error"));
    let address = [Arg::Text("\"http://127.0.0.1:8089\"".to_string())];
    assert_eq!(
        handle_request(&mut manager, "connect", &address),
        Step::OpenSession { address: "http://127.0.0.1:8089".to_string() }
    );
    let done = connect_finished(&mut manager, "http://127.0.0.1:8089".to_string(), Ok(9));
    assert_eq!(done.reply, "Ok");
    assert_eq!(
        handle_request(&mut manager, "status", &yank),
        reply("connected to http://127.0.0.1:8089")
    );
    assert_eq!(
        handle_request(&mut manager, "yank", &yank),
        Step::SendYank { text: "hello".to_string() }
    );
    assert_eq!(handle_request(&mut manager, "disconnect", &[]), reply("Ok"));
    assert_eq!(handle_request(&mut manager, "status", &[]), reply("disconnected"));
    assert_eq!(handle_request(&mut manager, "yank", &yank), reply("Yank error"));
}
