use frag_proxy::auth::{RequestParts, UserData};
use frag_proxy::control::{
    interrupt, restart, route, status, upload, wait_for_reload, Method, Route, ServerState,
    UploadAction, UploadEvent, UploadQuery, DEFAULT_PORT, DEFAULT_SUBPROCESS_PORT,
};
use frag_proxy::subproc::{
    Phase, RunAction, RunEvent, WrappedCommand, WrappedServer, WrappedServerCommand,
};

fn idle_state() -> ServerState {
    ServerState {
        wrapped_server: WrappedServer::new(WrappedCommand::from_str("./serve --fast").unwrap(), 8080),
        subprocess_port: 9090,
    }
}

fn live_state() -> ServerState {
    let mut state = idle_state();
    state.wrapped_server.run_loop(RunEvent::Begin);
    state.wrapped_server.run_loop(RunEvent::Spawned);
    state
}

fn exited_state() -> ServerState {
    let mut state = live_state();
    state.wrapped_server.run_loop(RunEvent::Exited(Some(1)));
    state
}

fn writer() -> (RequestParts, Option<UserData>) {
    (
        RequestParts { user_data: Some(b"{\"read_only\":false}".to_vec()), verified_path: None },
        Some(UserData { read_only: Some(false) }),
    )
}

fn reader() -> (RequestParts, Option<UserData>) {
    (
        RequestParts { user_data: Some(b"{\"read_only\":true}".to_vec()), verified_path: None },
        Some(UserData { read_only: Some(true) }),
    )
}

fn anonymous() -> (RequestParts, Option<UserData>) {
    (RequestParts { user_data: None, verified_path: None }, None)
}

fn all_upload_events() -> Vec<UploadEvent> {
    vec![
        UploadEvent::Start,
        UploadEvent::DirectoryReady,
        UploadEvent::DirectoryFailed("denied".to_string()),
        UploadEvent::FileReady,
        UploadEvent::FileFailed("denied".to_string()),
        UploadEvent::BodyWritten,
        UploadEvent::WriteFailed("disk full".to_string()),
        UploadEvent::Sent,
    ]
}

#[test]
fn default_ports_are_as_documented() {
    assert_eq!(DEFAULT_PORT, 8080);
    assert_eq!(DEFAULT_SUBPROCESS_PORT, 9090);
}

#[test]
fn control_routes_are_found() {
    assert_eq!(route(Method::Get, "/_frag/status"), Route::Status);
    assert_eq!(route(Method::Post, "/_frag/restart"), Route::Restart);
    assert_eq!(route(Method::Post, "/_frag/interrupt"), Route::Interrupt);
    assert_eq!(route(Method::Get, "/_frag/await"), Route::Await);
    assert_eq!(
        route(Method::Post, "/_frag/upload/sub/dir/file.txt"),
        Route::Upload("sub/dir/file.txt".to_string())
    );
}

#[test]
fn upload_route_takes_the_path_as_it_stands() {
    assert_eq!(route(Method::Post, "/_frag/upload/../up.txt"), Route::Upload("../up.txt".to_string()));
    assert_eq!(route(Method::Post, "/_frag/upload//etc/x"), Route::Upload("/etc/x".to_string()));
    assert_eq!(route(Method::Post, "/_frag/upload/a%20b"), Route::Upload("a%20b".to_string()));
    assert_eq!(route(Method::Post, "/_frag/upload/d\u{e9}j\u{e0}"), Route::Upload("d\u{e9}j\u{e0}".to_string()));
}

#[test]
fn control_routes_refuse_other_methods() {
    assert_eq!(route(Method::Post, "/_frag/status"), Route::MethodNotAllowed);
    assert_eq!(route(Method::Other, "/_frag/status"), Route::MethodNotAllowed);
    assert_eq!(route(Method::Get, "/_frag/restart"), Route::MethodNotAllowed);
    assert_eq!(route(Method::Get, "/_frag/interrupt"), Route::MethodNotAllowed);
    assert_eq!(route(Method::Post, "/_frag/await"), Route::MethodNotAllowed);
    assert_eq!(route(Method::Get, "/_frag/upload/file.txt"), Route::MethodNotAllowed);
}

#[test]
fn unknown_control_paths_are_not_found() {
    assert_eq!(route(Method::Get, "/_frag/"), Route::NotFound);
    assert_eq!(route(Method::Get, "/_frag/nothing"), Route::NotFound);
    assert_eq!(route(Method::Get, "/_frag/status/"), Route::NotFound);
    assert_eq!(route(Method::Post, "/_frag/upload/"), Route::NotFound);
    assert_eq!(route(Method::Post, "/_frag/upload"), Route::NotFound);
    assert_eq!(route(Method::Get, "/_frag/Status"), Route::NotFound);
}

#[test]
fn unserved_routes_have_a_status() {
    assert_eq!(Route::NotFound.unserved(), Some(404));
    assert_eq!(Route::MethodNotAllowed.unserved(), Some(405));
    assert_eq!(Route::Status.unserved(), None);
    assert_eq!(Route::Restart.unserved(), None);
    assert_eq!(Route::Interrupt.unserved(), None);
    assert_eq!(Route::Await.unserved(), None);
    assert_eq!(Route::Upload("f".to_string()).unserved(), None);
    assert_eq!(Route::Proxy.unserved(), None);
}

#[test]
fn paths_outside_the_prefix_are_proxied() {
    for method in [Method::Get, Method::Post, Method::Other] {
        assert_eq!(route(method, "/"), Route::Proxy);
        assert_eq!(route(method, "/hello"), Route::Proxy);
        assert_eq!(route(method, "/_frag"), Route::Proxy);
        assert_eq!(route(method, "/_fragment/status"), Route::Proxy);
        assert_eq!(route(method, "/app/_frag/status"), Route::Proxy);
        assert_eq!(route(method, ""), Route::Proxy);
        assert_eq!(route(method, "_frag/status"), Route::Proxy);
    }
}

#[test]
fn paths_under_the_prefix_are_never_proxied() {
    let paths = ["/_frag/", "/_frag/status", "/_frag/x/y", "/_frag/upload/", "/_frag//", "/_frag/await?"];
    for method in [Method::Get, Method::Post, Method::Other] {
        for path in paths {
            assert_ne!(route(method, path), Route::Proxy);
        }
    }
}

#[test]
fn status_reports_running() {
    assert_eq!(status(&live_state()), (200, "Running.".to_string()));
}

#[test]
fn status_reports_not_running() {
    assert_eq!(status(&idle_state()), (503, "Not running.".to_string()));
    assert_eq!(status(&exited_state()), (503, "Not running.".to_string()));
}

#[test]
fn restart_sends_restart() {
    let (parts, user_data) = writer();
    assert_eq!(
        restart(&live_state(), &parts, user_data),
        Ok((WrappedServerCommand::Restart, (200, "Server restarting.".to_string())))
    );
}

#[test]
fn interrupt_sends_interrupt() {
    let (parts, user_data) = writer();
    assert_eq!(
        interrupt(&live_state(), &parts, user_data),
        Ok((WrappedServerCommand::Interrupt, (200, "Server interrupted.".to_string())))
    );
}

#[test]
fn read_only_rejection() {
    let (parts, user_data) = reader();
    let refused = restart(&live_state(), &parts, user_data).unwrap_err();
    assert_eq!(refused.0, 403);
    assert!(refused.1.contains("Read-only access"));
}

#[test]
fn mutating_endpoints_refuse_a_read_only_user() {
    let (parts, user_data) = reader();
    let refusal = (403, "Read-only access: Cannot modify artifacts".to_string());
    assert_eq!(restart(&live_state(), &parts, user_data), Err(refusal.clone()));
    assert_eq!(interrupt(&live_state(), &parts, user_data), Err(refusal.clone()));
    let query = UploadQuery { restart: true, interrupt: true };
    for event in all_upload_events() {
        assert_eq!(
            upload(&live_state(), query, "a/b.txt", &parts, user_data, event),
            UploadAction::Reply(403, refusal.1.clone())
        );
    }
}

#[test]
fn mutating_endpoints_refuse_a_request_without_user_data() {
    let (parts, user_data) = anonymous();
    let refusal = (401, "Missing x-verified-user-data header".to_string());
    assert_eq!(restart(&live_state(), &parts, user_data), Err(refusal.clone()));
    assert_eq!(interrupt(&live_state(), &parts, user_data), Err(refusal.clone()));
    let query = UploadQuery { restart: false, interrupt: false };
    for event in all_upload_events() {
        assert_eq!(
            upload(&live_state(), query, "a/b.txt", &parts, user_data, event),
            UploadAction::Reply(401, refusal.1.clone())
        );
    }
}

#[test]
fn mutating_endpoints_refuse_malformed_user_data() {
    let bad_bytes = RequestParts { user_data: Some(vec![0xff]), verified_path: None };
    assert_eq!(
        restart(&live_state(), &bad_bytes, None),
        Err((400, "Invalid x-verified-user-data header".to_string()))
    );
    let bad_json = RequestParts { user_data: Some(b"{".to_vec()), verified_path: None };
    assert_eq!(
        interrupt(&live_state(), &bad_json, None),
        Err((400, "Invalid JSON in x-verified-user-data header".to_string()))
    );
    assert_eq!(
        upload(
            &live_state(),
            UploadQuery { restart: false, interrupt: false },
            "f",
            &bad_json,
            None,
            UploadEvent::Start
        ),
        UploadAction::Reply(400, "Invalid JSON in x-verified-user-data header".to_string())
    );
}

#[test]
fn await_when_running() {
    assert_eq!(wait_for_reload(&live_state()), (false, (200, "OK".to_string())));
}

#[test]
fn await_waits_while_not_running() {
    assert_eq!(wait_for_reload(&idle_state()), (true, (200, "OK".to_string())));
    assert_eq!(wait_for_reload(&exited_state()), (true, (200, "OK".to_string())));
}

#[test]
fn upload_goes_through_its_steps() {
    let state = live_state();
    let (parts, user_data) = writer();
    let query = UploadQuery { restart: false, interrupt: false };
    let name = "sub/dir/file.txt";
    assert_eq!(
        upload(&state, query, name, &parts, user_data, UploadEvent::Start),
        UploadAction::CreateParentDirs(name.to_string())
    );
    assert_eq!(
        upload(&state, query, name, &parts, user_data, UploadEvent::DirectoryReady),
        UploadAction::CreateFile(name.to_string())
    );
    assert_eq!(
        upload(&state, query, name, &parts, user_data, UploadEvent::FileReady),
        UploadAction::WriteBody
    );
    assert_eq!(
        upload(&state, query, name, &parts, user_data, UploadEvent::BodyWritten),
        UploadAction::Send(WrappedServerCommand::StateChange)
    );
    assert_eq!(
        upload(&state, query, name, &parts, user_data, UploadEvent::Sent),
        UploadAction::Reply(200, "File uploaded successfully to sub/dir/file.txt".to_string())
    );
}

#[test]
fn upload_failures_are_internal_errors() {
    let state = live_state();
    let (parts, user_data) = writer();
    let query = UploadQuery { restart: true, interrupt: false };
    assert_eq!(
        upload(&state, query, "a/b", &parts, user_data, UploadEvent::DirectoryFailed("Permission denied (os error 13)".to_string())),
        UploadAction::Reply(500, "Failed to create directory: Permission denied (os error 13)".to_string())
    );
    assert_eq!(
        upload(&state, query, "a/b", &parts, user_data, UploadEvent::FileFailed("Is a directory (os error 21)".to_string())),
        UploadAction::Reply(500, "Failed to create file: Is a directory (os error 21)".to_string())
    );
    assert_eq!(
        upload(&state, query, "a/b", &parts, user_data, UploadEvent::WriteFailed("No space left on device (os error 28)".to_string())),
        UploadAction::Reply(500, "Failed to write file: No space left on device (os error 28)".to_string())
    );
}

#[test]
fn upload_query_restart_beats_interrupt() {
    let state = live_state();
    let (parts, user_data) = writer();
    let cases = [
        (true, true, WrappedServerCommand::Restart),
        (true, false, WrappedServerCommand::Restart),
        (false, true, WrappedServerCommand::Interrupt),
        (false, false, WrappedServerCommand::StateChange),
    ];
    for (restart, interrupt, expected) in cases {
        assert_eq!(
            upload(&state, UploadQuery { restart, interrupt }, "f", &parts, user_data, UploadEvent::BodyWritten),
            UploadAction::Send(expected)
        );
    }
}

#[test]
fn upload_and_restart() {
    let mut state = exited_state();
    let (parts, user_data) = writer();
    let target = match route(Method::Post, "/_frag/upload/sub/dir/file.txt") {
        Route::Upload(target) => target,
        other => panic!("not an upload: {:?}", other),
    };
    assert_eq!(target, "sub/dir/file.txt");
    let query = UploadQuery { restart: true, interrupt: false };
    let mut event = UploadEvent::Start;
    let mut sent = Vec::new();
    let reply = loop {
        match upload(&state, query, &target, &parts, user_data, event) {
            UploadAction::CreateParentDirs(path) => {
                assert_eq!(path, "sub/dir/file.txt");
                event = UploadEvent::DirectoryReady;
            }
            UploadAction::CreateFile(path) => {
                assert_eq!(path, "sub/dir/file.txt");
                event = UploadEvent::FileReady;
            }
            UploadAction::WriteBody => event = UploadEvent::BodyWritten,
            UploadAction::Send(command) => {
                sent.push(command);
                event = UploadEvent::Sent;
            }
            UploadAction::Reply(status, body) => break (status, body),
        }
    };
    assert_eq!(reply, (200, "File uploaded successfully to sub/dir/file.txt".to_string()));
    assert_eq!(sent, vec![WrappedServerCommand::Restart]);
    let action = state.wrapped_server.run_loop(RunEvent::Command { command: sent[0], child_id: None });
    assert!(matches!(action, RunAction::Spawn(_)));
    assert_eq!(state.wrapped_server.run_loop(RunEvent::Spawned), RunAction::Reload);
    assert!(state.wrapped_server.running());
}

#[test]
fn restart_then_await_is_released_by_the_reload() {
    let mut state = exited_state();
    let (parts, user_data) = writer();
    let (command, reply) = restart(&state, &parts, user_data).unwrap();
    assert_eq!(reply, (200, "Server restarting.".to_string()));
    assert!(wait_for_reload(&state).0);
    let action = state.wrapped_server.run_loop(RunEvent::Command { command, child_id: None });
    assert!(matches!(action, RunAction::Spawn(_)));
    assert!(wait_for_reload(&state).0);
    assert_eq!(state.wrapped_server.run_loop(RunEvent::Spawned), RunAction::Reload);
    assert!(!wait_for_reload(&state).0);
}

#[test]
fn restart_of_a_live_child_leaves_the_loop_waiting() {
    let mut state = live_state();
    let (parts, user_data) = writer();
    let (command, _) = restart(&state, &parts, user_data).unwrap();
    assert_eq!(
        state.wrapped_server.run_loop(RunEvent::Command { command, child_id: Some(77) }),
        RunAction::Kill
    );
    assert!(!wait_for_reload(&state).0);
    state.wrapped_server.run_loop(RunEvent::Exited(None));
    assert_eq!(state.wrapped_server.phase(), Phase::Waiting);
    assert!(wait_for_reload(&state).0);
}
