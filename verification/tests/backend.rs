use mathvideo_shell::backend_manager::{
    get_backend_status, health_url, kill_command, parent_dir, project_root_from_cwd,
    start_backend, start_command, stop_backend, BackendStatus, Platform, BACKEND_PORT,
    HEALTH_TIMEOUT_SECS,
};

#[test]
fn health_probe_conventions_are_fixed() {
    assert_eq!(health_url(), "http://localhost:8000/health");
    assert_eq!(HEALTH_TIMEOUT_SECS, 2);
}

#[test]
fn stop_is_always_not_running() {
    let st = stop_backend();
    assert_eq!(
        st,
        BackendStatus { running: false, pid: None, port: 8000 }
    );
    // And again: the report never depends on what the kill found.
    assert_eq!(
        stop_backend(),
        BackendStatus { running: false, pid: None, port: 8000 }
    );
}

#[test]
fn status_running_iff_2xx() {
    assert_eq!(
        get_backend_status(Some(200)),
        BackendStatus { running: true, pid: None, port: 8000 }
    );
    assert!(get_backend_status(Some(204)).running);
    assert!(get_backend_status(Some(299)).running);
    assert!(!get_backend_status(Some(199)).running);
    assert!(!get_backend_status(Some(300)).running);
    assert!(!get_backend_status(Some(404)).running);
    assert!(!get_backend_status(Some(500)).running);
    // Timeout, refused connection: no response code at all.
    assert_eq!(
        get_backend_status(None),
        BackendStatus { running: false, pid: None, port: 8000 }
    );
}

#[test]
fn start_success_reports_new_pid() {
    let st = start_backend(Ok(4242)).unwrap();
    assert_eq!(
        st,
        BackendStatus { running: true, pid: Some(4242), port: 8000 }
    );
    assert_eq!(st.port, BACKEND_PORT);
}

#[test]
fn start_spawn_failure_is_an_error() {
    let r = start_backend(Err(String::from("No such file or directory (os error 2)")));
    assert_eq!(
        r,
        Err(String::from(
            "failed to start backend: No such file or directory (os error 2)"
        ))
    );
}

#[test]
fn two_starts_are_two_processes() {
    // No deduplication: each successful spawn is reported as its own process.
    let first = start_backend(Ok(100)).unwrap();
    let second = start_backend(Ok(101)).unwrap();
    assert!(first.running && second.running);
    assert_eq!(first.pid, Some(100));
    assert_eq!(second.pid, Some(101));
    assert_ne!(first.pid, second.pid);
}

#[test]
fn start_command_line_is_fixed() {
    let (prog, args) = start_command();
    assert_eq!(prog, "conda");
    assert_eq!(
        args,
        vec![
            "run",
            "-n",
            "mathvideo",
            "--no-banner",
            "python",
            "-u",
            "-m",
            "uvicorn",
            "backend.main:app",
            "--host",
            "0.0.0.0",
            "--port",
            "8000",
        ]
    );
}

#[test]
fn kill_commands_per_platform() {
    let (prog, args) = kill_command(Platform::Posix);
    assert_eq!(prog, "sh");
    assert_eq!(args, vec!["-c", "lsof -ti:8000 | xargs kill -9 2>/dev/null"]);

    let (prog, args) = kill_command(Platform::Windows);
    assert_eq!(prog, "powershell");
    assert_eq!(args.len(), 2);
    assert_eq!(args[0], "-Command");
    assert_eq!(
        args[1],
        "Get-NetTCPConnection -LocalPort 8000 -ErrorAction SilentlyContinue | ForEach-Object { Stop-Process -Id $_.OwningProcess -Force -ErrorAction SilentlyContinue }"
    );
}

#[test]
fn project_root_strips_frontend_component() {
    assert_eq!(
        project_root_from_cwd("/home/user/mathvideo/frontend"),
        "/home/user/mathvideo"
    );
    assert_eq!(
        project_root_from_cwd("/home/user/mathvideo"),
        "/home/user/mathvideo"
    );
    assert_eq!(project_root_from_cwd("frontend"), "");
    // A frontend directory at the root: the root is the parent.
    assert_eq!(project_root_from_cwd("/frontend"), "/");
    assert_eq!(project_root_from_cwd("\\frontend"), "\\");
    assert_eq!(project_root_from_cwd("/a/myfrontend"), "/a/myfrontend");
    assert_eq!(project_root_from_cwd("/a/frontendx"), "/a/frontendx");
    assert_eq!(project_root_from_cwd(""), "");
    assert_eq!(
        project_root_from_cwd("C:\\mathvideo\\frontend"),
        "C:\\mathvideo"
    );
}

#[test]
fn parent_dir_is_the_directory_part() {
    assert_eq!(parent_dir("/usr/local/bin/shell"), "/usr/local/bin");
    assert_eq!(parent_dir("/shell"), "/");
    assert_eq!(parent_dir("shell"), "");
    assert_eq!(parent_dir(""), "");
    assert_eq!(parent_dir("/"), "/");
    assert_eq!(parent_dir("C:\\apps\\shell.exe"), "C:\\apps");
}
