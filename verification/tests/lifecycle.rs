use server_manager::decimal::IntegerFault;
use server_manager::terminator::{PROCESS_ALL_ACCESS, PROCESS_TERMINATE};
use server_manager::{
    Action, DaemonRole, Event, HookKind, Lifecycle, Operation, Phase, Platform, Process,
    ServerManager, ServerManagerError, ServerManagerResult, TerminationCause,
};
use std::collections::HashMap;

type Hook = fn(&mut Vec<String>);

/// How a run ended.
#[derive(Debug, PartialEq, Eq)]
enum End {
    Returned(ServerManagerResult),
    Exited(i32),
}

/// A pretended operating system: files, processes and what was done to them.
struct World {
    files: HashMap<String, String>,
    directories: Vec<String>,
    read_only: bool,
    executable: Option<String>,
    spawnable: bool,
    runtime: bool,
    alive: Vec<i32>,
    kill_installed: bool,
    open_refusals: u32,
    terminate_refused: bool,
    handles: i32,
    listing: Option<String>,
    installable: bool,
    watcher_spawnable: bool,
    log: Vec<String>,
}

impl World {
    fn new() -> World {
        World {
            files: HashMap::new(),
            directories: Vec::new(),
            read_only: false,
            executable: Some("/usr/bin/service".to_string()),
            spawnable: true,
            runtime: true,
            alive: Vec::new(),
            kill_installed: true,
            open_refusals: 0,
            terminate_refused: false,
            handles: 0,
            listing: Some("cargo-watch v8.5.3:\n    cargo-watch\n".to_string()),
            installable: true,
            watcher_spawnable: true,
            log: Vec::new(),
        }
    }

    fn failed(message: &str) -> Event {
        Event::Failed { not_found: false, message: message.to_string() }
    }

    fn perform(&mut self, manager: &ServerManager<Hook>, action: Action) -> Event {
        match action {
            Action::RunHook { hook } => {
                if let Some(run) = manager.hook(hook) {
                    run(&mut self.log);
                }
                Event::Completed
            }
            Action::CreateDirectory { path } => {
                if self.read_only {
                    return World::failed("Permission denied (os error 13)");
                }
                self.log.push(format!("mkdir {}", path));
                self.directories.push(path);
                Event::Completed
            }
            Action::WriteFile { path, content } => {
                if self.read_only {
                    return World::failed("Permission denied (os error 13)");
                }
                self.log.push(format!("write {} {}", path, content));
                self.files.insert(path, content);
                Event::Completed
            }
            Action::ReadFile { path } => {
                self.log.push(format!("read {}", path));
                match self.files.get(&path) {
                    Some(content) => Event::Text { text: content.clone() },
                    None => Event::Failed {
                        not_found: true,
                        message: "No such file or directory (os error 2)".to_string(),
                    },
                }
            }
            Action::ResolveExecutable => match &self.executable {
                Some(path) => Event::Text { text: path.clone() },
                None => World::failed("no executable"),
            },
            Action::SpawnDaemon { executable, flags } => {
                if !self.spawnable {
                    return World::failed("cannot spawn");
                }
                self.log.push(format!("spawn {} flags {}", executable, flags));
                Event::Completed
            }
            Action::ServeOnRuntime => {
                if !self.runtime {
                    return World::failed("no runtime");
                }
                if let Some(run) = manager.hook(HookKind::Server) {
                    run(&mut self.log);
                }
                Event::Completed
            }
            Action::Signal { pid } => {
                if !self.kill_installed {
                    return Event::Failed {
                        not_found: true,
                        message: "No such file or directory (os error 2)".to_string(),
                    };
                }
                self.log.push(format!("kill -TERM {}", pid));
                if let Some(at) = self.alive.iter().position(|alive| *alive == pid) {
                    self.alive.remove(at);
                    Event::Exited { success: true, stdout: String::new(), stderr: String::new() }
                } else {
                    Event::Exited {
                        success: false,
                        stdout: String::new(),
                        stderr: format!("kill: ({}): No such process\n", pid),
                    }
                }
            }
            Action::OpenProcess { process_id, access } => {
                self.log.push(format!("open {} access {:#x}", process_id, access));
                if self.open_refusals > 0 {
                    self.open_refusals -= 1;
                    return Event::Refused { code: 5 };
                }
                if !self.alive.contains(&(process_id as i32)) {
                    return Event::Refused { code: 87 };
                }
                self.handles += 1;
                Event::Completed
            }
            Action::TerminateProcess { exit_code } => {
                self.log.push(format!("terminate with {}", exit_code));
                if self.terminate_refused {
                    return Event::Refused { code: 6 };
                }
                self.alive.clear();
                Event::Completed
            }
            Action::CloseHandle => {
                self.log.push("close".to_string());
                self.handles -= 1;
                Event::Completed
            }
            Action::ListInstalled => match &self.listing {
                Some(listing) => Event::Exited {
                    success: true,
                    stdout: listing.clone(),
                    stderr: String::new(),
                },
                None => World::failed("cargo not found"),
            },
            Action::InstallWatcher => {
                self.log.push("install".to_string());
                Event::Exited {
                    success: self.installable,
                    stdout: String::new(),
                    stderr: String::new(),
                }
            }
            Action::SpawnWatcher => {
                if !self.watcher_spawnable {
                    return World::failed("cargo-watch not found");
                }
                self.log.push("watch".to_string());
                Event::Completed
            }
            Action::AwaitWatcher => {
                self.log.push("wait".to_string());
                Event::Exited { success: true, stdout: String::new(), stderr: String::new() }
            }
            Action::Print { message } => {
                self.log.push(format!("print {}", message));
                Event::Completed
            }
            Action::Exit { .. } | Action::Return { .. } => unreachable!(),
        }
    }

    fn drive(&mut self, manager: &ServerManager<Hook>, mut run: Lifecycle) -> End {
        for _ in 0..100 {
            match run.action() {
                Action::Return { result } => return End::Returned(result),
                Action::Exit { code } => return End::Exited(code),
                action => {
                    let event = self.perform(manager, action);
                    run = run.advance(event);
                }
            }
        }
        panic!("the run does not end");
    }
}

fn started(log: &mut Vec<String>) {
    log.push("started".to_string());
}

fn stopping(log: &mut Vec<String>) {
    log.push("stopping".to_string());
}

fn serving(log: &mut Vec<String>) {
    log.push("serving".to_string());
}

fn manager(pid_file: &str) -> ServerManager<Hook> {
    let mut manager: ServerManager<Hook> = ServerManager::new();
    manager
        .set_pid_file(pid_file)
        .set_start_hook(started)
        .set_server_hook(serving)
        .set_stop_hook(stopping);
    manager
}

fn posix(pid: u32) -> Process {
    Process { pid, platform: Platform::Posix, role: DaemonRole::Launcher }
}

fn windows(pid: u32) -> Process {
    Process { pid, platform: Platform::Windows, role: DaemonRole::Launcher }
}

fn child(pid: u32, platform: Platform) -> Process {
    Process { pid, platform, role: DaemonRole::Child }
}

fn position(log: &[String], entry: &str) -> usize {
    match log.iter().position(|line| line == entry) {
        Some(at) => at,
        None => panic!("{:?} is not in {:?}", entry, log),
    }
}

#[test]
fn written_pid_is_read_back() {
    let manager = manager("./run/app.pid");
    let mut world = World::new();
    let end = world.drive(&manager, manager.start(&posix(4242)));
    assert_eq!(end, End::Returned(Ok(())));
    assert_eq!(world.files.get("./run/app.pid"), Some(&"4242".to_string()));
    assert_eq!(world.directories, vec!["./run".to_string()]);
    world.alive.push(4242);
    world.log.clear();
    let end = world.drive(&manager, manager.stop(&posix(1)));
    assert_eq!(end, End::Returned(Ok(())));
    assert_eq!(world.log, vec!["stopping", "read ./run/app.pid", "kill -TERM 4242"]);
    assert!(world.alive.is_empty());
}

#[test]
fn missing_pid_file_is_not_found() {
    let manager = manager("./run/missing.pid");
    let mut world = World::new();
    world.alive.push(4242);
    let end = world.drive(&manager, manager.stop(&posix(1)));
    assert_eq!(
        end,
        End::Returned(Err(ServerManagerError::NotFound {
            message: "No such file or directory (os error 2)".to_string()
        }))
    );
    assert_eq!(world.log, vec!["stopping", "read ./run/missing.pid"]);
    assert_eq!(world.alive, vec![4242]);
}

#[test]
fn missing_pid_file_is_not_found_on_windows() {
    let manager = manager("./run/missing.pid");
    let mut world = World::new();
    let end = world.drive(&manager, manager.stop(&windows(1)));
    assert!(matches!(end, End::Returned(Err(ServerManagerError::NotFound { .. }))));
    assert_eq!(world.log, vec!["stopping", "read ./run/missing.pid"]);
    assert_eq!(world.handles, 0);
}

#[test]
fn hooks_run_before_what_they_guard() {
    let manager = manager("./run/app.pid");
    let mut world = World::new();
    let end = world.drive(&manager, manager.start_daemon(&posix(100)));
    assert_eq!(end, End::Returned(Ok(())));
    let end = world.drive(&manager, manager.start_daemon(&child(4242, Platform::Posix)));
    assert_eq!(end, End::Returned(Ok(())));
    world.alive.push(4242);
    let end = world.drive(&manager, manager.stop(&posix(100)));
    assert_eq!(end, End::Returned(Ok(())));
    assert_eq!(
        world.log,
        vec![
            "started",
            "spawn /usr/bin/service flags 0",
            "started",
            "mkdir ./run",
            "write ./run/app.pid 4242",
            "serving",
            "stopping",
            "read ./run/app.pid",
            "kill -TERM 4242",
        ]
    );
    let spawn = position(&world.log, "spawn /usr/bin/service flags 0");
    assert!(position(&world.log, "started") < spawn);
    assert!(position(&world.log, "stopping") < position(&world.log, "kill -TERM 4242"));
    assert!(position(&world.log, "stopping") < position(&world.log, "read ./run/app.pid"));
}

#[test]
fn every_run_begins_with_its_hook() {
    let manager = manager("app.pid");
    let process = posix(1);
    assert_eq!(manager.start(&process).action(), Action::RunHook { hook: HookKind::Start });
    assert_eq!(manager.start_daemon(&process).action(), Action::RunHook { hook: HookKind::Start });
    assert_eq!(manager.hot_restart(&process).action(), Action::RunHook { hook: HookKind::Start });
    assert_eq!(
        manager.hot_restart_wait(&process).action(),
        Action::RunHook { hook: HookKind::Start }
    );
    assert_eq!(manager.stop(&process).action(), Action::RunHook { hook: HookKind::Stop });
}

#[test]
fn foreground_start_records_then_serves() {
    let manager = manager("./run/app.pid");
    let mut world = World::new();
    let end = world.drive(&manager, manager.start(&posix(31)));
    assert_eq!(end, End::Returned(Ok(())));
    assert_eq!(world.log, vec!["started", "mkdir ./run", "write ./run/app.pid 31", "serving"]);
}

#[test]
fn foreground_start_overwrites_the_pid_file() {
    let manager = manager("app.pid");
    let mut world = World::new();
    world.files.insert("app.pid".to_string(), "999".to_string());
    world.drive(&manager, manager.start(&posix(31)));
    assert_eq!(world.files.get("app.pid"), Some(&"31".to_string()));
}

#[test]
fn foreground_start_that_cannot_write_prints_and_does_not_serve() {
    let manager = manager("./run/app.pid");
    let mut world = World::new();
    world.read_only = true;
    let end = world.drive(&manager, manager.start(&posix(31)));
    assert_eq!(end, End::Returned(Ok(())));
    assert_eq!(
        world.log,
        vec!["started", "print Failed to write pid file: Permission denied (os error 13)"]
    );
    assert!(world.files.is_empty());
}

#[test]
fn foreground_start_reports_a_failed_write_after_the_directory() {
    let run = manager("./run/app.pid").start(&posix(31));
    let run = run.advance(Event::Completed).advance(Event::Completed);
    assert_eq!(
        run.action(),
        Action::WriteFile { path: "./run/app.pid".to_string(), content: "31".to_string() }
    );
    let run = run.advance(Event::Failed { not_found: false, message: "disk full".to_string() });
    assert_eq!(
        run.action(),
        Action::Print { message: "Failed to write pid file: disk full".to_string() }
    );
    let run = run.advance(Event::Completed);
    assert_eq!(run.action(), Action::Return { result: Ok(()) });
}

#[test]
fn daemon_launcher_spawns_itself_and_writes_nothing() {
    let manager = manager("./run/app.pid");
    let mut world = World::new();
    let end = world.drive(&manager, manager.start_daemon(&posix(100)));
    assert_eq!(end, End::Returned(Ok(())));
    assert_eq!(world.log, vec!["started", "spawn /usr/bin/service flags 0"]);
    assert!(world.files.is_empty());
    assert!(world.directories.is_empty());
}

#[test]
fn daemon_launcher_on_windows_detaches_from_the_console() {
    let manager = manager("./run/app.pid");
    let mut world = World::new();
    let end = world.drive(&manager, manager.start_daemon(&windows(100)));
    assert_eq!(end, End::Returned(Ok(())));
    assert_eq!(world.log, vec!["started", "spawn /usr/bin/service flags 8"]);
}

#[test]
fn daemon_launcher_surfaces_an_unresolved_executable() {
    let manager = manager("./run/app.pid");
    let mut world = World::new();
    world.executable = None;
    let end = world.drive(&manager, manager.start_daemon(&posix(100)));
    assert_eq!(
        end,
        End::Returned(Err(ServerManagerError::Spawn { message: "no executable".to_string() }))
    );
    assert_eq!(world.log, vec!["started"]);
}

#[test]
fn daemon_launcher_surfaces_a_failed_spawn_and_leaves_no_pid_file() {
    let manager = manager("./run/app.pid");
    let mut world = World::new();
    world.spawnable = false;
    let end = world.drive(&manager, manager.start_daemon(&posix(100)));
    assert_eq!(
        end,
        End::Returned(Err(ServerManagerError::Spawn { message: "cannot spawn".to_string() }))
    );
    assert!(world.files.is_empty());
}

#[test]
fn daemon_child_records_its_own_pid_and_serves() {
    let manager = manager("./run/app.pid");
    let mut world = World::new();
    let end = world.drive(&manager, manager.start_daemon(&child(555, Platform::Posix)));
    assert_eq!(end, End::Returned(Ok(())));
    assert_eq!(world.log, vec!["started", "mkdir ./run", "write ./run/app.pid 555", "serving"]);
    assert_eq!(world.files.get("./run/app.pid"), Some(&"555".to_string()));
}

#[test]
fn daemon_child_pid_differs_from_the_launcher() {
    let manager = manager("./run/app.pid");
    let mut world = World::new();
    world.drive(&manager, manager.start_daemon(&posix(100)));
    assert!(world.files.is_empty());
    world.drive(&manager, manager.start_daemon(&child(101, Platform::Posix)));
    assert_eq!(world.files.get("./run/app.pid"), Some(&"101".to_string()));
    assert_ne!(world.files.get("./run/app.pid"), Some(&"100".to_string()));
}

#[test]
fn daemon_child_that_cannot_write_returns_the_error() {
    let manager = manager("./run/app.pid");
    let mut world = World::new();
    world.read_only = true;
    let end = world.drive(&manager, manager.start_daemon(&child(555, Platform::Posix)));
    assert_eq!(
        end,
        End::Returned(Err(ServerManagerError::Io {
            message: "Permission denied (os error 13)".to_string()
        }))
    );
    assert_eq!(world.log, vec!["started"]);
}

#[test]
fn daemon_child_without_a_runtime_returns_the_error() {
    let manager = manager("app.pid");
    let mut world = World::new();
    world.runtime = false;
    let end = world.drive(&manager, manager.start_daemon(&child(555, Platform::Posix)));
    assert_eq!(
        end,
        End::Returned(Err(ServerManagerError::Io { message: "no runtime".to_string() }))
    );
    assert_eq!(world.files.get("app.pid"), Some(&"555".to_string()));
}

#[test]
fn stop_on_malformed_content_terminates_nothing() {
    let manager = manager("app.pid");
    let mut world = World::new();
    world.files.insert("app.pid".to_string(), "not a pid".to_string());
    world.alive.push(4242);
    let end = world.drive(&manager, manager.stop(&posix(1)));
    assert_eq!(
        end,
        End::Returned(Err(ServerManagerError::Malformed {
            content: "not a pid".to_string(),
            fault: IntegerFault::InvalidDigit,
        }))
    );
    assert_eq!(world.log, vec!["stopping", "read app.pid"]);
    assert_eq!(world.alive, vec![4242]);
}

#[test]
fn stop_on_empty_content_terminates_nothing() {
    let manager = manager("app.pid");
    let mut world = World::new();
    world.files.insert("app.pid".to_string(), "\n".to_string());
    let end = world.drive(&manager, manager.stop(&windows(1)));
    assert_eq!(
        end,
        End::Returned(Err(ServerManagerError::Malformed {
            content: "\n".to_string(),
            fault: IntegerFault::Empty,
        }))
    );
    assert_eq!(world.log, vec!["stopping", "read app.pid"]);
}

#[test]
fn stop_tolerates_white_space_in_the_pid_file() {
    let manager = manager("app.pid");
    let mut world = World::new();
    world.files.insert("app.pid".to_string(), "  4242\n".to_string());
    world.alive.push(4242);
    assert_eq!(world.drive(&manager, manager.stop(&posix(1))), End::Returned(Ok(())));
    assert_eq!(world.log, vec!["stopping", "read app.pid", "kill -TERM 4242"]);
}

#[test]
fn stop_of_a_process_that_is_gone_fails() {
    let manager = manager("app.pid");
    let mut world = World::new();
    world.files.insert("app.pid".to_string(), "4242".to_string());
    let end = world.drive(&manager, manager.stop(&posix(1)));
    assert_eq!(
        end,
        End::Returned(Err(ServerManagerError::Termination {
            pid: 4242,
            cause: TerminationCause::Rejected {
                stderr: "kill: (4242): No such process\n".to_string()
            },
        }))
    );
}

#[test]
fn stop_is_not_idempotent() {
    let manager = manager("app.pid");
    let mut world = World::new();
    world.files.insert("app.pid".to_string(), "4242".to_string());
    world.alive.push(4242);
    assert_eq!(world.drive(&manager, manager.stop(&posix(1))), End::Returned(Ok(())));
    let again = world.drive(&manager, manager.stop(&posix(1)));
    assert!(matches!(
        again,
        End::Returned(Err(ServerManagerError::Termination { pid: 4242, .. }))
    ));
}

#[test]
fn stop_without_the_kill_utility_fails() {
    let manager = manager("app.pid");
    let mut world = World::new();
    world.files.insert("app.pid".to_string(), "4242".to_string());
    world.alive.push(4242);
    world.kill_installed = false;
    let end = world.drive(&manager, manager.stop(&posix(1)));
    assert_eq!(
        end,
        End::Returned(Err(ServerManagerError::Termination {
            pid: 4242,
            cause: TerminationCause::Unavailable {
                message: "No such file or directory (os error 2)".to_string()
            },
        }))
    );
    assert_eq!(world.alive, vec![4242]);
}

#[test]
fn stop_passes_a_negative_identifier_on() {
    let manager = manager("app.pid");
    let mut world = World::new();
    world.files.insert("app.pid".to_string(), "-4242".to_string());
    world.alive.push(-4242);
    assert_eq!(world.drive(&manager, manager.stop(&posix(1))), End::Returned(Ok(())));
    assert_eq!(world.log, vec!["stopping", "read app.pid", "kill -TERM -4242"]);
}

#[test]
fn windows_stop_opens_terminates_and_closes() {
    let manager = manager("app.pid");
    let mut world = World::new();
    world.files.insert("app.pid".to_string(), "4242".to_string());
    world.alive.push(4242);
    let end = world.drive(&manager, manager.stop(&windows(1)));
    assert_eq!(end, End::Returned(Ok(())));
    assert_eq!(
        world.log,
        vec!["stopping", "read app.pid", "open 4242 access 0x1", "terminate with 1", "close"]
    );
    assert_eq!(world.handles, 0);
    assert!(world.alive.is_empty());
}

#[test]
fn windows_stop_falls_back_to_all_access() {
    let manager = manager("app.pid");
    let mut world = World::new();
    world.files.insert("app.pid".to_string(), "4242".to_string());
    world.alive.push(4242);
    world.open_refusals = 1;
    let end = world.drive(&manager, manager.stop(&windows(1)));
    assert_eq!(end, End::Returned(Ok(())));
    assert_eq!(
        world.log,
        vec![
            "stopping",
            "read app.pid",
            "open 4242 access 0x1",
            "open 4242 access 0x1f0fff",
            "terminate with 1",
            "close",
        ]
    );
    assert_eq!(world.handles, 0);
}

#[test]
fn windows_stop_gives_up_after_the_second_refusal() {
    let manager = manager("app.pid");
    let mut world = World::new();
    world.files.insert("app.pid".to_string(), "4242".to_string());
    let end = world.drive(&manager, manager.stop(&windows(1)));
    assert_eq!(
        end,
        End::Returned(Err(ServerManagerError::Termination {
            pid: 4242,
            cause: TerminationCause::OpenRefused { code: 87 },
        }))
    );
    assert_eq!(
        world.log,
        vec!["stopping", "read app.pid", "open 4242 access 0x1", "open 4242 access 0x1f0fff"]
    );
    assert_eq!(world.handles, 0);
}

#[test]
fn windows_stop_reports_the_code_of_the_last_refusal() {
    let run = manager("app.pid").stop(&windows(1));
    let run = run.advance(Event::Completed).advance(Event::Text { text: "4242".to_string() });
    assert_eq!(run.action(), Action::OpenProcess { process_id: 4242, access: PROCESS_TERMINATE });
    let run = run.advance(Event::Refused { code: 5 });
    assert_eq!(run.action(), Action::OpenProcess { process_id: 4242, access: PROCESS_ALL_ACCESS });
    let run = run.advance(Event::Refused { code: 87 });
    assert_eq!(
        run.action(),
        Action::Return {
            result: Err(ServerManagerError::Termination {
                pid: 4242,
                cause: TerminationCause::OpenRefused { code: 87 },
            })
        }
    );
}

#[test]
fn windows_stop_closes_the_handle_when_termination_is_refused() {
    let manager = manager("app.pid");
    let mut world = World::new();
    world.files.insert("app.pid".to_string(), "4242".to_string());
    world.alive.push(4242);
    world.terminate_refused = true;
    let end = world.drive(&manager, manager.stop(&windows(1)));
    assert_eq!(
        end,
        End::Returned(Err(ServerManagerError::Termination {
            pid: 4242,
            cause: TerminationCause::TerminateRefused { code: 6 },
        }))
    );
    assert_eq!(
        world.log,
        vec!["stopping", "read app.pid", "open 4242 access 0x1", "terminate with 1", "close"]
    );
    assert_eq!(world.handles, 0);
    assert_eq!(world.alive, vec![4242]);
}

#[test]
fn windows_stop_returns_even_if_closing_is_refused() {
    let run = manager("app.pid").stop(&windows(1));
    let run = run
        .advance(Event::Completed)
        .advance(Event::Text { text: "4242".to_string() })
        .advance(Event::Completed)
        .advance(Event::Completed);
    assert_eq!(run.action(), Action::CloseHandle);
    let run = run.advance(Event::Refused { code: 6 });
    assert_eq!(run.action(), Action::Return { result: Ok(()) });
}

#[test]
fn windows_stop_opens_a_negative_identifier_as_unsigned() {
    let run = manager("app.pid").stop(&windows(1));
    let run = run.advance(Event::Completed).advance(Event::Text { text: "-1".to_string() });
    assert_eq!(
        run.action(),
        Action::OpenProcess { process_id: 4_294_967_295, access: PROCESS_TERMINATE }
    );
}

#[test]
fn hot_restart_runs_an_installed_watcher_and_exits() {
    let manager = manager("app.pid");
    let mut world = World::new();
    let end = world.drive(&manager, manager.hot_restart(&posix(1)));
    assert_eq!(end, End::Exited(0));
    assert_eq!(world.log, vec!["started", "watch"]);
}

#[test]
fn hot_restart_wait_waits_for_the_watcher() {
    let manager = manager("app.pid");
    let mut world = World::new();
    let end = world.drive(&manager, manager.hot_restart_wait(&posix(1)));
    assert_eq!(end, End::Exited(0));
    assert_eq!(world.log, vec!["started", "watch", "wait"]);
}

#[test]
fn hot_restart_installs_a_missing_watcher() {
    let manager = manager("app.pid");
    let mut world = World::new();
    world.listing = Some("bat v0.24.0:\n    bat\n".to_string());
    let end = world.drive(&manager, manager.hot_restart(&posix(1)));
    assert_eq!(end, End::Exited(0));
    assert_eq!(
        world.log,
        vec![
            "started",
            "print Cargo-watch not found. Attempting to install...",
            "install",
            "print Cargo-watch installed successfully.",
            "watch",
        ]
    );
}

#[test]
fn hot_restart_fails_if_the_watcher_cannot_be_installed() {
    let manager = manager("app.pid");
    let mut world = World::new();
    world.listing = Some(String::new());
    world.installable = false;
    let end = world.drive(&manager, manager.hot_restart(&posix(1)));
    assert_eq!(
        end,
        End::Returned(Err(ServerManagerError::Spawn {
            message:
                "Failed to install cargo-watch. Please install it manually: `cargo install cargo-watch`"
                    .to_string()
        }))
    );
    assert_eq!(
        world.log,
        vec!["started", "print Cargo-watch not found. Attempting to install...", "install"]
    );
}

#[test]
fn hot_restart_fails_if_the_listing_cannot_be_had() {
    let manager = manager("app.pid");
    let mut world = World::new();
    world.listing = None;
    let end = world.drive(&manager, manager.hot_restart(&posix(1)));
    assert_eq!(
        end,
        End::Returned(Err(ServerManagerError::Spawn { message: "cargo not found".to_string() }))
    );
}

#[test]
fn hot_restart_fails_if_the_watcher_cannot_be_spawned() {
    let manager = manager("app.pid");
    let mut world = World::new();
    world.watcher_spawnable = false;
    let end = world.drive(&manager, manager.hot_restart_wait(&posix(1)));
    assert_eq!(
        end,
        End::Returned(Err(ServerManagerError::Spawn {
            message: "cargo-watch not found".to_string()
        }))
    );
}

#[test]
fn hot_restart_wait_surfaces_a_failed_wait() {
    let run = manager("app.pid").hot_restart_wait(&posix(1));
    let listing =
        Event::Exited { success: true, stdout: "cargo-watch".to_string(), stderr: String::new() };
    let run = run.advance(Event::Completed).advance(listing).advance(Event::Completed);
    assert_eq!(run.action(), Action::AwaitWatcher);
    let run = run.advance(Event::Failed { not_found: false, message: "interrupted".to_string() });
    assert_eq!(
        run.action(),
        Action::Return {
            result: Err(ServerManagerError::Io { message: "interrupted".to_string() })
        }
    );
}

#[test]
fn hot_restart_ignores_the_exit_status_of_the_listing() {
    let run = manager("app.pid").hot_restart(&posix(1));
    let listing =
        Event::Exited { success: false, stdout: "cargo-watch".to_string(), stderr: String::new() };
    let run = run.advance(Event::Completed).advance(listing);
    assert_eq!(run.action(), Action::SpawnWatcher);
}

#[test]
fn a_report_that_answers_nothing_is_ignored() {
    let run = manager("app.pid").stop(&posix(1));
    let before = run.clone();
    let run = run.advance(Event::Text { text: "4242".to_string() });
    assert_eq!(run, before);
    let run = run.advance(Event::Refused { code: 1 });
    assert_eq!(run, before);
    let run = run.advance(Event::Completed);
    assert_eq!(run.action(), Action::ReadFile { path: "app.pid".to_string() });
    let reading = run.clone();
    let run = run.advance(Event::Completed);
    assert_eq!(run, reading);
    let run = run.advance(Event::Exited {
        success: true,
        stdout: String::new(),
        stderr: String::new(),
    });
    assert_eq!(run, reading);
}

#[test]
fn a_finished_run_stays_finished() {
    let run = manager("app.pid").stop(&posix(1));
    let run = run
        .advance(Event::Completed)
        .advance(Event::Failed { not_found: true, message: "gone".to_string() });
    let done = run.clone();
    assert_eq!(
        done.phase,
        Phase::Done { result: Err(ServerManagerError::NotFound { message: "gone".to_string() }) }
    );
    let events = vec![
        Event::Completed,
        Event::Text { text: "4242".to_string() },
        Event::Exited { success: true, stdout: String::new(), stderr: String::new() },
        Event::Failed { not_found: false, message: "x".to_string() },
        Event::Refused { code: 1 },
    ];
    let mut run = run;
    for event in events {
        run = run.advance(event);
        assert_eq!(run, done);
    }
}

#[test]
fn a_run_begins_in_the_hook_phase_with_what_it_was_given() {
    let process = child(9, Platform::Windows);
    let run = Lifecycle::begin(
        Operation::StartDaemon,
        process,
        "a/b.pid".to_string(),
        Some("a".to_string()),
    );
    assert_eq!(
        run,
        Lifecycle {
            operation: Operation::StartDaemon,
            process,
            pid_file: "a/b.pid".to_string(),
            directory: Some("a".to_string()),
            phase: Phase::Hook,
        }
    );
    let run = run.advance(Event::Completed);
    assert_eq!(run.phase, Phase::CreatingDirectory { path: "a".to_string() });
    assert_eq!(run.action(), Action::CreateDirectory { path: "a".to_string() });
}

#[test]
fn a_run_without_a_directory_writes_at_once() {
    let run = Lifecycle::begin(Operation::Start, posix(12), "b.pid".to_string(), None);
    let run = run.advance(Event::Completed);
    assert_eq!(
        run.action(),
        Action::WriteFile { path: "b.pid".to_string(), content: "12".to_string() }
    );
}

#[test]
fn a_failure_to_read_keeps_its_kind() {
    let read = |not_found: bool| {
        manager("app.pid")
            .stop(&posix(1))
            .advance(Event::Completed)
            .advance(Event::Failed { not_found, message: "m".to_string() })
            .action()
    };
    assert_eq!(
        read(true),
        Action::Return { result: Err(ServerManagerError::NotFound { message: "m".to_string() }) }
    );
    assert_eq!(
        read(false),
        Action::Return { result: Err(ServerManagerError::Io { message: "m".to_string() }) }
    );
}

#[test]
fn copies_of_reports_and_phases_equal_them() {
    let events = vec![
        Event::Completed,
        Event::Text { text: "t".to_string() },
        Event::Exited { success: false, stdout: "o".to_string(), stderr: "e".to_string() },
        Event::Failed { not_found: true, message: "m".to_string() },
        Event::Refused { code: 3 },
    ];
    for event in &events {
        assert_eq!(&event.clone(), event);
    }
    let phases: Vec<Phase> = vec![
        Phase::Hook,
        Phase::CreatingDirectory { path: "p".to_string() },
        Phase::Reporting { message: "m".to_string() },
        Phase::Spawning { executable: "x".to_string() },
        Phase::Opening { pid: 1, access: 2 },
        Phase::Closing { result: Err(ServerManagerError::Io { message: "m".to_string() }) },
        Phase::Done { result: Ok(()) },
    ];
    for phase in &phases {
        assert_eq!(&phase.clone(), phase);
    }
}
