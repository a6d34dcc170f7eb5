use abbyterm::pty::creation::{Creation, Started};
use abbyterm::pty::cwd::CwdProbe;
use abbyterm::pty::error::{CloneStep, PtyError, Step};
use abbyterm::pty::manager::{PtyManager, PumpStart};
use abbyterm::pty::platform::Platform;
use abbyterm::pty::spawn::{HostEnv, SpawnOptions};
use abbyterm::pty::unix_pty::{Reply, Request, UnixPty, WindowSize};

const NONBLOCK: i32 = 0o4000;

fn ok(ret: i32) -> Reply {
    Reply { ret, errno: 0 }
}

fn fail(errno: i32) -> Reply {
    Reply { ret: -1, errno }
}

fn options(shell: Option<&str>, cols: u16, rows: u16) -> SpawnOptions {
    SpawnOptions { shell: shell.map(|s| s.to_string()), args: None, cwd: None, cols, rows }
}

fn env() -> HostEnv {
    HostEnv {
        platform: Platform::Linux,
        shell: Some("/bin/zsh".to_string()),
        home: Some("/home/u".to_string()),
    }
}

/// Answers every request as a healthy host would, with `master` as the
/// master descriptor and `pid` as the child.
fn drive(creation: &mut Creation, master: i32, pid: i32) -> Vec<Request> {
    let mut made: Vec<Request> = Vec::new();
    while let Some(request) = creation.request() {
        made.push(request);
        let reply = match request {
            Request::OpenMaster => ok(master),
            Request::OpenSlave => ok(master + 1),
            Request::Spawn { .. } => ok(pid),
            Request::Duplicate { .. } => ok(master + 2),
            Request::GetFlags { .. } => ok(2),
            _ => ok(0),
        };
        creation.advance(reply);
    }
    made
}

fn create(manager: &mut PtyManager, master: i32, pid: i32, cols: u16, rows: u16) -> u128 {
    let (mut creation, _plan) = manager
        .create_session(options(None, cols, rows), env(), "xterm-256color".to_string(), NONBLOCK)
        .unwrap();
    drive(&mut creation, master, pid);
    let pump = manager.register(&creation).unwrap();
    assert_eq!(pump, PumpStart { id: creation.id(), reader: master + 2 });
    creation.id()
}

#[test]
fn new_registry_is_empty() {
    let manager = PtyManager::new();
    assert!(!manager.contains(0));
    assert_eq!(manager.write(0), Err(PtyError::NotFound));
    let manager = PtyManager::default();
    assert!(!manager.contains(1));
}

#[test]
fn creation_makes_every_call_in_order() {
    let mut manager = PtyManager::new();
    let (mut creation, plan) = manager
        .create_session(options(None, 80, 24), env(), "xterm".to_string(), NONBLOCK)
        .unwrap();
    assert_eq!(plan.program, "/bin/zsh");
    assert_eq!(plan.args, vec!["-l".to_string()]);
    assert_eq!(plan.term, "xterm");
    let made = drive(&mut creation, 5, 4242);
    assert_eq!(
        made,
        vec![
            Request::OpenMaster,
            Request::GrantSlave { master: 5 },
            Request::UnlockSlave { master: 5 },
            Request::SlaveName { master: 5 },
            Request::SetWindowSize {
                fd: 5,
                size: WindowSize { rows: 24, cols: 80, xpixel: 0, ypixel: 0 }
            },
            Request::GetFlags { fd: 5 },
            Request::SetFlags { fd: 5, flags: 0o4002 },
            Request::OpenSlave,
            Request::Spawn { slave: 6 },
            Request::Close { fd: 6 },
            Request::Duplicate { fd: 5 },
            Request::GetFlags { fd: 7 },
            Request::SetFlags { fd: 7, flags: 0o4002 },
        ]
    );
    assert_eq!(
        creation.outcome(),
        Some(Ok(Started {
            id: creation.id(),
            transport: UnixPty { master_fd: 5, child_pid: 4242 },
            reader: 7,
            cols: 80,
            rows: 24,
        }))
    );
}

#[test]
fn every_create_returns_a_new_id() {
    let mut manager = PtyManager::new();
    let mut ids: Vec<u128> = Vec::new();
    for n in 0..50 {
        let id: u128 = create(&mut manager, 10 + 3 * n, 1000 + n, 80, 24);
        assert!(!ids.contains(&id));
        assert!(manager.contains(id));
        ids.push(id);
    }
    for id in ids.iter() {
        assert_eq!(manager.reserve(*id), Err(PtyError::IdCollision));
    }
}

#[test]
fn reserved_id_is_refused_the_second_time() {
    let mut manager = PtyManager::new();
    assert_eq!(manager.reserve(42), Ok(()));
    assert_eq!(manager.reserve(42), Err(PtyError::IdCollision));
    assert_eq!(manager.reserve(43), Ok(()));
    assert!(!manager.contains(42));
}

#[test]
fn resize_after_create_never_errors() {
    let mut manager = PtyManager::new();
    let id: u128 = create(&mut manager, 5, 4242, 80, 24);
    assert_eq!(manager.session(id).unwrap().size(), (80, 24));
    assert_eq!(
        manager.resize(id, 120, 40),
        Ok(Request::SetWindowSize {
            fd: 5,
            size: WindowSize { rows: 40, cols: 120, xpixel: 0, ypixel: 0 }
        })
    );
    assert_eq!(manager.session(id).unwrap().size(), (120, 40));
    assert_eq!(manager.write(id), Ok(Request::Write { fd: 5 }));
    assert_eq!(manager.session(id).unwrap().get_child_pid(), 4242);
    assert_eq!(manager.session(id).unwrap().id(), id);
}

#[test]
fn after_kill_every_operation_is_not_found() {
    let mut manager = PtyManager::new();
    let id: u128 = create(&mut manager, 5, 4242, 80, 24);
    let other: u128 = create(&mut manager, 9, 4243, 80, 24);
    assert_eq!(
        manager.kill(id),
        vec![Request::Terminate { pid: 4242 }, Request::Close { fd: 5 }]
    );
    assert!(!manager.contains(id));
    assert_eq!(manager.write(id), Err(PtyError::NotFound));
    assert_eq!(manager.resize(id, 100, 30), Err(PtyError::NotFound));
    assert_eq!(manager.get_cwd(id, Platform::Linux), Err(PtyError::NotFound));
    assert_eq!(manager.kill(id), vec![]);
    assert_eq!(manager.reserve(id), Err(PtyError::IdCollision));
    assert_eq!(manager.write(other), Ok(Request::Write { fd: 9 }));
}

#[test]
fn kill_of_unknown_id_succeeds_and_changes_nothing() {
    let mut manager = PtyManager::new();
    let id: u128 = create(&mut manager, 5, 4242, 80, 24);
    assert_eq!(manager.kill(id.wrapping_add(1)), vec![]);
    assert!(manager.contains(id));
    assert_eq!(manager.reserve(id.wrapping_add(1)), Ok(()));
}

#[test]
fn invalid_shell_fails_create_and_leaves_no_entry() {
    let mut manager = PtyManager::new();
    let (mut creation, plan) = manager
        .create_session(
            options(Some("/no/such/shell"), 80, 24),
            env(),
            "xterm-256color".to_string(),
            NONBLOCK,
        )
        .unwrap();
    assert_eq!(plan.program, "/no/such/shell");
    let mut closed: Vec<i32> = Vec::new();
    while let Some(request) = creation.request() {
        let reply = match request {
            Request::OpenMaster => ok(5),
            Request::OpenSlave => ok(6),
            Request::Spawn { .. } => fail(2),
            Request::Close { fd } => {
                closed.push(fd);
                ok(0)
            }
            _ => ok(0),
        };
        creation.advance(reply);
    }
    assert_eq!(creation.outcome(), Some(Err(PtyError::Spawn { errno: 2 })));
    assert_eq!(closed, vec![6, 5]);
    assert_eq!(manager.register(&creation), Err(PtyError::Spawn { errno: 2 }));
    assert!(!manager.contains(creation.id()));
    assert_eq!(manager.write(creation.id()), Err(PtyError::NotFound));
    assert_eq!(manager.reserve(creation.id()), Err(PtyError::IdCollision));
    assert_eq!(manager.release_all(), vec![]);
}

#[test]
fn failed_allocation_is_reported_with_its_step() {
    let mut creation = Creation::begin(1, 80, 24, NONBLOCK);
    creation.advance(ok(5));
    creation.advance(fail(13));
    assert_eq!(creation.request(), Some(Request::Close { fd: 5 }));
    creation.advance(ok(0));
    assert_eq!(
        creation.outcome(),
        Some(Err(PtyError::Allocation { step: Step::GrantSlave, errno: 13 }))
    );
}

#[test]
fn failed_reader_releases_the_transport() {
    let mut creation = Creation::begin(1, 80, 24, NONBLOCK);
    let mut made: Vec<Request> = Vec::new();
    while let Some(request) = creation.request() {
        made.push(request);
        let reply = match request {
            Request::OpenMaster => ok(5),
            Request::OpenSlave => ok(6),
            Request::Spawn { .. } => ok(4242),
            Request::Duplicate { .. } => ok(7),
            Request::SetFlags { fd: 7, .. } => fail(9),
            _ => ok(0),
        };
        creation.advance(reply);
    }
    let n: usize = made.len();
    assert_eq!(
        made[n - 3..],
        [Request::Close { fd: 7 }, Request::Terminate { pid: 4242 }, Request::Close { fd: 5 }]
    );
    assert_eq!(
        creation.outcome(),
        Some(Err(PtyError::Reader { stage: CloneStep::SetFlags, errno: 9 }))
    );
}

#[test]
fn kill_during_creation_refuses_the_registration() {
    let mut manager = PtyManager::new();
    let (mut creation, _plan) = manager
        .create_session(options(None, 80, 24), env(), "xterm".to_string(), NONBLOCK)
        .unwrap();
    assert_eq!(manager.kill(creation.id()), vec![]);
    drive(&mut creation, 5, 4242);
    let started = creation.outcome().unwrap().unwrap();
    assert_eq!(manager.register(&creation), Err(PtyError::NotFound));
    assert_eq!(
        started.release(),
        vec![
            Request::Close { fd: 7 },
            Request::Terminate { pid: 4242 },
            Request::Close { fd: 5 }
        ]
    );
    assert!(!manager.contains(creation.id()));
}

#[test]
fn registration_cannot_be_repeated() {
    let mut manager = PtyManager::new();
    let (mut creation, _plan) = manager
        .create_session(options(None, 80, 24), env(), "xterm".to_string(), NONBLOCK)
        .unwrap();
    drive(&mut creation, 5, 4242);
    assert!(manager.register(&creation).is_ok());
    assert_eq!(manager.register(&creation), Err(PtyError::NotFound));
    assert!(manager.contains(creation.id()));
}

#[test]
fn unfinished_creation_is_not_registered() {
    let mut manager = PtyManager::new();
    let (mut creation, _plan) = manager
        .create_session(options(None, 80, 24), env(), "xterm".to_string(), NONBLOCK)
        .unwrap();
    assert_eq!(manager.register(&creation), Err(PtyError::CreationPending));
    creation.advance(ok(5));
    assert_eq!(manager.register(&creation), Err(PtyError::CreationPending));
    assert!(!manager.contains(creation.id()));
    drive(&mut creation, 5, 4242);
    assert!(manager.register(&creation).is_ok());
    assert!(manager.contains(creation.id()));
}

#[test]
fn creation_begun_elsewhere_is_not_registered() {
    let mut manager = PtyManager::new();
    let mut creation = Creation::begin(99, 80, 24, NONBLOCK);
    drive(&mut creation, 5, 4242);
    assert_eq!(manager.register(&creation), Err(PtyError::NotFound));
    assert!(!manager.contains(99));
    assert_eq!(manager.reserve(99), Ok(()));
}

#[test]
fn new_registry_begins_every_creation() {
    for _ in 0..20 {
        let mut manager = PtyManager::new();
        let begun = manager.create_session(
            SpawnOptions {
                shell: Some("/bin/sh".to_string()),
                args: Some(vec!["-c".to_string(), "pwd".to_string()]),
                cwd: Some("/var".to_string()),
                cols: 80,
                rows: 24,
            },
            env(),
            "xterm".to_string(),
            NONBLOCK,
        );
        let (mut creation, plan) = begun.unwrap();
        assert_eq!(plan.program, "/bin/sh");
        assert_eq!(plan.args, vec!["-c".to_string(), "pwd".to_string()]);
        assert_eq!(plan.cwd, Some("/var".to_string()));
        drive(&mut creation, 5, 4242);
        assert_eq!(
            manager.register(&creation),
            Ok(PumpStart { id: creation.id(), reader: 7 })
        );
        assert!(manager.contains(creation.id()));
    }
}

#[test]
fn many_creations_add_one_session_each() {
    let mut manager = PtyManager::new();
    let old: u128 = create(&mut manager, 100, 900, 80, 24);
    let mut creations: Vec<Creation> = Vec::new();
    for _ in 0..16 {
        let (creation, _plan) = manager
            .create_session(options(None, 80, 24), env(), "xterm".to_string(), NONBLOCK)
            .unwrap();
        creations.push(creation);
    }
    let mut pumps: Vec<PumpStart> = Vec::new();
    for (n, creation) in creations.iter_mut().enumerate().rev() {
        let n: i32 = n as i32;
        drive(creation, 200 + 3 * n, 1000 + n);
        pumps.push(manager.register(creation).unwrap());
    }
    assert_eq!(pumps.len(), 16);
    for (i, a) in pumps.iter().enumerate() {
        assert!(manager.contains(a.id));
        assert_ne!(a.id, old);
        for b in pumps.iter().skip(i + 1) {
            assert_ne!(a.id, b.id);
            assert_ne!(a.reader, b.reader);
        }
    }
    assert_eq!(manager.write(old), Ok(Request::Write { fd: 100 }));
    assert_eq!(manager.session(old).unwrap().size(), (80, 24));
    assert_eq!(manager.release_all().len(), 2 * 17);
}

#[test]
fn working_directory_is_asked_of_the_platform() {
    let mut manager = PtyManager::new();
    let id: u128 = create(&mut manager, 5, 4242, 80, 24);
    assert_eq!(
        manager.get_cwd(id, Platform::Linux),
        Ok(CwdProbe::ReadLink { path: "/proc/4242/cwd".to_string() })
    );
    assert_eq!(
        manager.get_cwd(id, Platform::MacOs),
        Ok(CwdProbe::Inspect {
            program: "lsof".to_string(),
            args: vec!["-p", "4242", "-a", "-d", "cwd", "-Fn"]
                .into_iter()
                .map(|s| s.to_string())
                .collect(),
        })
    );
    assert_eq!(manager.get_cwd(id, Platform::Other), Err(PtyError::Unsupported));
    assert_eq!(manager.get_cwd(id, Platform::Windows), Err(PtyError::Unsupported));
    assert_eq!(manager.get_cwd(id.wrapping_add(1), Platform::Other), Err(PtyError::NotFound));
}

#[test]
fn release_of_all_sessions_follows_the_order_of_creation() {
    let mut manager = PtyManager::new();
    let first: u128 = create(&mut manager, 5, 4242, 80, 24);
    let second: u128 = create(&mut manager, 9, 4243, 80, 24);
    let third: u128 = create(&mut manager, 13, 4244, 80, 24);
    let (pending, _plan) = manager
        .create_session(options(None, 80, 24), env(), "xterm".to_string(), NONBLOCK)
        .unwrap();
    manager.kill(second);
    assert_eq!(
        manager.release_all(),
        vec![
            Request::Terminate { pid: 4242 },
            Request::Close { fd: 5 },
            Request::Terminate { pid: 4244 },
            Request::Close { fd: 13 },
        ]
    );
    for id in [first, second, third, pending.id()] {
        assert!(!manager.contains(id));
        assert_eq!(manager.write(id), Err(PtyError::NotFound));
        assert_eq!(manager.reserve(id), Err(PtyError::IdCollision));
    }
    assert_eq!(manager.release_all(), vec![]);
    assert_eq!(PtyManager::new().release_all(), vec![]);
}

#[test]
fn error_messages_name_the_failure() {
    assert_eq!(PtyError::NotFound.message(), "Session not found");
    assert_eq!(PtyError::NotFound.errno(), None);
    assert_eq!(PtyError::Spawn { errno: 2 }.message(), "Failed to spawn shell");
    assert_eq!(PtyError::Spawn { errno: 2 }.errno(), Some(2));
    assert_eq!(
        PtyError::Allocation { step: Step::OpenMaster, errno: 24 }.message(),
        "Failed to create PTY master"
    );
    assert_eq!(PtyError::Write { errno: 5 }.message(), "Failed to write to PTY");
    assert_eq!(PtyError::Resize { errno: 25 }.message(), "ioctl TIOCSWINSZ failed");
    assert_eq!(
        PtyError::Reader { stage: CloneStep::Duplicate, errno: 24 }.message(),
        "Failed to dup master fd"
    );
    assert_eq!(PtyError::CreationPending.message(), "Session creation has not ended");
    assert_eq!(PtyError::Unsupported.errno(), None);
    assert_eq!(PtyError::ProbeFailed { errno: 13 }.errno(), Some(13));
}
