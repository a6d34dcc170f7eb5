use abbyterm::pty::error::CloneStep;
use abbyterm::pty::session::PtySession;
use abbyterm::pty::error::{PtyError, Step};
use abbyterm::pty::unix_pty::{Construction, Reply, Request, UnixPty, WindowSize};

fn ok(ret: i32) -> Reply {
    Reply { ret, errno: 0 }
}

fn fail(errno: i32) -> Reply {
    Reply { ret: -1, errno }
}

#[test]
fn construction_runs_the_protocol_in_order() {
    let mut c = Construction::begin(80, 24, 0o4000);
    assert_eq!(c.request(), Some(Request::OpenMaster));
    c.advance(ok(5));
    assert_eq!(c.request(), Some(Request::GrantSlave { master: 5 }));
    c.advance(ok(0));
    assert_eq!(c.request(), Some(Request::UnlockSlave { master: 5 }));
    c.advance(ok(0));
    assert_eq!(c.request(), Some(Request::SlaveName { master: 5 }));
    c.advance(ok(0));
    assert_eq!(
        c.request(),
        Some(Request::SetWindowSize {
            fd: 5,
            size: WindowSize { rows: 24, cols: 80, xpixel: 0, ypixel: 0 }
        })
    );
    c.advance(ok(0));
    assert_eq!(c.request(), Some(Request::GetFlags { fd: 5 }));
    c.advance(ok(0o2));
    assert_eq!(c.request(), Some(Request::SetFlags { fd: 5, flags: 0o4002 }));
    c.advance(ok(0));
    assert_eq!(c.request(), Some(Request::OpenSlave));
    c.advance(ok(6));
    assert_eq!(c.request(), Some(Request::Spawn { slave: 6 }));
    assert_eq!(c.outcome(), None);
    c.advance(ok(4242));
    assert_eq!(c.request(), Some(Request::Close { fd: 6 }));
    c.advance(ok(0));
    assert_eq!(c.request(), None);
    assert_eq!(c.outcome(), Some(Ok(UnixPty { master_fd: 5, child_pid: 4242 })));
}

#[test]
fn failed_spawn_closes_slave_then_master() {
    let mut c = Construction::begin(80, 24, 0o4000);
    for reply in [ok(5), ok(0), ok(0), ok(0), ok(0), ok(2), ok(0), ok(6)] {
        c.advance(reply);
    }
    assert_eq!(c.request(), Some(Request::Spawn { slave: 6 }));
    c.advance(fail(2));
    assert_eq!(c.request(), Some(Request::Close { fd: 6 }));
    assert_eq!(c.outcome(), None);
    c.advance(ok(0));
    assert_eq!(c.request(), Some(Request::Close { fd: 5 }));
    c.advance(fail(9));
    assert_eq!(c.request(), None);
    assert_eq!(c.outcome(), Some(Err(PtyError::Spawn { errno: 2 })));
}

#[test]
fn failed_first_step_has_nothing_to_close() {
    let mut c = Construction::begin(80, 24, 0o4000);
    c.advance(fail(24));
    assert_eq!(c.request(), None);
    assert_eq!(
        c.outcome(),
        Some(Err(PtyError::Allocation { step: Step::OpenMaster, errno: 24 }))
    );
}

#[test]
fn every_failing_step_is_unwound() {
    let steps = [
        Step::OpenMaster,
        Step::GrantSlave,
        Step::UnlockSlave,
        Step::SlaveName,
        Step::SetWindowSize,
        Step::GetFlags,
        Step::SetFlags,
        Step::OpenSlave,
        Step::Spawn,
    ];
    for (failing, step) in steps.iter().enumerate() {
        let mut c = Construction::begin(80, 24, 0o4000);
        let mut opened: Vec<i32> = Vec::new();
        let mut closed: Vec<i32> = Vec::new();
        let mut made: usize = 0;
        while let Some(request) = c.request() {
            let reply = if made == failing {
                fail(5)
            } else {
                match request {
                    Request::OpenMaster => {
                        opened.push(5);
                        ok(5)
                    }
                    Request::OpenSlave => {
                        opened.push(6);
                        ok(6)
                    }
                    Request::Spawn { .. } => ok(77),
                    Request::Close { fd } => {
                        closed.push(fd);
                        ok(0)
                    }
                    _ => ok(0),
                }
            };
            made += 1;
            c.advance(reply);
            assert!(made <= 12);
        }
        opened.sort();
        closed.sort();
        assert_eq!(opened, closed, "step {:?}", step);
        let expected = if *step == Step::Spawn {
            PtyError::Spawn { errno: 5 }
        } else {
            PtyError::Allocation { step: *step, errno: 5 }
        };
        assert_eq!(c.outcome(), Some(Err(expected)));
    }
}

#[test]
fn ended_construction_stays_as_it_is() {
    let mut c = Construction::begin(80, 24, 0o4000);
    c.advance(fail(24));
    let before = c.outcome();
    c.advance(ok(3));
    c.advance(fail(1));
    assert_eq!(c.outcome(), before);
    assert_eq!(c.request(), None);
}

#[test]
fn success_of_a_step_is_told_by_its_return_value() {
    let mut c = Construction::begin(80, 24, 0o4000);
    c.advance(ok(0));
    assert_eq!(c.request(), Some(Request::GrantSlave { master: 0 }));
    c.advance(ok(1));
    assert_eq!(c.request(), Some(Request::Close { fd: 0 }));
    let mut c = Construction::begin(80, 24, 0o4000);
    for reply in [ok(5), ok(0), ok(0), ok(0), ok(0), ok(2), ok(0), ok(6)] {
        c.advance(reply);
    }
    c.advance(ok(0));
    assert_eq!(c.request(), Some(Request::Close { fd: 6 }));
    c.advance(ok(0));
    c.advance(ok(0));
    assert_eq!(c.outcome(), Some(Err(PtyError::Spawn { errno: 0 })));
}

#[test]
fn transport_operations_name_the_master() {
    let pty = UnixPty { master_fd: 5, child_pid: 4242 };
    assert_eq!(
        pty.resize(120, 40),
        Request::SetWindowSize {
            fd: 5,
            size: WindowSize { rows: 40, cols: 120, xpixel: 0, ypixel: 0 }
        }
    );
    assert_eq!(pty.write(), Request::Write { fd: 5 });
    assert_eq!(pty.read(8192), Request::Read { fd: 5, max: 8192 });
    assert_eq!(
        pty.release(),
        vec![Request::Terminate { pid: 4242 }, Request::Close { fd: 5 }]
    );
    assert_eq!(WindowSize::new(80, 24), WindowSize { rows: 24, cols: 80, xpixel: 0, ypixel: 0 });
}

#[test]
fn write_reports_the_count_accepted() {
    assert_eq!(UnixPty::write_result(ok(8)), Ok(8));
    assert_eq!(UnixPty::write_result(ok(3)), Ok(3));
    assert_eq!(UnixPty::write_result(ok(0)), Ok(0));
    assert_eq!(UnixPty::write_result(fail(5)), Err(PtyError::Write { errno: 5 }));
}

#[test]
fn resize_fails_on_a_negative_return() {
    assert_eq!(UnixPty::resize_result(ok(0)), Ok(()));
    assert_eq!(UnixPty::resize_result(fail(25)), Err(PtyError::Resize { errno: 25 }));
}

#[test]
fn reader_is_duplicated_and_made_non_blocking() {
    let pty = UnixPty { master_fd: 5, child_pid: 4242 };
    let mut clone = pty.try_clone_reader(0o4000);
    assert_eq!(clone.request(), Some(Request::Duplicate { fd: 5 }));
    clone.advance(ok(9));
    assert_eq!(clone.request(), Some(Request::GetFlags { fd: 9 }));
    clone.advance(ok(0o2));
    assert_eq!(clone.request(), Some(Request::SetFlags { fd: 9, flags: 0o4002 }));
    assert_eq!(clone.outcome(), None);
    clone.advance(ok(0));
    assert_eq!(clone.request(), None);
    assert_eq!(clone.outcome(), Some(Ok(9)));
}

#[test]
fn failed_duplication_closes_the_duplicate() {
    let pty = UnixPty { master_fd: 5, child_pid: 4242 };
    let mut clone = pty.try_clone_reader(0o4000);
    clone.advance(fail(24));
    assert_eq!(clone.request(), None);
    assert_eq!(
        clone.outcome(),
        Some(Err(PtyError::Reader { stage: CloneStep::Duplicate, errno: 24 }))
    );
    let mut clone = pty.try_clone_reader(0o4000);
    clone.advance(ok(9));
    clone.advance(fail(9));
    assert_eq!(clone.request(), Some(Request::Close { fd: 9 }));
    clone.advance(ok(0));
    assert_eq!(
        clone.outcome(),
        Some(Err(PtyError::Reader { stage: CloneStep::GetFlags, errno: 9 }))
    );
}

#[test]
fn session_keeps_identity_and_transport_through_a_resize() {
    let pty = UnixPty { master_fd: 5, child_pid: 4242 };
    let mut session = PtySession::new(77, pty, 80, 24);
    assert_eq!(session.id(), 77);
    assert_eq!(session.size(), (80, 24));
    assert_eq!(session.get_reader(), 5);
    assert_eq!(session.get_writer(), 5);
    assert_eq!(session.get_child_pid(), 4242);
    assert_eq!(
        session.resize(132, 43),
        Request::SetWindowSize {
            fd: 5,
            size: WindowSize { rows: 43, cols: 132, xpixel: 0, ypixel: 0 }
        }
    );
    assert_eq!(session.size(), (132, 43));
    assert_eq!(session.id(), 77);
    assert_eq!((session.get_reader(), session.get_child_pid()), (pty.master_fd, 4242));
    assert_eq!(session.write(), Request::Write { fd: 5 });
    assert_eq!(session.read(100), Request::Read { fd: 5, max: 100 });
    assert_eq!(session.try_clone_reader(4).request(), Some(Request::Duplicate { fd: 5 }));
    assert_eq!(
        session.kill(),
        vec![Request::Terminate { pid: 4242 }, Request::Close { fd: 5 }]
    );
}

#[test]
fn read_delivers_what_was_read_or_nothing() {
    assert_eq!(PtySession::read_result(ok(12)), 12);
    assert_eq!(PtySession::read_result(ok(0)), 0);
    assert_eq!(PtySession::read_result(fail(5)), 0);
    let session = PtySession::new(1, UnixPty { master_fd: 3, child_pid: 0 }, 1, 1);
    assert_eq!(session.get_child_pid(), 0);
    let session = PtySession::new(1, UnixPty { master_fd: 3, child_pid: -4 }, 1, 1);
    assert_eq!(session.get_child_pid(), 0);
}
