use monoio::SharedFd;

#[test]
fn clones_share_the_descriptor() {
    let fd = SharedFd::new(42);
    let copies: Vec<SharedFd> = (0..5).map(|_| fd.clone()).collect();
    assert_eq!(fd.owners(), 6);
    for c in &copies {
        assert_eq!(c.raw_fd(), 42);
    }
}

#[test]
fn last_owner_releases_exactly_once() {
    let fd = SharedFd::new(42);
    let mut copies: Vec<SharedFd> = (0..4).map(|_| fd.share()).collect();
    drop(fd);
    let mut released = 0;
    while let Some(c) = copies.pop() {
        assert_eq!(c.raw_fd(), 42);
        match c.try_unwrap() {
            Ok(raw) => {
                assert_eq!(raw, 42);
                released += 1;
            }
            Err(c) => {
                assert!(c.owners() > 1);
                drop(c);
            }
        }
    }
    assert_eq!(released, 1);
}

#[test]
fn dropping_all_but_one_keeps_it_open() {
    let fd = SharedFd::new(3);
    let copies: Vec<SharedFd> = (0..3).map(|_| fd.clone()).collect();
    drop(copies);
    assert_eq!(fd.owners(), 1);
    assert_eq!(fd.raw_fd(), 3);
    assert_eq!(fd.try_unwrap().ok(), Some(3));
}

#[test]
fn unwrap_fails_while_shared() {
    let fd = SharedFd::new(8);
    let other = fd.clone();
    let fd = match fd.try_unwrap() {
        Ok(_) => panic!("released while shared"),
        Err(fd) => fd,
    };
    assert_eq!(fd.raw_fd(), 8);
    drop(other);
    assert_eq!(fd.try_unwrap().ok(), Some(8));
}
