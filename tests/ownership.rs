use shmem_bind::{Builder, OpenAction, OpenEvent, OpenStep, ShmemBox, ShmemConf, TeardownStep};

fn open_with(name: &str, size: i64, first: OpenEvent, second: OpenEvent, addr: usize) -> ShmemConf {
    let mut step = Builder::new(name).with_size(size).open();
    let mut events = vec![first, second, OpenEvent::Mapped { addr }].into_iter();
    loop {
        match step {
            OpenStep::Run(o, _) => step = o.resume(events.next().expect("an event")),
            OpenStep::Ready(c) => return c,
            OpenStep::Failed(e) => panic!("open failed: {:?}", e),
        }
    }
}

fn created(name: &str, size: i64) -> ShmemConf {
    open_with(name, size, OpenEvent::Created { fd: 3 }, OpenEvent::Resized, 0x1000)
}

fn attached(name: &str, size: i64) -> ShmemConf {
    open_with(name, size, OpenEvent::AlreadyExists, OpenEvent::Attached { fd: 4 }, 0x2000)
}

#[test]
fn owner_teardown_order() {
    let b = created("order", 4).boxed::<i32>();
    assert_eq!(
        b.teardown(),
        vec![
            TeardownStep::DropValue,
            TeardownStep::Unmap,
            TeardownStep::Unlink,
            TeardownStep::Close
        ]
    );
    assert_eq!(
        b.conf().teardown(),
        vec![TeardownStep::Unmap, TeardownStep::Unlink, TeardownStep::Close]
    );
}

#[test]
fn non_owner_teardown_keeps_object() {
    let b = attached("order", 4).boxed::<i32>();
    assert!(!b.is_owner());
    assert_eq!(b.teardown(), vec![TeardownStep::Unmap, TeardownStep::Close]);
}

#[test]
fn own_is_idempotent() {
    let b = created("own", 4).boxed::<i32>();
    assert!(b.is_owner());
    let b = ShmemBox::own(b);
    assert!(b.is_owner());
    assert_eq!(b.as_ptr(), 0x1000);
    assert_eq!(b.conf().fd(), 3);
    assert_eq!(b.conf().size(), 4);
    assert_eq!(b.conf().id(), "own");
    let b = ShmemBox::own(b);
    assert!(b.is_owner());
    assert_eq!(b.teardown().len(), 4);
}

#[test]
fn leak_keeps_object() {
    let b = created("leak", 4).boxed::<i32>();
    let c = ShmemBox::leak(b);
    assert!(!c.is_owner());
    assert_eq!(c.addr(), 0x1000);
    assert_eq!(c.teardown(), vec![TeardownStep::Unmap, TeardownStep::Close]);
}

#[test]
fn own_transfers_removal() {
    let b = attached("transfer", 4).boxed::<i32>();
    assert!(!b.is_owner());
    let b = ShmemBox::own(b);
    assert!(b.is_owner());
    assert!(b.teardown().contains(&TeardownStep::Unlink));
}

#[test]
fn alpha_scenario() {
    // first process creates, then leaks
    let c1 = created("alpha", 4);
    assert!(c1.is_owner());
    let left = ShmemBox::leak(c1.boxed::<i32>());
    assert!(!left.teardown().contains(&TeardownStep::Unlink));

    // second process attaches, takes ownership, and is released
    let c2 = attached("alpha", 4);
    assert!(!c2.is_owner());
    let b2 = ShmemBox::own(c2.boxed::<i32>());
    assert_eq!(
        b2.teardown(),
        vec![
            TeardownStep::DropValue,
            TeardownStep::Unmap,
            TeardownStep::Unlink,
            TeardownStep::Close
        ]
    );

    // the object is gone, so a third process creates it afresh
    let (o, a) = match Builder::new("alpha").with_size(4).open() {
        OpenStep::Run(o, a) => (o, a),
        other => panic!("{:?}", other),
    };
    assert_eq!(a, OpenAction::CreateExclusive);
    match o.resume(OpenEvent::Created { fd: 6 }) {
        OpenStep::Run(_, a) => assert_eq!(a, OpenAction::Resize { fd: 6, len: 4 }),
        other => panic!("{:?}", other),
    }
    let c3 = created("alpha", 4);
    assert!(c3.is_owner());
}

#[test]
fn ownership() {
    let conf = created("test-shmem-box-ownership", 4);
    assert!(conf.is_owner());
    let data = conf.boxed::<i32>();
    let left = ShmemBox::leak(data);
    assert!(!left.is_owner());
    assert_eq!(left.teardown(), vec![TeardownStep::Unmap, TeardownStep::Close]);

    let conf = attached("test-shmem-box-ownership", 4);
    assert!(!conf.is_owner());
    let data = conf.boxed::<i32>();
    let owned_data = ShmemBox::own(data);
    assert!(owned_data.is_owner());
    assert_eq!(
        owned_data.teardown(),
        vec![
            TeardownStep::DropValue,
            TeardownStep::Unmap,
            TeardownStep::Unlink,
            TeardownStep::Close
        ]
    );
}
