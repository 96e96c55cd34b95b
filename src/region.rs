use vstd::prelude::*;
use core::marker::PhantomData;

verus! {

/// One operating-system action of the teardown of a region, in the order
/// given by `ShmemConf::teardown` or `ShmemBox::teardown`.
///
/// The runtime runs the steps in order against the descriptor it holds. A step
/// that fails leaves the address space or the system in a state this library
/// cannot reason about, so the runtime aborts on it.
#[derive(Clone, Copy, Debug, PartialEq, Eq, Structural)]
pub enum TeardownStep {
    /// Run the destructor of the typed value stored in the region, in place.
    DropValue,
    /// Unmap the region from this process's address space.
    Unmap,
    /// Remove the named object from the system.
    Unlink,
    /// Close this process's handle to the object.
    Close,
}

/// What a region descriptor holds.
pub struct ConfView {
    pub name: Seq<char>,
    pub is_owner: bool,
    pub fd: i32,
    pub addr: usize,
    pub size: i64,
}

/// The same descriptor with its ownership flag set to `owner`.
pub open spec fn with_owner(c: ConfView, owner: bool) -> ConfView {
    ConfView { is_owner: owner, ..c }
}

/// A descriptor that can exist: it was mapped at a non-null address, with a
/// positive length.
pub open spec fn conf_wf(c: ConfView) -> bool {
    c.addr != 0 && c.size > 0
}

/// The steps that release a descriptor: the mapping always goes, the named
/// object only when the descriptor owns it, and the handle last.
pub open spec fn conf_steps(owner: bool) -> Seq<TeardownStep> {
    if owner {
        seq![TeardownStep::Unmap, TeardownStep::Unlink, TeardownStep::Close]
    } else {
        seq![TeardownStep::Unmap, TeardownStep::Close]
    }
}

/// The steps that release a typed handle: the stored value is destructed
/// first, and only by an owner; then the descriptor is released.
pub open spec fn box_steps(owner: bool) -> Seq<TeardownStep> {
    if owner {
        seq![TeardownStep::DropValue].add(conf_steps(true))
    } else {
        conf_steps(false)
    }
}

/// The position of each step in a teardown.
pub open spec fn step_rank(s: TeardownStep) -> int {
    match s {
        TeardownStep::DropValue => 0,
        TeardownStep::Unmap => 1,
        TeardownStep::Unlink => 2,
        TeardownStep::Close => 3,
    }
}

/// Taking ownership is idempotent: a second `own` changes nothing, and `own`
/// on a descriptor that already owns leaves it as it was.
pub proof fn lemma_own_idempotent(c: ConfView)
    ensures
        with_owner(with_owner(c, true), true) == with_owner(c, true),
        c.is_owner ==> with_owner(c, true) == c,
{
}

/// What is left after a leak only unmaps the region and closes the handle:
/// the stored value is not destructed and the named object is not removed.
pub proof fn lemma_leak_keeps_object(c: ConfView)
    ensures
        conf_steps(with_owner(c, false).is_owner) == seq![TeardownStep::Unmap, TeardownStep::Close],
        !conf_steps(with_owner(c, false).is_owner).contains(TeardownStep::Unlink),
        !conf_steps(with_owner(c, false).is_owner).contains(TeardownStep::DropValue),
{
    let s = conf_steps(false);
    assert(s[0] == TeardownStep::Unmap && s[1] == TeardownStep::Close);
}

/// A handle that has taken ownership, whoever created the object, destructs
/// the value, unmaps the region, removes the named object and closes the
/// handle when it is released.
pub proof fn lemma_owner_removes_object(c: ConfView)
    ensures
        box_steps(with_owner(c, true).is_owner) == seq![
            TeardownStep::DropValue,
            TeardownStep::Unmap,
            TeardownStep::Unlink,
            TeardownStep::Close,
        ],
        box_steps(with_owner(c, true).is_owner).contains(TeardownStep::Unlink),
{
    let s = box_steps(true);
    assert(s =~= seq![
        TeardownStep::DropValue,
        TeardownStep::Unmap,
        TeardownStep::Unlink,
        TeardownStep::Close,
    ]);
    assert(s[2] == TeardownStep::Unlink);
}

/// Every teardown runs its steps in the fixed order value, mapping, object,
/// handle, each at most once; the value is destructed and the object removed
/// exactly when the handle owns it, and the mapping and the handle always go.
pub proof fn lemma_teardown_order(owner: bool)
    ensures
        forall|i: int, j: int|
            0 <= i < j < box_steps(owner).len() ==> step_rank(box_steps(owner)[i]) < step_rank(
                box_steps(owner)[j],
            ),
        box_steps(owner).contains(TeardownStep::DropValue) <==> owner,
        box_steps(owner).contains(TeardownStep::Unlink) <==> owner,
        box_steps(owner).contains(TeardownStep::Unmap),
        box_steps(owner).contains(TeardownStep::Close),
{
    let s = box_steps(owner);
    if owner {
        assert(s =~= seq![
            TeardownStep::DropValue,
            TeardownStep::Unmap,
            TeardownStep::Unlink,
            TeardownStep::Close,
        ]);
        assert(s[0] == TeardownStep::DropValue);
        assert(s[1] == TeardownStep::Unmap);
        assert(s[2] == TeardownStep::Unlink);
        assert(s[3] == TeardownStep::Close);
    } else {
        assert(s[0] == TeardownStep::Unmap);
        assert(s[1] == TeardownStep::Close);
        assert forall|k: int| 0 <= k < s.len() implies s[k] != TeardownStep::DropValue
            && s[k] != TeardownStep::Unlink by {}
    }
}

/// A named shared memory object mapped into this process.
#[derive(Debug)]
pub struct ShmemConf {
    id: String,
    is_owner: bool,
    fd: i32,
    addr: usize,
    size: i64,
}

impl View for ShmemConf {
    type V = ConfView;

    closed spec fn view(&self) -> ConfView {
        ConfView {
            name: self.id@,
            is_owner: self.is_owner,
            fd: self.fd,
            addr: self.addr,
            size: self.size,
        }
    }
}

impl ShmemConf {
    /// Every descriptor was mapped at a non-null address, with a positive
    /// length.
    #[verifier::type_invariant]
    spec fn inv(&self) -> bool {
        conf_wf(self@)
    }

    /// A descriptor for a mapping that the open protocol obtained.
    pub(crate) fn mapped(id: String, is_owner: bool, fd: i32, addr: usize, size: i64) -> (r: Self)
        requires
            addr != 0,
            size > 0,
        ensures
            r@ == (ConfView { name: id@, is_owner, fd, addr, size }),
            conf_wf(r@),
    {
        ShmemConf { id, is_owner, fd, addr, size }
    }

    /// Whether dropping this descriptor removes the named object.
    pub fn is_owner(&self) -> (r: bool)
        ensures
            r == self@.is_owner,
    {
        self.is_owner
    }

    /// The region's system-wide name.
    pub fn id(&self) -> (r: &str)
        ensures
            r@ == self@.name,
    {
        self.id.as_str()
    }

    /// This process's handle to the object.
    pub fn fd(&self) -> (r: i32)
        ensures
            r == self@.fd,
    {
        self.fd
    }

    /// The base address of the mapping in this process.
    pub fn addr(&self) -> (r: usize)
        ensures
            r == self@.addr,
            r != 0,
    {
        proof {
            use_type_invariant(self);
        }
        self.addr
    }

    /// The length of the region in bytes.
    pub fn size(&self) -> (r: i64)
        ensures
            r == self@.size,
            r > 0,
    {
        proof {
            use_type_invariant(self);
        }
        self.size
    }

    /// Reinterprets the region as holding a value of type `T`.
    ///
    /// Nothing is read or checked here: before the value is read, the caller
    /// must have written a valid `T` into the region, or know by other means
    /// that one is there.
    pub fn boxed<T>(self) -> (r: ShmemBox<T>)
        ensures
            r@ == self@,
    {
        ShmemBox { conf: self, value: PhantomData }
    }

    /// The steps that release this descriptor, in order.
    pub fn teardown(&self) -> (r: Vec<TeardownStep>)
        ensures
            r@ == conf_steps(self@.is_owner),
    {
        let mut steps: Vec<TeardownStep> = Vec::new();
        steps.push(TeardownStep::Unmap);
        if self.is_owner {
            steps.push(TeardownStep::Unlink);
        }
        steps.push(TeardownStep::Close);
        proof {
            assert(steps@ =~= conf_steps(self@.is_owner));
        }
        steps
    }
}

/// A region whose bytes are read as a value of type `T`.
#[derive(Debug)]
pub struct ShmemBox<T> {
    conf: ShmemConf,
    value: PhantomData<T>,
}

impl<T> View for ShmemBox<T> {
    type V = ConfView;

    closed spec fn view(&self) -> ConfView {
        self.conf@
    }
}

impl<T> ShmemBox<T> {
    /// Makes this handle responsible for destroying the shared object when it
    /// is released. Idempotent.
    pub fn own(shmem_box: Self) -> (r: Self)
        ensures
            r@ == with_owner(shmem_box@, true),
    {
        proof {
            use_type_invariant(&shmem_box.conf);
        }
        let conf = ShmemConf { is_owner: true, ..shmem_box.conf };
        ShmemBox { conf, value: PhantomData }
    }

    /// Gives up responsibility for the shared object and for the stored value,
    /// so that both outlive this handle.
    ///
    /// The handle is consumed. What remains is the bare descriptor, which no
    /// longer owns the object: releasing it only unmaps the region and closes
    /// the handle.
    pub fn leak(shmem_box: Self) -> (r: ShmemConf)
        ensures
            r@ == with_owner(shmem_box@, false),
    {
        proof {
            use_type_invariant(&shmem_box.conf);
        }
        ShmemConf { is_owner: false, ..shmem_box.conf }
    }

    /// The base address of the value in this process.
    pub fn as_ptr(&self) -> (r: usize)
        ensures
            r == self@.addr,
            r != 0,
    {
        self.conf.addr()
    }

    /// The descriptor under this handle.
    pub fn conf(&self) -> (r: &ShmemConf)
        ensures
            r@ == self@,
    {
        &self.conf
    }

    /// Whether releasing this handle destructs the value and removes the
    /// shared object.
    pub fn is_owner(&self) -> (r: bool)
        ensures
            r == self@.is_owner,
    {
        self.conf.is_owner
    }

    /// The steps that release this handle, in order.
    pub fn teardown(&self) -> (r: Vec<TeardownStep>)
        ensures
            r@ == box_steps(self@.is_owner),
    {
        let mut steps: Vec<TeardownStep> = Vec::new();
        if self.conf.is_owner {
            steps.push(TeardownStep::DropValue);
        }
        let mut rest = self.conf.teardown();
        steps.append(&mut rest);
        proof {
            assert(steps@ =~= box_steps(self@.is_owner));
        }
        steps
    }
}

} // verus!
