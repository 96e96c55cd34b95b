use vstd::prelude::*;
use crate::builder::SizedView;
use crate::error::ShmemError;
use crate::region::{ConfView, ShmemConf};

verus! {

/// An operating-system action that the open protocol asks the runtime to run.
#[derive(Clone, Copy, Debug, PartialEq, Eq, Structural)]
#[allow(inconsistent_fields)]
pub enum OpenAction {
    /// Create the named object exclusively, read/write for the owning user
    /// only. Answered by `Created`, `AlreadyExists` or `CreateError`.
    CreateExclusive,
    /// Set the length of the freshly created object. Answered by `Resized`
    /// or `ResizeError`.
    Resize { fd: i32, len: i64 },
    /// Open the existing object read/write, without creating it. Answered by
    /// `Attached` or `AttachError`.
    Attach,
    /// Map the first `len` bytes of the object, shared and read/write.
    /// Answered by `Mapped` or `MapError`.
    MapShared { fd: i32, len: usize },
    /// Give up a half-opened object: remove it from the system when `unlink`
    /// holds, then close the handle. Answered by `Released`.
    Release { fd: i32, unlink: bool },
}

/// How the last action went, as the runtime reports it.
#[derive(Clone, Copy, Debug, PartialEq, Eq, Structural)]
pub enum OpenEvent {
    Created { fd: i32 },
    AlreadyExists,
    CreateError,
    Resized,
    ResizeError,
    Attached { fd: i32 },
    AttachError,
    /// The mapping's base address; `0` stands for a null mapping.
    Mapped { addr: usize },
    MapError,
    Released,
}

/// Where an open stands.
#[derive(Clone, Copy, Debug, PartialEq, Eq, Structural)]
pub enum Phase {
    Creating,
    Resizing { fd: i32 },
    Attaching,
    Mapping { fd: i32, is_owner: bool },
    Releasing { fd: i32, unlink: bool, err: ShmemError },
}

/// What an open in progress holds.
pub struct OpeningView {
    pub name: Seq<char>,
    pub size: i64,
    pub phase: Phase,
}

/// The action that each phase waits on.
pub open spec fn action_of(phase: Phase, size: i64) -> OpenAction {
    match phase {
        Phase::Creating => OpenAction::CreateExclusive,
        Phase::Resizing { fd } => OpenAction::Resize { fd, len: size },
        Phase::Attaching => OpenAction::Attach,
        Phase::Mapping { fd, .. } => OpenAction::MapShared { fd, len: size as usize },
        Phase::Releasing { fd, unlink, .. } => OpenAction::Release { fd, unlink },
    }
}

/// The outcome of one step of the protocol.
pub enum StepView {
    Run(OpeningView, OpenAction),
    Ready(ConfView),
    Failed(ShmemError),
}

/// Going on in `phase`, with the action that it waits on.
pub open spec fn go_to(o: OpeningView, phase: Phase) -> StepView {
    StepView::Run(OpeningView { phase, ..o }, action_of(phase, o.size))
}

/// Whether a region of `size` bytes can be opened: its length is positive and
/// addressable on this machine.
pub open spec fn size_ok(size: i64) -> bool {
    0 < size && size <= usize::MAX
}

/// How an open begins. A length that cannot be mapped is refused before any
/// object is created or attached to.
pub open spec fn start(b: SizedView) -> StepView {
    if !size_ok(b.size) {
        StepView::Failed(ShmemError::AllocationFailedErr)
    } else {
        go_to(OpeningView { name: b.name, size: b.size, phase: Phase::Creating }, Phase::Creating)
    }
}

/// One step of the create-or-attach protocol.
///
/// Whoever creates the object owns it; whoever finds it already there
/// attaches without owning it. A failure after the object was created or
/// attached releases it before the error is reported. An event that does not
/// answer the pending action leaves the open where it was.
pub open spec fn next(o: OpeningView, ev: OpenEvent) -> StepView {
    match (o.phase, ev) {
        (Phase::Creating, OpenEvent::Created { fd }) => go_to(o, Phase::Resizing { fd }),
        (Phase::Creating, OpenEvent::AlreadyExists) => go_to(o, Phase::Attaching),
        (Phase::Creating, OpenEvent::CreateError) => StepView::Failed(ShmemError::CreateFailedErr),
        (Phase::Resizing { fd }, OpenEvent::Resized) => go_to(
            o,
            Phase::Mapping { fd, is_owner: true },
        ),
        (Phase::Resizing { fd }, OpenEvent::ResizeError) => go_to(
            o,
            Phase::Releasing { fd, unlink: true, err: ShmemError::AllocationFailedErr },
        ),
        (Phase::Attaching, OpenEvent::Attached { fd }) => go_to(
            o,
            Phase::Mapping { fd, is_owner: false },
        ),
        (Phase::Attaching, OpenEvent::AttachError) => StepView::Failed(ShmemError::CreateFailedErr),
        (Phase::Mapping { fd, is_owner }, OpenEvent::Mapped { addr }) => if addr != 0 {
            StepView::Ready(ConfView { name: o.name, is_owner, fd, addr, size: o.size })
        } else {
            go_to(o, Phase::Releasing { fd, unlink: is_owner, err: ShmemError::NullPointerErr })
        },
        (Phase::Mapping { fd, is_owner }, OpenEvent::MapError) => go_to(
            o,
            Phase::Releasing { fd, unlink: is_owner, err: ShmemError::NullPointerErr },
        ),
        (Phase::Releasing { err, .. }, OpenEvent::Released) => StepView::Failed(err),
        _ => go_to(o, o.phase),
    }
}

/// Where an open stands after the runtime has reported `evs`, one by one,
/// starting from `s`.
pub open spec fn run_events(s: StepView, evs: Seq<OpenEvent>) -> StepView
    decreases evs.len(),
{
    if evs.len() == 0 {
        s
    } else {
        match s {
            StepView::Run(o, _) => run_events(next(o, evs[0]), evs.drop_first()),
            _ => s,
        }
    }
}

/// An open that creates the object, sizes it and maps it yields a descriptor
/// that owns the object.
pub proof fn lemma_creator_owns(b: SizedView, fd: i32, addr: usize)
    requires
        size_ok(b.size),
        addr != 0,
    ensures
        run_events(
            start(b),
            seq![OpenEvent::Created { fd }, OpenEvent::Resized, OpenEvent::Mapped { addr }],
        ) == StepView::Ready(ConfView { name: b.name, is_owner: true, fd, addr, size: b.size }),
{
    reveal_with_fuel(run_events, 4);
    let evs = seq![OpenEvent::Created { fd }, OpenEvent::Resized, OpenEvent::Mapped { addr }];
    assert(evs.drop_first() =~= seq![OpenEvent::Resized, OpenEvent::Mapped { addr }]);
    assert(evs.drop_first().drop_first() =~= seq![OpenEvent::Mapped { addr }]);
    assert(evs.drop_first().drop_first().drop_first() =~= Seq::<OpenEvent>::empty());
}

/// An open that finds the object already there, attaches to it and maps it
/// yields a descriptor that does not own the object.
pub proof fn lemma_attacher_does_not_own(b: SizedView, fd: i32, addr: usize)
    requires
        size_ok(b.size),
        addr != 0,
    ensures
        run_events(
            start(b),
            seq![OpenEvent::AlreadyExists, OpenEvent::Attached { fd }, OpenEvent::Mapped { addr }],
        ) == StepView::Ready(ConfView { name: b.name, is_owner: false, fd, addr, size: b.size }),
{
    reveal_with_fuel(run_events, 4);
    let evs = seq![OpenEvent::AlreadyExists, OpenEvent::Attached { fd }, OpenEvent::Mapped { addr }];
    assert(evs.drop_first() =~= seq![OpenEvent::Attached { fd }, OpenEvent::Mapped { addr }]);
    assert(evs.drop_first().drop_first() =~= seq![OpenEvent::Mapped { addr }]);
    assert(evs.drop_first().drop_first().drop_first() =~= Seq::<OpenEvent>::empty());
}

/// Whether the first answer to the exclusive create in `evs` says that the
/// object was created by this open.
pub open spec fn created_first(evs: Seq<OpenEvent>) -> bool
    decreases evs.len(),
{
    if evs.len() == 0 {
        false
    } else {
        match evs[0] {
            OpenEvent::Created { .. } => true,
            OpenEvent::AlreadyExists => false,
            OpenEvent::CreateError => false,
            _ => created_first(evs.drop_first()),
        }
    }
}

/// The ownership that a phase past the create has settled on.
pub open spec fn phase_owner(phase: Phase) -> bool {
    match phase {
        Phase::Resizing { .. } => true,
        Phase::Mapping { is_owner, .. } => is_owner,
        _ => false,
    }
}

proof fn lemma_settled_owner(o: OpeningView, a: OpenAction, evs: Seq<OpenEvent>)
    requires
        o.phase !is Creating,
    ensures
        run_events(StepView::Run(o, a), evs) is Ready ==> o.phase !is Releasing
            && run_events(StepView::Run(o, a), evs)->Ready_0.is_owner == phase_owner(o.phase),
    decreases evs.len(),
{
    if evs.len() > 0 {
        let s = next(o, evs[0]);
        assert(run_events(StepView::Run(o, a), evs) == run_events(s, evs.drop_first()));
        match s {
            StepView::Run(o2, a2) => {
                lemma_settled_owner(o2, a2, evs.drop_first());
            },
            _ => {
                assert(run_events(s, evs.drop_first()) == s);
            },
        }
    }
}

proof fn lemma_creating_owner(o: OpeningView, a: OpenAction, evs: Seq<OpenEvent>)
    requires
        o.phase is Creating,
    ensures
        run_events(StepView::Run(o, a), evs) is Ready ==> run_events(
            StepView::Run(o, a),
            evs,
        )->Ready_0.is_owner == created_first(evs),
    decreases evs.len(),
{
    if evs.len() > 0 {
        let s = next(o, evs[0]);
        assert(run_events(StepView::Run(o, a), evs) == run_events(s, evs.drop_first()));
        match s {
            StepView::Run(o2, a2) => {
                if o2.phase is Creating {
                    lemma_creating_owner(o2, a2, evs.drop_first());
                } else {
                    lemma_settled_owner(o2, a2, evs.drop_first());
                }
            },
            _ => {
                assert(run_events(s, evs.drop_first()) == s);
            },
        }
    }
}

/// Ownership is decided by the create-or-attach race alone: whatever the
/// runtime reports, an open that ends with a mapped region owns the object
/// exactly when its exclusive create succeeded.
pub proof fn lemma_owner_iff_created(b: SizedView, evs: Seq<OpenEvent>)
    ensures
        run_events(start(b), evs) is Ready ==> run_events(start(b), evs)->Ready_0.is_owner
            == created_first(evs),
{
    if size_ok(b.size) {
        match start(b) {
            StepView::Run(o, a) => lemma_creating_owner(o, a, evs),
            _ => {},
        }
    } else {
        if evs.len() > 0 {
            assert(run_events(start(b), evs) == start(b));
        }
    }
}

/// A length of zero or less is refused with `AllocationFailedErr` before any
/// action is asked for.
pub proof fn lemma_degenerate_size_refused(b: SizedView)
    requires
        b.size <= 0,
    ensures
        start(b) == StepView::Failed(ShmemError::AllocationFailedErr),
{
}

/// An open in progress: the region's name and length, and the phase reached.
#[derive(Debug)]
pub struct Opening {
    id: String,
    size: i64,
    phase: Phase,
}

impl View for Opening {
    type V = OpeningView;

    closed spec fn view(&self) -> OpeningView {
        OpeningView { name: self.id@, size: self.size, phase: self.phase }
    }
}

/// The result of starting or advancing an open.
#[derive(Debug)]
pub enum OpenStep {
    /// The open goes on: run the action and report how it went.
    Run(Opening, OpenAction),
    /// The region is mapped.
    Ready(ShmemConf),
    /// The open failed; nothing is left to release.
    Failed(ShmemError),
}

impl View for OpenStep {
    type V = StepView;

    open spec fn view(&self) -> StepView {
        match self {
            OpenStep::Run(o, a) => StepView::Run(o@, *a),
            OpenStep::Ready(c) => StepView::Ready(c@),
            OpenStep::Failed(e) => StepView::Failed(*e),
        }
    }
}

impl Opening {
    /// Every open in progress has a length that can be mapped.
    #[verifier::type_invariant]
    spec fn inv(&self) -> bool {
        size_ok(self.size)
    }

    /// The region's name.
    pub fn id(&self) -> (r: &str)
        ensures
            r@ == self@.name,
    {
        self.id.as_str()
    }

    /// The phase reached.
    pub fn phase(&self) -> (r: Phase)
        ensures
            r == self@.phase,
    {
        self.phase
    }

    /// The action that the open waits on.
    pub fn action(&self) -> (r: OpenAction)
        ensures
            r == action_of(self@.phase, self@.size),
    {
        proof {
            use_type_invariant(self);
        }
        match self.phase {
            Phase::Creating => OpenAction::CreateExclusive,
            Phase::Resizing { fd } => OpenAction::Resize { fd, len: self.size },
            Phase::Attaching => OpenAction::Attach,
            Phase::Mapping { fd, .. } => OpenAction::MapShared { fd, len: self.size as usize },
            Phase::Releasing { fd, unlink, .. } => OpenAction::Release { fd, unlink },
        }
    }

    fn go_to(self, phase: Phase) -> (r: OpenStep)
        ensures
            r@ == go_to(self@, phase),
    {
        proof {
            use_type_invariant(&self);
        }
        let o = Opening { id: self.id, size: self.size, phase };
        let a = o.action();
        OpenStep::Run(o, a)
    }

    /// Advances the open by the outcome of the action it waited on.
    pub fn resume(self, ev: OpenEvent) -> (r: OpenStep)
        ensures
            r@ == next(self@, ev),
    {
        proof {
            use_type_invariant(&self);
        }
        match (self.phase, ev) {
            (Phase::Creating, OpenEvent::Created { fd }) => self.go_to(Phase::Resizing { fd }),
            (Phase::Creating, OpenEvent::AlreadyExists) => self.go_to(Phase::Attaching),
            (Phase::Creating, OpenEvent::CreateError) => OpenStep::Failed(
                ShmemError::CreateFailedErr,
            ),
            (Phase::Resizing { fd }, OpenEvent::Resized) => self.go_to(
                Phase::Mapping { fd, is_owner: true },
            ),
            (Phase::Resizing { fd }, OpenEvent::ResizeError) => self.go_to(
                Phase::Releasing { fd, unlink: true, err: ShmemError::AllocationFailedErr },
            ),
            (Phase::Attaching, OpenEvent::Attached { fd }) => self.go_to(
                Phase::Mapping { fd, is_owner: false },
            ),
            (Phase::Attaching, OpenEvent::AttachError) => OpenStep::Failed(
                ShmemError::CreateFailedErr,
            ),
            (Phase::Mapping { fd, is_owner }, OpenEvent::Mapped { addr }) => {
                if addr != 0 {
                    OpenStep::Ready(ShmemConf::mapped(self.id, is_owner, fd, addr, self.size))
                } else {
                    self.go_to(
                        Phase::Releasing { fd, unlink: is_owner, err: ShmemError::NullPointerErr },
                    )
                }
            },
            (Phase::Mapping { fd, is_owner }, OpenEvent::MapError) => self.go_to(
                Phase::Releasing { fd, unlink: is_owner, err: ShmemError::NullPointerErr },
            ),
            (Phase::Releasing { err, .. }, OpenEvent::Released) => OpenStep::Failed(err),
            _ => {
                let phase = self.phase;
                self.go_to(phase)
            },
        }
    }
}

impl Opening {
    /// Begins opening the region `id` of `size` bytes.
    pub(crate) fn begin(id: String, size: i64) -> (r: OpenStep)
        ensures
            r@ == start(SizedView { name: id@, size }),
    {
        if size <= 0 || size as u64 > usize::MAX as u64 {
            OpenStep::Failed(ShmemError::AllocationFailedErr)
        } else {
            let o = Opening { id, size, phase: Phase::Creating };
            let a = o.action();
            OpenStep::Run(o, a)
        }
    }
}

} // verus!
