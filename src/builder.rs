//! Staged runtime configuration and the resolution of a configured builder
//! into the driver to set up and the context it runs with.
use std::marker::PhantomData;
use vstd::math::max;
use vstd::prelude::*;

use crate::uring::{default_ring_options, ring_defaults, RingOptions};

verus! {

/// Smallest ring depth a builder keeps; smaller requests are raised to it.
pub const MIN_ENTRIES: u32 = 256;

/// What a runtime does when blocking work is requested and no thread pool is
/// attached.
#[derive(Clone, Copy, Debug, PartialEq, Eq, Structural)]
pub enum BlockingStrategy {
    /// Fail loudly on any request for blocking work.
    Panic,
    /// Run the blocking work on the current thread, at the cost of latency.
    ExecuteLocal,
}

/// Where blocking work goes: an attached thread pool `P`, or a strategy.
pub enum BlockingHandle<P> {
    Attached(P),
    Empty(BlockingStrategy),
}

/// The kind of driver a builder is for.
#[derive(Clone, Copy, Debug, PartialEq, Eq, Structural)]
pub enum DriverKind {
    /// The readiness-polling backend.
    Legacy,
    /// The completion-ring backend.
    IoUring,
    /// Whichever of the two a probe of the kernel finds available.
    Fusion,
}

/// The backend a built runtime runs on.
#[derive(Clone, Copy, Debug, PartialEq, Eq, Structural)]
pub enum Backend {
    Legacy,
    IoUring,
}

/// Marker for the readiness-polling driver.
pub struct LegacyDriver;

/// Marker for the completion-ring driver.
pub struct IoUringDriver;

/// Marker for a driver chosen when the runtime is built, by probing for the
/// completion ring.
pub struct FusionDriver;

/// Marker for driver `D` with a timer on top.
pub struct TimeDriver<D> {
    _inner: PhantomData<D>,
}

/// A driver marker that a builder can be built for.
pub trait Buildable {
    spec fn spec_kind() -> DriverKind;

    spec fn spec_timed() -> bool;

    /// The kind of driver.
    fn kind() -> (r: DriverKind)
        ensures
            r == Self::spec_kind(),
    ;

    /// Whether the driver carries a timer.
    fn timed() -> (r: bool)
        ensures
            r == Self::spec_timed(),
    ;
}

/// A driver that may be wrapped with a timer.
pub trait TimeWrapable: Buildable {

}

impl Buildable for LegacyDriver {
    open spec fn spec_kind() -> DriverKind {
        DriverKind::Legacy
    }

    open spec fn spec_timed() -> bool {
        false
    }

    fn kind() -> (r: DriverKind) {
        DriverKind::Legacy
    }

    fn timed() -> (r: bool) {
        false
    }
}

impl Buildable for IoUringDriver {
    open spec fn spec_kind() -> DriverKind {
        DriverKind::IoUring
    }

    open spec fn spec_timed() -> bool {
        false
    }

    fn kind() -> (r: DriverKind) {
        DriverKind::IoUring
    }

    fn timed() -> (r: bool) {
        false
    }
}

impl Buildable for FusionDriver {
    open spec fn spec_kind() -> DriverKind {
        DriverKind::Fusion
    }

    open spec fn spec_timed() -> bool {
        false
    }

    fn kind() -> (r: DriverKind) {
        DriverKind::Fusion
    }

    fn timed() -> (r: bool) {
        false
    }
}

impl<D: Buildable> Buildable for TimeDriver<D> {
    open spec fn spec_kind() -> DriverKind {
        D::spec_kind()
    }

    open spec fn spec_timed() -> bool {
        true
    }

    fn kind() -> (r: DriverKind) {
        D::kind()
    }

    fn timed() -> (r: bool) {
        true
    }
}

impl TimeWrapable for LegacyDriver {

}

impl TimeWrapable for IoUringDriver {

}

impl TimeWrapable for FusionDriver {

}

/// What a builder holds, whatever its driver marker.
pub struct BuilderModel<P> {
    pub entries: Option<u32>,
    pub ring: RingOptions,
    pub blocking: BlockingHandle<P>,
}

impl<P> BuilderModel<P> {
    pub open spec fn with_blocking(self, h: BlockingHandle<P>) -> BuilderModel<P> {
        BuilderModel { blocking: h, ..self }
    }
}

/// The ring depth kept for a request of `e`: `e`, raised to the minimum.
pub open spec fn clamp_entries(e: u32) -> u32 {
    if e >= MIN_ENTRIES {
        e
    } else {
        MIN_ENTRIES
    }
}

/// The backend that a driver of `kind` runs on, given whether the completion
/// ring is available.
pub open spec fn resolve_backend(kind: DriverKind, uring_available: bool) -> Backend {
    match kind {
        DriverKind::Legacy => Backend::Legacy,
        DriverKind::IoUring => Backend::IoUring,
        DriverKind::Fusion => if uring_available {
            Backend::IoUring
        } else {
            Backend::Legacy
        },
    }
}

/// Runtime configuration for a driver of marker `D`, with thread pools of
/// type `P`.
pub struct RuntimeBuilder<D, P> {
    entries: Option<u32>,
    ring: RingOptions,
    blocking_handle: BlockingHandle<P>,
    _mark: PhantomData<D>,
}

impl<D, P> View for RuntimeBuilder<D, P> {
    type V = BuilderModel<P>;

    closed spec fn view(&self) -> BuilderModel<P> {
        BuilderModel { entries: self.entries, ring: self.ring, blocking: self.blocking_handle }
    }
}

/// The driver that a built runtime is to set up.
pub struct DriverPlan {
    pub backend: Backend,
    /// Whether the backend was chosen by probing.
    pub fused: bool,
    /// Whether the driver carries a timer.
    pub timed: bool,
    pub entries: Option<u32>,
    pub ring: RingOptions,
}

/// Handle into the timer of a runtime.
#[derive(Clone, Copy, Debug, PartialEq, Eq, Structural)]
pub struct TimeHandle;

/// What the tasks of one runtime share.
pub struct Context<P> {
    /// Identifier of the thread the runtime was built for.
    pub thread_id: usize,
    pub blocking_handle: BlockingHandle<P>,
    pub time_handle: Option<TimeHandle>,
}

/// A driver paired with its context.
pub struct Runtime<P> {
    pub driver: DriverPlan,
    pub context: Context<P>,
}

impl<D, P> RuntimeBuilder<D, P> {
    /// A builder with the default ring options, no depth set, and blocking work
    /// refused.
    pub fn new() -> (r: Self)
        ensures
            r@.entries is None,
            r@.ring == ring_defaults(64, 16),
            r@.blocking == BlockingHandle::<P>::Empty(BlockingStrategy::Panic),
    {
        RuntimeBuilder {
            entries: None,
            ring: default_ring_options(),
            blocking_handle: BlockingHandle::Empty(BlockingStrategy::Panic),
            _mark: PhantomData,
        }
    }

    /// Sets the ring depth, raised to at least `MIN_ENTRIES`.
    pub fn with_entries(self, entries: u32) -> (r: Self)
        ensures
            r@ == (BuilderModel { entries: Some(clamp_entries(entries)), ..self@ }),
    {
        let mut this = self;
        if entries < MIN_ENTRIES {
            this.entries = Some(MIN_ENTRIES);
            return this;
        }
        this.entries = Some(entries);
        this
    }

    /// Replaces the options the ring is set up with.
    pub fn uring_builder(self, urb: RingOptions) -> (r: Self)
        ensures
            r@ == (BuilderModel { ring: urb, ..self@ }),
    {
        let mut this = self;
        this.ring = urb;
        this
    }

    /// Sends blocking work to `tp`, replacing any strategy set before.
    pub fn attach_thread_pool(self, tp: P) -> (r: Self)
        ensures
            r@ == self@.with_blocking(BlockingHandle::Attached(tp)),
    {
        let mut this = self;
        this.blocking_handle = BlockingHandle::Attached(tp);
        this
    }

    /// Handles blocking work by `strategy`, replacing any pool attached before.
    pub fn with_blocking_strategy(self, strategy: BlockingStrategy) -> (r: Self)
        ensures
            r@ == self@.with_blocking(BlockingHandle::Empty(strategy)),
    {
        let mut this = self;
        this.blocking_handle = BlockingHandle::Empty(strategy);
        this
    }
}

impl<D: TimeWrapable, P> RuntimeBuilder<D, P> {
    /// Enables every optional capability; the timer is the only one.
    pub fn enable_all(self) -> (r: RuntimeBuilder<TimeDriver<D>, P>)
        ensures
            r@ == self@,
    {
        self.enable_timer()
    }

    /// The same configuration, for the driver with a timer on top.
    pub fn enable_timer(self) -> (r: RuntimeBuilder<TimeDriver<D>, P>)
        ensures
            r@ == self@,
    {
        let RuntimeBuilder { entries, ring, blocking_handle, .. } = self;
        RuntimeBuilder { entries, ring, blocking_handle, _mark: PhantomData }
    }
}

impl<D: Buildable, P> RuntimeBuilder<D, P> {
    /// Resolves the configuration into the driver to set up and its context,
    /// for the thread `thread_id`. A fused builder takes the completion ring
    /// exactly when `uring_available` says a probe found it; other builders
    /// ignore the probe.
    pub fn build(self, thread_id: usize, uring_available: bool) -> (r: Runtime<P>)
        ensures
            r.driver.backend == resolve_backend(D::spec_kind(), uring_available),
            r.driver.fused == (D::spec_kind() == DriverKind::Fusion),
            r.driver.timed == D::spec_timed(),
            r.driver.entries == self@.entries,
            r.driver.ring == self@.ring,
            r.context.thread_id == thread_id,
            r.context.blocking_handle == self@.blocking,
            r.context.time_handle == (if D::spec_timed() {
                Some(TimeHandle)
            } else {
                None
            }),
    {
        let kind = D::kind();
        let timed = D::timed();
        let backend = match kind {
            DriverKind::Legacy => Backend::Legacy,
            DriverKind::IoUring => Backend::IoUring,
            DriverKind::Fusion => if uring_available {
                Backend::IoUring
            } else {
                Backend::Legacy
            },
        };
        let fused = match kind {
            DriverKind::Fusion => true,
            _ => false,
        };
        let time_handle = if timed {
            Some(TimeHandle)
        } else {
            None
        };
        let RuntimeBuilder { entries, ring, blocking_handle, .. } = self;
        Runtime {
            driver: DriverPlan { backend, fused, timed, entries, ring },
            context: Context { thread_id, blocking_handle, time_handle },
        }
    }
}

impl<D, P> Default for RuntimeBuilder<D, P> {
    fn default() -> (r: Self)
        ensures
            r@.entries is None,
            r@.ring == ring_defaults(64, 16),
            r@.blocking == BlockingHandle::<P>::Empty(BlockingStrategy::Panic),
    {
        Self::new()
    }
}

/// The ring depth kept for any request is the larger of the request and
/// `MIN_ENTRIES`.
pub proof fn lemma_entries_clamped(e: u32)
    ensures
        clamp_entries(e) as int == max(e as int, MIN_ENTRIES as int),
{
}

/// Attaching a thread pool and setting a blocking strategy overwrite each
/// other: in either order the later call decides the blocking handle, and the
/// rest of the configuration is kept.
pub proof fn lemma_blocking_last_write_wins<P>(m: BuilderModel<P>, tp: P, s: BlockingStrategy)
    ensures
        m.with_blocking(BlockingHandle::Attached(tp)).with_blocking(BlockingHandle::Empty(s))
            == m.with_blocking(BlockingHandle::Empty(s)),
        m.with_blocking(BlockingHandle::Empty(s)).with_blocking(BlockingHandle::Attached(tp))
            == m.with_blocking(BlockingHandle::Attached(tp)),
        m.with_blocking(BlockingHandle::Empty(s)).blocking == BlockingHandle::<P>::Empty(s),
        m.with_blocking(BlockingHandle::Attached(tp)).blocking == BlockingHandle::Attached(tp),
        m.with_blocking(BlockingHandle::Empty(s)).entries == m.entries,
        m.with_blocking(BlockingHandle::Empty(s)).ring == m.ring,
{
}

/// A fused builder's backend depends on the probe result alone: builds that
/// saw the same result select the same backend, the completion ring exactly
/// when it was found.
pub proof fn lemma_fusion_deterministic(probe1: bool, probe2: bool)
    requires
        probe1 == probe2,
    ensures
        resolve_backend(DriverKind::Fusion, probe1) == resolve_backend(DriverKind::Fusion, probe2),
        (resolve_backend(DriverKind::Fusion, probe1) == Backend::IoUring) == probe1,
{
}

/// A builder wrapped with a timer resolves to the same backend as the
/// builder it wraps, and carries a timer where the wrapped one did not.
pub proof fn lemma_timer_wrap<D: TimeWrapable>(uring_available: bool)
    ensures
        resolve_backend(TimeDriver::<D>::spec_kind(), uring_available)
            == resolve_backend(D::spec_kind(), uring_available),
        TimeDriver::<D>::spec_timed(),
        !LegacyDriver::spec_timed() && !IoUringDriver::spec_timed() && !FusionDriver::spec_timed(),
{
}

} // verus!
