//! Driver and operation core of a per-core asynchronous I/O runtime: the
//! descriptor ownership handle, the passthrough command operation, and the
//! builder that selects and assembles a driver.

pub mod uring;

pub mod builder;
pub mod cmd_passthrough;
pub mod shared_fd;

pub use builder::{
    Backend, BlockingHandle, BlockingStrategy, Buildable, BuilderModel, Context, DriverKind,
    DriverPlan, FusionDriver, IoUringDriver, LegacyDriver, Runtime, RuntimeBuilder, TimeDriver,
    TimeHandle, TimeWrapable,
};
pub use cmd_passthrough::{Cmd, Op};
pub use shared_fd::SharedFd;
pub use uring::RingOptions;
