use std::rc::Rc;
use vstd::prelude::*;

verus! {

/// Relies on `Rc::strong_count`: the number of owners of the allocation,
/// which counts the pointer it is asked through.
#[verifier::external_body]
fn rc_strong_count(rc: &Rc<i32>) -> (r: usize)
    ensures
        r >= 1,
{
    Rc::strong_count(rc)
}

/// Shared ownership of one raw file descriptor.
///
/// Every clone refers to the same descriptor value, which never changes. The
/// descriptor is handed back for closing by `try_unwrap` only to the last
/// owner, so it cannot be released while an operation still holds a clone.
pub struct SharedFd {
    inner: Rc<i32>,
}

impl View for SharedFd {
    type V = i32;

    closed spec fn view(&self) -> i32 {
        *self.inner
    }
}

impl SharedFd {
    /// Takes ownership of `fd`.
    pub fn new(fd: i32) -> (r: SharedFd)
        ensures
            r@ == fd,
    {
        SharedFd { inner: Rc::new(fd) }
    }

    /// The descriptor value.
    pub fn raw_fd(&self) -> (r: i32)
        ensures
            r == self@,
    {
        *self.inner
    }

    /// One more owner of the same descriptor.
    pub fn share(&self) -> (r: SharedFd)
        ensures
            r@ == self@,
    {
        SharedFd { inner: self.inner.clone() }
    }

    /// How many handles own the descriptor at the moment, this one included.
    pub fn owners(&self) -> (r: usize)
        ensures
            r >= 1,
    {
        rc_strong_count(&self.inner)
    }

    /// Gives the descriptor back when this is its last owner, so that it is
    /// closed exactly once; otherwise hands this handle back unchanged.
    pub fn try_unwrap(self) -> (r: Result<i32, SharedFd>)
        ensures
            match r {
                Ok(fd) => fd == self@,
                Err(s) => s@ == self@,
            },
    {
        match Rc::try_unwrap(self.inner) {
            Ok(fd) => Ok(fd),
            Err(inner) => Err(SharedFd { inner }),
        }
    }
}

impl Clone for SharedFd {
    fn clone(&self) -> (r: SharedFd)
        ensures
            r@ == self@,
    {
        self.share()
    }
}

} // verus!
