use vstd::prelude::*;
use io_uring::squeue::Entry;

verus! {

/// The readiness an operation waits for when it would block.
#[derive(PartialEq, Eq, Structural, Clone, Copy, Debug)]
pub enum EventType {
    Read,
    Write,
}

#[verifier::external_type_specification]
#[verifier::external_body]
pub struct ExEntry(Entry);

/// The submission entry that asks io_uring to duplicate `len` bytes from
/// pipe `fd_in` into pipe `fd_out`.
pub uninterp spec fn tee_entry(fd_in: i32, fd_out: i32, len: u32) -> Entry;

/// `io_uring::opcode::Tee::new(Fd(fd_in), Fd(fd_out), len).build()`: the
/// entry for a tee between two plain file descriptors, with no flags.
#[verifier::external_body]
fn build_tee_entry(fd_in: i32, fd_out: i32, len: u32) -> (r: Entry)
    ensures
        r == tee_entry(fd_in, fd_out, len),
{
    io_uring::opcode::Tee::new(io_uring::types::Fd(fd_in), io_uring::types::Fd(fd_out), len).build()
}

/// Duplicates up to `size` bytes from one pipe into another, without
/// consuming them.
pub struct Tee {
    fd_in: i32,
    fd_out: i32,
    size: u32,
}

impl Tee {
    /// The pipe read from, the pipe written to, and the byte count.
    pub closed spec fn view(&self) -> (i32, i32, u32) {
        (self.fd_in, self.fd_out, self.size)
    }

    pub fn new(fd_in: i32, fd_out: i32, size: u32) -> (r: Self)
        ensures
            r@ == (fd_in, fd_out, size),
    {
        Tee { fd_in, fd_out, size }
    }

    /// The io_uring submission entry for this tee.
    pub fn create_entry(&self) -> (r: Entry)
        ensures
            r == tee_entry(self@.0, self@.1, self@.2),
    {
        build_tee_entry(self.fd_in, self.fd_out, self.size)
    }

    /// The pipe read from.
    pub fn fd_in(&self) -> (r: i32)
        ensures
            r == self@.0,
    {
        self.fd_in
    }

    /// The pipe written to.
    pub fn fd_out(&self) -> (r: i32)
        ensures
            r == self@.1,
    {
        self.fd_out
    }

    /// The most bytes to duplicate.
    pub fn size(&self) -> (r: u32)
        ensures
            r == self@.2,
    {
        self.size
    }
}

} // verus!
