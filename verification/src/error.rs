use vstd::prelude::*;
use crate::fixedvec::FixedVec;

verus! {

/// `std::io::Error`, carried through the library without looking inside.
#[verifier::external_type_specification]
#[verifier::external_body]
pub struct ExIoError(std::io::Error);

/// The kinds of `std::io::Error` the library makes itself.
#[derive(Copy, Clone)]
pub enum IoErrorKind {
    WriteZero,
    Other,
}

/// Calls `std::io::Error::new` with the `ErrorKind` of the same name as
/// `kind` and the message `msg`; nothing is stated of the error value,
/// which is opaque here.
#[verifier::external_body]
pub(crate) fn new_io_error(kind: IoErrorKind, msg: &str) -> std::io::Error {
    let kind = match kind {
        IoErrorKind::WriteZero => std::io::ErrorKind::WriteZero,
        IoErrorKind::Other => std::io::ErrorKind::Other,
    };
    std::io::Error::new(kind, msg)
}

/// Calls `std::io::Error::from_raw_os_error`; nothing is stated of the error
/// value, which is opaque here.
#[verifier::external_body]
pub(crate) fn os_error(code: i32) -> std::io::Error {
    std::io::Error::from_raw_os_error(code)
}

/// Calls `std::io::Error::last_os_error`, which reads the thread's
/// `errno`; nothing is stated of the result, which depends on the
/// environment.
#[verifier::external_body]
pub(crate) fn last_os_error() -> std::io::Error {
    std::io::Error::last_os_error()
}

/// A failure to hand a buffer to the kernel, together with the buffer so
/// that it is not lost.
pub struct ProvideBuffersError {
    error: std::io::Error,
    buffer: FixedVec<u8>,
}

impl ProvideBuffersError {
    /// The buffer held by this error.
    pub closed spec fn buffer_spec(&self) -> FixedVec<u8> {
        self.buffer
    }

    /// The io error held by this error.
    pub closed spec fn error_spec(&self) -> std::io::Error {
        self.error
    }

    pub fn new(error: std::io::Error, buffer: FixedVec<u8>) -> (e: Self)
        ensures
            e.buffer_spec() == buffer,
            e.error_spec() == error,
    {
        Self { error, buffer }
    }

    /// Takes the buffer out, leaving an empty one of capacity zero in its
    /// place.
    pub fn take_buffer(&mut self) -> (b: FixedVec<u8>)
        ensures
            b == old(self).buffer_spec(),
            final(self).buffer_spec()@ == Seq::<u8>::empty(),
            final(self).buffer_spec().spec_capacity() == 0,
            final(self).buffer_spec().wf(),
            final(self).error_spec() == old(self).error_spec(),
    {
        let mut b = FixedVec::with_capacity(0);
        std::mem::swap(&mut b, &mut self.buffer);
        b
    }

    /// The buffer held by this error.
    pub fn into_buffer(self) -> (b: FixedVec<u8>)
        ensures
            b == self.buffer_spec(),
    {
        self.buffer
    }

    /// The io error held by this error.
    pub fn into_error(self) -> (e: std::io::Error)
        ensures
            e == self.error_spec(),
    {
        self.error
    }
}

impl FixedVec<u8> {
    /// Writes all of `buf` if it fits, and fails with a `WriteZero` error,
    /// having taken as much as fits, if it does not.
    pub fn write_all(&mut self, buf: &[u8]) -> (r: Result<(), std::io::Error>)
        requires
            old(self).wf(),
        ensures
            final(self).wf(),
            final(self).spec_capacity() == old(self).spec_capacity(),
            r is Ok <==> buf@.len() <= old(self).spec_capacity() - old(self)@.len(),
            r is Ok ==> final(self)@ == old(self)@ + buf@,
            r is Err ==> final(self)@ == old(self)@ + buf@.subrange(
                0,
                old(self).spec_capacity() - old(self)@.len(),
            ),
    {
        let n = self.write(buf);
        if n == buf.len() {
            proof {
                assert(buf@.subrange(0, n as int) =~= buf@);
            }
            Ok(())
        } else {
            Err(new_io_error(IoErrorKind::WriteZero, "failed to write whole buffer"))
        }
    }
}

} // verus!
