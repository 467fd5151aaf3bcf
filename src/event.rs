use vstd::prelude::*;
use crate::addr::{Addr, Proto};

verus! {

/// Process id as recorded by the kernel.
#[derive(Debug, Clone, Copy, PartialEq, Eq, Structural)]
pub struct Pid(pub i32);

/// Reference to a run of bytes in the auxiliary data buffer that comes with
/// an event record: `len` bytes from offset `start`.
#[derive(Debug, Clone, Copy, PartialEq, Eq, Structural)]
pub struct BufferIndex {
    pub start: u16,
    pub len: u16,
}

/// A buffer reference that does not lie within the buffer it was resolved
/// against.
#[derive(Debug, Clone, Copy, PartialEq, Eq, Structural)]
pub struct IndexError {
    pub start: u16,
    pub len: u16,
    pub buffer_len: usize,
}

impl BufferIndex {
    /// Whether the referenced bytes lie within a buffer of `buffer_len` bytes.
    pub open spec fn fits(self, buffer_len: nat) -> bool {
        self.start as nat + self.len as nat <= buffer_len
    }

    /// Looks up the referenced bytes in `buffer`; fails when they run past
    /// its end.
    pub fn resolve<'a>(&self, buffer: &'a [u8]) -> (r: Result<&'a [u8], IndexError>)
        ensures
            self.fits(buffer@.len()) <==> r is Ok,
            r matches Ok(bytes) ==> bytes@ == buffer@.subrange(
                self.start as int,
                self.start as int + self.len as int,
            ),
            r matches Err(e) ==> e == (IndexError {
                start: self.start,
                len: self.len,
                buffer_len: buffer@.len() as usize,
            }),
    {
        let start = self.start as usize;
        if self.len as usize <= buffer.len() && start <= buffer.len() - self.len as usize {
            Ok(vstd::slice::slice_subrange(buffer, start, start + self.len as usize))
        } else {
            Err(IndexError { start: self.start, len: self.len, buffer_len: buffer.len() })
        }
    }
}

/// One socket operation captured in the kernel. `src` and `dst` name the
/// side that initiates and the side that receives the logical flow, not the
/// addresses of a single packet.
#[derive(Debug, Clone, Copy, PartialEq, Eq, Structural)]
pub enum NetworkEvent {
    Bind { addr: Addr, proto: Proto },
    /// TCP only.
    Listen { addr: Addr },
    Connect { dst: Addr, proto: Proto },
    /// TCP only.
    Accept { src: Addr, dst: Addr },
    Send { src: Addr, dst: Addr, data: BufferIndex, data_len: u32, proto: Proto },
    Receive { src: Addr, dst: Addr, data: BufferIndex, data_len: u32, proto: Proto },
    /// TCP only.
    Close { original_pid: Pid, src: Addr, dst: Addr },
}

} // verus!
