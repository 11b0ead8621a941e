//! The handle for one kind of one connection.

use crate::builder::builder::{CompressionProvider, EncryptionProvider};
use crate::builder::context::{ContextMode, ContextState};
use crate::mem::frame::{frame_body, frame_wire, Frame, MAX_BODY_LEN};
use crate::sync::pool::WriteError;
use vstd::prelude::*;

verus! {

/// A kind and the mode in which its payloads travel.
#[derive(Debug, Clone, Copy, PartialEq, Eq, Structural)]
pub struct KindConn {
    kind: u8,
    mode: ContextMode,
}

impl KindConn {
    /// The kind that this handle reads and writes.
    pub closed spec fn spec_kind(&self) -> u8 {
        self.kind
    }

    /// The mode in which this handle's payloads travel.
    pub closed spec fn spec_mode(&self) -> ContextMode {
        self.mode
    }

    pub(crate) fn new(kind: u8, mode: ContextMode) -> (conn: Self)
        ensures
            conn.spec_kind() == kind,
            conn.spec_mode() == mode,
    {
        KindConn { kind, mode }
    }

    /// Returns the kind that this handle reads and writes.
    pub fn kind(&self) -> (kind: u8)
        ensures
            kind == self.spec_kind(),
    {
        self.kind
    }

    /// Returns the mode in which this handle's payloads travel.
    pub fn mode(&self) -> (mode: ContextMode)
        ensures
            mode == self.spec_mode(),
    {
        self.mode
    }

    /// Takes the payload out of a frame that has arrived for this handle.
    pub fn read<E: EncryptionProvider, Z: CompressionProvider>(
        &self,
        state: &ContextState<E, Z>,
        frame: Frame,
    ) -> (package: Vec<u8>)
        ensures
            package@ == state.opened(frame_body(frame@), self.spec_mode()),
    {
        state.read(frame, self.mode)
    }

    /// Makes the frame that carries `package` on this handle's kind. A
    /// payload that no frame can carry is refused and comes back.
    pub fn write<E: EncryptionProvider, Z: CompressionProvider>(
        &self,
        state: &ContextState<E, Z>,
        package: Vec<u8>,
    ) -> (frame: Result<Frame, WriteError<Vec<u8>>>)
        ensures
            match frame {
                Ok(frame) => {
                    &&& state.sealed(package@, self.spec_mode()).len() <= MAX_BODY_LEN
                    &&& frame@ == frame_wire(
                        self.spec_kind(),
                        state.sealed(package@, self.spec_mode()),
                    )
                },
                Err(error) => {
                    &&& state.sealed(package@, self.spec_mode()).len() > MAX_BODY_LEN
                    &&& error matches WriteError::Rejected(returned) && returned@ == package@
                },
            },
    {
        state.write(self.kind, package, self.mode)
    }

    /// Turns the failure to send this handle's frame into the failure to
    /// send its payload.
    pub fn write_failed<E: EncryptionProvider, Z: CompressionProvider>(
        &self,
        state: &ContextState<E, Z>,
        error: WriteError<Frame>,
    ) -> (failure: WriteError<Vec<u8>>)
        ensures
            error is Rejected <==> failure is Rejected,
            error is Closed <==> failure is Closed,
            failure.value()@ == state.opened(frame_body(error.value()@), self.spec_mode()),
    {
        state.write_failed(error, self.mode)
    }
}

} // verus!
