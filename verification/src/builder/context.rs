//! The shared core of a composed connection: the stages that every payload
//! passes and the counter that gives each handle a kind of its own.

use crate::builder::builder::{
    undoes_compression, undoes_encryption, CompressionProvider, EncryptionProvider,
};
use crate::builder::kind_conn::KindConn;
use crate::mem::buffer::ConcatBuf;
use crate::mem::frame::{
    frame_body, frame_kind, frame_wire, is_frame, lemma_frame_round_trip, Frame, FrameError,
    HEADER_LEN_BYTES, MAX_BODY_LEN,
};
use crate::sync::pool::WriteError;
use vstd::prelude::*;
use vstd::slice::slice_to_vec;

verus! {

/// The greatest kind a handle can have. Kind `0` is kept for the stages' own
/// traffic, so the kinds `1` to `255` are given out.
pub const LAST_KIND: u8 = 255;

/// Whether a payload passes the stages on its way.
#[derive(Debug, Clone, Copy, PartialEq, Eq, Structural)]
pub enum ContextMode {
    /// The payload travels as it is. Used while the stages are being set up.
    Raw,
    /// The payload is encrypted and compressed on the way out, decompressed
    /// and decrypted on the way in.
    Handle,
}

/// Why no further handle could be made.
#[derive(Debug, Clone, Copy, PartialEq, Eq, Structural)]
pub enum KindError {
    /// All kinds have been given out.
    Exhausted,
}

/// What the handles of one connection share.
pub struct ContextState<E: EncryptionProvider, Z: CompressionProvider> {
    kind_counter: u8,
    encryption: E,
    compression: Z,
}

/// What a stage is given when it is set up: the way to more handles, in the
/// mode that the stage is to work in.
#[derive(Debug, Clone, Copy, PartialEq, Eq, Structural)]
pub struct Context {
    mode: ContextMode,
}

impl<E: EncryptionProvider, Z: CompressionProvider> ContextState<E, Z> {
    /// The encryption stage.
    pub closed spec fn encryption(&self) -> E {
        self.encryption
    }

    /// The compression stage.
    pub closed spec fn compression(&self) -> Z {
        self.compression
    }

    /// Number of kinds given out so far. They are the kinds `1` to
    /// `dispensed()`.
    pub closed spec fn dispensed(&self) -> nat {
        self.kind_counter as nat
    }

    /// What a payload looks like as the body of a frame.
    pub open spec fn sealed(&self, package: Seq<u8>, mode: ContextMode) -> Seq<u8> {
        match mode {
            ContextMode::Raw => package,
            ContextMode::Handle => self.compression().spec_compress(
                self.encryption().spec_encrypt(package),
            ),
        }
    }

    /// The payload that the body of a frame stands for.
    pub open spec fn opened(&self, body: Seq<u8>, mode: ContextMode) -> Seq<u8> {
        match mode {
            ContextMode::Raw => body,
            ContextMode::Handle => self.encryption().spec_decrypt(
                self.compression().spec_decompress(body),
            ),
        }
    }

    /// Creates the shared state of a connection that has given out no kind.
    pub fn new(encryption: E, compression: Z) -> (state: Self)
        ensures
            state.encryption() == encryption,
            state.compression() == compression,
            state.dispensed() == 0,
    {
        ContextState { kind_counter: 0, encryption, compression }
    }

    /// Returns the encryption stage.
    pub fn encryption_provider(&self) -> (stage: &E)
        ensures
            *stage == self.encryption(),
    {
        &self.encryption
    }

    /// Returns the compression stage.
    pub fn compression_provider(&self) -> (stage: &Z)
        ensures
            *stage == self.compression(),
    {
        &self.compression
    }

    /// Gives out the next kind as a handle that works in mode `mode`.
    ///
    /// The kinds come in sequence, starting at `1`, so no two handles of one
    /// connection get the same. After kind `255` there is none left.
    pub fn get_kind_conn(&mut self, mode: ContextMode) -> (conn: Result<KindConn, KindError>)
        ensures
            final(self).encryption() == old(self).encryption(),
            final(self).compression() == old(self).compression(),
            match conn {
                Ok(conn) => {
                    &&& old(self).dispensed() < LAST_KIND
                    &&& final(self).dispensed() == old(self).dispensed() + 1
                    &&& conn.spec_kind() == old(self).dispensed() + 1
                    &&& conn.spec_mode() == mode
                },
                Err(error) => {
                    &&& old(self).dispensed() == LAST_KIND
                    &&& final(self).dispensed() == old(self).dispensed()
                    &&& error == KindError::Exhausted
                },
            },
    {
        if self.kind_counter == LAST_KIND {
            Err(KindError::Exhausted)
        } else {
            self.kind_counter = self.kind_counter + 1;
            Ok(KindConn::new(self.kind_counter, mode))
        }
    }

    /// Makes the frame that carries `package` on kind `kind`.
    ///
    /// In mode `Raw` the payload is the body. In mode `Handle` it is
    /// encrypted, then compressed. A payload whose body would be longer
    /// than a frame can carry is refused, and comes back as it was given.
    pub fn write(&self, kind: u8, package: Vec<u8>, mode: ContextMode) -> (frame: Result<
        Frame,
        WriteError<Vec<u8>>,
    >)
        ensures
            match frame {
                Ok(frame) => {
                    &&& self.sealed(package@, mode).len() <= MAX_BODY_LEN
                    &&& frame@ == frame_wire(kind, self.sealed(package@, mode))
                },
                Err(error) => {
                    &&& self.sealed(package@, mode).len() > MAX_BODY_LEN
                    &&& error matches WriteError::Rejected(returned) && returned@ == package@
                },
            },
    {
        match mode {
            ContextMode::Raw => {
                match Frame::create(kind, package.as_slice()) {
                    Ok(frame) => Ok(frame),
                    Err(_) => Err(WriteError::Rejected(package)),
                }
            },
            ContextMode::Handle => {
                let kept = slice_to_vec(package.as_slice());
                let body = self.encryption.encrypt(package);
                let body = self.compression.compress(body);
                match Frame::create(kind, body.as_slice()) {
                    Ok(frame) => Ok(frame),
                    Err(_) => Err(WriteError::Rejected(kept)),
                }
            },
        }
    }

    /// Takes the payload out of a frame that has arrived.
    ///
    /// In mode `Raw` the body is the payload. In mode `Handle` it is
    /// decompressed, then decrypted.
    pub fn read(&self, frame: Frame, mode: ContextMode) -> (package: Vec<u8>)
        ensures
            package@ == self.opened(frame_body(frame@), mode),
    {
        let body = slice_to_vec(frame.body());
        match mode {
            ContextMode::Raw => body,
            ContextMode::Handle => {
                let body = self.compression.decompress(body);
                self.encryption.decrypt(body)
            },
        }
    }

    /// Turns the failure to send a frame into the failure to send its
    /// payload: the reason stays, and the frame is taken apart again.
    pub fn write_failed(&self, error: WriteError<Frame>, mode: ContextMode) -> (failure:
        WriteError<Vec<u8>>)
        ensures
            error is Rejected <==> failure is Rejected,
            error is Closed <==> failure is Closed,
            failure.value()@ == self.opened(frame_body(error.value()@), mode),
    {
        match error {
            WriteError::Rejected(frame) => WriteError::Rejected(self.read(frame, mode)),
            WriteError::Closed(frame) => WriteError::Closed(self.read(frame, mode)),
        }
    }
}

impl Context {
    /// The mode in which handles are given out.
    pub closed spec fn spec_mode(&self) -> ContextMode {
        self.mode
    }

    /// Creates the context of mode `mode`.
    pub fn new(mode: ContextMode) -> (context: Self)
        ensures
            context.spec_mode() == mode,
    {
        Context { mode }
    }

    /// Returns the mode in which handles are given out.
    pub fn mode(&self) -> (mode: ContextMode)
        ensures
            mode == self.spec_mode(),
    {
        self.mode
    }

    /// The same context for another mode.
    pub fn clone(&self, mode: ContextMode) -> (context: Self)
        ensures
            context.spec_mode() == mode,
    {
        Context { mode }
    }

    /// Gives out the next kind of `state` as a handle in this context's
    /// mode.
    pub fn get_kind_conn<E: EncryptionProvider, Z: CompressionProvider>(
        &self,
        state: &mut ContextState<E, Z>,
    ) -> (conn: Result<KindConn, KindError>)
        ensures
            final(state).encryption() == old(state).encryption(),
            final(state).compression() == old(state).compression(),
            match conn {
                Ok(conn) => {
                    &&& old(state).dispensed() < LAST_KIND
                    &&& final(state).dispensed() == old(state).dispensed() + 1
                    &&& conn.spec_kind() == old(state).dispensed() + 1
                    &&& conn.spec_mode() == self.spec_mode()
                },
                Err(error) => {
                    &&& old(state).dispensed() == LAST_KIND
                    &&& final(state).dispensed() == old(state).dispensed()
                    &&& error == KindError::Exhausted
                },
            },
    {
        state.get_kind_conn(self.mode)
    }
}

/// No two handles of one connection have the same kind, and none has kind
/// `0`: the handle made after `earlier` kinds were given out differs in kind
/// from the one made after `later` were, and both kinds lie between `1` and
/// `255`.
pub proof fn lemma_kinds_are_unique(earlier: nat, later: nat)
    requires
        earlier < later < LAST_KIND,
    ensures
        1 <= earlier + 1 < later + 1 <= LAST_KIND,
{
}

/// What is written is what is read. A payload that is made into a frame,
/// sent down a stream in front of whatever follows, cut out of the stream
/// again and opened, is the payload that was written, on the kind it was
/// written to. This holds in mode `Raw` for any stages, and in mode `Handle`
/// for stages that undo themselves.
pub proof fn lemma_round_trip<E: EncryptionProvider, Z: CompressionProvider>(
    state: ContextState<E, Z>,
    kind: u8,
    package: Seq<u8>,
    mode: ContextMode,
    rest: Seq<u8>,
)
    requires
        state.sealed(package, mode).len() <= MAX_BODY_LEN,
        mode == ContextMode::Handle ==> undoes_encryption(state.encryption())
            && undoes_compression(state.compression()),
    ensures
        ({
            let wire = frame_wire(kind, state.sealed(package, mode));
            &&& ConcatBuf::<Frame>::next_chunk(wire + rest) == Some(wire)
            &&& (wire + rest).skip(wire.len() as int) == rest
            &&& is_frame(wire)
            &&& frame_kind(wire) == kind
            &&& state.opened(frame_body(wire), mode) == package
        }),
{
    let body = state.sealed(package, mode);
    let wire = frame_wire(kind, body);
    lemma_frame_round_trip(kind, body);
    crate::mem::buffer::lemma_first_chunk_of_concat(wire, rest, HEADER_LEN_BYTES as nat);
    if mode == ContextMode::Handle {
        let encrypted = state.encryption().spec_encrypt(package);
        assert(state.compression().spec_decompress(state.compression().spec_compress(encrypted))
            == encrypted);
        assert(state.encryption().spec_decrypt(state.encryption().spec_encrypt(package))
            == package);
    }
}

} // verus!
