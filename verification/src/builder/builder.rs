//! Provider interfaces and the start-up protocol of a composed connection.

use crate::builder::context::{ContextMode, ContextState, KindError};
use crate::builder::empty_realisations::EmptyRealisation;
use crate::builder::kind_conn::KindConn;
use std::sync::Arc;
use vstd::prelude::*;

verus! {

/// Why a connection could not be built.
#[derive(Debug, Clone, Copy, PartialEq, Eq, Structural)]
pub enum BuildError {
    /// No transport was given to the builder.
    ConnNotSet,
    /// The encryption stage failed to initialise.
    EncryptionInitFailed,
    /// The stages took all the kinds there are and left none for the caller.
    KindsExhausted,
}

/// The data path of an encryption stage.
///
/// Both directions are functions of the bytes alone. A stage is of use only
/// if decrypting undoes encrypting; see `undoes_encryption`.
pub trait EncryptionProvider {
    /// What `encrypt` turns `frame` into.
    spec fn spec_encrypt(&self, frame: Seq<u8>) -> Seq<u8>;

    /// What `decrypt` turns `frame` into.
    spec fn spec_decrypt(&self, frame: Seq<u8>) -> Seq<u8>;

    fn encrypt(&self, frame: Vec<u8>) -> (out: Vec<u8>)
        ensures
            out@ == self.spec_encrypt(frame@),
    ;

    fn decrypt(&self, frame: Vec<u8>) -> (out: Vec<u8>)
        ensures
            out@ == self.spec_decrypt(frame@),
    ;
}

/// The data path of a compression stage.
///
/// Both directions are functions of the bytes alone. A stage is of use only
/// if decompressing undoes compressing; see `undoes_compression`.
pub trait CompressionProvider {
    /// What `compress` turns `frame` into.
    spec fn spec_compress(&self, frame: Seq<u8>) -> Seq<u8>;

    /// What `decompress` turns `frame` into.
    spec fn spec_decompress(&self, frame: Seq<u8>) -> Seq<u8>;

    fn compress(&self, frame: Vec<u8>) -> (out: Vec<u8>)
        ensures
            out@ == self.spec_compress(frame@),
    ;

    fn decompress(&self, frame: Vec<u8>) -> (out: Vec<u8>)
        ensures
            out@ == self.spec_decompress(frame@),
    ;
}

/// Decrypting gives back whatever was encrypted.
pub open spec fn undoes_encryption<E: EncryptionProvider>(stage: E) -> bool {
    forall|frame: Seq<u8>| #[trigger] stage.spec_decrypt(stage.spec_encrypt(frame)) == frame
}

/// Decompressing gives back whatever was compressed.
pub open spec fn undoes_compression<Z: CompressionProvider>(stage: Z) -> bool {
    forall|frame: Seq<u8>| #[trigger]
        stage.spec_decompress(stage.spec_compress(frame)) == frame
}

/// Stands for the transport of a builder that has been given none.
#[derive(Debug, Clone, Copy, PartialEq, Eq, Structural)]
pub struct NoConn {}

/// How far the start-up of a connection has come.
#[derive(Debug, Clone, Copy, PartialEq, Eq, Structural)]
pub enum BuildStage {
    /// The encryption stage is being set up.
    Encryption,
    /// The keep-alive stage is being set up.
    Ping,
    /// All stages are set up.
    Ready,
    /// The start-up has failed.
    Failed,
}

/// What is to be done next to start a connection up.
#[derive(Debug, Clone, Copy, PartialEq, Eq, Structural)]
pub enum BuildAction {
    /// Set the encryption stage up, with a context of this mode.
    InitEncryption(ContextMode),
    /// Set the keep-alive stage up, with a context of this mode.
    InitPing(ContextMode),
    /// Hand the caller its handle, of this mode.
    Deliver(ContextMode),
    /// Give up with this error.
    Abort(BuildError),
}

/// The order in which the stages of a connection are set up.
///
/// Encryption comes first and is given a context in mode `Raw`, so that its
/// handshake does not pass through itself. Keep-alive comes second, in mode
/// `Handle`, so that its traffic passes the full stack. The caller's handle
/// comes last and is in mode `Handle` too.
#[derive(Debug, Clone, Copy, PartialEq, Eq, Structural)]
pub struct BuildPlan {
    /// The stage that the start-up is at.
    pub stage: BuildStage,
}

impl BuildPlan {
    /// What is to be done at `stage`.
    pub open spec fn due(stage: BuildStage) -> BuildAction {
        match stage {
            BuildStage::Encryption => BuildAction::InitEncryption(ContextMode::Raw),
            BuildStage::Ping => BuildAction::InitPing(ContextMode::Handle),
            BuildStage::Ready => BuildAction::Deliver(ContextMode::Handle),
            BuildStage::Failed => BuildAction::Abort(BuildError::EncryptionInitFailed),
        }
    }

    /// The stage that follows `stage` once the encryption stage has reported
    /// `result`.
    pub open spec fn after_encryption(stage: BuildStage, result: Result<(), BuildError>)
        -> BuildStage {
        match stage {
            BuildStage::Encryption => if result is Ok {
                BuildStage::Ping
            } else {
                BuildStage::Failed
            },
            _ => stage,
        }
    }

    /// The stage that follows `stage` once the keep-alive stage is set up.
    pub open spec fn after_ping(stage: BuildStage) -> BuildStage {
        match stage {
            BuildStage::Ping => BuildStage::Ready,
            _ => stage,
        }
    }

    /// The plan at its start.
    pub fn begin() -> (plan: Self)
        ensures
            plan.stage == BuildStage::Encryption,
    {
        BuildPlan { stage: BuildStage::Encryption }
    }

    /// Returns what is to be done next.
    pub fn action(&self) -> (action: BuildAction)
        ensures
            action == Self::due(self.stage),
    {
        match self.stage {
            BuildStage::Encryption => BuildAction::InitEncryption(ContextMode::Raw),
            BuildStage::Ping => BuildAction::InitPing(ContextMode::Handle),
            BuildStage::Ready => BuildAction::Deliver(ContextMode::Handle),
            BuildStage::Failed => BuildAction::Abort(BuildError::EncryptionInitFailed),
        }
    }

    /// Takes in the result of setting the encryption stage up and says what
    /// to do next. Whatever the stage gave as its error, the start-up fails
    /// with `EncryptionInitFailed`.
    pub fn on_encryption_init(&mut self, result: Result<(), BuildError>) -> (action: BuildAction)
        ensures
            final(self).stage == Self::after_encryption(old(self).stage, result),
            action == Self::due(final(self).stage),
    {
        match self.stage {
            BuildStage::Encryption => {
                match result {
                    Ok(_) => {
                        self.stage = BuildStage::Ping;
                    },
                    Err(_) => {
                        self.stage = BuildStage::Failed;
                    },
                }
            },
            _ => {},
        }
        self.action()
    }

    /// Takes in that the keep-alive stage is set up and says what to do
    /// next.
    pub fn on_ping_init(&mut self) -> (action: BuildAction)
        ensures
            final(self).stage == Self::after_ping(old(self).stage),
            action == Self::due(final(self).stage),
    {
        match self.stage {
            BuildStage::Ping => {
                self.stage = BuildStage::Ready;
            },
            _ => {},
        }
        self.action()
    }

    /// Makes the caller's handle once all stages are set up.
    ///
    /// Fails with `EncryptionInitFailed` after a failed start-up, and with
    /// `KindsExhausted` where the stages have left no kind. Before the
    /// stages are set up there is no handle to be had; the error then is
    /// `EncryptionInitFailed` as well.
    pub fn deliver<E: EncryptionProvider, Z: CompressionProvider>(
        &self,
        state: &mut ContextState<E, Z>,
    ) -> (conn: Result<KindConn, BuildError>)
        ensures
            final(state).encryption() == old(state).encryption(),
            final(state).compression() == old(state).compression(),
            match conn {
                Ok(conn) => {
                    &&& self.stage == BuildStage::Ready
                    &&& old(state).dispensed() < 255
                    &&& final(state).dispensed() == old(state).dispensed() + 1
                    &&& conn.spec_kind() == old(state).dispensed() + 1
                    &&& conn.spec_mode() == ContextMode::Handle
                },
                Err(error) => {
                    &&& final(state).dispensed() == old(state).dispensed()
                    &&& if self.stage == BuildStage::Ready {
                        old(state).dispensed() == 255 && error == BuildError::KindsExhausted
                    } else {
                        error == BuildError::EncryptionInitFailed
                    }
                },
            },
    {
        match self.stage {
            BuildStage::Ready => match state.get_kind_conn(ContextMode::Handle) {
                Ok(conn) => Ok(conn),
                Err(_) => Err(BuildError::KindsExhausted),
            },
            _ => Err(BuildError::EncryptionInitFailed),
        }
    }
}

/// Collects the parts of a connection: the transport, which has to be given,
/// and the three stages, which do nothing unless others are given.
pub struct Builder<C, P, E: EncryptionProvider, Z: CompressionProvider> {
    conn: Option<C>,
    ping: P,
    encryption: E,
    compression: Z,
}

/// What `run` hands over: the parts, the shared state of the connection, and
/// the plan by which the stages are set up.
pub struct Launch<C, P, E: EncryptionProvider, Z: CompressionProvider> {
    pub conn: C,
    pub ping: P,
    pub state: ContextState<E, Z>,
    pub plan: BuildPlan,
}

impl Builder<NoConn, Arc<EmptyRealisation>, Arc<EmptyRealisation>, Arc<EmptyRealisation>> {
    /// A builder without transport, whose stages do nothing.
    pub fn new() -> (builder: Self)
        ensures
            builder.spec_conn() is None,
            *builder.spec_ping() == (EmptyRealisation {}),
            *builder.spec_encryption() == (EmptyRealisation {}),
            *builder.spec_compression() == (EmptyRealisation {}),
    {
        let empty_realisation = EmptyRealisation::new();
        Builder {
            conn: None,
            ping: empty_realisation.clone(),
            encryption: empty_realisation.clone(),
            compression: empty_realisation,
        }
    }
}

impl<C, P, E: EncryptionProvider, Z: CompressionProvider> Builder<C, P, E, Z> {
    /// The transport, if one has been given.
    pub closed spec fn spec_conn(&self) -> Option<C> {
        self.conn
    }

    /// The keep-alive stage.
    pub closed spec fn spec_ping(&self) -> P {
        self.ping
    }

    /// The encryption stage.
    pub closed spec fn spec_encryption(&self) -> E {
        self.encryption
    }

    /// The compression stage.
    pub closed spec fn spec_compression(&self) -> Z {
        self.compression
    }

    /// Starts the connection up.
    ///
    /// Without a transport there is nothing to start, and the error is
    /// `ConnNotSet`. With one, the parts are handed over together with a
    /// shared state that has given out no kind, and a plan at its start.
    pub fn run(self) -> (launch: Result<Launch<C, P, E, Z>, BuildError>)
        ensures
            match launch {
                Ok(launch) => {
                    &&& self.spec_conn() == Some(launch.conn)
                    &&& launch.ping == self.spec_ping()
                    &&& launch.state.encryption() == self.spec_encryption()
                    &&& launch.state.compression() == self.spec_compression()
                    &&& launch.state.dispensed() == 0
                    &&& launch.plan.stage == BuildStage::Encryption
                },
                Err(error) => self.spec_conn() is None && error == BuildError::ConnNotSet,
            },
    {
        match self.conn {
            Some(conn) => Ok(
                Launch {
                    conn,
                    ping: self.ping,
                    state: ContextState::new(self.encryption, self.compression),
                    plan: BuildPlan::begin(),
                },
            ),
            None => Err(BuildError::ConnNotSet),
        }
    }

    /// Gives the builder its transport.
    pub fn set_conn<T>(self, conn: T) -> (builder: Builder<T, P, E, Z>)
        ensures
            builder.spec_conn() == Some(conn),
            builder.spec_ping() == self.spec_ping(),
            builder.spec_encryption() == self.spec_encryption(),
            builder.spec_compression() == self.spec_compression(),
    {
        Builder {
            conn: Some(conn),
            ping: self.ping,
            encryption: self.encryption,
            compression: self.compression,
        }
    }

    /// Gives the builder a keep-alive stage.
    pub fn set_ping<T>(self, ping: T) -> (builder: Builder<C, T, E, Z>)
        ensures
            builder.spec_conn() == self.spec_conn(),
            builder.spec_ping() == ping,
            builder.spec_encryption() == self.spec_encryption(),
            builder.spec_compression() == self.spec_compression(),
    {
        Builder { conn: self.conn, ping, encryption: self.encryption, compression: self.compression }
    }

    /// Gives the builder an encryption stage.
    pub fn set_encryption<T: EncryptionProvider>(self, encryption: T) -> (builder: Builder<
        C,
        P,
        T,
        Z,
    >)
        ensures
            builder.spec_conn() == self.spec_conn(),
            builder.spec_ping() == self.spec_ping(),
            builder.spec_encryption() == encryption,
            builder.spec_compression() == self.spec_compression(),
    {
        Builder { conn: self.conn, ping: self.ping, encryption, compression: self.compression }
    }

    /// Gives the builder a compression stage.
    pub fn set_compression<T: CompressionProvider>(self, compression: T) -> (builder: Builder<
        C,
        P,
        E,
        T,
    >)
        ensures
            builder.spec_conn() == self.spec_conn(),
            builder.spec_ping() == self.spec_ping(),
            builder.spec_encryption() == self.spec_encryption(),
            builder.spec_compression() == compression,
    {
        Builder { conn: self.conn, ping: self.ping, encryption: self.encryption, compression }
    }
}

/// The start-up runs through its stages in order and in one direction. A
/// successful run is encryption, then keep-alive, then the caller's handle;
/// a failed encryption ends it, and nothing that is reported afterwards
/// revives it.
pub proof fn lemma_plan_runs_in_order(stage: BuildStage, result: Result<(), BuildError>)
    ensures
        BuildPlan::due(BuildStage::Encryption) == BuildAction::InitEncryption(ContextMode::Raw),
        BuildPlan::after_encryption(BuildStage::Encryption, Ok(())) == BuildStage::Ping,
        BuildPlan::due(BuildStage::Ping) == BuildAction::InitPing(ContextMode::Handle),
        BuildPlan::after_ping(BuildStage::Ping) == BuildStage::Ready,
        BuildPlan::due(BuildStage::Ready) == BuildAction::Deliver(ContextMode::Handle),
        result is Err ==> BuildPlan::after_encryption(BuildStage::Encryption, result)
            == BuildStage::Failed,
        BuildPlan::after_encryption(BuildStage::Failed, result) == BuildStage::Failed,
        BuildPlan::after_ping(BuildStage::Failed) == BuildStage::Failed,
        BuildPlan::after_encryption(BuildStage::Ready, result) == BuildStage::Ready,
        BuildPlan::after_ping(BuildStage::Ready) == BuildStage::Ready,
{
}

} // verus!
