//! Stages that do nothing: the defaults of a builder.

use crate::builder::builder::{
    undoes_compression, undoes_encryption, CompressionProvider, EncryptionProvider,
};
use std::sync::Arc;
use vstd::prelude::*;

verus! {

/// One value that stands in for every optional stage.
pub struct EmptyRealisation {}

/// A keep-alive stage that never probes.
pub struct NilPing {}

/// An encryption stage that leaves the bytes as they are.
pub struct NilEncryption {}

/// A compression stage that leaves the bytes as they are.
pub struct NilCompression {}

impl EmptyRealisation {
    pub fn new() -> (stage: Arc<Self>)
        ensures
            *stage == (EmptyRealisation {}),
    {
        Arc::new(EmptyRealisation {  })
    }
}

impl NilPing {
    pub fn new() -> (stage: Arc<Self>)
        ensures
            *stage == (NilPing {}),
    {
        Arc::new(NilPing {  })
    }
}

impl NilEncryption {
    pub fn new() -> (stage: Arc<Self>)
        ensures
            *stage == (NilEncryption {}),
    {
        Arc::new(NilEncryption {  })
    }
}

impl NilCompression {
    pub fn new() -> (stage: Arc<Self>)
        ensures
            *stage == (NilCompression {}),
    {
        Arc::new(NilCompression {  })
    }
}

impl EncryptionProvider for EmptyRealisation {
    open spec fn spec_encrypt(&self, frame: Seq<u8>) -> Seq<u8> {
        frame
    }

    open spec fn spec_decrypt(&self, frame: Seq<u8>) -> Seq<u8> {
        frame
    }

    fn encrypt(&self, frame: Vec<u8>) -> (out: Vec<u8>) {
        frame
    }

    fn decrypt(&self, frame: Vec<u8>) -> (out: Vec<u8>) {
        frame
    }
}

impl CompressionProvider for EmptyRealisation {
    open spec fn spec_compress(&self, frame: Seq<u8>) -> Seq<u8> {
        frame
    }

    open spec fn spec_decompress(&self, frame: Seq<u8>) -> Seq<u8> {
        frame
    }

    fn compress(&self, frame: Vec<u8>) -> (out: Vec<u8>) {
        frame
    }

    fn decompress(&self, frame: Vec<u8>) -> (out: Vec<u8>) {
        frame
    }
}

impl EncryptionProvider for NilEncryption {
    open spec fn spec_encrypt(&self, frame: Seq<u8>) -> Seq<u8> {
        frame
    }

    open spec fn spec_decrypt(&self, frame: Seq<u8>) -> Seq<u8> {
        frame
    }

    fn encrypt(&self, frame: Vec<u8>) -> (out: Vec<u8>) {
        frame
    }

    fn decrypt(&self, frame: Vec<u8>) -> (out: Vec<u8>) {
        frame
    }
}

impl CompressionProvider for NilCompression {
    open spec fn spec_compress(&self, frame: Seq<u8>) -> Seq<u8> {
        frame
    }

    open spec fn spec_decompress(&self, frame: Seq<u8>) -> Seq<u8> {
        frame
    }

    fn compress(&self, frame: Vec<u8>) -> (out: Vec<u8>) {
        frame
    }

    fn decompress(&self, frame: Vec<u8>) -> (out: Vec<u8>) {
        frame
    }
}

/// A stage behind a shared pointer is the stage itself.
impl<E: EncryptionProvider + ?Sized> EncryptionProvider for Arc<E> {
    open spec fn spec_encrypt(&self, frame: Seq<u8>) -> Seq<u8> {
        (**self).spec_encrypt(frame)
    }

    open spec fn spec_decrypt(&self, frame: Seq<u8>) -> Seq<u8> {
        (**self).spec_decrypt(frame)
    }

    fn encrypt(&self, frame: Vec<u8>) -> (out: Vec<u8>) {
        (**self).encrypt(frame)
    }

    fn decrypt(&self, frame: Vec<u8>) -> (out: Vec<u8>) {
        (**self).decrypt(frame)
    }
}

/// A stage behind a shared pointer is the stage itself.
impl<Z: CompressionProvider + ?Sized> CompressionProvider for Arc<Z> {
    open spec fn spec_compress(&self, frame: Seq<u8>) -> Seq<u8> {
        (**self).spec_compress(frame)
    }

    open spec fn spec_decompress(&self, frame: Seq<u8>) -> Seq<u8> {
        (**self).spec_decompress(frame)
    }

    fn compress(&self, frame: Vec<u8>) -> (out: Vec<u8>) {
        (**self).compress(frame)
    }

    fn decompress(&self, frame: Vec<u8>) -> (out: Vec<u8>) {
        (**self).decompress(frame)
    }
}

/// The stages that do nothing undo themselves, behind a shared pointer too.
pub proof fn lemma_nil_stages_undo_themselves(
    empty: EmptyRealisation,
    encryption: NilEncryption,
    compression: NilCompression,
)
    ensures
        undoes_encryption(empty),
        undoes_compression(empty),
        undoes_encryption(encryption),
        undoes_compression(compression),
        undoes_encryption(Arc::new(empty)),
        undoes_compression(Arc::new(empty)),
        undoes_encryption(Arc::new(encryption)),
        undoes_compression(Arc::new(compression)),
{
}

} // verus!
