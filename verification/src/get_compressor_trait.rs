//! A unified way to ask a component which compressor it uses for
//! decompressing received data.

use vstd::prelude::*;

use crate::compression::Compression;

verus! {

/// Implemented by anything that knows its connection's compression.
pub trait GetCompressor {
    /// The compression in use.
    spec fn spec_compressor(&self) -> Compression;

    /// Returns the actual compressor.
    fn get_compressor(&self) -> (r: Compression)
        ensures
            r == self.spec_compressor(),
    ;
}

} // verus!
