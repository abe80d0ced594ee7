//! Raw guest-module bytecode as an asset the host's loader hands over.
//!
//! Loading the bytes from storage is the embedding host's business; this type
//! only carries them, byte for byte, from the loader to the runtime.

use vstd::prelude::*;
use vstd::slice::slice_to_vec;

verus! {

/// A guest module's raw bytecode.
pub struct WasmAsset {
    /// The module bytes exactly as read from storage.
    pub bytes: Vec<u8>,
}

/// Turns raw file bytes into a [`WasmAsset`].
pub struct WasmAssetLoader;

impl WasmAssetLoader {
    /// Wrap the file's bytes, unchanged.
    pub fn load(&self, bytes: &[u8]) -> (r: WasmAsset)
        ensures
            r.bytes@ == bytes@,
    {
        WasmAsset { bytes: slice_to_vec(bytes) }
    }

    /// The file extensions this loader accepts.
    pub fn extensions(&self) -> (r: Vec<&'static str>)
        ensures
            r@.len() == 1,
            r@[0]@ == "wasm"@,
    {
        let mut exts: Vec<&'static str> = Vec::new();
        exts.push("wasm");
        exts
    }
}

impl Default for WasmAssetLoader {
    /// The loader carries no configuration.
    fn default() -> (r: Self)
        ensures
            r == WasmAssetLoader,
    {
        WasmAssetLoader
    }
}

} // verus!
