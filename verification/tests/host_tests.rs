use guest_bridge::engine::WasmEngine;
use guest_bridge::registry::SharedResourceRegistry;
use guest_bridge::version::Version;
use guest_bridge::wasm_asset::WasmAssetLoader;

#[test]
fn the_engine_reports_its_protocol_version() {
    let v = Version { name_hash: 11, major: 2, minor: 0, patch: 1 };
    let engine = WasmEngine::new(v);
    assert_eq!(engine.protocol_version(), v);
    // The engine handle is cloneable for sharing across loads.
    let _handle = engine.engine();
}

#[test]
fn the_registry_keeps_the_latest_snapshot() {
    let mut registry = SharedResourceRegistry::new();
    assert!(registry.get(&b"score".to_vec()).is_none());
    registry.update(b"score".to_vec(), vec![1]);
    registry.update(b"score".to_vec(), vec![2, 3]);
    assert_eq!(registry.get(&b"score".to_vec()), Some(&vec![2, 3]));
}

#[test]
fn the_asset_loader_keeps_the_bytes() {
    let loader = WasmAssetLoader::default();
    let asset = loader.load(&[0, 97, 115, 109]);
    assert_eq!(asset.bytes, vec![0, 97, 115, 109]);
    assert_eq!(loader.extensions(), vec!["wasm"]);
}
