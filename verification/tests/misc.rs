use rspc::alpha_stable::{RequestKind, RequestLayerMarker, StreamLayerMarker};
use rspc::{Config, Context};

#[test]
fn config_export_path() {
    let c = Config::new();
    assert!(c.export_bindings_on_build().is_none());
    let c = c.export_ts_bindings("./bindings.ts".to_string());
    assert_eq!(c.export_bindings_on_build().map(|s| s.as_str()), Some("./bindings.ts"));
    let d: Config = Default::default();
    assert!(d.export_bindings_on_build().is_none());
}

#[test]
fn context_derefs_to_its_value() {
    let c = Context::new(42u32);
    assert_eq!(*c, 42);
    assert_eq!(*c.get(), 42);
}

#[test]
fn request_layer_marker_keeps_its_kind() {
    let m: RequestLayerMarker<()> = RequestLayerMarker::new(RequestKind::Mutation);
    assert_eq!(m.kind(), RequestKind::Mutation);
    let q: RequestLayerMarker<u8> = RequestLayerMarker::new(RequestKind::Query);
    assert_eq!(q.kind(), RequestKind::Query);
    let _s: StreamLayerMarker<()> = StreamLayerMarker::new();
}

#[test]
fn export_config_builder() {
    let c: rspc::ExportConfig<fn(&str) -> bool> = rspc::ExportConfig::new("./b.ts".to_string());
    assert_eq!(c.export_path(), "./b.ts");
    assert_eq!(c.header_str(), "");
    assert!(c.formatter_ref().is_none());
    fn fmt(_: &str) -> bool {
        true
    }
    let c = c.header("// generated".to_string()).formatter(fmt);
    assert_eq!(c.header_str(), "// generated");
    assert_eq!(c.export_path(), "./b.ts");
    assert!(c.formatter_ref().is_some());
}

#[test]
fn responses_are_sent_unless_empty() {
    assert!(!rspc::Response::Empty.is_sent());
    assert!(rspc::Response::Response { id: None, result: rspc::JsonValue::Null }.is_sent());
}
