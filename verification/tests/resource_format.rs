use serde::ser::Error;
use serde::ser::SerializeMap;
use serde::Serialize;
use serde::Serializer;

use hal::get_default_response;
use hal::serialize_rendered;
use hal::serialize_resource;
use hal::HalResource;
use hal::SerializeError;

#[derive(Clone, Default)]
struct OrderStatus {
    status: String,
}

impl Serialize for OrderStatus {
    fn serialize<S: Serializer>(&self, s: S) -> Result<S::Ok, S::Error> {
        let mut m = s.serialize_map(Some(1))?;
        m.serialize_entry("status", &self.status)?;
        m.end()
    }
}

#[derive(Clone, Default)]
struct Empty;

impl Serialize for Empty {
    fn serialize<S: Serializer>(&self, s: S) -> Result<S::Ok, S::Error> {
        let m = s.serialize_map(Some(0))?;
        m.end()
    }
}

#[derive(Clone, Default)]
struct Refusing;

impl Serialize for Refusing {
    fn serialize<S: Serializer>(&self, _s: S) -> Result<S::Ok, S::Error> {
        Err(S::Error::custom("refused"))
    }
}

fn ok<T>(r: Result<T, SerializeError>) -> T {
    match r {
        Ok(v) => v,
        Err(_) => panic!("serialization failed"),
    }
}

fn status(s: &str) -> OrderStatus {
    OrderStatus { status: s.to_string() }
}

#[test]
fn factory_example_orders_42_shipped() {
    let r = get_default_response("/orders/42".to_string(), status("shipped"));
    let out = ok(serialize_resource(&r));
    assert_eq!(out, "{\"_links\":{\"self\":{\"href\":\"/orders/42\"}},\"status\":\"shipped\"}");
}

#[test]
fn factory_with_empty_payload_keeps_envelope_only() {
    let r = get_default_response("/orders".to_string(), Empty);
    let out = ok(serialize_resource(&r));
    assert_eq!(out, "{\"_links\":{\"self\":{\"href\":\"/orders\"}}}");
}

#[test]
fn payload_only_resource_matches_payload_serialized_alone() {
    let r = HalResource::new(status("shipped"));
    let ours = ok(serialize_resource(&r));
    let alone = serde_json::to_string(&status("shipped")).unwrap();
    assert_eq!(ours, alone);
}

#[test]
fn payload_only_empty_resource_is_empty_object() {
    let r = HalResource::new(Empty);
    assert_eq!(ok(serialize_resource(&r)), "{}");
}

#[test]
fn embedded_entry_nests_full_inner_serialization() {
    let inner = get_default_response("/orders/42".to_string(), status("shipped"));
    let outer = HalResource::new(status("open")).embed("item".to_string(), inner);
    let out = ok(serialize_resource(&outer));
    assert_eq!(
        out,
        "{\"_embedded\":{\"item\":{\"_links\":{\"self\":{\"href\":\"/orders/42\"}},\
         \"status\":\"shipped\"}},\"status\":\"open\"}"
    );
}

#[test]
fn deeper_nesting_keeps_each_level_complete() {
    let leaf = get_default_response("/orders/42/items/1".to_string(), status("packed"));
    let mid = get_default_response("/orders/42".to_string(), status("shipped"))
        .embed("first".to_string(), leaf);
    let root = HalResource::new(status("open")).embed("item".to_string(), mid);
    let out = ok(serialize_resource(&root));
    assert_eq!(
        out,
        "{\"_embedded\":{\"item\":{\"_links\":{\"self\":{\"href\":\"/orders/42\"}},\
         \"_embedded\":{\"first\":{\"_links\":{\"self\":{\"href\":\"/orders/42/items/1\"}},\
         \"status\":\"packed\"}},\"status\":\"shipped\"}},\"status\":\"open\"}"
    );
}

#[test]
fn embedded_entries_keep_insertion_order() {
    let a = get_default_response("/a".to_string(), Empty);
    let b = get_default_response("/b".to_string(), Empty);
    let r = HalResource::new(Empty)
        .embed("alpha".to_string(), a)
        .embed("beta".to_string(), b);
    let out = ok(serialize_resource(&r));
    assert_eq!(
        out,
        "{\"_embedded\":{\"alpha\":{\"_links\":{\"self\":{\"href\":\"/a\"}}},\
         \"beta\":{\"_links\":{\"self\":{\"href\":\"/b\"}}}}}"
    );
}

#[test]
fn embedding_the_same_relation_replaces_the_entry() {
    let first = get_default_response("/old".to_string(), Empty);
    let second = get_default_response("/new".to_string(), Empty);
    let r = HalResource::new(Empty)
        .embed("item".to_string(), first)
        .embed("item".to_string(), second);
    let out = ok(serialize_resource(&r));
    assert_eq!(out, "{\"_embedded\":{\"item\":{\"_links\":{\"self\":{\"href\":\"/new\"}}}}}");
}

#[test]
fn serializing_twice_yields_identical_bytes() {
    let inner = get_default_response("/orders/42".to_string(), status("shipped"));
    let r = get_default_response("/orders".to_string(), status("open"))
        .embed("item".to_string(), inner);
    let once = ok(serialize_resource(&r));
    let twice = ok(serialize_resource(&r));
    assert_eq!(once, twice);
}

#[test]
fn non_object_payload_is_rejected() {
    let r = HalResource::new(7i32);
    assert!(matches!(serialize_resource(&r), Err(SerializeError::PayloadNotObject)));
}

#[test]
fn payload_serializer_error_is_surfaced() {
    let r = HalResource::new(Refusing);
    assert!(matches!(serialize_resource(&r), Err(SerializeError::Payload(_))));
}

#[test]
fn rendered_resource_wraps_member_text_in_braces() {
    let r: HalResource<String> = HalResource::new("\"a\":1,\"b\":true".to_string());
    assert_eq!(serialize_rendered(&r), "{\"a\":1,\"b\":true}");
}

#[test]
fn relation_names_are_escaped_in_embedded_keys() {
    let inner = get_default_response("/x".to_string(), Empty);
    let r = HalResource::new(Empty).embed("na\"me".to_string(), inner);
    let out = ok(serialize_resource(&r));
    assert_eq!(out, "{\"_embedded\":{\"na\\\"me\":{\"_links\":{\"self\":{\"href\":\"/x\"}}}}}");
}
