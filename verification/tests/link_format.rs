use hal::serialize_link;
use hal::serialize_links;
use hal::HalLinks;
use hal::Link;

#[test]
fn minimal_link_serializes_href_only() {
    let l = Link::new("/orders/42".to_string());
    assert_eq!(serialize_link(&l), "{\"href\":\"/orders/42\"}");
}

#[test]
fn full_link_includes_every_field_in_order() {
    let l = Link::new("/users/{id}".to_string())
        .templated(true)
        .media_type("application/hal+json".to_string())
        .deprecation("https://example.org/deprecation".to_string())
        .name("alternate".to_string())
        .profile("https://example.org/profile".to_string())
        .title("User".to_string())
        .hreflang("en".to_string());
    assert_eq!(
        serialize_link(&l),
        "{\"href\":\"/users/{id}\",\"templated\":true,\"type\":\"application/hal+json\",\
         \"deprecation\":\"https://example.org/deprecation\",\"name\":\"alternate\",\
         \"profile\":\"https://example.org/profile\",\"title\":\"User\",\"hreflang\":\"en\"}"
    );
}

#[test]
fn templated_false_is_still_present() {
    let l = Link::new("/a".to_string()).templated(false);
    assert_eq!(serialize_link(&l), "{\"href\":\"/a\",\"templated\":false}");
}

#[test]
fn link_escapes_special_characters() {
    let href = "a\"b\\c\nd\u{1}e".to_string();
    let l = Link::new(href);
    assert_eq!(serialize_link(&l), "{\"href\":\"a\\\"b\\\\c\\nd\\u0001e\"}");
}

#[test]
fn link_string_rendering_agrees_with_serde_json() {
    let href = "tab\t cr\r bs\u{8} ff\u{c} quote\" unicode \u{e9}\u{4e16}".to_string();
    let l = Link::new(href.clone());
    let expected = format!("{{\"href\":{}}}", serde_json::to_string(&href).unwrap());
    assert_eq!(serialize_link(&l), expected);
}

#[test]
fn mandatory_relation_serializes_under_literal_self_key() {
    let ls = HalLinks::new(Link::new("/orders".to_string()));
    assert_eq!(serialize_links(&ls), "{\"self\":{\"href\":\"/orders\"}}");
}

#[test]
fn optional_relations_present_if_and_only_if_set() {
    let ls = HalLinks::new(Link::new("/orders?page=2".to_string()))
        .related(Link::new("/customers/7".to_string()))
        .previous(Link::new("/orders?page=1".to_string()));
    assert_eq!(
        serialize_links(&ls),
        "{\"self\":{\"href\":\"/orders?page=2\"},\"related\":{\"href\":\"/customers/7\"},\
         \"previous\":{\"href\":\"/orders?page=1\"}}"
    );
}

#[test]
fn all_relations_serialize_in_declaration_order() {
    let ls = HalLinks::new(Link::new("/s".to_string()))
        .previous(Link::new("/p".to_string()))
        .search(Link::new("/q".to_string()))
        .next(Link::new("/n".to_string()))
        .related(Link::new("/r".to_string()));
    assert_eq!(
        serialize_links(&ls),
        "{\"self\":{\"href\":\"/s\"},\"related\":{\"href\":\"/r\"},\"next\":{\"href\":\"/n\"},\
         \"search\":{\"href\":\"/q\"},\"previous\":{\"href\":\"/p\"}}"
    );
}
