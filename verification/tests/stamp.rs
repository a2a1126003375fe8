use http::header::{HeaderMap, HeaderName, HeaderValue};
use say_hi::message::{Request, Response};
use say_hi::stamp::{leaves_room, stamp_after, stamp_before};

fn map_with(names: usize, marker: bool) -> HeaderMap<HeaderValue> {
    let mut map = HeaderMap::new();
    for i in 0..names {
        let name = HeaderName::from_bytes(format!("x-{i}").as_bytes()).unwrap();
        map.insert(name, HeaderValue::from_static("v"));
    }
    if marker {
        map.insert("middleware", HeaderValue::from_static("old"));
    }
    map
}

#[test]
fn stamp_before_writes_before() {
    let mut map = HeaderMap::new();
    stamp_before(&mut map);
    assert_eq!(map.len(), 1);
    assert_eq!(map.get("middleware").unwrap().as_bytes(), b"before");
}

#[test]
fn stamp_after_writes_after() {
    let mut map = HeaderMap::new();
    stamp_after(&mut map);
    assert_eq!(map.len(), 1);
    assert_eq!(map.get("middleware").unwrap().as_bytes(), b"after");
}

#[test]
fn later_stamp_wins() {
    let mut map = map_with(3, false);
    stamp_before(&mut map);
    stamp_after(&mut map);
    assert_eq!(map.get_all("middleware").iter().count(), 1);
    assert_eq!(map.get("middleware").unwrap(), "after");
    stamp_before(&mut map);
    assert_eq!(map.get_all("middleware").iter().count(), 1);
    assert_eq!(map.get("middleware").unwrap(), "before");
    assert_eq!(map.keys_len(), 4);
    assert_eq!(map.get("x-1").unwrap(), "v");
}

#[test]
fn stamp_leaves_other_headers_alone() {
    let mut map = HeaderMap::new();
    map.append("set-cookie", HeaderValue::from_static("a=1"));
    map.append("set-cookie", HeaderValue::from_static("b=2"));
    stamp_after(&mut map);
    let cookies: Vec<&HeaderValue> = map.get_all("set-cookie").iter().collect();
    assert_eq!(cookies, vec!["a=1", "b=2"]);
    assert_eq!(map.len(), 3);
}

#[test]
fn room_ends_one_below_the_limit() {
    assert!(leaves_room(&map_with(0, false)));
    assert!(leaves_room(&map_with(0, true)));
    assert!(leaves_room(&map_with(4094, false)));
    assert!(!leaves_room(&map_with(4095, false)));
    assert!(leaves_room(&map_with(4094, true)));
    assert!(!leaves_room(&map_with(4095, true)));
}

#[test]
fn stamping_a_full_map_keeps_it_in_bounds() {
    let mut map = map_with(4094, false);
    stamp_before(&mut map);
    assert_eq!(map.keys_len(), 4095);
    assert!(leaves_room(&map));
    stamp_after(&mut map);
    assert_eq!(map.keys_len(), 4095);
    assert_eq!(map.get("middleware").unwrap(), "after");
}

#[test]
fn new_messages_have_no_headers() {
    let req = Request::new("/p".to_string(), "b".to_string());
    assert!(req.headers.is_empty());
    assert_eq!(req.path, "/p");
    assert_eq!(req.body, "b");
    assert!(req.is_wf());
    let res = Response::new(204, String::new());
    assert!(res.headers.is_empty());
    assert_eq!(res.status, 204);
    assert!(res.is_wf());
}

#[test]
fn crowded_messages_are_not_well_formed() {
    let mut req = Request::new("/p".to_string(), String::new());
    req.headers = map_with(4095, false);
    assert!(!req.is_wf());
    let mut res = Response::new(200, String::new());
    res.headers = map_with(5000, true);
    assert!(!res.is_wf());
}

#[test]
fn actix_stamp_before_writes_before() {
    let mut map = actix_web::http::header::HeaderMap::new();
    say_hi::stamp::stamp_before_actix(&mut map);
    assert_eq!(map.len(), 1);
    assert_eq!(map.get("middleware").unwrap().as_bytes(), b"before");
}

#[test]
fn actix_stamp_after_replaces_every_earlier_value() {
    let mut map = actix_web::http::header::HeaderMap::new();
    let name = HeaderName::from_static("middleware");
    map.append(name.clone(), HeaderValue::from_static("one"));
    map.append(name, HeaderValue::from_static("before"));
    map.insert(HeaderName::from_static("host"), HeaderValue::from_static("example"));
    say_hi::stamp::stamp_after_actix(&mut map);
    let marks: Vec<&HeaderValue> = map.get_all("middleware").collect();
    assert_eq!(marks, vec!["after"]);
    assert_eq!(map.get("host").unwrap(), "example");
    assert_eq!(map.len(), 2);
}

#[test]
fn actix_later_stamp_wins() {
    let mut map = actix_web::http::header::HeaderMap::new();
    say_hi::stamp::stamp_after_actix(&mut map);
    say_hi::stamp::stamp_before_actix(&mut map);
    let marks: Vec<&HeaderValue> = map.get_all("middleware").collect();
    assert_eq!(marks, vec!["before"]);
}
