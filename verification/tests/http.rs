use test_faker::fakers::http_server::server::{
    parse_method, HttpServer, Method, Reply, Route, Selection, ServerError, StoreChange, NOT_FOUND,
};

fn route(path: &str, method: &str, status: u16, body: Option<&str>, result: Option<&str>) -> Route {
    Route {
        path: path.to_string(),
        method: method.to_string(),
        status,
        body: body.map(|b| b.to_string()),
        result: result.map(|r| r.to_string()),
    }
}

fn server() -> HttpServer {
    HttpServer {
        host_addr: "127.0.0.1:3000".to_string(),
        routes: vec![
            route("/prefix1/suffix1", "GET", 200, None, Some("{\n  \"message\": \"hello world1\"\n}\n")),
            route(
                "/prefix1/suffix2",
                "POST",
                200,
                Some("{\n  \"payload\": \"suffix2\"\n}\n"),
                Some("{\"message\": \"hello world2\"}"),
            ),
            route("/prefix1/suffix1", "DELETE", 200, None, None),
            route(
                "/prefix1/suffix2",
                "PUT",
                201,
                Some("{\"payload\": \"put suffix2\"}"),
                Some("{\"message\": \"put suffix2\"}"),
            ),
            route("/prefix1/suffix2", "POST", 202, Some("{\"payload\": 2}"), Some("2")),
            route("/silent", "GET", 200, None, None),
        ],
        output_file: Some("/tmp/httpserver.json".to_string()),
    }
}

#[test]
fn methods_by_name() {
    assert_eq!(parse_method("GET"), Some(Method::Get));
    assert_eq!(parse_method("POST"), Some(Method::Post));
    assert_eq!(parse_method("DELETE"), Some(Method::Delete));
    assert_eq!(parse_method("PUT"), Some(Method::Put));
    assert_eq!(parse_method("get"), None);
    assert_eq!(parse_method("PATCH"), None);
}

#[test]
fn any_parameters_are_valid() {
    assert_eq!(server().validate_params(), Ok(()));
    let empty = HttpServer { host_addr: String::new(), routes: vec![], output_file: None };
    assert_eq!(empty.validate_params(), Ok(()));
}

#[test]
fn the_router_needs_a_known_method_for_every_route() {
    assert_eq!(
        server().route_methods(),
        Ok(vec![Method::Get, Method::Post, Method::Delete, Method::Put, Method::Post, Method::Get])
    );
    let mut s = server();
    s.routes[3].method = "PATCH".to_string();
    s.routes[4].method = "HEAD".to_string();
    assert_eq!(s.route_methods(), Err(ServerError::MethodNotSupported { route: 3 }));
}

#[test]
fn an_empty_output_path_means_none() {
    let mut s = server();
    assert_eq!(s.output_path(), Some("/tmp/httpserver.json"));
    s.output_file = Some(String::new());
    assert_eq!(s.output_path(), None);
    s.output_file = None;
    assert_eq!(s.output_path(), None);
}

#[test]
fn requests_fall_to_the_first_matching_route() {
    let s = server();
    assert_eq!(s.select(Method::Get, "/prefix1/suffix1", ""), Selection::Found(0));
    assert_eq!(s.select(Method::Delete, "/prefix1/suffix1", ""), Selection::Found(2));
    assert_eq!(s.select(Method::Get, "/prefix1/suffix2", ""), Selection::NotFound);
    assert_eq!(s.select(Method::Get, "/prefix1/SUFFIX1", ""), Selection::NotFound);
    // The document decides between two routes for the same path and method,
    // whatever its layout.
    assert_eq!(
        s.select(Method::Post, "/prefix1/suffix2", "{\"payload\":\"suffix2\"}"),
        Selection::Found(1)
    );
    assert_eq!(s.select(Method::Post, "/prefix1/suffix2", "{ \"payload\" : 2 }"), Selection::Found(4));
    assert_eq!(s.select(Method::Post, "/prefix1/suffix2", "{\"payload\": 3}"), Selection::NotFound);
    assert_eq!(
        s.select(Method::Put, "/prefix1/suffix2", "{\"payload\": \"put suffix2\"}"),
        Selection::Found(3)
    );
    assert_eq!(s.select(Method::Put, "/prefix1/suffix2", "not json"), Selection::Unusable(3));
}

#[test]
fn a_route_without_a_usable_body_stops_the_search() {
    let mut s = server();
    s.routes[1].body = None;
    assert_eq!(s.select(Method::Post, "/prefix1/suffix2", "{\"payload\": 2}"), Selection::Unusable(1));
    assert_eq!(s.respond(Method::Post, "/prefix1/suffix2", "{\"payload\": 2}"), Err(1));
    s.routes[1].body = Some("{".to_string());
    assert_eq!(s.select(Method::Post, "/prefix1/suffix2", "{\"payload\": 2}"), Selection::Unusable(1));
}

#[test]
fn replies() {
    let s = server();
    assert_eq!(
        s.respond(Method::Get, "/prefix1/suffix1", ""),
        Ok(Reply {
            status: 200,
            body: Some("{\n  \"message\": \"hello world1\"\n}\n".to_string()),
            store: StoreChange::Insert,
        })
    );
    assert_eq!(
        s.respond(Method::Put, "/prefix1/suffix2", "{\"payload\": \"put suffix2\"}"),
        Ok(Reply {
            status: 201,
            body: Some("{\"message\": \"put suffix2\"}".to_string()),
            store: StoreChange::Insert,
        })
    );
    assert_eq!(
        s.respond(Method::Delete, "/prefix1/suffix1", ""),
        Ok(Reply { status: 200, body: None, store: StoreChange::Remove })
    );
    assert_eq!(NOT_FOUND, 404);
    let not_found = Reply { status: 404, body: None, store: StoreChange::Keep };
    assert_eq!(s.respond(Method::Get, "/nowhere", ""), Ok(Reply { status: 404, body: None, store: StoreChange::Keep }));
    // A route without a result answers like no route at all, unless it deletes.
    assert_eq!(s.respond(Method::Get, "/silent", ""), Ok(not_found));
}
