use std::sync::Arc;

use twirp_bind::client::{read_response, ClientError};
use twirp_bind::error::{internal, ErrorCode, ServerError};
use twirp_bind::fixture::{serve_test_api, test_api_router, PingRequest, PingResponse, TestAPI, TestAPIServer};
use twirp_bind::router::{service_router, DispatchError, RouteError, RouterBuilder};
use twirp_bind::service::{MethodDescriptor, ServiceDescriptor};

fn ping_request(name: &str) -> PingRequest {
    PingRequest { name: name.to_string() }
}

#[test]
fn ping_round_trip() {
    let router = test_api_router();
    let r = serve_test_api(&router, &TestAPIServer, &"/twirp/test.TestAPI/Ping".to_string(), ping_request("alice"));
    let resp = r.unwrap().unwrap();
    assert_eq!(resp.name, "alice");
}

#[test]
fn boom_is_internal_error() {
    let router = test_api_router();
    for name in ["", "alice"] {
        let r = serve_test_api(&router, &TestAPIServer, &"/twirp/test.TestAPI/Boom".to_string(), ping_request(name));
        let err = r.unwrap().unwrap_err();
        assert_eq!(err.code, ErrorCode::Internal);
        assert_eq!(err.msg, "boom!");
        assert!(err.meta.is_empty());
        assert_eq!(err.http_status(), 500);
    }
}

#[test]
fn boom_surfaces_as_bad_status() {
    let err = TestAPIServer.boom(ping_request("alice")).unwrap_err();
    let status = err.http_status();
    let read = read_response::<PingResponse>(status, Err("not a message".to_string()), Ok(err));
    match read {
        Err(ClientError::BadStatus(s, e)) => {
            assert_eq!(s, 500);
            assert_eq!(e.code, ErrorCode::Internal);
            assert_eq!(e.msg, "boom!");
            assert!(e.meta.is_empty());
        }
        other => panic!("unexpected {:?}", other),
    }
}

#[test]
fn unknown_route_is_not_found() {
    let router = test_api_router();
    let r = serve_test_api(&router, &TestAPIServer, &"/twirp/test.TestAPI/DoesNotExist".to_string(), ping_request("alice"));
    assert!(matches!(r, Err(DispatchError::NotFound)));
    assert_eq!(DispatchError::NotFound.http_status(), 404);
}

#[test]
fn arc_wrapper_is_transparent() {
    let shared = Arc::new(TestAPIServer);
    let direct = TestAPIServer.ping(ping_request("bob")).unwrap();
    let wrapped = TestAPI::ping(&shared, ping_request("bob")).unwrap();
    assert_eq!(direct.name, wrapped.name);
    let direct = TestAPIServer.boom(ping_request("bob")).unwrap_err();
    let wrapped = TestAPI::boom(&shared, ping_request("bob")).unwrap_err();
    assert_eq!(direct.code, wrapped.code);
    assert_eq!(direct.msg, wrapped.msg);
    let router = test_api_router();
    let through = serve_test_api(&router, &shared, &"/twirp/test.TestAPI/Ping".to_string(), ping_request("bob"));
    assert_eq!(through.unwrap().unwrap().name, "bob");
}

#[test]
fn duplicate_path_is_refused() {
    let mut b: RouterBuilder<u8> = RouterBuilder::new();
    assert_eq!(b.register("/test.TestAPI/Ping".to_string(), 1), Ok(()));
    assert_eq!(b.register("/test.TestAPI/Ping".to_string(), 2), Err(RouteError::DuplicatePath));
    let r = b.freeze();
    assert_eq!(r.dispatch(&"/test.TestAPI/Ping".to_string()), Ok(&1));
}

#[test]
fn distinct_paths_both_dispatch() {
    let mut b: RouterBuilder<u8> = RouterBuilder::new();
    assert_eq!(b.register("/test.TestAPI/Ping".to_string(), 1), Ok(()));
    assert_eq!(b.register("/test.TestAPI/Boom".to_string(), 2), Ok(()));
    let r = b.freeze();
    assert_eq!(r.dispatch(&"/test.TestAPI/Ping".to_string()), Ok(&1));
    assert_eq!(r.dispatch(&"/test.TestAPI/Boom".to_string()), Ok(&2));
    assert_eq!(r.dispatch(&"/test.TestAPI/ping".to_string()), Err(DispatchError::NotFound));
    assert_eq!(r.dispatch(&"".to_string()), Err(DispatchError::NotFound));
}

#[test]
fn success_response_is_read_as_message() {
    let r = read_response::<u32>(200, Ok(7), Err("unused".to_string()));
    assert!(matches!(r, Ok(7)));
    let r = read_response::<u32>(204, Err("truncated".to_string()), Ok(internal("unused")));
    assert!(matches!(r, Err(ClientError::Decode(c)) if c == "truncated"));
}

#[test]
fn error_response_without_envelope_is_decode_error() {
    let r = read_response::<u32>(502, Ok(7), Err("html page".to_string()));
    assert!(matches!(r, Err(ClientError::Decode(c)) if c == "html page"));
    let r = read_response::<u32>(300, Ok(7), Ok(ServerError::new(ErrorCode::NotFound, "gone".to_string())));
    assert!(matches!(r, Err(ClientError::BadStatus(300, e)) if e.msg == "gone"));
}

fn service(wire_names: &[&str]) -> ServiceDescriptor {
    ServiceDescriptor {
        name: "TestAPI".to_string(),
        package: "test".to_string(),
        proto_name: "TestAPI".to_string(),
        methods: wire_names
            .iter()
            .map(|w| MethodDescriptor {
                name: w.to_lowercase(),
                proto_name: w.to_string(),
                input_type: "PingRequest".to_string(),
                output_type: "PingResponse".to_string(),
            })
            .collect(),
    }
}

#[test]
fn service_router_routes_each_method() {
    let s = service(&["Ping", "Boom"]);
    let r = service_router(&s, vec![10u8, 20]).unwrap();
    assert_eq!(r.dispatch(&"/test.TestAPI/Ping".to_string()), Ok(&10));
    assert_eq!(r.dispatch(&"/test.TestAPI/Boom".to_string()), Ok(&20));
    assert_eq!(r.dispatch(&s.method_path(1)), Ok(&20));
    assert_eq!(r.dispatch(&"/test.TestAPI/DoesNotExist".to_string()), Err(DispatchError::NotFound));
}

#[test]
fn service_router_refuses_shared_wire_name() {
    let s = service(&["Ping", "Boom", "Ping"]);
    assert!(matches!(service_router(&s, vec![1u8, 2, 3]), Err(RouteError::DuplicatePath)));
}

#[test]
fn service_router_of_empty_service() {
    let s = service(&[]);
    let r = service_router::<u8>(&s, vec![]).unwrap();
    assert_eq!(r.dispatch(&"/test.TestAPI/Ping".to_string()), Err(DispatchError::NotFound));
}
