use twirp_bind::generator::{service_generator, GenerateError};
use twirp_bind::service::{MethodDescriptor, ServiceDescriptor};

fn method(name: &str, proto_name: &str) -> MethodDescriptor {
    MethodDescriptor {
        name: name.to_string(),
        proto_name: proto_name.to_string(),
        input_type: "PingRequest".to_string(),
        output_type: "PingResponse".to_string(),
    }
}

fn test_api() -> ServiceDescriptor {
    ServiceDescriptor {
        name: "TestAPI".to_string(),
        package: "test".to_string(),
        proto_name: "TestAPI".to_string(),
        methods: vec![method("ping", "Ping"), method("boom", "Boom")],
    }
}

const EXPECTED_WITH_SHIM: &str = r#"
pub use twirp;

pub const SERVICE_FQN: &str = "/test.TestAPI";
#[twirp::async_trait::async_trait]
pub trait TestAPI {
    async fn ping(&self, ctx: twirp::Context, req: PingRequest) -> Result<PingResponse, twirp::TwirpErrorResponse>;
    async fn boom(&self, ctx: twirp::Context, req: PingRequest) -> Result<PingResponse, twirp::TwirpErrorResponse>;
}
#[twirp::async_trait::async_trait]
impl<T> TestAPI for std::sync::Arc<T>
where
    T: TestAPI + Sync + Send
{
    async fn ping(&self, ctx: twirp::Context, req: PingRequest) -> Result<PingResponse, twirp::TwirpErrorResponse> {
        (*self).ping(ctx, req).await
    }
    async fn boom(&self, ctx: twirp::Context, req: PingRequest) -> Result<PingResponse, twirp::TwirpErrorResponse> {
        (*self).boom(ctx, req).await
    }
}
pub fn router<T>(api: T) -> twirp::Router
where
    T: TestAPI + Clone + Send + Sync + 'static,
{
    twirp::details::TwirpRouterBuilder::new(api)
        .route("/test.TestAPI/Ping", |api: T, ctx: twirp::Context, req: PingRequest| async move {
            api.ping(ctx, req).await
        })
        .route("/test.TestAPI/Boom", |api: T, ctx: twirp::Context, req: PingRequest| async move {
            api.boom(ctx, req).await
        })

        .build()
}

#[twirp::async_trait::async_trait]
pub trait TestAPIClient: Send + Sync + std::fmt::Debug {
    async fn ping(&self, req: PingRequest) -> Result<PingResponse, twirp::ClientError>;
    async fn boom(&self, req: PingRequest) -> Result<PingResponse, twirp::ClientError>;
}
#[twirp::async_trait::async_trait]
impl TestAPIClient for twirp::client::Client {
    async fn ping(&self, req: PingRequest) -> Result<PingResponse, twirp::ClientError> {
        self.request("/test.TestAPI/Ping", req).await
    }
    async fn boom(&self, req: PingRequest) -> Result<PingResponse, twirp::ClientError> {
        self.request("/test.TestAPI/Boom", req).await
    }
}
"#;

#[test]
fn generates_expected_text_with_shim() {
    let g = service_generator();
    let mut buf = String::new();
    assert_eq!(g.generate(&test_api(), &mut buf), Ok(()));
    assert_eq!(buf, EXPECTED_WITH_SHIM);
}

#[test]
fn generates_without_shim_attribute() {
    let g = service_generator().async_trait_shim(false);
    let mut buf = String::new();
    assert_eq!(g.generate(&test_api(), &mut buf), Ok(()));
    assert!(!buf.contains("async_trait"));
    assert_eq!(buf, EXPECTED_WITH_SHIM.replace("#[twirp::async_trait::async_trait]\n", ""));
}

#[test]
fn generation_is_deterministic() {
    let g = service_generator();
    let mut first = String::new();
    let mut second = String::new();
    assert_eq!(g.generate(&test_api(), &mut first), Ok(()));
    assert_eq!(g.generate(&test_api(), &mut second), Ok(()));
    assert_eq!(first, second);
}

#[test]
fn generation_appends_to_buffer() {
    let g = service_generator();
    let mut buf = String::from("// prelude\n");
    assert_eq!(g.generate(&test_api(), &mut buf), Ok(()));
    assert_eq!(buf, format!("// prelude\n{}", EXPECTED_WITH_SHIM));
}

#[test]
fn duplicate_wire_name_is_refused() {
    let mut service = test_api();
    service.methods.push(method("ping_again", "Ping"));
    let g = service_generator();
    let mut buf = String::from("kept");
    assert_eq!(g.generate(&service, &mut buf), Err(GenerateError::DuplicateWireName));
    assert_eq!(buf, "kept");
}

#[test]
fn service_without_methods() {
    let mut service = test_api();
    service.methods.clear();
    let mut buf = String::new();
    assert_eq!(service_generator().generate(&service, &mut buf), Ok(()));
    assert!(buf.contains("pub trait TestAPI {\n}\n"));
    assert!(buf.contains("twirp::details::TwirpRouterBuilder::new(api)\n\n        .build()\n}\n"));
}

#[test]
fn client_path_of_ping() {
    let service = test_api();
    assert_eq!(service.fqn(), "test.TestAPI");
    assert_eq!(service.method_path(0), "/test.TestAPI/Ping");
    assert_eq!(service.method_path(1), "/test.TestAPI/Boom");
}
