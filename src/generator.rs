//! The binding generator: from a service description to Rust source text
//! holding the server trait, its delegation through `Arc`, the router
//! constructor, the client trait and the client's implementation.
use vstd::prelude::*;
use vstd::string::*;
use crate::service::{MethodDescriptor, ServiceDescriptor, path_of};

verus! {

/// Settings of the generator.
pub struct ServiceGenerator {
    /// Whether generated traits and impls carry `#[twirp::async_trait::async_trait]`,
    /// for compilers without async fns in traits. On by default.
    async_trait_shim: bool,
}

/// Why a service description was not turned into source text.
#[derive(Debug, PartialEq, Eq, Structural, Clone, Copy)]
pub enum GenerateError {
    /// Two methods share a wire name, so their routes would collide.
    DuplicateWireName,
}

/// The shim attribute line, or nothing.
pub open spec fn shim_line(acc: Seq<char>, shim: bool) -> Seq<char> {
    if shim {
        acc + "#[twirp::async_trait::async_trait]\n"@
    } else {
        acc
    }
}

/// Appends `f`'s text for each method, in order.
pub open spec fn emit_each(
    acc: Seq<char>,
    ms: Seq<MethodDescriptor>,
    f: spec_fn(Seq<char>, MethodDescriptor) -> Seq<char>,
) -> Seq<char>
    decreases ms.len(),
{
    if ms.len() == 0 {
        acc
    } else {
        f(emit_each(acc, ms.drop_last(), f), ms.last())
    }
}

/// The header: the re-export and the service's path prefix.
pub open spec fn header_text(acc: Seq<char>, fqn: Seq<char>) -> Seq<char> {
    acc + "\npub use twirp;\n\npub const SERVICE_FQN: &str = \"/"@ + fqn + "\";\n"@
}

/// A method of the server trait.
pub open spec fn server_decl_text(acc: Seq<char>, m: MethodDescriptor) -> Seq<char> {
    acc + "    async fn "@ + m.name@ + "(&self, ctx: twirp::Context, req: "@ + m.input_type@
        + ") -> Result<"@ + m.output_type@ + ", twirp::TwirpErrorResponse>;\n"@
}

/// A method of the `Arc` delegation: it forwards the call unchanged.
pub open spec fn delegate_text(acc: Seq<char>, m: MethodDescriptor) -> Seq<char> {
    acc + "    async fn "@ + m.name@ + "(&self, ctx: twirp::Context, req: "@ + m.input_type@
        + ") -> Result<"@ + m.output_type@ + ", twirp::TwirpErrorResponse> {\n        (*self)."@
        + m.name@ + "(ctx, req).await\n    }\n"@
}

/// A route of the router constructor, at the method's wire path.
pub open spec fn route_text(acc: Seq<char>, fqn: Seq<char>, m: MethodDescriptor) -> Seq<char> {
    acc + "        .route(\""@ + path_of(fqn, m.proto_name@)
        + "\", |api: T, ctx: twirp::Context, req: "@ + m.input_type@
        + "| async move {\n            api."@ + m.name@ + "(ctx, req).await\n        })\n"@
}

/// A method of the client trait.
pub open spec fn client_decl_text(acc: Seq<char>, m: MethodDescriptor) -> Seq<char> {
    acc + "    async fn "@ + m.name@ + "(&self, req: "@ + m.input_type@ + ") -> Result<"@
        + m.output_type@ + ", twirp::ClientError>;\n"@
}

/// A method of the client's implementation: a request to the wire path.
pub open spec fn client_call_text(acc: Seq<char>, fqn: Seq<char>, m: MethodDescriptor) -> Seq<char> {
    acc + "    async fn "@ + m.name@ + "(&self, req: "@ + m.input_type@ + ") -> Result<"@
        + m.output_type@ + ", twirp::ClientError> {\n        self.request(\""@
        + path_of(fqn, m.proto_name@) + "\", req).await\n    }\n"@
}

/// The server trait.
pub open spec fn server_trait_text(acc: Seq<char>, shim: bool, s: ServiceDescriptor) -> Seq<char> {
    emit_each(
        shim_line(acc, shim) + "pub trait "@ + s.name@ + " {\n"@,
        s.methods@,
        |a: Seq<char>, m: MethodDescriptor| server_decl_text(a, m),
    ) + "}\n"@
}

/// The impl of the server trait for `Arc<T>`.
pub open spec fn delegation_text(acc: Seq<char>, shim: bool, s: ServiceDescriptor) -> Seq<char> {
    emit_each(
        shim_line(acc, shim) + "impl<T> "@ + s.name@ + " for std::sync::Arc<T>\nwhere\n    T: "@
            + s.name@ + " + Sync + Send\n{\n"@,
        s.methods@,
        |a: Seq<char>, m: MethodDescriptor| delegate_text(a, m),
    ) + "}\n"@
}

/// The router constructor.
pub open spec fn router_text(acc: Seq<char>, s: ServiceDescriptor) -> Seq<char> {
    emit_each(
        acc + "pub fn router<T>(api: T) -> twirp::Router\nwhere\n    T: "@ + s.name@
            + " + Clone + Send + Sync + 'static,\n{\n    twirp::details::TwirpRouterBuilder::new(api)\n"@,
        s.methods@,
        |a: Seq<char>, m: MethodDescriptor| route_text(a, s.spec_fqn(), m),
    ) + "\n        .build()\n}\n"@
}

/// The client trait.
pub open spec fn client_trait_text(acc: Seq<char>, shim: bool, s: ServiceDescriptor) -> Seq<char> {
    emit_each(
        shim_line(acc + "\n"@, shim) + "pub trait "@ + s.name@
            + "Client: Send + Sync + std::fmt::Debug {\n"@,
        s.methods@,
        |a: Seq<char>, m: MethodDescriptor| client_decl_text(a, m),
    ) + "}\n"@
}

/// The client trait's impl for `twirp::client::Client`.
pub open spec fn client_impl_text(acc: Seq<char>, shim: bool, s: ServiceDescriptor) -> Seq<char> {
    emit_each(
        shim_line(acc, shim) + "impl "@ + s.name@ + "Client for twirp::client::Client {\n"@,
        s.methods@,
        |a: Seq<char>, m: MethodDescriptor| client_call_text(a, s.spec_fqn(), m),
    ) + "}\n"@
}

/// All the text generated for a service, appended to `acc`.
pub open spec fn service_text(acc: Seq<char>, shim: bool, s: ServiceDescriptor) -> Seq<char> {
    client_impl_text(
        client_trait_text(
            router_text(
                delegation_text(server_trait_text(header_text(acc, s.spec_fqn()), shim, s), shim, s),
                s,
            ),
            shim,
            s,
        ),
        shim,
        s,
    )
}

fn push_shim(buf: &mut String, shim: bool)
    ensures
        final(buf)@ == shim_line(old(buf)@, shim),
{
    if shim {
        buf.append("#[twirp::async_trait::async_trait]\n");
    }
}

} // verus!

verus! {

fn push_server_decl(buf: &mut String, m: &MethodDescriptor)
    ensures
        final(buf)@ == server_decl_text(old(buf)@, *m),
{
    buf.append("    async fn ");
    buf.append(m.name.as_str());
    buf.append("(&self, ctx: twirp::Context, req: ");
    buf.append(m.input_type.as_str());
    buf.append(") -> Result<");
    buf.append(m.output_type.as_str());
    buf.append(", twirp::TwirpErrorResponse>;\n");
}

fn push_server_trait(buf: &mut String, shim: bool, s: &ServiceDescriptor)
    ensures
        final(buf)@ == server_trait_text(old(buf)@, shim, *s),
{
    push_shim(buf, shim);
    buf.append("pub trait ");
    buf.append(s.name.as_str());
    buf.append(" {\n");
    let ghost start = buf@;
    let ghost f = |a: Seq<char>, m: MethodDescriptor| server_decl_text(a, m);
    let n = s.methods.len();
    let mut i: usize = 0;
    while i < n
        invariant
            n == s.methods@.len(),
            i <= n,
            buf@ == emit_each(start, s.methods@.take(i as int), f),
            f == (|a: Seq<char>, m: MethodDescriptor| server_decl_text(a, m)),
        decreases n - i,
    {
        let ghost before = buf@;
        push_server_decl(buf, &s.methods[i]);
        proof {
            let next = s.methods@.take(i + 1);
            assert(next.drop_last() =~= s.methods@.take(i as int));
            assert(next.last() == s.methods@[i as int]);
            assert(buf@ == f(before, next.last()));
        }
        i += 1;
    }
    assert(s.methods@.take(n as int) =~= s.methods@);
    buf.append("}\n");
}

fn push_delegate(buf: &mut String, m: &MethodDescriptor)
    ensures
        final(buf)@ == delegate_text(old(buf)@, *m),
{
    buf.append("    async fn ");
    buf.append(m.name.as_str());
    buf.append("(&self, ctx: twirp::Context, req: ");
    buf.append(m.input_type.as_str());
    buf.append(") -> Result<");
    buf.append(m.output_type.as_str());
    buf.append(", twirp::TwirpErrorResponse> {\n        (*self).");
    buf.append(m.name.as_str());
    buf.append("(ctx, req).await\n    }\n");
}

fn push_delegation(buf: &mut String, shim: bool, s: &ServiceDescriptor)
    ensures
        final(buf)@ == delegation_text(old(buf)@, shim, *s),
{
    push_shim(buf, shim);
    buf.append("impl<T> ");
    buf.append(s.name.as_str());
    buf.append(" for std::sync::Arc<T>\nwhere\n    T: ");
    buf.append(s.name.as_str());
    buf.append(" + Sync + Send\n{\n");
    let ghost start = buf@;
    let ghost f = |a: Seq<char>, m: MethodDescriptor| delegate_text(a, m);
    let n = s.methods.len();
    let mut i: usize = 0;
    while i < n
        invariant
            n == s.methods@.len(),
            i <= n,
            buf@ == emit_each(start, s.methods@.take(i as int), f),
            f == (|a: Seq<char>, m: MethodDescriptor| delegate_text(a, m)),
        decreases n - i,
    {
        let ghost before = buf@;
        push_delegate(buf, &s.methods[i]);
        proof {
            let next = s.methods@.take(i + 1);
            assert(next.drop_last() =~= s.methods@.take(i as int));
            assert(next.last() == s.methods@[i as int]);
            assert(buf@ == f(before, next.last()));
        }
        i += 1;
    }
    assert(s.methods@.take(n as int) =~= s.methods@);
    buf.append("}\n");
}

fn push_route(buf: &mut String, fqn: &String, m: &MethodDescriptor)
    ensures
        final(buf)@ == route_text(old(buf)@, fqn@, *m),
{
    let ghost start = buf@;
    buf.append("        .route(\"");
    buf.append("/");
    buf.append(fqn.as_str());
    buf.append("/");
    buf.append(m.proto_name.as_str());
    buf.append("\", |api: T, ctx: twirp::Context, req: ");
    buf.append(m.input_type.as_str());
    buf.append("| async move {\n            api.");
    buf.append(m.name.as_str());
    buf.append("(ctx, req).await\n        })\n");
    assert(buf@ =~= route_text(start, fqn@, *m));
}

fn push_router(buf: &mut String, s: &ServiceDescriptor)
    ensures
        final(buf)@ == router_text(old(buf)@, *s),
{
    let fqn = s.fqn();
    buf.append("pub fn router<T>(api: T) -> twirp::Router\nwhere\n    T: ");
    buf.append(s.name.as_str());
    buf.append(" + Clone + Send + Sync + 'static,\n{\n    twirp::details::TwirpRouterBuilder::new(api)\n");
    let ghost start = buf@;
    let ghost f = |a: Seq<char>, m: MethodDescriptor| route_text(a, s.spec_fqn(), m);
    let n = s.methods.len();
    let mut i: usize = 0;
    while i < n
        invariant
            n == s.methods@.len(),
            i <= n,
            fqn@ == s.spec_fqn(),
            buf@ == emit_each(start, s.methods@.take(i as int), f),
            f == (|a: Seq<char>, m: MethodDescriptor| route_text(a, s.spec_fqn(), m)),
        decreases n - i,
    {
        let ghost before = buf@;
        push_route(buf, &fqn, &s.methods[i]);
        proof {
            let next = s.methods@.take(i + 1);
            assert(next.drop_last() =~= s.methods@.take(i as int));
            assert(next.last() == s.methods@[i as int]);
            assert(buf@ == f(before, next.last()));
        }
        i += 1;
    }
    assert(s.methods@.take(n as int) =~= s.methods@);
    buf.append("\n        .build()\n}\n");
}

fn push_client_decl(buf: &mut String, m: &MethodDescriptor)
    ensures
        final(buf)@ == client_decl_text(old(buf)@, *m),
{
    buf.append("    async fn ");
    buf.append(m.name.as_str());
    buf.append("(&self, req: ");
    buf.append(m.input_type.as_str());
    buf.append(") -> Result<");
    buf.append(m.output_type.as_str());
    buf.append(", twirp::ClientError>;\n");
}

fn push_client_trait(buf: &mut String, shim: bool, s: &ServiceDescriptor)
    ensures
        final(buf)@ == client_trait_text(old(buf)@, shim, *s),
{
    buf.append("\n");
    push_shim(buf, shim);
    buf.append("pub trait ");
    buf.append(s.name.as_str());
    buf.append("Client: Send + Sync + std::fmt::Debug {\n");
    let ghost start = buf@;
    let ghost f = |a: Seq<char>, m: MethodDescriptor| client_decl_text(a, m);
    let n = s.methods.len();
    let mut i: usize = 0;
    while i < n
        invariant
            n == s.methods@.len(),
            i <= n,
            buf@ == emit_each(start, s.methods@.take(i as int), f),
            f == (|a: Seq<char>, m: MethodDescriptor| client_decl_text(a, m)),
        decreases n - i,
    {
        let ghost before = buf@;
        push_client_decl(buf, &s.methods[i]);
        proof {
            let next = s.methods@.take(i + 1);
            assert(next.drop_last() =~= s.methods@.take(i as int));
            assert(next.last() == s.methods@[i as int]);
            assert(buf@ == f(before, next.last()));
        }
        i += 1;
    }
    assert(s.methods@.take(n as int) =~= s.methods@);
    buf.append("}\n");
}

fn push_client_call(buf: &mut String, fqn: &String, m: &MethodDescriptor)
    ensures
        final(buf)@ == client_call_text(old(buf)@, fqn@, *m),
{
    let ghost start = buf@;
    buf.append("    async fn ");
    buf.append(m.name.as_str());
    buf.append("(&self, req: ");
    buf.append(m.input_type.as_str());
    buf.append(") -> Result<");
    buf.append(m.output_type.as_str());
    buf.append(", twirp::ClientError> {\n        self.request(\"");
    buf.append("/");
    buf.append(fqn.as_str());
    buf.append("/");
    buf.append(m.proto_name.as_str());
    buf.append("\", req).await\n    }\n");
    assert(buf@ =~= client_call_text(start, fqn@, *m));
}

fn push_client_impl(buf: &mut String, shim: bool, s: &ServiceDescriptor)
    ensures
        final(buf)@ == client_impl_text(old(buf)@, shim, *s),
{
    let fqn = s.fqn();
    push_shim(buf, shim);
    buf.append("impl ");
    buf.append(s.name.as_str());
    buf.append("Client for twirp::client::Client {\n");
    let ghost start = buf@;
    let ghost f = |a: Seq<char>, m: MethodDescriptor| client_call_text(a, s.spec_fqn(), m);
    let n = s.methods.len();
    let mut i: usize = 0;
    while i < n
        invariant
            n == s.methods@.len(),
            i <= n,
            fqn@ == s.spec_fqn(),
            buf@ == emit_each(start, s.methods@.take(i as int), f),
            f == (|a: Seq<char>, m: MethodDescriptor| client_call_text(a, s.spec_fqn(), m)),
        decreases n - i,
    {
        let ghost before = buf@;
        push_client_call(buf, &fqn, &s.methods[i]);
        proof {
            let next = s.methods@.take(i + 1);
            assert(next.drop_last() =~= s.methods@.take(i as int));
            assert(next.last() == s.methods@[i as int]);
            assert(buf@ == f(before, next.last()));
        }
        i += 1;
    }
    assert(s.methods@.take(n as int) =~= s.methods@);
    buf.append("}\n");
}

fn push_header(buf: &mut String, s: &ServiceDescriptor)
    ensures
        final(buf)@ == header_text(old(buf)@, s.spec_fqn()),
{
    let fqn = s.fqn();
    buf.append("\npub use twirp;\n\npub const SERVICE_FQN: &str = \"/");
    buf.append(fqn.as_str());
    buf.append("\";\n");
}

/// Whether two methods of `s` share a wire name.
fn has_duplicate_wire_name(s: &ServiceDescriptor) -> (r: bool)
    ensures
        r == !s.wire_names_unique(),
{
    let n = s.methods.len();
    let mut i: usize = 0;
    while i < n
        invariant
            n == s.methods@.len(),
            i <= n,
            forall|a: int, b: int|
                0 <= a < i && 0 <= b < n && a != b
                    ==> s.methods@[a].proto_name@ != s.methods@[b].proto_name@,
        decreases n - i,
    {
        let mut j: usize = 0;
        while j < n
            invariant
                n == s.methods@.len(),
                i < n,
                j <= n,
                forall|a: int, b: int|
                    0 <= a < i && 0 <= b < n && a != b
                        ==> s.methods@[a].proto_name@ != s.methods@[b].proto_name@,
                forall|b: int|
                    0 <= b < j && b != i ==> s.methods@[i as int].proto_name@ != s.methods@[b].proto_name@,
            decreases n - j,
        {
            if j != i && s.methods[i].proto_name == s.methods[j].proto_name {
                return true;
            }
            j += 1;
        }
        i += 1;
    }
    false
}

impl ServiceGenerator {
    /// Whether the shim attribute is emitted.
    pub closed spec fn spec_async_trait_shim(&self) -> bool {
        self.async_trait_shim
    }

    /// Sets whether generated traits and impls carry the
    /// `#[twirp::async_trait::async_trait]` attribute.
    pub fn async_trait_shim(self, async_trait_shim: bool) -> (r: ServiceGenerator)
        ensures
            r.spec_async_trait_shim() == async_trait_shim,
    {
        let mut g = self;
        g.async_trait_shim = async_trait_shim;
        g
    }

    /// Appends to `buf` the bindings of `service`: the server trait, its
    /// delegation through `Arc`, the router constructor, the client trait and
    /// its implementation. A service in which two methods share a wire name is
    /// refused and `buf` is left as it was.
    pub fn generate(&self, service: &ServiceDescriptor, buf: &mut String) -> (r: Result<(), GenerateError>)
        ensures
            r is Ok <==> service.wire_names_unique(),
            r is Ok ==> final(buf)@ == service_text(old(buf)@, self.spec_async_trait_shim(), *service),
            r is Err ==> r == Err::<(), GenerateError>(GenerateError::DuplicateWireName) && final(buf)@ == old(buf)@,
    {
        if has_duplicate_wire_name(service) {
            return Err(GenerateError::DuplicateWireName);
        }
        let shim = self.async_trait_shim;
        push_header(buf, service);
        push_server_trait(buf, shim, service);
        push_delegation(buf, shim, service);
        push_router(buf, service);
        push_client_trait(buf, shim, service);
        push_client_impl(buf, shim, service);
        Ok(())
    }
}

/// A generator with the shim attribute on.
pub fn service_generator() -> (r: Box<ServiceGenerator>)
    ensures
        r.spec_async_trait_shim(),
{
    Box::new(ServiceGenerator { async_trait_shim: true })
}

/// Two method lists that hold the same text in the same order.
pub open spec fn same_methods(a: Seq<MethodDescriptor>, b: Seq<MethodDescriptor>) -> bool {
    a.len() == b.len() && forall|i: int|
        0 <= i < a.len() ==> {
            &&& (#[trigger] a[i]).name@ == b[i].name@
            &&& a[i].proto_name@ == b[i].proto_name@
            &&& a[i].input_type@ == b[i].input_type@
            &&& a[i].output_type@ == b[i].output_type@
        }
}

/// Two service descriptions that hold the same text.
pub open spec fn same_service(a: ServiceDescriptor, b: ServiceDescriptor) -> bool {
    &&& a.name@ == b.name@
    &&& a.package@ == b.package@
    &&& a.proto_name@ == b.proto_name@
    &&& same_methods(a.methods@, b.methods@)
}

proof fn lemma_emit_each_congruent(
    acc: Seq<char>,
    ms1: Seq<MethodDescriptor>,
    ms2: Seq<MethodDescriptor>,
    f1: spec_fn(Seq<char>, MethodDescriptor) -> Seq<char>,
    f2: spec_fn(Seq<char>, MethodDescriptor) -> Seq<char>,
)
    requires
        ms1.len() == ms2.len(),
        forall|i: int, a: Seq<char>| 0 <= i < ms1.len() ==> #[trigger] f1(a, ms1[i]) == f2(a, ms2[i]),
    ensures
        emit_each(acc, ms1, f1) == emit_each(acc, ms2, f2),
    decreases ms1.len(),
{
    if ms1.len() > 0 {
        let (d1, d2) = (ms1.drop_last(), ms2.drop_last());
        assert forall|i: int, a: Seq<char>| 0 <= i < d1.len() implies #[trigger] f1(a, d1[i]) == f2(a, d2[i]) by {
            assert(d1[i] == ms1[i] && d2[i] == ms2[i]);
        }
        lemma_emit_each_congruent(acc, d1, d2, f1, f2);
        assert(f1(emit_each(acc, d1, f1), ms1[ms1.len() - 1]) == f2(emit_each(acc, d1, f1), ms2[ms1.len() - 1]));
    }
}

/// Generation is deterministic: two generators with the same setting, given
/// services that hold the same text, append the same text to the same buffer.
pub proof fn lemma_generate_deterministic(
    g1: ServiceGenerator,
    g2: ServiceGenerator,
    s1: ServiceDescriptor,
    s2: ServiceDescriptor,
    acc: Seq<char>,
)
    requires
        g1.spec_async_trait_shim() == g2.spec_async_trait_shim(),
        same_service(s1, s2),
    ensures
        service_text(acc, g1.spec_async_trait_shim(), s1) == service_text(acc, g2.spec_async_trait_shim(), s2),
{
    let shim = g1.spec_async_trait_shim();
    let (m1, m2) = (s1.methods@, s2.methods@);
    let fqn = s1.spec_fqn();
    assert(fqn == s2.spec_fqn());
    let a0 = header_text(acc, fqn);
    lemma_emit_each_congruent(
        shim_line(a0, shim) + "pub trait "@ + s1.name@ + " {\n"@, m1, m2,
        |a: Seq<char>, m: MethodDescriptor| server_decl_text(a, m),
        |a: Seq<char>, m: MethodDescriptor| server_decl_text(a, m),
    );
    let a1 = server_trait_text(a0, shim, s1);
    assert(a1 == server_trait_text(a0, shim, s2));
    lemma_emit_each_congruent(
        shim_line(a1, shim) + "impl<T> "@ + s1.name@ + " for std::sync::Arc<T>\nwhere\n    T: "@
            + s1.name@ + " + Sync + Send\n{\n"@, m1, m2,
        |a: Seq<char>, m: MethodDescriptor| delegate_text(a, m),
        |a: Seq<char>, m: MethodDescriptor| delegate_text(a, m),
    );
    let a2 = delegation_text(a1, shim, s1);
    assert(a2 == delegation_text(a1, shim, s2));
    lemma_emit_each_congruent(
        a2 + "pub fn router<T>(api: T) -> twirp::Router\nwhere\n    T: "@ + s1.name@
            + " + Clone + Send + Sync + 'static,\n{\n    twirp::details::TwirpRouterBuilder::new(api)\n"@,
        m1, m2,
        |a: Seq<char>, m: MethodDescriptor| route_text(a, s1.spec_fqn(), m),
        |a: Seq<char>, m: MethodDescriptor| route_text(a, s2.spec_fqn(), m),
    );
    let a3 = router_text(a2, s1);
    assert(a3 == router_text(a2, s2));
    lemma_emit_each_congruent(
        shim_line(a3 + "\n"@, shim) + "pub trait "@ + s1.name@
            + "Client: Send + Sync + std::fmt::Debug {\n"@, m1, m2,
        |a: Seq<char>, m: MethodDescriptor| client_decl_text(a, m),
        |a: Seq<char>, m: MethodDescriptor| client_decl_text(a, m),
    );
    let a4 = client_trait_text(a3, shim, s1);
    assert(a4 == client_trait_text(a3, shim, s2));
    lemma_emit_each_congruent(
        shim_line(a4, shim) + "impl "@ + s1.name@ + "Client for twirp::client::Client {\n"@, m1, m2,
        |a: Seq<char>, m: MethodDescriptor| client_call_text(a, s1.spec_fqn(), m),
        |a: Seq<char>, m: MethodDescriptor| client_call_text(a, s2.spec_fqn(), m),
    );
}

} // verus!
