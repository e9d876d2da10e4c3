//! The description of a service and the wire paths derived from it.
use vstd::prelude::*;
use vstd::string::*;

verus! {

/// One rpc method of a service.
#[derive(Debug, Clone)]
pub struct MethodDescriptor {
    /// The method's name in generated Rust code.
    pub name: String,
    /// The method's name on the wire.
    pub proto_name: String,
    /// The Rust type of the request message.
    pub input_type: String,
    /// The Rust type of the response message.
    pub output_type: String,
}

/// A service: its Rust name, its protobuf package and name, and its methods
/// in declaration order.
#[derive(Debug, Clone)]
pub struct ServiceDescriptor {
    pub name: String,
    pub package: String,
    pub proto_name: String,
    pub methods: Vec<MethodDescriptor>,
}

/// The fully qualified name of a service: `package.proto_name`.
pub open spec fn fqn_of(package: Seq<char>, proto_name: Seq<char>) -> Seq<char> {
    package + "."@ + proto_name
}

/// The wire path of a method: `/fqn/wire_name`.
pub open spec fn path_of(fqn: Seq<char>, wire_name: Seq<char>) -> Seq<char> {
    "/"@ + fqn + "/"@ + wire_name
}

impl ServiceDescriptor {
    pub open spec fn spec_fqn(&self) -> Seq<char> {
        fqn_of(self.package@, self.proto_name@)
    }

    /// The wire path of the method at index `i`.
    pub open spec fn spec_method_path(&self, i: int) -> Seq<char> {
        path_of(self.spec_fqn(), self.methods@[i].proto_name@)
    }

    /// No two methods share a wire name, so no two share a path.
    pub open spec fn wire_names_unique(&self) -> bool {
        forall|i: int, j: int|
            0 <= i < self.methods@.len() && 0 <= j < self.methods@.len() && i != j
                ==> self.methods@[i].proto_name@ != self.methods@[j].proto_name@
    }

    /// The fully qualified name `package.proto_name`.
    pub fn fqn(&self) -> (r: String)
        ensures
            r@ == self.spec_fqn(),
    {
        let mut r = self.package.clone();
        r.append(".");
        r.append(self.proto_name.as_str());
        r
    }

    /// The path at which the method with index `i` is routed and requested.
    pub fn method_path(&self, i: usize) -> (r: String)
        requires
            i < self.methods@.len(),
        ensures
            r@ == self.spec_method_path(i as int),
    {
        let fqn = self.fqn();
        let mut r = String::new();
        r.append("/");
        r.append(fqn.as_str());
        r.append("/");
        r.append(self.methods[i].proto_name.as_str());
        r
    }
}

} // verus!
