use vstd::prelude::*;

verus! {

/// The single port that an executor listens on, for its container and its service.
pub const EXECUTOR_PORT: i32 = 50051;

/// The image-pull policy applied to every executor container.
pub open spec fn always_pull() -> Seq<char> {
    "Always"@
}

/// The service type of an executor's endpoint: reachable inside the cluster only.
pub open spec fn cluster_ip() -> Seq<char> {
    "ClusterIP"@
}

/// The name of the service port.
pub open spec fn grpc_port_name() -> Seq<char> {
    "grpc"@
}

/// What a workload (pod) is made of: one container running `image`, named
/// like the pod, exposing one port.
pub struct WorkloadDescriptor {
    pub name: String,
    pub container_name: String,
    pub image: String,
    pub container_port: i32,
    pub image_pull_policy: String,
}

/// What a service endpoint is made of: one named port forwarded to the
/// same port of the workload.
pub struct ServiceDescriptor {
    pub name: String,
    pub service_type: String,
    pub port_name: String,
    pub port: i32,
    pub target_port: i32,
}

impl WorkloadDescriptor {
    /// The descriptor holds the fixed policy of an executor workload for `name` and `image`.
    pub open spec fn is_executor_workload(&self, name: Seq<char>, image: Seq<char>) -> bool {
        &&& self.name@ == name
        &&& self.container_name@ == name
        &&& self.image@ == image
        &&& self.container_port == EXECUTOR_PORT
        &&& self.image_pull_policy@ == always_pull()
    }
}

impl ServiceDescriptor {
    /// The descriptor holds the fixed policy of an executor service for `name`.
    pub open spec fn is_executor_service(&self, name: Seq<char>) -> bool {
        &&& self.name@ == name
        &&& self.service_type@ == cluster_ip()
        &&& self.port_name@ == grpc_port_name()
        &&& self.port == EXECUTOR_PORT
        &&& self.target_port == EXECUTOR_PORT
    }
}

/// Builds the workload descriptor of an executor. The namespace does not
/// appear in the descriptor: it only selects where the workload is created.
pub fn build_workload_descriptor(namespace: &str, name: &str, image: &str) -> (r: WorkloadDescriptor)
    ensures
        r.is_executor_workload(name@, image@),
{
    proof {
        reveal_strlit("Always");
    }
    WorkloadDescriptor {
        name: name.to_owned(),
        container_name: name.to_owned(),
        image: image.to_owned(),
        container_port: EXECUTOR_PORT,
        image_pull_policy: String::from_str("Always"),
    }
}

/// Builds the service descriptor of an executor: a cluster-internal service
/// with one port named "grpc" forwarding the executor port.
pub fn build_service_descriptor(namespace: &str, name: &str) -> (r: ServiceDescriptor)
    ensures
        r.is_executor_service(name@),
{
    proof {
        reveal_strlit("ClusterIP");
        reveal_strlit("grpc");
    }
    ServiceDescriptor {
        name: name.to_owned(),
        service_type: String::from_str("ClusterIP"),
        port_name: String::from_str("grpc"),
        port: EXECUTOR_PORT,
        target_port: EXECUTOR_PORT,
    }
}

} // verus!
