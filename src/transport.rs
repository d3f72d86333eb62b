use vstd::prelude::*;

use k8s_openapi::api;
use k8s_openapi::RequestError;
use k8s_openapi::apimachinery::pkg::apis::meta::v1::ObjectMeta;
use k8s_openapi::apimachinery::pkg::util::intstr::IntOrString;

use crate::descriptor::{
    always_pull, build_service_descriptor, build_workload_descriptor, cluster_ip, grpc_port_name,
    ServiceDescriptor, WorkloadDescriptor, EXECUTOR_PORT,
};
use crate::error::ClusterError;

verus! {

type Container = api::core::v1::Container;
type ContainerPort = api::core::v1::ContainerPort;
type Pod = api::core::v1::Pod;
type PodSpec = api::core::v1::PodSpec;
type Service = api::core::v1::Service;
type ServicePort = api::core::v1::ServicePort;
type ServiceSpec = api::core::v1::ServiceSpec;

/// k8s_openapi's error for a request that could not be built; it only
/// travels to `request_error_text`.
#[verifier::external_type_specification]
#[verifier::external_body]
pub struct ExRequestError(RequestError);

/// A request as the transport sends it: the method's name, the path below
/// the control plane's base address, and the body bytes.
pub struct TransportRequest {
    pub method: String,
    pub path: String,
    pub body: Vec<u8>,
}

/// The mathematical value of a [`TransportRequest`].
pub struct RequestView {
    pub method: Seq<char>,
    pub path: Seq<char>,
    pub body: Seq<u8>,
}

impl View for TransportRequest {
    type V = RequestView;

    open spec fn view(&self) -> RequestView {
        RequestView { method: self.method@, path: self.path@, body: self.body@ }
    }
}

/// A reply as the transport received it: the real status code and the body bytes.
pub struct TransportResponse {
    pub status: u16,
    pub body: Vec<u8>,
}

/// The HTTP methods that the transport performs.
#[derive(PartialEq, Eq, Structural, Clone, Copy, Debug)]
pub enum Method {
    Get,
    Post,
    Delete,
}

pub open spec fn method_name(m: Method) -> Seq<char> {
    match m {
        Method::Get => "GET"@,
        Method::Post => "POST"@,
        Method::Delete => "DELETE"@,
    }
}

/// The request that `Pod::create_namespaced_pod` encodes for a pod `name`
/// with one container of the given name, image, pull policy and port.
pub uninterp spec fn pod_create_request(
    namespace: Seq<char>,
    name: Seq<char>,
    container_name: Seq<char>,
    image: Seq<char>,
    pull_policy: Seq<char>,
    port: i32,
) -> RequestView;

/// The request that `Service::create_namespaced_service` encodes for a
/// service of the given name, type and single port.
pub uninterp spec fn service_create_request(
    namespace: Seq<char>,
    name: Seq<char>,
    service_type: Seq<char>,
    port_name: Seq<char>,
    port: i32,
    target_port: i32,
) -> RequestView;

/// The request that `Pod::delete_namespaced_pod` encodes, with no delete options.
pub uninterp spec fn pod_delete_request(namespace: Seq<char>, name: Seq<char>) -> RequestView;

/// The request that `Pod::list_namespaced_pod` encodes, with no list options.
pub uninterp spec fn pod_list_request(namespace: Seq<char>) -> RequestView;

/// A request whose path holds `n` characters of caller text can be built:
/// percent-encoding turns a character into at most twelve bytes, and the
/// HTTP layer refuses only URIs longer than 65534 bytes.
pub open spec fn fits_in_uri(n: nat) -> bool {
    n <= 5000
}

/// The request that creates the workload of an executor.
pub open spec fn workload_request(namespace: Seq<char>, name: Seq<char>, image: Seq<char>) -> RequestView {
    pod_create_request(namespace, name, name, image, always_pull(), EXECUTOR_PORT)
}

/// The request that creates the service endpoint of an executor.
pub open spec fn service_request(namespace: Seq<char>, name: Seq<char>) -> RequestView {
    service_create_request(namespace, name, cluster_ip(), grpc_port_name(), EXECUTOR_PORT, EXECUTOR_PORT)
}

/// Relies on k8s_openapi's `Pod::create_namespaced_pod`: a POST whose path
/// and JSON body depend on the namespace and the pod's fields alone.
#[verifier::external_body]
fn encode_pod_create(namespace: &str, d: WorkloadDescriptor) -> (r: Result<TransportRequest, RequestError>)
    ensures
        r matches Ok(t) ==> t@ == pod_create_request(namespace@, d.name@, d.container_name@, d.image@, d.image_pull_policy@, d.container_port),
        r matches Ok(t) ==> t.method@ == "POST"@,
        fits_in_uri(namespace@.len()) ==> (r is Ok),
{
    let container = Container {
        name: d.container_name, image: Some(d.image), image_pull_policy: Some(d.image_pull_policy),
        ports: Some(vec![ContainerPort { container_port: d.container_port, ..Default::default() }]), ..Default::default()
    };
    let pod = Pod {
        metadata: Some(ObjectMeta { name: Some(d.name), ..Default::default() }),
        spec: Some(PodSpec { containers: vec![container], ..Default::default() }), status: None,
    };
    let (parts, body) = Pod::create_namespaced_pod(namespace, &pod, Default::default())?.0.into_parts();
    Ok(TransportRequest { method: parts.method.to_string(), path: parts.uri.to_string(), body })
}

/// Relies on k8s_openapi's `Service::create_namespaced_service`: a POST whose
/// path and JSON body depend on the namespace and the service's fields alone.
#[verifier::external_body]
fn encode_service_create(namespace: &str, d: ServiceDescriptor) -> (r: Result<TransportRequest, RequestError>)
    ensures
        r matches Ok(t) ==> t@ == service_create_request(namespace@, d.name@, d.service_type@, d.port_name@, d.port, d.target_port),
        r matches Ok(t) ==> t.method@ == "POST"@,
        fits_in_uri(namespace@.len()) ==> (r is Ok),
{
    let port = ServicePort {
        name: Some(d.port_name), port: d.port, target_port: Some(IntOrString::Int(d.target_port)), ..Default::default()
    };
    let spec = ServiceSpec { type_: Some(d.service_type), ports: Some(vec![port]), ..Default::default() };
    let meta = ObjectMeta { name: Some(d.name), ..Default::default() };
    let service = Service { metadata: Some(meta), spec: Some(spec), ..Default::default() };
    let (parts, body) = Service::create_namespaced_service(namespace, &service, Default::default())?.0.into_parts();
    Ok(TransportRequest { method: parts.method.to_string(), path: parts.uri.to_string(), body })
}

/// Relies on `Display` of k8s_openapi's `RequestError`, for the message of a caller error.
#[verifier::external_body]
fn request_error_text(e: RequestError) -> String {
    e.to_string()
}

/// Relies on k8s_openapi's `Pod::delete_namespaced_pod`: a DELETE whose path
/// depends on the namespace and the pod's name alone, with the empty delete
/// options `{}` as body.
#[verifier::external_body]
fn encode_pod_delete(namespace: &str, name: &str) -> (r: Result<TransportRequest, RequestError>)
    ensures
        r matches Ok(t) ==> t@ == pod_delete_request(namespace@, name@),
        r matches Ok(t) ==> t.method@ == "DELETE"@,
        r matches Ok(t) ==> t.body@ == seq![123u8, 125u8],
        fits_in_uri(namespace@.len() + name@.len()) ==> (r is Ok),
{
    let (parts, body) = Pod::delete_namespaced_pod(name, namespace, Default::default())?.0.into_parts();
    Ok(TransportRequest { method: parts.method.to_string(), path: parts.uri.to_string(), body })
}

/// Relies on k8s_openapi's `Pod::list_namespaced_pod`: a GET whose path
/// depends on the namespace alone, with an empty body.
#[verifier::external_body]
fn encode_pod_list(namespace: &str) -> (r: Result<TransportRequest, RequestError>)
    ensures
        r matches Ok(t) ==> t@ == pod_list_request(namespace@),
        r matches Ok(t) ==> t.method@ == "GET"@,
        r matches Ok(t) ==> t.body@.len() == 0,
        fits_in_uri(namespace@.len()) ==> (r is Ok),
{
    let (parts, body) = Pod::list_namespaced_pod(namespace, Default::default())?.0.into_parts();
    Ok(TransportRequest { method: parts.method.to_string(), path: parts.uri.to_string(), body })
}

/// Encodes the request that creates the workload of an executor named
/// `name` running `image` in `namespace`.
pub fn create_pod_request(namespace: &str, name: &str, image: &str) -> (r: Result<TransportRequest, ClusterError>)
    ensures
        r matches Ok(t) ==> t@ == workload_request(namespace@, name@, image@) && t.method@ == "POST"@,
        r matches Err(e) ==> e is CallerInput,
        fits_in_uri(namespace@.len()) ==> (r is Ok),
{
    let descriptor = build_workload_descriptor(namespace, name, image);
    match encode_pod_create(namespace, descriptor) {
        Ok(t) => Ok(t),
        Err(e) => Err(ClusterError::CallerInput(request_error_text(e))),
    }
}

/// Encodes the request that creates the service endpoint of an executor
/// named `name` in `namespace`.
pub fn create_service_request(namespace: &str, name: &str) -> (r: Result<TransportRequest, ClusterError>)
    ensures
        r matches Ok(t) ==> t@ == service_request(namespace@, name@) && t.method@ == "POST"@,
        r matches Err(e) ==> e is CallerInput,
        fits_in_uri(namespace@.len()) ==> (r is Ok),
{
    let descriptor = build_service_descriptor(namespace, name);
    match encode_service_create(namespace, descriptor) {
        Ok(t) => Ok(t),
        Err(e) => Err(ClusterError::CallerInput(request_error_text(e))),
    }
}

/// Encodes the request that deletes the workload `name` of `namespace`.
pub fn delete_pod_request(namespace: &str, name: &str) -> (r: Result<TransportRequest, ClusterError>)
    ensures
        r matches Ok(t) ==> t@ == pod_delete_request(namespace@, name@) && t.method@ == "DELETE"@,
        r matches Ok(t) ==> t.body@ == seq![123u8, 125u8],
        r matches Err(e) ==> e is CallerInput,
        fits_in_uri(namespace@.len() + name@.len()) ==> (r is Ok),
{
    match encode_pod_delete(namespace, name) {
        Ok(t) => Ok(t),
        Err(e) => Err(ClusterError::CallerInput(request_error_text(e))),
    }
}

/// Encodes the request that lists the workloads of `namespace`.
pub fn list_pods_request(namespace: &str) -> (r: Result<TransportRequest, ClusterError>)
    ensures
        r matches Ok(t) ==> t@ == pod_list_request(namespace@) && t.method@ == "GET"@,
        r matches Ok(t) ==> t.body@.len() == 0,
        r matches Err(e) ==> e is CallerInput,
        fits_in_uri(namespace@.len()) ==> (r is Ok),
{
    match encode_pod_list(namespace) {
        Ok(t) => Ok(t),
        Err(e) => Err(ClusterError::CallerInput(request_error_text(e))),
    }
}

/// Building and encoding a workload is repeatable: two requests encoded from
/// the same namespace, name and image are identical, body bytes included.
pub proof fn lemma_workload_request_repeatable(
    namespace: Seq<char>,
    name: Seq<char>,
    image: Seq<char>,
    first: RequestView,
    second: RequestView,
)
    requires
        first == workload_request(namespace, name, image),
        second == workload_request(namespace, name, image),
    ensures
        first.body == second.body,
        first == second,
{
}

/// The method that the transport performs for `request`: GET, POST and
/// DELETE are the only ones; any other is refused as a caller error.
pub fn request_method(request: &TransportRequest) -> (r: Result<Method, ClusterError>)
    ensures
        r matches Ok(m) ==> method_name(m) == request.method@,
        r is Err <==> (request.method@ != "GET"@ && request.method@ != "POST"@ && request.method@ != "DELETE"@),
        r matches Err(e) ==> e is CallerInput,
{
    proof {
        reveal_strlit("GET");
        reveal_strlit("POST");
        reveal_strlit("DELETE");
    }
    if request.method == String::from_str("GET") {
        Ok(Method::Get)
    } else if request.method == String::from_str("POST") {
        Ok(Method::Post)
    } else if request.method == String::from_str("DELETE") {
        Ok(Method::Delete)
    } else {
        Err(ClusterError::CallerInput(String::from_str("unsupported method")))
    }
}

} // verus!
