use vstd::prelude::*;

use crate::decode::{
    decode_pod_create, decode_pod_delete, decode_pod_list, decode_service_create, decoded_pod_create,
    decoded_pod_delete, decoded_service_create, list_outcome, pod_list_parsed, ListOutcomeView, valid_status, CreateReply,
    DecodeOutcome, DeleteReply, ListReply, Reply,
};
use crate::error::ClusterError;
use crate::transport::{
    create_pod_request, create_service_request, fits_in_uri, service_request, workload_request, TransportRequest,
    TransportResponse,
};

verus! {

/// The result of an operation whose reply decoded to `outcome`, once the
/// whole body has been received.
pub open spec fn create_result(outcome: DecodeOutcome<(), CreateReply>) -> Result<(), ClusterError> {
    match outcome {
        DecodeOutcome::Success(()) => Ok(()),
        DecodeOutcome::UnexpectedVariant { status, reply } => Err(
            ClusterError::UnexpectedVariant { status, reply: Reply::Create(reply) },
        ),
        DecodeOutcome::NeedMoreData => Err(ClusterError::IncompleteResponse),
        DecodeOutcome::Malformed { status, diagnostic } => Err(
            ClusterError::MalformedResponse { status, diagnostic },
        ),
    }
}

/// The result of a deletion whose reply decoded to `outcome`.
pub open spec fn delete_result(outcome: DecodeOutcome<(), DeleteReply>) -> Result<(), ClusterError> {
    match outcome {
        DecodeOutcome::Success(()) => Ok(()),
        DecodeOutcome::UnexpectedVariant { status, reply } => Err(
            ClusterError::UnexpectedVariant { status, reply: Reply::Delete(reply) },
        ),
        DecodeOutcome::NeedMoreData => Err(ClusterError::IncompleteResponse),
        DecodeOutcome::Malformed { status, diagnostic } => Err(
            ClusterError::MalformedResponse { status, diagnostic },
        ),
    }
}

/// `r` is the result of a listing whose reply decoded to `outcome`.
pub open spec fn is_list_result(r: Result<Vec<String>, ClusterError>, outcome: ListOutcomeView) -> bool {
    match outcome {
        ListOutcomeView::Success(names) => match r {
            Ok(x) => x@ == names,
            Err(_) => false,
        },
        ListOutcomeView::UnexpectedVariant { status, reply } => r == Err::<Vec<String>, ClusterError>(
            ClusterError::UnexpectedVariant { status, reply: Reply::List(reply) },
        ),
        ListOutcomeView::NeedMoreData => r == Err::<Vec<String>, ClusterError>(ClusterError::IncompleteResponse),
        ListOutcomeView::Malformed { status, diagnostic } => match r {
            Err(ClusterError::MalformedResponse { status: s, diagnostic: d }) => s == status && d@ == diagnostic,
            _ => false,
        },
    }
}

fn create_result_of(outcome: DecodeOutcome<(), CreateReply>) -> (r: Result<(), ClusterError>)
    ensures
        r == create_result(outcome),
{
    match outcome {
        DecodeOutcome::Success(()) => Ok(()),
        DecodeOutcome::UnexpectedVariant { status, reply } => Err(
            ClusterError::UnexpectedVariant { status, reply: Reply::Create(reply) },
        ),
        DecodeOutcome::NeedMoreData => Err(ClusterError::IncompleteResponse),
        DecodeOutcome::Malformed { status, diagnostic } => Err(
            ClusterError::MalformedResponse { status, diagnostic },
        ),
    }
}

/// The result of a pod creation, from the whole reply.
pub fn create_pod_result(response: &TransportResponse) -> (r: Result<(), ClusterError>)
    requires
        valid_status(response.status),
    ensures
        r == create_result(decoded_pod_create(response.status, response.body@)),
        (response.status < 200 || response.status > 202) ==> (r is Err),
{
    create_result_of(decode_pod_create(response.status, response.body.as_slice()))
}

/// The result of a service creation, from the whole reply.
pub fn create_service_result(response: &TransportResponse) -> (r: Result<(), ClusterError>)
    requires
        valid_status(response.status),
    ensures
        r == create_result(decoded_service_create(response.status, response.body@)),
        (response.status < 200 || response.status > 202) ==> (r is Err),
{
    create_result_of(decode_service_create(response.status, response.body.as_slice()))
}

/// The result of a pod deletion, from the whole reply.
pub fn delete_pod_result(response: &TransportResponse) -> (r: Result<(), ClusterError>)
    requires
        valid_status(response.status),
    ensures
        r == delete_result(decoded_pod_delete(response.status, response.body@)),
        response.status != 200 && response.status != 202 ==> (r is Err),
{
    match decode_pod_delete(response.status, response.body.as_slice()) {
        DecodeOutcome::Success(()) => Ok(()),
        DecodeOutcome::UnexpectedVariant { status, reply } => Err(
            ClusterError::UnexpectedVariant { status, reply: Reply::Delete(reply) },
        ),
        DecodeOutcome::NeedMoreData => Err(ClusterError::IncompleteResponse),
        DecodeOutcome::Malformed { status, diagnostic } => Err(
            ClusterError::MalformedResponse { status, diagnostic },
        ),
    }
}

/// The names of the listed pods, in the control plane's order, from the whole reply.
pub fn list_pods_result(response: &TransportResponse) -> (r: Result<Vec<String>, ClusterError>)
    requires
        valid_status(response.status),
    ensures
        is_list_result(r, list_outcome(response.status, pod_list_parsed(response.status, response.body@))),
        response.status != 200 ==> (r is Err),
{
    match decode_pod_list(response.status, response.body.as_slice()) {
        DecodeOutcome::Success(names) => Ok(names),
        DecodeOutcome::UnexpectedVariant { status, reply } => Err(
            ClusterError::UnexpectedVariant { status, reply: Reply::List(reply) },
        ),
        DecodeOutcome::NeedMoreData => Err(ClusterError::IncompleteResponse),
        DecodeOutcome::Malformed { status, diagnostic } => Err(
            ClusterError::MalformedResponse { status, diagnostic },
        ),
    }
}

/// Where the two-step provisioning of an executor stands.
pub enum ExecutorPhase {
    /// The workload's creation is to be requested.
    CreatingWorkload,
    /// The workload exists; the service's creation is to be requested.
    CreatingService,
    /// Both the workload and the service exist.
    Ready,
    /// A step failed. Nothing is rolled back: when `workload_created` holds,
    /// the workload stays live and the caller decides whether to delete it.
    Failed { workload_created: bool, error: ClusterError },
}

/// The provisioning of one executor: its workload first, then its service.
/// The caller performs each request and hands back each reply.
pub struct ExecutorProvisioning {
    pub namespace: String,
    pub name: String,
    pub image: String,
    pub phase: ExecutorPhase,
}

/// The result that the reply of the current step gives.
pub open spec fn step_result(phase: ExecutorPhase, status: u16, body: Seq<u8>) -> Result<(), ClusterError> {
    if phase is CreatingWorkload {
        create_result(decoded_pod_create(status, body))
    } else {
        create_result(decoded_service_create(status, body))
    }
}

/// The phase that follows a step of `phase` with `result`.
pub open spec fn phase_after(phase: ExecutorPhase, result: Result<(), ClusterError>) -> ExecutorPhase {
    match result {
        Ok(()) => if phase is CreatingWorkload {
            ExecutorPhase::CreatingService
        } else {
            ExecutorPhase::Ready
        },
        Err(error) => ExecutorPhase::Failed { workload_created: phase is CreatingService, error },
    }
}

/// Starts the provisioning of executor `name` running `image_name` in `namespace`.
pub fn create_ballista_executor(namespace: &str, name: &str, image_name: &str) -> (r: ExecutorProvisioning)
    ensures
        r.namespace@ == namespace@,
        r.name@ == name@,
        r.image@ == image_name@,
        r.phase is CreatingWorkload,
{
    ExecutorProvisioning {
        namespace: namespace.to_owned(),
        name: name.to_owned(),
        image: image_name.to_owned(),
        phase: ExecutorPhase::CreatingWorkload,
    }
}

impl ExecutorProvisioning {
    /// The step is still running: a request is due or a reply awaited.
    pub open spec fn in_progress(&self) -> bool {
        self.phase is CreatingWorkload || self.phase is CreatingService
    }

    /// The request of the current step. When it cannot be encoded the
    /// provisioning fails with that caller error and no request is given.
    pub fn next_request(&mut self) -> (r: Option<TransportRequest>)
        ensures
            final(self).namespace == old(self).namespace,
            final(self).name == old(self).name,
            final(self).image == old(self).image,
            !old(self).in_progress() ==> r is None && final(self).phase == old(self).phase,
            old(self).phase is CreatingWorkload ==> (r matches Some(t) ==> t@ == workload_request(
                old(self).namespace@,
                old(self).name@,
                old(self).image@,
            )),
            old(self).phase is CreatingService ==> (r matches Some(t) ==> t@ == service_request(
                old(self).namespace@,
                old(self).name@,
            )),
            old(self).in_progress() && r is Some ==> final(self).phase == old(self).phase,
            old(self).in_progress() && fits_in_uri(old(self).namespace@.len()) ==> (r is Some),
            r matches Some(t) ==> t.method@ == "POST"@,
            old(self).in_progress() && r is None ==> (final(self).phase matches ExecutorPhase::Failed {
                workload_created,
                error: ClusterError::CallerInput(_),
            } && workload_created == old(self).phase is CreatingService),
    {
        let encoded = match self.phase {
            ExecutorPhase::CreatingWorkload => create_pod_request(
                self.namespace.as_str(),
                self.name.as_str(),
                self.image.as_str(),
            ),
            ExecutorPhase::CreatingService => create_service_request(self.namespace.as_str(), self.name.as_str()),
            _ => {
                return None;
            },
        };
        match encoded {
            Ok(request) => Some(request),
            Err(error) => {
                let workload_created = matches!(self.phase, ExecutorPhase::CreatingService);
                self.phase = ExecutorPhase::Failed { workload_created, error };
                None
            },
        }
    }

    /// Takes the whole reply to the current step's request and moves on: to
    /// the service after the workload, to `Ready` after the service, or to
    /// `Failed` with the reply's error.
    pub fn on_response(&mut self, response: &TransportResponse)
        requires
            old(self).in_progress(),
            valid_status(response.status),
        ensures
            final(self).namespace == old(self).namespace,
            final(self).name == old(self).name,
            final(self).image == old(self).image,
            final(self).phase == phase_after(
                old(self).phase,
                step_result(old(self).phase, response.status, response.body@),
            ),
            (response.status < 200 || response.status > 202) ==> (final(self).phase matches ExecutorPhase::Failed { workload_created, .. }
                && workload_created == (old(self).phase is CreatingService)),
    {
        let workload_step = matches!(self.phase, ExecutorPhase::CreatingWorkload);
        let result = if workload_step {
            create_pod_result(response)
        } else {
            create_service_result(response)
        };
        self.phase = match result {
            Ok(()) => if workload_step {
                ExecutorPhase::CreatingService
            } else {
                ExecutorPhase::Ready
            },
            Err(error) => ExecutorPhase::Failed { workload_created: !workload_step, error },
        };
    }

    /// The current step failed before its reply could be decoded (its
    /// request was refused before sending, or its reply was unusable).
    pub fn on_failure(&mut self, error: ClusterError)
        requires
            old(self).in_progress(),
        ensures
            final(self).namespace == old(self).namespace,
            final(self).name == old(self).name,
            final(self).image == old(self).image,
            final(self).phase == (ExecutorPhase::Failed {
                workload_created: old(self).phase is CreatingService,
                error,
            }),
    {
        let workload_created = matches!(self.phase, ExecutorPhase::CreatingService);
        self.phase = ExecutorPhase::Failed { workload_created, error };
    }

    /// The exchange of the current step failed in the transport.
    pub fn on_transport_error(&mut self, message: String)
        requires
            old(self).in_progress(),
        ensures
            final(self).namespace == old(self).namespace,
            final(self).name == old(self).name,
            final(self).image == old(self).image,
            final(self).phase == (ExecutorPhase::Failed {
                workload_created: old(self).phase is CreatingService,
                error: ClusterError::Transport(message),
            }),
    {
        let workload_created = matches!(self.phase, ExecutorPhase::CreatingService);
        self.phase = ExecutorPhase::Failed { workload_created, error: ClusterError::Transport(message) };
    }
}

} // verus!
