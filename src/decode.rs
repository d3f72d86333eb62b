use vstd::prelude::*;

use k8s_openapi::api;
use k8s_openapi::Response;

verus! {

type PodCreateResponse = api::core::v1::CreateNamespacedPodResponse;
type ServiceCreateResponse = api::core::v1::CreateNamespacedServiceResponse;
type PodDeleteResponse = api::core::v1::DeleteNamespacedPodResponse;
type PodListResponse = api::core::v1::ListNamespacedPodResponse;

/// A status code that the HTTP layer can represent (three digits, below 600).
pub open spec fn valid_status(status: u16) -> bool {
    100 <= status < 600
}

/// The shapes of a reply to a create operation (of a pod or of a service).
pub enum CreateReply {
    /// 200 with the created record.
    OkRecord,
    /// 201 with the created record.
    Created,
    /// 202 with the record whose creation was accepted.
    Accepted,
    /// Any other status, with a rendering of the body (or of why it is not JSON).
    Other(String),
}

/// The shapes of a reply to the deletion of a pod.
pub enum DeleteReply {
    /// 200 with a status object.
    OkStatus,
    /// 200 with the deleted pod.
    OkValue,
    /// 202 with a status object.
    Accepted,
    /// Any other status, with a rendering of the body (or of why it is not JSON).
    Other(String),
}

/// The shapes of a reply to the listing of pods.
pub enum ListReply {
    /// 200 with the pods, each given by its name where it has one, in the
    /// order that the control plane returned them.
    Items(Vec<Option<String>>),
    /// Any other status, with a rendering of the body (or of why it is not JSON).
    Other(String),
}

/// A reply of any operation, as carried by an error.
pub enum Reply {
    Create(CreateReply),
    Delete(DeleteReply),
    List(ListReply),
}

/// What one parse attempt of a reply body gives.
pub enum Parsed<R> {
    /// The body parses under the operation's grammar, to this shape.
    Reply(R),
    /// The bytes so far are a prefix of a body that may still parse.
    NeedMoreData,
    /// The body is not valid (bad JSON, bad UTF-8, wrong fields for the status).
    Malformed(String),
}

/// The outcome of decoding a reply for one operation.
pub enum DecodeOutcome<T, R> {
    Success(T),
    UnexpectedVariant { status: u16, reply: R },
    NeedMoreData,
    Malformed { status: u16, diagnostic: String },
}

/// What `CreateNamespacedPodResponse::try_from_parts` gives for a status and body.
pub uninterp spec fn pod_create_parsed(status: u16, body: Seq<u8>) -> Parsed<CreateReply>;

/// What `CreateNamespacedServiceResponse::try_from_parts` gives for a status and body.
pub uninterp spec fn service_create_parsed(status: u16, body: Seq<u8>) -> Parsed<CreateReply>;

/// What `DeleteNamespacedPodResponse::try_from_parts` gives for a status and body.
pub uninterp spec fn pod_delete_parsed(status: u16, body: Seq<u8>) -> Parsed<DeleteReply>;

/// What `ListNamespacedPodResponse::try_from_parts` gives for a status and body.
pub uninterp spec fn pod_list_parsed(status: u16, body: Seq<u8>) -> Parsed<ListReply>;

/// Relies on k8s_openapi's `CreateNamespacedPodResponse::try_from_parts`:
/// 200, 201 and 202 select the record shapes; any other status gives `Other`
/// when the body is JSON (or empty), and a body that is not is malformed.
#[verifier::external_body]
fn parse_pod_create(status: u16, body: &[u8]) -> (r: Parsed<CreateReply>)
    requires
        valid_status(status),
    ensures
        r == pod_create_parsed(status, body@),
        r matches Parsed::Reply(c) ==> (c is OkRecord <==> status == 200) && (c is Created <==> status == 201)
            && (c is Accepted <==> status == 202),
{
    let code = k8s_openapi::http::StatusCode::from_u16(status).unwrap();
    match PodCreateResponse::try_from_parts(code, body) {
        Ok((PodCreateResponse::Ok(_), _)) => Parsed::Reply(CreateReply::OkRecord),
        Ok((PodCreateResponse::Created(_), _)) => Parsed::Reply(CreateReply::Created),
        Ok((PodCreateResponse::Accepted(_), _)) => Parsed::Reply(CreateReply::Accepted),
        Ok((PodCreateResponse::Other(Ok(v)), _)) => Parsed::Reply(CreateReply::Other(format!("{:?}", v))),
        Ok((PodCreateResponse::Other(Err(e)), _)) => Parsed::Malformed(e.to_string()),
        Err(k8s_openapi::ResponseError::NeedMoreData) => Parsed::NeedMoreData,
        Err(e) => Parsed::Malformed(e.to_string()),
    }
}

/// Relies on k8s_openapi's `CreateNamespacedServiceResponse::try_from_parts`:
/// 200, 201 and 202 select the record shapes; any other status gives `Other`
/// when the body is JSON (or empty), and a body that is not is malformed.
#[verifier::external_body]
fn parse_service_create(status: u16, body: &[u8]) -> (r: Parsed<CreateReply>)
    requires
        valid_status(status),
    ensures
        r == service_create_parsed(status, body@),
        r matches Parsed::Reply(c) ==> (c is OkRecord <==> status == 200) && (c is Created <==> status == 201)
            && (c is Accepted <==> status == 202),
{
    let code = k8s_openapi::http::StatusCode::from_u16(status).unwrap();
    match ServiceCreateResponse::try_from_parts(code, body) {
        Ok((ServiceCreateResponse::Ok(_), _)) => Parsed::Reply(CreateReply::OkRecord),
        Ok((ServiceCreateResponse::Created(_), _)) => Parsed::Reply(CreateReply::Created),
        Ok((ServiceCreateResponse::Accepted(_), _)) => Parsed::Reply(CreateReply::Accepted),
        Ok((ServiceCreateResponse::Other(Ok(v)), _)) => Parsed::Reply(CreateReply::Other(format!("{:?}", v))),
        Ok((ServiceCreateResponse::Other(Err(e)), _)) => Parsed::Malformed(e.to_string()),
        Err(k8s_openapi::ResponseError::NeedMoreData) => Parsed::NeedMoreData,
        Err(e) => Parsed::Malformed(e.to_string()),
    }
}

/// Relies on k8s_openapi's `DeleteNamespacedPodResponse::try_from_parts`:
/// 200 selects a status object or the pod, 202 a status object; any other
/// status gives `Other` when the body is JSON (or empty), and a body that is
/// not is malformed.
#[verifier::external_body]
fn parse_pod_delete(status: u16, body: &[u8]) -> (r: Parsed<DeleteReply>)
    requires
        valid_status(status),
    ensures
        r == pod_delete_parsed(status, body@),
        r matches Parsed::Reply(c) ==> ((c is OkStatus || c is OkValue) <==> status == 200)
            && (c is Accepted <==> status == 202),
{
    let code = k8s_openapi::http::StatusCode::from_u16(status).unwrap();
    match PodDeleteResponse::try_from_parts(code, body) {
        Ok((PodDeleteResponse::OkStatus(_), _)) => Parsed::Reply(DeleteReply::OkStatus),
        Ok((PodDeleteResponse::OkValue(_), _)) => Parsed::Reply(DeleteReply::OkValue),
        Ok((PodDeleteResponse::Accepted(_), _)) => Parsed::Reply(DeleteReply::Accepted),
        Ok((PodDeleteResponse::Other(Ok(v)), _)) => Parsed::Reply(DeleteReply::Other(format!("{:?}", v))),
        Ok((PodDeleteResponse::Other(Err(e)), _)) => Parsed::Malformed(e.to_string()),
        Err(k8s_openapi::ResponseError::NeedMoreData) => Parsed::NeedMoreData,
        Err(e) => Parsed::Malformed(e.to_string()),
    }
}

/// Relies on k8s_openapi's `ListNamespacedPodResponse::try_from_parts`: 200
/// selects the pod list, whose items keep their order; any other status gives
/// `Other` when the body is JSON (or empty), and a body that is not is malformed.
#[verifier::external_body]
fn parse_pod_list(status: u16, body: &[u8]) -> (r: Parsed<ListReply>)
    requires
        valid_status(status),
    ensures
        r == pod_list_parsed(status, body@),
        r matches Parsed::Reply(c) ==> (c is Items <==> status == 200),
{
    let code = k8s_openapi::http::StatusCode::from_u16(status).unwrap();
    match PodListResponse::try_from_parts(code, body) {
        Ok((PodListResponse::Ok(list), _)) => Parsed::Reply(ListReply::Items(
            list.items.into_iter().map(|p| p.metadata.and_then(|m| m.name)).collect(),
        )),
        Ok((PodListResponse::Other(Ok(v)), _)) => Parsed::Reply(ListReply::Other(format!("{:?}", v))),
        Ok((PodListResponse::Other(Err(e)), _)) => Parsed::Malformed(e.to_string()),
        Err(k8s_openapi::ResponseError::NeedMoreData) => Parsed::NeedMoreData,
        Err(e) => Parsed::Malformed(e.to_string()),
    }
}

/// The outcome of a create reply: each record shape (200, 201, 202) is
/// success; any other shape is unexpected.
pub open spec fn create_outcome(status: u16, parsed: Parsed<CreateReply>) -> DecodeOutcome<(), CreateReply> {
    match parsed {
        Parsed::Reply(CreateReply::Other(detail)) => DecodeOutcome::UnexpectedVariant {
            status,
            reply: CreateReply::Other(detail),
        },
        Parsed::Reply(_) => DecodeOutcome::Success(()),
        Parsed::NeedMoreData => DecodeOutcome::NeedMoreData,
        Parsed::Malformed(diagnostic) => DecodeOutcome::Malformed { status, diagnostic },
    }
}

/// The outcome of a delete reply: the status object, the deleted value and the
/// accepted status object are all success; any other shape is unexpected.
pub open spec fn delete_outcome(status: u16, parsed: Parsed<DeleteReply>) -> DecodeOutcome<(), DeleteReply> {
    match parsed {
        Parsed::Reply(DeleteReply::Other(detail)) => DecodeOutcome::UnexpectedVariant {
            status,
            reply: DeleteReply::Other(detail),
        },
        Parsed::Reply(_) => DecodeOutcome::Success(()),
        Parsed::NeedMoreData => DecodeOutcome::NeedMoreData,
        Parsed::Malformed(diagnostic) => DecodeOutcome::Malformed { status, diagnostic },
    }
}

/// Every item of a listing has a name.
pub open spec fn all_named(items: Seq<Option<String>>) -> bool {
    forall|i: int| 0 <= i < items.len() ==> (#[trigger] items[i]) is Some
}

/// The names of a listing's items, in their order.
pub open spec fn names_of(items: Seq<Option<String>>) -> Seq<String> {
    items.map_values(|o: Option<String>| o->Some_0)
}

/// The mathematical value of a listing's outcome: the names as a sequence,
/// a diagnostic as its characters.
pub enum ListOutcomeView {
    Success(Seq<String>),
    UnexpectedVariant { status: u16, reply: ListReply },
    NeedMoreData,
    Malformed { status: u16, diagnostic: Seq<char> },
}

pub open spec fn list_outcome_view(o: DecodeOutcome<Vec<String>, ListReply>) -> ListOutcomeView {
    match o {
        DecodeOutcome::Success(names) => ListOutcomeView::Success(names@),
        DecodeOutcome::UnexpectedVariant { status, reply } => ListOutcomeView::UnexpectedVariant { status, reply },
        DecodeOutcome::NeedMoreData => ListOutcomeView::NeedMoreData,
        DecodeOutcome::Malformed { status, diagnostic } => ListOutcomeView::Malformed {
            status,
            diagnostic: diagnostic@,
        },
    }
}

/// The diagnostic of a listing that holds an item without a name.
pub open spec fn unnamed_item_diagnostic() -> Seq<char> {
    "a listed item has no name"@
}

/// The outcome of a list reply: the names in the order given, or, when any
/// item has no name, a malformed reply for the whole listing.
pub open spec fn list_outcome(status: u16, parsed: Parsed<ListReply>) -> ListOutcomeView {
    match parsed {
        Parsed::Reply(ListReply::Items(items)) => if all_named(items@) {
            ListOutcomeView::Success(names_of(items@))
        } else {
            ListOutcomeView::Malformed { status, diagnostic: unnamed_item_diagnostic() }
        },
        Parsed::Reply(ListReply::Other(detail)) => ListOutcomeView::UnexpectedVariant {
            status,
            reply: ListReply::Other(detail),
        },
        Parsed::NeedMoreData => ListOutcomeView::NeedMoreData,
        Parsed::Malformed(diagnostic) => ListOutcomeView::Malformed { status, diagnostic: diagnostic@ },
    }
}

/// `r` is the outcome of a list reply.
pub open spec fn is_list_outcome(
    status: u16,
    parsed: Parsed<ListReply>,
    r: DecodeOutcome<Vec<String>, ListReply>,
) -> bool {
    list_outcome_view(r) == list_outcome(status, parsed)
}

/// Maps a create reply to its outcome.
pub fn create_outcome_from(status: u16, parsed: Parsed<CreateReply>) -> (r: DecodeOutcome<(), CreateReply>)
    ensures
        r == create_outcome(status, parsed),
{
    match parsed {
        Parsed::Reply(CreateReply::Other(detail)) => DecodeOutcome::UnexpectedVariant {
            status,
            reply: CreateReply::Other(detail),
        },
        Parsed::Reply(_) => DecodeOutcome::Success(()),
        Parsed::NeedMoreData => DecodeOutcome::NeedMoreData,
        Parsed::Malformed(diagnostic) => DecodeOutcome::Malformed { status, diagnostic },
    }
}

/// Maps a delete reply to its outcome.
pub fn delete_outcome_from(status: u16, parsed: Parsed<DeleteReply>) -> (r: DecodeOutcome<(), DeleteReply>)
    ensures
        r == delete_outcome(status, parsed),
{
    match parsed {
        Parsed::Reply(DeleteReply::Other(detail)) => DecodeOutcome::UnexpectedVariant {
            status,
            reply: DeleteReply::Other(detail),
        },
        Parsed::Reply(_) => DecodeOutcome::Success(()),
        Parsed::NeedMoreData => DecodeOutcome::NeedMoreData,
        Parsed::Malformed(diagnostic) => DecodeOutcome::Malformed { status, diagnostic },
    }
}

/// Maps a list reply to its outcome: the names in the order given, or, when
/// any item has no name, a malformed reply for the whole listing.
pub fn list_outcome_from(status: u16, parsed: Parsed<ListReply>) -> (r: DecodeOutcome<Vec<String>, ListReply>)
    ensures
        is_list_outcome(status, parsed, r),
{
    match parsed {
        Parsed::Reply(ListReply::Items(items)) => {
            let mut names: Vec<String> = Vec::new();
            let mut i: usize = 0;
            while i < items.len()
                invariant
                    parsed == Parsed::Reply(ListReply::Items(items)),
                    i <= items.len(),
                    names@.len() == i,
                    forall|j: int| 0 <= j < i ==> (#[trigger] items@[j]) is Some && names@[j] == items@[j]->Some_0,
                decreases items.len() - i,
            {
                match &items[i] {
                    Some(name) => names.push(name.clone()),
                    None => {
                        assert(!all_named(items@) && items@[i as int] is None);
                        let ret = DecodeOutcome::Malformed {
                            status,
                            diagnostic: String::from_str("a listed item has no name"),
                        };
                        return ret;
                    },
                }
                i += 1;
            }
            assert(names@ =~= names_of(items@));
            DecodeOutcome::Success(names)
        },
        Parsed::Reply(ListReply::Other(detail)) => DecodeOutcome::UnexpectedVariant {
            status,
            reply: ListReply::Other(detail),
        },
        Parsed::NeedMoreData => DecodeOutcome::NeedMoreData,
        Parsed::Malformed(diagnostic) => DecodeOutcome::Malformed { status, diagnostic },
    }
}

/// The outcome of decoding `body` as the reply to a pod creation.
pub open spec fn decoded_pod_create(status: u16, body: Seq<u8>) -> DecodeOutcome<(), CreateReply> {
    create_outcome(status, pod_create_parsed(status, body))
}

/// The outcome of decoding `body` as the reply to a service creation.
pub open spec fn decoded_service_create(status: u16, body: Seq<u8>) -> DecodeOutcome<(), CreateReply> {
    create_outcome(status, service_create_parsed(status, body))
}

/// The outcome of decoding `body` as the reply to a pod deletion.
pub open spec fn decoded_pod_delete(status: u16, body: Seq<u8>) -> DecodeOutcome<(), DeleteReply> {
    delete_outcome(status, pod_delete_parsed(status, body))
}

/// Decodes `body` as the reply to a pod creation.
pub fn decode_pod_create(status: u16, body: &[u8]) -> (r: DecodeOutcome<(), CreateReply>)
    requires
        valid_status(status),
    ensures
        r == decoded_pod_create(status, body@),
        (status < 200 || status > 202) ==> !(r is Success),
{
    create_outcome_from(status, parse_pod_create(status, body))
}

/// Decodes `body` as the reply to a service creation.
pub fn decode_service_create(status: u16, body: &[u8]) -> (r: DecodeOutcome<(), CreateReply>)
    requires
        valid_status(status),
    ensures
        r == decoded_service_create(status, body@),
        (status < 200 || status > 202) ==> !(r is Success),
{
    create_outcome_from(status, parse_service_create(status, body))
}

/// Decodes `body` as the reply to a pod deletion.
pub fn decode_pod_delete(status: u16, body: &[u8]) -> (r: DecodeOutcome<(), DeleteReply>)
    requires
        valid_status(status),
    ensures
        r == decoded_pod_delete(status, body@),
        status != 200 && status != 202 ==> !(r is Success),
{
    delete_outcome_from(status, parse_pod_delete(status, body))
}

/// Decodes `body` as the reply to a pod listing.
pub fn decode_pod_list(status: u16, body: &[u8]) -> (r: DecodeOutcome<Vec<String>, ListReply>)
    requires
        valid_status(status),
    ensures
        is_list_outcome(status, pod_list_parsed(status, body@), r),
        status != 200 ==> !(r is Success),
{
    list_outcome_from(status, parse_pod_list(status, body))
}

/// An incremental decode of one reply: the status, and the body bytes
/// received so far. Parsing reads the bytes and never changes them, so a
/// caller that gets `NeedMoreData` appends the next fragment and parses again.
pub struct DecodeSession {
    pub status: u16,
    pub buf: Vec<u8>,
}

impl DecodeSession {
    /// A session for a reply with `status`, with no bytes yet.
    pub fn new(status: u16) -> (r: DecodeSession)
        requires
            valid_status(status),
        ensures
            r.status == status,
            r.buf@ == Seq::<u8>::empty(),
    {
        DecodeSession { status, buf: Vec::new() }
    }

    /// Appends the next fragment of the body.
    pub fn append_slice(&mut self, bytes: &[u8])
        ensures
            final(self).status == old(self).status,
            final(self).buf@ == old(self).buf@ + bytes@,
    {
        let mut i: usize = 0;
        while i < bytes.len()
            invariant
                i <= bytes@.len(),
                self.status == old(self).status,
                self.buf@ == old(self).buf@ + bytes@.subrange(0, i as int),
            decreases bytes@.len() - i,
        {
            self.buf.push(bytes[i]);
            i += 1;
        }
        assert(bytes@.subrange(0, i as int) =~= bytes@);
    }

    /// Parses the bytes so far as the reply to a pod creation.
    pub fn parse_pod_create(&self) -> (r: DecodeOutcome<(), CreateReply>)
        requires
            valid_status(self.status),
        ensures
            r == decoded_pod_create(self.status, self.buf@),
    {
        decode_pod_create(self.status, self.buf.as_slice())
    }

    /// Parses the bytes so far as the reply to a service creation.
    pub fn parse_service_create(&self) -> (r: DecodeOutcome<(), CreateReply>)
        requires
            valid_status(self.status),
        ensures
            r == decoded_service_create(self.status, self.buf@),
    {
        decode_service_create(self.status, self.buf.as_slice())
    }

    /// Parses the bytes so far as the reply to a pod deletion.
    pub fn parse_pod_delete(&self) -> (r: DecodeOutcome<(), DeleteReply>)
        requires
            valid_status(self.status),
        ensures
            r == decoded_pod_delete(self.status, self.buf@),
    {
        decode_pod_delete(self.status, self.buf.as_slice())
    }

    /// Parses the bytes so far as the reply to a pod listing.
    pub fn parse_pod_list(&self) -> (r: DecodeOutcome<Vec<String>, ListReply>)
        requires
            valid_status(self.status),
        ensures
            is_list_outcome(self.status, pod_list_parsed(self.status, self.buf@), r),
    {
        decode_pod_list(self.status, self.buf.as_slice())
    }
}

/// Decoding depends only on the status and the bytes received: two sessions
/// that hold the same status and the same bytes (the same session parsed
/// twice, or a captured reply decoded again) reach the same outcome for every
/// operation; two listings reach the same names, or the same error with the
/// same diagnostic text.
pub proof fn lemma_decode_repeatable(
    a: DecodeSession,
    b: DecodeSession,
    la: DecodeOutcome<Vec<String>, ListReply>,
    lb: DecodeOutcome<Vec<String>, ListReply>,
)
    requires
        a.status == b.status,
        a.buf@ == b.buf@,
        is_list_outcome(a.status, pod_list_parsed(a.status, a.buf@), la),
        is_list_outcome(b.status, pod_list_parsed(b.status, b.buf@), lb),
    ensures
        decoded_pod_create(a.status, a.buf@) == decoded_pod_create(b.status, b.buf@),
        decoded_service_create(a.status, a.buf@) == decoded_service_create(b.status, b.buf@),
        decoded_pod_delete(a.status, a.buf@) == decoded_pod_delete(b.status, b.buf@),
        list_outcome_view(la) == list_outcome_view(lb),
{
}

/// A deletion reply succeeds in each of its three success shapes (a status
/// object, the deleted value, an accepted status object), and any other
/// shape is an unexpected variant carrying the status.
pub proof fn lemma_delete_success_shapes(status: u16, parsed: Parsed<DeleteReply>)
    ensures
        parsed matches Parsed::Reply(DeleteReply::OkStatus) ==> (delete_outcome(status, parsed) is Success),
        parsed matches Parsed::Reply(DeleteReply::OkValue) ==> (delete_outcome(status, parsed) is Success),
        parsed matches Parsed::Reply(DeleteReply::Accepted) ==> (delete_outcome(status, parsed) is Success),
        parsed matches Parsed::Reply(DeleteReply::Other(d)) ==> delete_outcome(status, parsed)
            == (DecodeOutcome::<(), DeleteReply>::UnexpectedVariant { status, reply: DeleteReply::Other(d) }),
        (delete_outcome(status, parsed) is Success) ==> (parsed is Reply),
{
}

/// A listing keeps the order of the control plane's items, and fails as a
/// whole, with no names at all, when any item has no name.
pub proof fn lemma_list_order_all_or_nothing(
    status: u16,
    items: Vec<Option<String>>,
    r: DecodeOutcome<Vec<String>, ListReply>,
)
    requires
        is_list_outcome(status, Parsed::Reply(ListReply::Items(items)), r),
    ensures
        all_named(items@) ==> (r matches DecodeOutcome::Success(names) && names@.len() == items@.len()
            && forall|i: int| 0 <= i < items@.len() ==> items@[i] == Some(#[trigger] names@[i])),
        !all_named(items@) ==> (r is Malformed),
{
}

} // verus!
