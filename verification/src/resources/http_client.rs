use vstd::prelude::*;
use vstd::string::StringExecFns;
use crate::error::WatchtowerError;
use crate::resources::instance_info::InstanceInfo;
use crate::resources::load_balancer::round_robin::successor;
use crate::resources::load_balancer::{LoadBalancer, RoundRobinLoadBalancer, RoundRobinView};

verus! {

/// The number of tries that one operation may spend.
pub const MAX_ATTEMPT: u16 = 3;

/// The status with which the registry answers a renewal, a cancellation or
/// a listing that it has carried out.
pub const STATUS_OK: u16 = 200;

/// The status with which the registry answers a registration that it has
/// carried out.
pub const STATUS_NO_CONTENT: u16 = 204;

/// The status with which the registry rejects the credentials.
pub const STATUS_UNAUTHORIZED: u16 = 401;

/// The status with which the registry says that it does not know the
/// service or the instance.
pub const STATUS_NOT_FOUND: u16 = 404;

/// The method of a request to the registry.
#[derive(Debug, Clone, Copy, PartialEq, Eq, Structural)]
pub enum Method {
    Post,
    Put,
    Delete,
    Get,
}

/// One logical operation on the registry, with the instance that it asserts
/// or withdraws.
#[derive(Debug)]
pub enum Operation {
    Register(InstanceInfo),
    Renew(InstanceInfo),
    Cancel(InstanceInfo),
    List,
}

impl Clone for Operation {
    fn clone(&self) -> (copy: Self)
        ensures
            copy == *self,
    {
        match self {
            Operation::Register(instance) => Operation::Register(instance.clone()),
            Operation::Renew(instance) => Operation::Renew(instance.clone()),
            Operation::Cancel(instance) => Operation::Cancel(instance.clone()),
            Operation::List => Operation::List,
        }
    }
}

/// What came of one try: a response with its status, or no response at all
/// (connection refused, timeout, name not resolved).
#[derive(Debug, Clone, Copy, PartialEq, Eq, Structural)]
pub enum Reply {
    Status(u16),
    Unreachable,
}

/// What one try means for the operation that made it.
#[derive(Debug, Clone, Copy, PartialEq, Eq, Structural)]
pub enum Verdict {
    /// The registry has carried the operation out.
    Success,
    /// The credentials were rejected: the operation ends, nothing is retried.
    Unauthorized,
    /// The registry does not know the service that was to be listed.
    NotFound,
    /// The registry no longer tracks the instance that was to be renewed:
    /// the instance is registered anew.
    Reregister,
    /// The endpoint did not answer: the try is counted and the next one goes
    /// to the next endpoint.
    Rotate,
    /// The endpoint answered with a status that means nothing here: the try
    /// is counted and the next one goes to the same endpoint.
    Again,
}

/// An operation in flight: what is asked, of which endpoint, and how many
/// tries have failed so far.
#[derive(Debug)]
pub struct Call {
    pub operation: Operation,
    pub service_id: String,
    pub base_url: String,
    pub attempt: u16,
}

/// One request to the registry, in plain values: the method and the
/// address, the credentials for basic authentication, and the record to
/// send, if any. A record is sent as JSON, under the content type named.
#[derive(Debug)]
pub struct Request {
    pub method: Method,
    pub url: String,
    pub username: String,
    pub password: String,
    pub content_type: Option<String>,
    pub body: Option<InstanceInfo>,
}

/// What is to happen after a try.
#[derive(Debug)]
pub enum Step {
    /// Send the request of this call and report what comes of it.
    Send(Call),
    /// The response in hand lists the instances: decode its body. A body
    /// that does not decode ends the listing with the error that the
    /// decoder's own error converts to.
    Decode,
    /// The operation is over.
    Done(Result<(), WatchtowerError>),
}

/// The status that tells that the registry has carried `operation` out.
pub open spec fn success_status(operation: Operation) -> u16 {
    match operation {
        Operation::Register(_) => STATUS_NO_CONTENT,
        _ => STATUS_OK,
    }
}

/// What `reply` means for `operation`.
pub open spec fn verdict_of(operation: Operation, reply: Reply) -> Verdict {
    match reply {
        Reply::Unreachable => Verdict::Rotate,
        Reply::Status(status) => {
            if status == success_status(operation) {
                Verdict::Success
            } else if status == STATUS_UNAUTHORIZED {
                Verdict::Unauthorized
            } else if status == STATUS_NOT_FOUND && operation is Renew {
                Verdict::Reregister
            } else if status == STATUS_NOT_FOUND && operation is List {
                Verdict::NotFound
            } else {
                Verdict::Again
            }
        },
    }
}

/// The method by which `operation` is asked of the registry.
pub open spec fn method_of(operation: Operation) -> Method {
    match operation {
        Operation::Register(_) => Method::Post,
        Operation::Renew(_) => Method::Put,
        Operation::Cancel(_) => Method::Delete,
        Operation::List => Method::Get,
    }
}

/// The record that a request for `operation` carries.
pub open spec fn body_of(operation: Operation) -> Option<InstanceInfo> {
    match operation {
        Operation::Register(instance) => Some(instance),
        _ => None,
    }
}

/// The content type that a request for `operation` names: that of JSON
/// where it carries a record.
pub open spec fn content_type_of(operation: Operation) -> Option<Seq<char>> {
    match operation {
        Operation::Register(_) => Some("application/json"@),
        _ => None,
    }
}

/// The address of the service, or of one of its instances, at the endpoint
/// `base_url`.
pub open spec fn url_of(base_url: Seq<char>, service_id: Seq<char>, operation: Operation) -> Seq<
    char,
> {
    let service = base_url + "/api/v1/services/"@ + service_id;
    match operation {
        Operation::Renew(instance) => service + "/"@ + instance.instance_id@,
        Operation::Cancel(instance) => service + "/"@ + instance.instance_id@,
        _ => service,
    }
}

/// The step that follows when the try of `call` ended in `reply`, where
/// `next_url` is the endpoint that the selector hands out next.
pub open spec fn next_step(call: Call, reply: Reply, next_url: String) -> Step {
    match verdict_of(call.operation, reply) {
        Verdict::Success => {
            if call.operation is List {
                Step::Decode
            } else {
                Step::Done(Ok(()))
            }
        },
        Verdict::Unauthorized => Step::Done(Err(WatchtowerError::Unauthorized)),
        Verdict::NotFound => Step::Done(Err(WatchtowerError::NotFound)),
        Verdict::Reregister => Step::Send(
            Call {
                operation: Operation::Register(call.operation->Renew_0),
                service_id: call.service_id,
                base_url: next_url,
                attempt: 0,
            },
        ),
        Verdict::Rotate => {
            if call.attempt + 1 >= MAX_ATTEMPT {
                Step::Done(Err(WatchtowerError::MaxRetryReached))
            } else {
                Step::Send(
                    Call {
                        operation: call.operation,
                        service_id: call.service_id,
                        base_url: next_url,
                        attempt: (call.attempt + 1) as u16,
                    },
                )
            }
        },
        Verdict::Again => {
            if call.attempt + 1 >= MAX_ATTEMPT {
                Step::Done(Err(WatchtowerError::MaxRetryReached))
            } else {
                Step::Send(
                    Call {
                        operation: call.operation,
                        service_id: call.service_id,
                        base_url: call.base_url,
                        attempt: (call.attempt + 1) as u16,
                    },
                )
            }
        },
    }
}

/// Whether the selector of the endpoints moves on after a try with this
/// verdict.
pub open spec fn selects_next_endpoint(verdict: Verdict) -> bool {
    verdict is Rotate || verdict is Reregister
}

/// Says what `reply` means for `operation`.
pub fn classify(operation: &Operation, reply: Reply) -> (verdict: Verdict)
    ensures
        verdict == verdict_of(*operation, reply),
{
    match reply {
        Reply::Unreachable => Verdict::Rotate,
        Reply::Status(status) => {
            let expected = match operation {
                Operation::Register(_) => STATUS_NO_CONTENT,
                _ => STATUS_OK,
            };
            if status == expected {
                Verdict::Success
            } else if status == STATUS_UNAUTHORIZED {
                Verdict::Unauthorized
            } else if status == STATUS_NOT_FOUND {
                match operation {
                    Operation::Renew(_) => Verdict::Reregister,
                    Operation::List => Verdict::NotFound,
                    _ => Verdict::Again,
                }
            } else {
                Verdict::Again
            }
        },
    }
}

impl Call {
    /// The number of the try in flight, counted from 1.
    pub open spec fn spec_tries(&self) -> nat {
        (self.attempt + 1) as nat
    }

    /// The most replies that this call can still take before the operation
    /// is over: the rest of its own budget, and for a renewal the budget of
    /// the registration that may take its place.
    pub open spec fn remaining_tries(&self) -> nat {
        let own: nat = if self.attempt + 1 < MAX_ATTEMPT {
            (MAX_ATTEMPT - self.attempt) as nat
        } else {
            1
        };
        if self.operation is Renew {
            own + MAX_ATTEMPT as nat
        } else {
            own
        }
    }

    /// The number of the try in flight, counted from 1.
    pub fn tries(&self) -> (tries: u32)
        ensures
            tries == self.spec_tries(),
    {
        let failed: u32 = self.attempt.into();
        failed + 1
    }
}

/// The state of the registry transport.
pub struct HttpClientView {
    pub urls: Seq<String>,
    pub username: Seq<char>,
    pub password: Seq<char>,
    pub selector: RoundRobinView,
}

/// The transport to the registry: the configured endpoints, the
/// credentials, and the selector that all operations share. It decides what
/// to send and what a reply means; sending is left to its user.
pub struct HttpClient {
    urls: Vec<String>,
    username: String,
    password: String,
    load_balancer: RoundRobinLoadBalancer,
}

impl View for HttpClient {
    type V = HttpClientView;

    closed spec fn view(&self) -> HttpClientView {
        HttpClientView {
            urls: self.urls@,
            username: self.username@,
            password: self.password@,
            selector: self.load_balancer@,
        }
    }
}

impl HttpClientView {
    /// There is at least one endpoint, and the selector runs over the
    /// endpoints.
    pub open spec fn wf(self) -> bool {
        &&& self.urls.len() >= 1
        &&& self.selector.wf()
        &&& self.selector.size == self.urls.len()
    }

    /// This state after the selector has moved on by one.
    pub open spec fn rotated(self) -> Self {
        HttpClientView { selector: self.selector.advanced(), ..self }
    }

    /// The endpoint at which the selector stands.
    pub open spec fn current_url(self) -> String
        recommends
            self.wf(),
    {
        self.urls[self.selector.index as int]
    }

    /// The call that opens `operation` on `service_id`, made from this
    /// state, which is the state after the selector has moved.
    pub open spec fn opens(self, call: Call, operation: Operation, service_id: Seq<char>) -> bool {
        &&& call.operation == operation
        &&& call.service_id@ == service_id
        &&& call.base_url == self.current_url()
        &&& call.attempt == 0
    }
}

impl HttpClient {
    /// Every transport has an endpoint, and its selector runs over its
    /// endpoints.
    #[verifier::type_invariant]
    pub open spec fn inv(&self) -> bool {
        self@.wf()
    }

    /// A transport over the endpoints `urls`, of which there is at least
    /// one, with a selector that starts at a random endpoint.
    pub fn new(urls: Vec<String>, username: String, password: String) -> (client: Self)
        requires
            urls@.len() >= 1,
        ensures
            client@.wf(),
            client@.urls == urls@,
            client@.username == username@,
            client@.password == password@,
    {
        let load_balancer = RoundRobinLoadBalancer::new(urls.len());
        HttpClient { urls, username, password, load_balancer }
    }

    /// Moves the selector on by one and returns the endpoint that it then
    /// stands at.
    pub fn get_new_url(&mut self) -> (url: String)
        ensures
            old(self)@.wf(),
            final(self)@.wf(),
            final(self)@ == old(self)@.rotated(),
            url == final(self)@.current_url(),
    {
        proof {
            use_type_invariant(&*self);
        }
        let mut balancer = self.load_balancer;
        let index = match balancer.get_next_index() {
            Ok(index) => index,
            Err(_) => 0,
        };
        self.load_balancer = balancer;
        self.urls[index].clone()
    }

    /// Opens the registration of `instance_info` under `service_id`: the
    /// selector moves on, and the first try goes to the endpoint it then
    /// stands at.
    pub fn register(&mut self, service_id: &str, instance_info: &InstanceInfo) -> (call: Call)
        ensures
            final(self)@.wf(),
            final(self)@ == old(self)@.rotated(),
            final(self)@.opens(call, Operation::Register(*instance_info), service_id@),
    {
        let base_url = self.get_new_url();
        Call {
            operation: Operation::Register(instance_info.clone()),
            service_id: String::from_str(service_id),
            base_url,
            attempt: 0,
        }
    }

    /// Opens the renewal of the lease of `instance_info` under
    /// `service_id`: the selector moves on, and the first try goes to the
    /// endpoint it then stands at.
    pub fn renew(&mut self, service_id: &str, instance_info: &InstanceInfo) -> (call: Call)
        ensures
            final(self)@.wf(),
            final(self)@ == old(self)@.rotated(),
            final(self)@.opens(call, Operation::Renew(*instance_info), service_id@),
    {
        let base_url = self.get_new_url();
        Call {
            operation: Operation::Renew(instance_info.clone()),
            service_id: String::from_str(service_id),
            base_url,
            attempt: 0,
        }
    }

    /// Opens the cancellation of the lease of `instance_info` under
    /// `service_id`: the selector moves on, and the first try goes to the
    /// endpoint it then stands at.
    pub fn cancel(&mut self, service_id: &str, instance_info: &InstanceInfo) -> (call: Call)
        ensures
            final(self)@.wf(),
            final(self)@ == old(self)@.rotated(),
            final(self)@.opens(call, Operation::Cancel(*instance_info), service_id@),
    {
        let base_url = self.get_new_url();
        Call {
            operation: Operation::Cancel(instance_info.clone()),
            service_id: String::from_str(service_id),
            base_url,
            attempt: 0,
        }
    }

    /// Opens the listing of the instances of `service_id`: the selector
    /// moves on, and the first try goes to the endpoint it then stands at.
    pub fn get_all_instances(&mut self, service_id: &str) -> (call: Call)
        ensures
            final(self)@.wf(),
            final(self)@ == old(self)@.rotated(),
            final(self)@.opens(call, Operation::List, service_id@),
    {
        let base_url = self.get_new_url();
        Call {
            operation: Operation::List,
            service_id: String::from_str(service_id),
            base_url,
            attempt: 0,
        }
    }

    /// The request that the try in flight of `call` consists of.
    pub fn request(&self, call: &Call) -> (request: Request)
        ensures
            request.method == method_of(call.operation),
            request.url@ == url_of(call.base_url@, call.service_id@, call.operation),
            request.username@ == self@.username,
            request.password@ == self@.password,
            match request.content_type {
                Some(name) => content_type_of(call.operation) == Some(name@),
                None => content_type_of(call.operation) is None,
            },
            request.body == body_of(call.operation),
    {
        let mut url = call.base_url.clone();
        url.append("/api/v1/services/");
        url.append(call.service_id.as_str());
        let (method, content_type, body) = match &call.operation {
            Operation::Register(instance) => (
                Method::Post,
                Some(String::from_str("application/json")),
                Some(instance.clone()),
            ),
            Operation::Renew(instance) => {
                url.append("/");
                url.append(instance.instance_id.as_str());
                (Method::Put, None, None)
            },
            Operation::Cancel(instance) => {
                url.append("/");
                url.append(instance.instance_id.as_str());
                (Method::Delete, None, None)
            },
            Operation::List => (Method::Get, None, None),
        };
        Request {
            method,
            url,
            username: self.username.clone(),
            password: self.password.clone(),
            content_type,
            body,
        }
    }

    /// Takes in what came of the try of `call` and says what follows. A
    /// success, rejected credentials and an unknown service end the
    /// operation at once. Every other reply is counted against the budget of
    /// `MAX_ATTEMPT` tries; when the budget is spent the operation ends with
    /// `MaxRetryReached`. The selector moves on after a try that got no
    /// answer, and before the registration that takes the place of a
    /// renewal whose instance the registry no longer tracks.
    pub fn advance(&mut self, call: Call, reply: Reply) -> (step: Step)
        ensures
            final(self)@.wf(),
            selects_next_endpoint(verdict_of(call.operation, reply)) ==> final(self)@ == old(
                self,
            )@.rotated(),
            !selects_next_endpoint(verdict_of(call.operation, reply)) ==> final(self)@ == old(
                self,
            )@,
            step == next_step(call, reply, final(self)@.current_url()),
    {
        proof {
            use_type_invariant(&*self);
        }
        match classify(&call.operation, reply) {
            Verdict::Success => match call.operation {
                Operation::List => Step::Decode,
                _ => Step::Done(Ok(())),
            },
            Verdict::Unauthorized => Step::Done(Err(WatchtowerError::Unauthorized)),
            Verdict::NotFound => Step::Done(Err(WatchtowerError::NotFound)),
            Verdict::Reregister => {
                let base_url = self.get_new_url();
                match call.operation {
                    Operation::Renew(instance) => Step::Send(
                        Call {
                            operation: Operation::Register(instance),
                            service_id: call.service_id,
                            base_url,
                            attempt: 0,
                        },
                    ),
                    _ => Step::Done(Err(WatchtowerError::InternalError)),
                }
            },
            Verdict::Rotate => {
                let base_url = self.get_new_url();
                if call.attempt >= MAX_ATTEMPT - 1 {
                    Step::Done(Err(WatchtowerError::MaxRetryReached))
                } else {
                    Step::Send(
                        Call {
                            operation: call.operation,
                            service_id: call.service_id,
                            base_url,
                            attempt: call.attempt + 1,
                        },
                    )
                }
            },
            Verdict::Again => {
                if call.attempt >= MAX_ATTEMPT - 1 {
                    Step::Done(Err(WatchtowerError::MaxRetryReached))
                } else {
                    Step::Send(
                        Call {
                            operation: call.operation,
                            service_id: call.service_id,
                            base_url: call.base_url,
                            attempt: call.attempt + 1,
                        },
                    )
                }
            },
        }
    }
}

/// Where an operation stands after the tries of `call` and of the calls
/// that followed it have ended in `replies`, one after the other, where
/// `endpoints(i)` is the endpoint that the selector would hand out after
/// reply `i`. Replies that come after the operation is over are not looked
/// at.
pub open spec fn run(call: Call, replies: Seq<Reply>, endpoints: spec_fn(int) -> String) -> Step
    decreases replies.len(),
{
    if replies.len() == 0 {
        Step::Send(call)
    } else {
        match run(call, replies.drop_last(), endpoints) {
            Step::Send(next) => next_step(next, replies.last(), endpoints(replies.len() - 1)),
            over => over,
        }
    }
}

/// Every try is counted: a call that follows another has fewer tries left
/// than the one before it.
pub proof fn law_each_try_is_counted(call: Call, reply: Reply, next_url: String)
    ensures
        next_step(call, reply, next_url) matches Step::Send(next) ==> next.remaining_tries()
            < call.remaining_tries(),
{
}

/// No operation goes on for ever: once as many replies have come in as the
/// first call had tries left, the operation is over. That is after
/// `MAX_ATTEMPT` replies at the latest, and after twice as many for a
/// renewal, which may turn into a registration.
pub proof fn law_operations_end(call: Call, replies: Seq<Reply>, endpoints: spec_fn(int) -> String)
    requires
        replies.len() >= call.remaining_tries(),
    ensures
        !(run(call, replies, endpoints) is Send),
        call.attempt == 0 ==> call.remaining_tries() <= 2 * MAX_ATTEMPT,
        call.attempt == 0 && !(call.operation is Renew) ==> call.remaining_tries() == MAX_ATTEMPT,
{
    lemma_run_spends_budget(call, replies, endpoints);
}

/// While an operation is not over, the call in flight has at least one try
/// left, and every reply so far has cost one.
proof fn lemma_run_spends_budget(call: Call, replies: Seq<Reply>, endpoints: spec_fn(int) -> String)
    ensures
        run(call, replies, endpoints) matches Step::Send(next) ==> next.remaining_tries()
            + replies.len() <= call.remaining_tries() && next.remaining_tries() >= 1,
    decreases replies.len(),
{
    if replies.len() > 0 {
        lemma_run_spends_budget(call, replies.drop_last(), endpoints);
    }
}

/// Where no endpoint answers, an operation is over after exactly
/// `MAX_ATTEMPT` tries, and fails with `MaxRetryReached`.
pub proof fn law_unanswered_tries_exhaust_budget(
    call: Call,
    replies: Seq<Reply>,
    endpoints: spec_fn(int) -> String,
)
    requires
        call.attempt == 0,
        forall|i: int| 0 <= i < replies.len() ==> replies[i] == Reply::Unreachable,
    ensures
        replies.len() < MAX_ATTEMPT ==> (run(call, replies, endpoints) matches Step::Send(next)
            && next.attempt == replies.len() && next.operation == call.operation
            && next.service_id == call.service_id),
        replies.len() >= MAX_ATTEMPT ==> run(call, replies, endpoints) == Step::Done(
            Err(WatchtowerError::MaxRetryReached),
        ),
    decreases replies.len(),
{
    if replies.len() > 0 {
        law_unanswered_tries_exhaust_budget(call, replies.drop_last(), endpoints);
    }
}

/// A renewal that finds the instance gone is followed by the registration
/// of the same instance under the same service, with a budget of its own;
/// and where the registry accepts that registration, the operation has
/// succeeded.
pub proof fn law_lost_lease_is_registered_anew(call: Call, first_url: String, second_url: String)
    requires
        call.operation is Renew,
    ensures
        next_step(call, Reply::Status(STATUS_NOT_FOUND), first_url) matches Step::Send(next)
            && next.operation == Operation::Register(call.operation->Renew_0) && next.service_id
            == call.service_id && next.base_url == first_url && next.attempt == 0 && next_step(
            next,
            Reply::Status(STATUS_NO_CONTENT),
            second_url,
        ) == Step::Done(Ok(())),
{
}

/// With two endpoints, the try that follows one that got no answer goes to
/// the other endpoint.
pub proof fn law_failover_reaches_other_endpoint(transport: HttpClientView)
    requires
        transport.wf(),
        transport.urls.len() == 2,
    ensures
        transport.rotated().wf(),
        transport.rotated().selector.index == 1 - transport.selector.index,
{
    assert(1nat % 2nat == 1 && 2nat % 2nat == 0);
}

} // verus!
