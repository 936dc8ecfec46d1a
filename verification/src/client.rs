use vstd::prelude::*;
use vstd::string::StringExecFns;
use crate::cache::{address_of, refetches, ServiceCache};
use crate::error::WatchtowerError;
use crate::registration::{holds_instance, Registration};
use crate::resources::http_client::{
    body_of, content_type_of, method_of, next_step, selects_next_endpoint, url_of, verdict_of,
    Call, HttpClient, HttpClientView, Operation, Reply, Request, Step,
};
use crate::resources::instance_info::InstanceInfo;
use crate::resources::load_balancer::round_robin::index_after;
use crate::resources::service::{Service, ServiceView, UPDATE_INTERVAL};
use crate::utils::time::get_time_since_epoch;

verus! {

/// The seconds between two heartbeats of a registration.
pub const HEARTBEAT_INTERVAL_SEC: u64 = 15;

/// What a lookup comes to: the address of an instance from the cache, or
/// the listing that has to be made before the lookup can be answered.
#[derive(Debug)]
pub enum Resolution {
    Url(String),
    Fetch(Call),
}

/// The state of a client as plain values: the transport, the cached
/// services by their identifiers, and the registration if there is one.
pub struct WatchtowerClientView {
    pub transport: HttpClientView,
    pub services: Map<Seq<char>, ServiceView>,
    pub registration: Option<(Seq<char>, InstanceInfo)>,
}

/// A client of the registry in one hand: the transport, the cache and the
/// registration, each of which can also be held on its own. It holds at
/// most one registration at a time, and caches the instances of the
/// services it has looked up. It decides and keeps the books; every
/// exchange with the registry comes back as a `Call` for its user to carry
/// out.
pub struct WatchtowerClient {
    http_client: HttpClient,
    services: ServiceCache,
    instance_info: Registration,
}

/// Draws a fresh identifier with `uuid::Uuid::new_v4` and writes it out as
/// `Display` does: the hyphenated form, which is 36 characters long. Which
/// identifier comes is left open.
#[verifier::external_body]
fn new_instance_id() -> (id: String)
    ensures
        id@.len() == 36,
{
    uuid::Uuid::new_v4().to_string()
}

impl View for WatchtowerClient {
    type V = WatchtowerClientView;

    closed spec fn view(&self) -> WatchtowerClientView {
        WatchtowerClientView {
            transport: self.http_client@,
            services: self.services@,
            registration: self.instance_info@,
        }
    }
}

impl WatchtowerClientView {
    /// Whether the cache holds a list for `service_id` that is not out of
    /// date at the second `now`.
    pub open spec fn fresh_at(self, service_id: Seq<char>, now: u64) -> bool {
        self.services.contains_key(service_id) && !self.services[service_id].expired_at(now)
    }

    /// Whether `instance_id` names the instance that is registered now.
    pub open spec fn is_live(self, instance_id: Seq<char>) -> bool {
        holds_instance(self.registration, instance_id)
    }

    /// This state after the transport's selector has moved on by one.
    pub open spec fn rotated(self) -> Self {
        WatchtowerClientView { transport: self.transport.rotated(), ..self }
    }

    /// This state with `instance` registered under `service_id`.
    pub open spec fn registered(self, service_id: Seq<char>, instance: InstanceInfo) -> Self {
        WatchtowerClientView { registration: Some((service_id, instance)), ..self }
    }

    /// This state with nothing registered.
    pub open spec fn unregistered(self) -> Self {
        WatchtowerClientView { registration: None, ..self }
    }

    /// This state after a lookup of `service_id` that the cache answered:
    /// the selector of the entry has moved on by one.
    pub open spec fn answered(self, service_id: Seq<char>) -> Self {
        WatchtowerClientView {
            services: self.services.insert(service_id, self.services[service_id].advanced()),
            ..self
        }
    }

    /// This state after `lookups` lookups of `service_id` in a row that the
    /// cache answered.
    pub open spec fn answered_times(self, service_id: Seq<char>, lookups: nat) -> Self
        decreases lookups,
    {
        if lookups == 0 {
            self
        } else {
            self.answered_times(service_id, (lookups - 1) as nat).answered(service_id)
        }
    }

    /// What registering an instance at `ip_addr` and `port` under
    /// `service_id` does to the state `self`, and what it returns. Where a
    /// registration is active the call fails and nothing changes. Else a
    /// record with a fresh identifier of 36 characters is entered, and its
    /// registration with the registry is opened.
    pub open spec fn registers(
        self,
        service_id: Seq<char>,
        ip_addr: Seq<char>,
        port: u16,
        after: Self,
        call: Result<Call, WatchtowerError>,
    ) -> bool {
        match self.registration {
            Some(_) => after == self && call == Err::<Call, WatchtowerError>(
                WatchtowerError::InstanceAlreadyRegistered,
            ),
            None => {
                &&& after.registration matches Some((id, instance))
                &&& call matches Ok(call)
                &&& id == service_id
                &&& instance.instance_id@.len() == 36
                &&& instance.ip_addr@ == ip_addr
                &&& instance.port == port
                &&& after == self.rotated().registered(service_id, instance)
                &&& after.transport.opens(call, Operation::Register(instance), service_id)
            },
        }
    }

    /// What a lookup of `service_id` at the second `now` does to the state
    /// `self`, and what it returns. A fresh entry answers from the cache:
    /// its selector moves on, and no call is opened. Else a listing is
    /// opened, and the cache stays as it is.
    pub open spec fn resolves(
        self,
        service_id: Seq<char>,
        now: u64,
        after: Self,
        resolution: Result<Resolution, WatchtowerError>,
    ) -> bool {
        &&& after.registration == self.registration
        &&& self.fresh_at(service_id, now) ==> {
            &&& after == self.answered(service_id)
            &&& match self.services[service_id].pick() {
                Ok(instance) => resolution matches Ok(Resolution::Url(url)) && url@ == address_of(
                    instance,
                ),
                Err(error) => resolution == Err::<Resolution, WatchtowerError>(error),
            }
        }
        &&& !self.fresh_at(service_id, now) ==> {
            &&& after.transport == self.transport.rotated()
            &&& after.services == self.services
            &&& resolution matches Ok(Resolution::Fetch(call)) && after.transport.opens(
                call,
                Operation::List,
                service_id,
            )
        }
    }

    /// What taking in the outcome of a listing of `service_id` at the second
    /// `now` does to the state `self`, and what it returns: what it does to
    /// the cache, and nothing else.
    pub open spec fn refetches(
        self,
        service_id: Seq<char>,
        outcome: Result<Vec<InstanceInfo>, WatchtowerError>,
        now: u64,
        after: Self,
        url: Result<String, WatchtowerError>,
    ) -> bool {
        &&& after.transport == self.transport
        &&& after.registration == self.registration
        &&& refetches(self.services, service_id, outcome, now, after.services, url)
    }

    /// What caching `service` under `service_id` does to the state `self`,
    /// and what it returns: the first selection of the new entry, which
    /// takes the place of any older entry. A service without instances is
    /// not cached.
    pub open spec fn caches(
        self,
        service_id: Seq<char>,
        service: ServiceView,
        after: Self,
        url: Result<String, WatchtowerError>,
    ) -> bool {
        match service.pick() {
            Ok(instance) => {
                &&& after == WatchtowerClientView {
                    services: self.services.insert(service_id, service.advanced()),
                    ..self
                }
                &&& url matches Ok(url) && url@ == address_of(instance)
            },
            Err(error) => after == self && url == Err::<String, WatchtowerError>(error),
        }
    }
}

impl WatchtowerClientView {
    /// The life of a registration. Entering one leaves it in place; what
    /// the other operations do to the transport does not touch it; and
    /// clearing it leaves nothing registered, so that the next registration
    /// is accepted. Neither touches the cache.
    pub proof fn law_registration_lifecycle(self, service_id: Seq<char>, instance: InstanceInfo)
        ensures
            self.registered(service_id, instance).registration == Some((service_id, instance)),
            self.registered(service_id, instance).is_live(instance.instance_id@),
            self.rotated().registration == self.registration,
            self.unregistered().registration is None,
            !self.unregistered().is_live(instance.instance_id@),
            self.registered(service_id, instance).services == self.services,
            self.unregistered().services == self.services,
            self.unregistered().transport == self.transport,
    {
    }

    /// Lookups that the cache answers go round the listed instances and
    /// open no call. After `lookups` of them in a row the transport is as
    /// it was, the entry is still fresh, and the next lookup returns the
    /// instance `lookups + 1` places after the selector's first place,
    /// counted round the list. So in a list of two or more, two lookups in a
    /// row are answered from different places; and the lookup that comes
    /// as many lookups later as the list is long returns the same instance
    /// again.
    pub proof fn law_cached_lookups_go_round(self, service_id: Seq<char>, now: u64, lookups: nat)
        requires
            self.fresh_at(service_id, now),
            self.services[service_id].wf(),
            self.services[service_id].instances.len() >= 1,
        ensures
            self.answered_times(service_id, lookups).transport == self.transport,
            self.answered_times(service_id, lookups).registration == self.registration,
            self.answered_times(service_id, lookups).fresh_at(service_id, now),
            self.answered_times(service_id, lookups).services[service_id]
                == self.services[service_id].advanced_by(lookups),
            self.answered_times(service_id, lookups).services[service_id].pick() == Ok::<
                InstanceInfo,
                WatchtowerError,
            >(
                self.services[service_id].instances[index_after(
                    self.services[service_id].selector.index,
                    self.services[service_id].instances.len(),
                    lookups + 1,
                ) as int],
            ),
            self.services[service_id].instances.len() >= 2 ==> index_after(
                self.services[service_id].selector.index,
                self.services[service_id].instances.len(),
                lookups + 1,
            ) != index_after(
                self.services[service_id].selector.index,
                self.services[service_id].instances.len(),
                lookups + 2,
            ),
            self.answered_times(
                service_id,
                lookups + self.services[service_id].instances.len(),
            ).services[service_id].pick() == self.answered_times(
                service_id,
                lookups,
            ).services[service_id].pick(),
        decreases lookups,
    {
        let entry = self.services[service_id];
        let n = entry.instances.len();
        self.lemma_answered_times(service_id, lookups);
        self.lemma_answered_times(service_id, lookups + n);
        entry.law_selections_go_round(lookups);
    }

    /// Answered lookups move the selector of the entry and nothing else.
    proof fn lemma_answered_times(self, service_id: Seq<char>, lookups: nat)
        requires
            self.services.contains_key(service_id),
            self.services[service_id].wf(),
            self.services[service_id].instances.len() >= 1,
        ensures
            self.answered_times(service_id, lookups) == (WatchtowerClientView {
                services: self.services.insert(
                    service_id,
                    self.services[service_id].advanced_by(lookups),
                ),
                ..self
            }),
        decreases lookups,
    {
        let entry = self.services[service_id];
        if lookups == 0 {
            assert(entry.advanced_by(0) == entry);
            assert(self.services.insert(service_id, entry) =~= self.services);
        } else {
            let before = (lookups - 1) as nat;
            self.lemma_answered_times(service_id, before);
            entry.law_selections_go_round(before);
            assert(self.services.insert(service_id, entry.advanced_by(before)).insert(
                service_id,
                entry.advanced_by(lookups),
            ) =~= self.services.insert(service_id, entry.advanced_by(lookups)));
        }
    }

    /// A list that was fetched at the second `now` answers the lookups of
    /// the seconds `now` to `now + UPDATE_INTERVAL - 1`, without a call to
    /// the registry; the lookup at the second `now + UPDATE_INTERVAL`, and
    /// every later one, opens a new listing.
    pub proof fn law_fetched_entry_answers_for_the_interval(
        self,
        service_id: Seq<char>,
        outcome: Result<Vec<InstanceInfo>, WatchtowerError>,
        now: u64,
        fetched: Self,
        url: Result<String, WatchtowerError>,
        later: u64,
        after: Self,
        resolution: Result<Resolution, WatchtowerError>,
    )
        requires
            self.refetches(service_id, outcome, now, fetched, url),
            url is Ok,
            later >= now,
            fetched.resolves(service_id, later, after, resolution),
        ensures
            fetched.services[service_id].last_updated == now,
            fetched.services[service_id].instances == outcome->Ok_0@,
            fetched.fresh_at(service_id, later) <==> later - now < UPDATE_INTERVAL,
            later - now < UPDATE_INTERVAL ==> after.transport == fetched.transport
                && resolution matches Ok(Resolution::Url(_)),
            later - now >= UPDATE_INTERVAL ==> after.services == fetched.services
                && resolution matches Ok(Resolution::Fetch(_)),
    {
        if later - now < UPDATE_INTERVAL {
            let entry = fetched.services[service_id];
            entry.law_selections_go_round(0);
            assert(entry.advanced_by(0) == entry);
        }
    }

    /// An entry that is out of date is not used: the lookup opens a listing
    /// and leaves the cache as it is; and the service that is cached when
    /// the listing has come in takes the place of the entry.
    pub proof fn law_stale_entry_is_fetched_anew(
        self,
        service_id: Seq<char>,
        now: u64,
        after: Self,
        resolution: Result<Resolution, WatchtowerError>,
        service: ServiceView,
        stored: Self,
        url: Result<String, WatchtowerError>,
    )
        requires
            self.services.contains_key(service_id),
            now - self.services[service_id].last_updated >= UPDATE_INTERVAL,
            self.resolves(service_id, now, after, resolution),
            after.caches(service_id, service, stored, url),
        ensures
            resolution matches Ok(Resolution::Fetch(call)) && call.operation is List
                && call.service_id@ == service_id,
            after.transport == self.transport.rotated(),
            after.services == self.services,
            url is Ok ==> stored.services[service_id] == service.advanced(),
            url is Ok ==> stored.services.dom() == self.services.dom(),
    {
        if url is Ok {
            assert(stored.services.dom() =~= self.services.dom());
        }
    }
}

impl WatchtowerClient {
    /// A client of the registry at the endpoints `watchtower_urls`, of which
    /// there is at least one. Nothing is registered and nothing is cached.
    pub fn new(watchtower_urls: Vec<String>, username: &str, password: &str) -> (client: Self)
        requires
            watchtower_urls@.len() >= 1,
        ensures
            client@.transport.wf(),
            client@.transport.urls == watchtower_urls@,
            client@.transport.username == username@,
            client@.transport.password == password@,
            client@.services == Map::<Seq<char>, ServiceView>::empty(),
            client@.registration is None,
    {
        let http_client = HttpClient::new(
            watchtower_urls,
            String::from_str(username),
            String::from_str(password),
        );
        WatchtowerClient {
            http_client,
            services: ServiceCache::new(),
            instance_info: Registration::new(),
        }
    }

    /// The service and the instance that are registered, if any.
    pub fn registration(&self) -> (registration: Option<(String, InstanceInfo)>)
        ensures
            match registration {
                Some((service_id, instance)) => self@.registration == Some((service_id@, instance)),
                None => self@.registration is None,
            },
    {
        self.instance_info.current()
    }

    /// A record for an instance at `ip_addr` and `port`, under a fresh
    /// identifier.
    pub fn generate_new_instance(ip_addr: &str, port: u16) -> (instance: InstanceInfo)
        ensures
            instance.instance_id@.len() == 36,
            instance.ip_addr@ == ip_addr@,
            instance.port == port,
    {
        InstanceInfo {
            instance_id: new_instance_id(),
            ip_addr: String::from_str(ip_addr),
            port,
        }
    }

    /// Registers `new_instance_info` under `service_id` in this client, and
    /// opens its registration with the registry. Where a registration is
    /// active the call fails and nothing changes. The registration is
    /// entered here before the registry has answered, and stays entered
    /// whatever it answers.
    pub fn register_helper(&mut self, service_id: &str, new_instance_info: &InstanceInfo) -> (call:
        Result<Call, WatchtowerError>)
        ensures
            final(self)@.transport.wf(),
            old(self)@.registration is Some ==> final(self)@ == old(self)@ && call == Err::<
                Call,
                WatchtowerError,
            >(WatchtowerError::InstanceAlreadyRegistered),
            old(self)@.registration is None ==> {
                &&& final(self)@ == old(self)@.rotated().registered(
                    service_id@,
                    *new_instance_info,
                )
                &&& call matches Ok(call) && final(self)@.transport.opens(
                    call,
                    Operation::Register(*new_instance_info),
                    service_id@,
                )
            },
    {
        match self.instance_info.enter(service_id, new_instance_info) {
            Ok(()) => Ok(self.http_client.register(service_id, new_instance_info)),
            Err(error) => {
                proof {
                    use_type_invariant(&self.http_client);
                }
                Err(error)
            },
        }
    }

    /// Registers this process as an instance of `service_id` at `ip_addr`
    /// and `port`, under a fresh identifier, for a registration that is to
    /// be kept alive by heartbeats: see `heartbeat`.
    pub fn register(&mut self, service_id: &str, ip_addr: &str, port: u16) -> (call: Result<
        Call,
        WatchtowerError,
    >)
        ensures
            final(self)@.transport.wf(),
            old(self)@.registers(service_id@, ip_addr@, port, final(self)@, call),
    {
        let new_instance_info = Self::generate_new_instance(ip_addr, port);
        self.register_helper(service_id, &new_instance_info)
    }

    /// Registers this process as `register` does, for a registration that
    /// its user keeps alive with `ping`.
    pub fn register_without_pinging(&mut self, service_id: &str, ip_addr: &str, port: u16) -> (call:
        Result<Call, WatchtowerError>)
        ensures
            final(self)@.transport.wf(),
            old(self)@.registers(service_id@, ip_addr@, port, final(self)@, call),
    {
        let new_instance_info = Self::generate_new_instance(ip_addr, port);
        self.register_helper(service_id, &new_instance_info)
    }

    /// One tick of the heartbeat that serves the registration of
    /// `instance_info` under `service_id`. While that instance is the one
    /// registered, a renewal of its lease is opened. Once it is not, because
    /// the registration was cancelled or another took its place, nothing
    /// happens and the heartbeat is to end.
    pub fn heartbeat(&mut self, service_id: &str, instance_info: &InstanceInfo) -> (call: Option<
        Call,
    >)
        ensures
            final(self)@.transport.wf(),
            old(self)@.is_live(instance_info.instance_id@) ==> {
                &&& final(self)@ == old(self)@.rotated()
                &&& call matches Some(call) && final(self)@.transport.opens(
                    call,
                    Operation::Renew(*instance_info),
                    service_id@,
                )
            },
            !old(self)@.is_live(instance_info.instance_id@) ==> final(self)@ == old(self)@
                && call is None,
    {
        if self.instance_info.serves(instance_info) {
            Some(self.http_client.renew(service_id, instance_info))
        } else {
            proof {
                use_type_invariant(&self.http_client);
            }
            None
        }
    }

    /// Opens a renewal of the lease of the registered instance, out of the
    /// heartbeat's turn. Where nothing is registered the call fails with
    /// `InvalidPing` and nothing changes.
    pub fn ping(&mut self) -> (call: Result<Call, WatchtowerError>)
        ensures
            final(self)@.transport.wf(),
            match old(self)@.registration {
                Some((service_id, instance)) => {
                    &&& final(self)@ == old(self)@.rotated()
                    &&& call matches Ok(call) && final(self)@.transport.opens(
                        call,
                        Operation::Renew(instance),
                        service_id,
                    )
                },
                None => final(self)@ == old(self)@ && call == Err::<Call, WatchtowerError>(
                    WatchtowerError::InvalidPing,
                ),
            },
    {
        match self.instance_info.to_renew() {
            Ok((service_id, instance)) => Ok(
                self.http_client.renew(service_id.as_str(), &instance),
            ),
            Err(error) => {
                proof {
                    use_type_invariant(&self.http_client);
                }
                Err(error)
            },
        }
    }

    /// The request that the try in flight of `call` consists of, with the
    /// credentials of this client.
    pub fn request(&self, call: &Call) -> (request: Request)
        ensures
            request.method == method_of(call.operation),
            request.url@ == url_of(call.base_url@, call.service_id@, call.operation),
            request.username@ == self@.transport.username,
            request.password@ == self@.transport.password,
            match request.content_type {
                Some(name) => content_type_of(call.operation) == Some(name@),
                None => content_type_of(call.operation) is None,
            },
            request.body == body_of(call.operation),
    {
        self.http_client.request(call)
    }

    /// Takes in what came of the try of `call` and says what follows, as
    /// the transport decides it. The cache and the registration stay as
    /// they are.
    pub fn advance(&mut self, call: Call, reply: Reply) -> (step: Step)
        ensures
            final(self)@.transport.wf(),
            selects_next_endpoint(verdict_of(call.operation, reply)) ==> final(self)@ == old(
                self,
            )@.rotated(),
            !selects_next_endpoint(verdict_of(call.operation, reply)) ==> final(self)@ == old(
                self,
            )@,
            step == next_step(call, reply, final(self)@.transport.current_url()),
    {
        self.http_client.advance(call, reply)
    }

    /// Opens the cancellation of the lease of the registered instance. The
    /// registration stays until `finish_cancel` hears that the registry has
    /// carried it out. Where nothing is registered the call fails with
    /// `NotFound` and nothing changes.
    pub fn cancel(&mut self) -> (call: Result<Call, WatchtowerError>)
        ensures
            final(self)@.transport.wf(),
            match old(self)@.registration {
                Some((service_id, instance)) => {
                    &&& final(self)@ == old(self)@.rotated()
                    &&& call matches Ok(call) && final(self)@.transport.opens(
                        call,
                        Operation::Cancel(instance),
                        service_id,
                    )
                },
                None => final(self)@ == old(self)@ && call == Err::<Call, WatchtowerError>(
                    WatchtowerError::NotFound,
                ),
            },
    {
        match self.instance_info.to_cancel() {
            Ok((service_id, instance)) => Ok(
                self.http_client.cancel(service_id.as_str(), &instance),
            ),
            Err(error) => {
                proof {
                    use_type_invariant(&self.http_client);
                }
                Err(error)
            },
        }
    }

    /// Takes in how the cancellation ended. Only a cancellation that the
    /// registry has carried out clears the registration; after any other
    /// the registration stands, and the cancellation may be tried again.
    pub fn finish_cancel(&mut self, outcome: Result<(), WatchtowerError>) -> (result: Result<
        (),
        WatchtowerError,
    >)
        ensures
            result == outcome,
            outcome is Ok ==> final(self)@ == old(self)@.unregistered(),
            outcome is Err ==> final(self)@ == old(self)@,
    {
        self.instance_info.finish_cancel(outcome)
    }

    /// Caches `service` under `service_id`, in place of any older entry, and
    /// returns the address of its first selection. A service without
    /// instances is not cached and gives `InternalError`.
    pub fn cache_service(&mut self, service_id: &str, service: Service) -> (url: Result<
        String,
        WatchtowerError,
    >)
        ensures
            old(self)@.caches(service_id@, service@, final(self)@, url),
    {
        self.services.store(service_id, service)
    }

    /// Takes in how the listing of `service_id` ended, at the second `now`.
    /// The instances that were listed are cached as fetched at `now`, in
    /// place of any older entry, and the address of the first selection is
    /// returned. An empty list gives `InternalError`; a listing that failed
    /// gives its own error. In these cases the cache stays as it is.
    pub fn refetch_service_at(
        &mut self,
        service_id: &str,
        outcome: Result<Vec<InstanceInfo>, WatchtowerError>,
        now: u64,
    ) -> (url: Result<String, WatchtowerError>)
        ensures
            old(self)@.refetches(service_id@, outcome, now, final(self)@, url),
    {
        self.services.refetch_at(service_id, outcome, now)
    }

    /// Takes in how the listing of `service_id` ended, by the system clock:
    /// see `refetch_service_at`. The clock is read only where instances
    /// were listed; where it cannot be read, the call fails with
    /// `InternalError` and nothing changes.
    pub fn refetch_service(
        &mut self,
        service_id: &str,
        outcome: Result<Vec<InstanceInfo>, WatchtowerError>,
    ) -> (url: Result<String, WatchtowerError>)
        ensures
            (exists|now: u64| old(self)@.refetches(service_id@, outcome, now, final(self)@, url))
                || (outcome is Ok && final(self)@ == old(self)@ && url == Err::<
                String,
                WatchtowerError,
            >(WatchtowerError::InternalError)),
    {
        match outcome {
            Ok(instances) => match get_time_since_epoch() {
                Ok(now) => {
                    let url = self.refetch_service_at(service_id, Ok(instances), now);
                    assert(old(self)@.refetches(service_id@, outcome, now, self@, url));
                    url
                },
                Err(error) => Err(error),
            },
            Err(error) => {
                let url = self.refetch_service_at(service_id, Err(error), 0);
                assert(old(self)@.refetches(service_id@, outcome, 0, self@, url));
                url
            },
        }
    }

    /// Looks `service_id` up at the second `now`. A cached list that is
    /// not out of date answers at once with the address of its next
    /// instance. Else the listing of the service is opened; its outcome goes
    /// to `refetch_service`.
    pub fn resolve_at(&mut self, service_id: &str, now: u64) -> (resolution: Result<
        Resolution,
        WatchtowerError,
    >)
        ensures
            final(self)@.transport.wf(),
            old(self)@.resolves(service_id@, now, final(self)@, resolution),
    {
        match self.services.lookup_at(service_id, now) {
            Ok(Some(url)) => {
                proof {
                    use_type_invariant(&self.http_client);
                }
                Ok(Resolution::Url(url))
            },
            Ok(None) => Ok(Resolution::Fetch(self.http_client.get_all_instances(service_id))),
            Err(error) => {
                proof {
                    use_type_invariant(&self.http_client);
                }
                Err(error)
            },
        }
    }

    /// Looks `service_id` up by the system clock: see `resolve_at`. The
    /// clock is read only where the service is cached; where it cannot be
    /// read, the lookup fails with `InternalError` and nothing changes.
    pub fn get_service_url(&mut self, service_id: &str) -> (resolution: Result<
        Resolution,
        WatchtowerError,
    >)
        ensures
            final(self)@.transport.wf(),
            (exists|now: u64| old(self)@.resolves(service_id@, now, final(self)@, resolution)) || (
            old(self)@.services.contains_key(service_id@) && final(self)@ == old(self)@
                && resolution == Err::<Resolution, WatchtowerError>(
                WatchtowerError::InternalError,
            )),
    {
        if !self.services.contains(service_id) {
            let resolution = self.resolve_at(service_id, 0);
            assert(old(self)@.resolves(service_id@, 0, self@, resolution));
            return resolution;
        }
        match get_time_since_epoch() {
            Ok(now) => {
                let resolution = self.resolve_at(service_id, now);
                assert(old(self)@.resolves(service_id@, now, self@, resolution));
                resolution
            },
            Err(error) => {
                proof {
                    use_type_invariant(&self.http_client);
                }
                Err(error)
            },
        }
    }
}

} // verus!
