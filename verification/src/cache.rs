use vstd::prelude::*;
use vstd::hash_map::StringHashMap;
use vstd::string::StringExecFns;
use crate::error::WatchtowerError;
use crate::resources::instance_info::InstanceInfo;
use crate::resources::service::{Service, ServiceView};
use crate::utils::decimal::{append_decimal, decimal};
use crate::utils::time::get_time_since_epoch;

verus! {

/// The address under which `instance` is reached: host, colon, port.
pub open spec fn address_of(instance: InstanceInfo) -> Seq<char> {
    instance.ip_addr@ + ":"@ + decimal(instance.port as nat)
}

/// Writes the address under which `instance` is reached.
pub fn service_url(instance: &InstanceInfo) -> (url: String)
    ensures
        url@ == address_of(*instance),
{
    let mut url = instance.ip_addr.clone();
    url.append(":");
    append_decimal(&mut url, instance.port);
    url
}

/// Whether `services` holds a list for `service_id` that is not out of date
/// at the second `now`.
pub open spec fn fresh_at(
    services: Map<Seq<char>, ServiceView>,
    service_id: Seq<char>,
    now: u64,
) -> bool {
    services.contains_key(service_id) && !services[service_id].expired_at(now)
}

/// The cache after a lookup of `service_id` that it answered: the selector
/// of the entry has moved on by one.
pub open spec fn answered(services: Map<Seq<char>, ServiceView>, service_id: Seq<char>) -> Map<
    Seq<char>,
    ServiceView,
> {
    services.insert(service_id, services[service_id].advanced())
}

/// What a lookup of `service_id` at the second `now` does to the cache
/// `before`, and what it returns. A fresh entry answers with the address of
/// its next instance, and its selector moves on. Else the cache stays as it
/// is and has no answer.
pub open spec fn looks_up(
    before: Map<Seq<char>, ServiceView>,
    service_id: Seq<char>,
    now: u64,
    after: Map<Seq<char>, ServiceView>,
    answer: Result<Option<String>, WatchtowerError>,
) -> bool {
    if fresh_at(before, service_id, now) {
        &&& after == answered(before, service_id)
        &&& match before[service_id].pick() {
            Ok(instance) => answer matches Ok(Some(url)) && url@ == address_of(instance),
            Err(error) => answer == Err::<Option<String>, WatchtowerError>(error),
        }
    } else {
        after == before && answer == Ok::<Option<String>, WatchtowerError>(None)
    }
}

/// What caching `service` under `service_id` does to the cache `before`,
/// and what it returns: the address of the first selection of the new
/// entry, which takes the place of any older entry. A service without
/// instances is not cached.
pub open spec fn stores(
    before: Map<Seq<char>, ServiceView>,
    service_id: Seq<char>,
    service: ServiceView,
    after: Map<Seq<char>, ServiceView>,
    url: Result<String, WatchtowerError>,
) -> bool {
    match service.pick() {
        Ok(instance) => {
            &&& after == before.insert(service_id, service.advanced())
            &&& url matches Ok(url) && url@ == address_of(instance)
        },
        Err(error) => after == before && url == Err::<String, WatchtowerError>(error),
    }
}

/// What taking in the outcome of a listing of `service_id` at the second
/// `now` does to the cache `before`, and what it returns. A list of one
/// instance or more is cached in place of any older entry, stamped with
/// `now`, with a selector over the list; the address returned is that of
/// the instance at which the selector stands. An empty list gives
/// `InternalError`, a listing that failed gives its own error, and in both
/// cases the cache stays as it is.
pub open spec fn refetches(
    before: Map<Seq<char>, ServiceView>,
    service_id: Seq<char>,
    outcome: Result<Vec<InstanceInfo>, WatchtowerError>,
    now: u64,
    after: Map<Seq<char>, ServiceView>,
    url: Result<String, WatchtowerError>,
) -> bool {
    match outcome {
        Ok(instances) => {
            if instances@.len() > 0 {
                &&& url matches Ok(url)
                &&& after.contains_key(service_id)
                &&& after == before.insert(service_id, after[service_id])
                &&& after[service_id].wf()
                &&& after[service_id].instances == instances@
                &&& after[service_id].last_updated == now
                &&& url@ == address_of(instances@[after[service_id].selector.index as int])
            } else {
                after == before && url == Err::<String, WatchtowerError>(
                    WatchtowerError::InternalError,
                )
            }
        },
        Err(error) => after == before && url == Err::<String, WatchtowerError>(error),
    }
}

/// The instances of the services that a client has looked up, by service.
pub struct ServiceCache {
    services: StringHashMap<Service>,
}

impl View for ServiceCache {
    type V = Map<Seq<char>, ServiceView>;

    closed spec fn view(&self) -> Map<Seq<char>, ServiceView> {
        self.services@.map_values(|service: Service| service@)
    }
}

impl ServiceCache {
    /// Nothing is cached.
    pub fn new() -> (cache: Self)
        ensures
            cache@ == Map::<Seq<char>, ServiceView>::empty(),
    {
        let cache = ServiceCache { services: StringHashMap::new() };
        assert(cache@ =~= Map::<Seq<char>, ServiceView>::empty());
        cache
    }

    /// Whether a list is cached for `service_id`, fresh or not.
    pub fn contains(&self, service_id: &str) -> (cached: bool)
        ensures
            cached == self@.contains_key(service_id@),
    {
        self.services.contains_key(service_id)
    }

    /// Caches `service` under `service_id`, in place of any older entry, and
    /// returns the address of its first selection. A service without
    /// instances is not cached and gives `InternalError`.
    pub fn store(&mut self, service_id: &str, service: Service) -> (url: Result<
        String,
        WatchtowerError,
    >)
        ensures
            stores(old(self)@, service_id@, service@, final(self)@, url),
    {
        let mut service = service;
        match service.get_next_instance() {
            Ok(instance) => {
                self.services.insert(String::from_str(service_id), service);
                assert(self@ =~= old(self)@.insert(service_id@, service@));
                Ok(service_url(&instance))
            },
            Err(error) => Err(error),
        }
    }

    /// Takes in how the listing of `service_id` ended, at the second `now`.
    /// The instances that were listed are cached as fetched at `now`, in
    /// place of any older entry, and the address of the first selection is
    /// returned. An empty list gives `InternalError`; a listing that failed
    /// gives its own error. In these cases the cache stays as it is.
    pub fn refetch_at(
        &mut self,
        service_id: &str,
        outcome: Result<Vec<InstanceInfo>, WatchtowerError>,
        now: u64,
    ) -> (url: Result<String, WatchtowerError>)
        ensures
            refetches(old(self)@, service_id@, outcome, now, final(self)@, url),
    {
        match outcome {
            Ok(instances) => self.store(service_id, Service::fetched_at(instances, now)),
            Err(error) => Err(error),
        }
    }

    /// Takes in how the listing of `service_id` ended, by the system clock:
    /// see `refetch_at`. The clock is read only where instances were
    /// listed; where it cannot be read, the call fails with `InternalError`
    /// and the cache stays as it is.
    pub fn refetch(
        &mut self,
        service_id: &str,
        outcome: Result<Vec<InstanceInfo>, WatchtowerError>,
    ) -> (url: Result<String, WatchtowerError>)
        ensures
            (exists|now: u64| refetches(old(self)@, service_id@, outcome, now, final(self)@, url))
                || (outcome is Ok && final(self)@ == old(self)@ && url == Err::<
                String,
                WatchtowerError,
            >(WatchtowerError::InternalError)),
    {
        match outcome {
            Ok(instances) => match get_time_since_epoch() {
                Ok(now) => {
                    let url = self.refetch_at(service_id, Ok(instances), now);
                    assert(refetches(old(self)@, service_id@, outcome, now, self@, url));
                    url
                },
                Err(error) => Err(error),
            },
            Err(error) => {
                assert(refetches(old(self)@, service_id@, outcome, 0, self@, Err(error)));
                Err(error)
            },
        }
    }

    /// Looks `service_id` up at the second `now`. A cached list that is
    /// not out of date answers with the address of its next instance. Else
    /// there is no answer: the service is to be listed, and the outcome
    /// goes to `refetch`.
    pub fn lookup_at(&mut self, service_id: &str, now: u64) -> (answer: Result<
        Option<String>,
        WatchtowerError,
    >)
        ensures
            looks_up(old(self)@, service_id@, now, final(self)@, answer),
    {
        let cached = match self.services.get(service_id) {
            Some(service) => {
                if service.is_expired_at(now) {
                    None
                } else {
                    Some(service.clone())
                }
            },
            None => None,
        };
        match cached {
            Some(service) => {
                let mut service = service;
                let picked = service.get_next_instance();
                self.services.insert(String::from_str(service_id), service);
                assert(self@ =~= answered(old(self)@, service_id@));
                match picked {
                    Ok(instance) => Ok(Some(service_url(&instance))),
                    Err(error) => Err(error),
                }
            },
            None => Ok(None),
        }
    }

    /// Looks `service_id` up by the system clock: see `lookup_at`. The
    /// clock is read only where the service is cached; where it cannot be
    /// read, the lookup fails with `InternalError` and nothing changes.
    pub fn lookup(&mut self, service_id: &str) -> (answer: Result<Option<String>, WatchtowerError>)
        ensures
            (exists|now: u64| looks_up(old(self)@, service_id@, now, final(self)@, answer)) || (
            old(self)@.contains_key(service_id@) && final(self)@ == old(self)@ && answer == Err::<
                Option<String>,
                WatchtowerError,
            >(WatchtowerError::InternalError)),
    {
        if !self.contains(service_id) {
            let answer = self.lookup_at(service_id, 0);
            assert(looks_up(old(self)@, service_id@, 0, self@, answer));
            return answer;
        }
        match get_time_since_epoch() {
            Ok(now) => {
                let answer = self.lookup_at(service_id, now);
                assert(looks_up(old(self)@, service_id@, now, self@, answer));
                answer
            },
            Err(error) => Err(error),
        }
    }
}

} // verus!
