use vstd::prelude::*;
use crate::error::WatchtowerError;
use crate::resources::instance_info::InstanceInfo;
use crate::resources::load_balancer::round_robin::index_after;
use crate::resources::load_balancer::{LoadBalancer, RoundRobinLoadBalancer, RoundRobinView};
use crate::utils::time::get_time_since_epoch;

verus! {

/// The seconds after which a cached list of instances is out of date.
pub const UPDATE_INTERVAL: u64 = 30;

/// What is cached of one service: the instances that the registry listed,
/// the selector that goes round them, and the second at which the list was
/// fetched. The list is a snapshot: only the selector ever moves.
#[derive(Debug)]
pub struct Service {
    pub instance_infos: Vec<InstanceInfo>,
    pub load_balancer: RoundRobinLoadBalancer,
    pub last_updated_timestamp: u64,
}

/// A cached service as a plain value.
pub struct ServiceView {
    pub instances: Seq<InstanceInfo>,
    pub selector: RoundRobinView,
    pub last_updated: u64,
}

impl View for Service {
    type V = ServiceView;

    open spec fn view(&self) -> ServiceView {
        ServiceView {
            instances: self.instance_infos@,
            selector: self.load_balancer@,
            last_updated: self.last_updated_timestamp,
        }
    }
}

impl ServiceView {
    /// The selector runs over the listed instances.
    pub open spec fn wf(self) -> bool {
        &&& self.selector.wf()
        &&& self.selector.size == self.instances.len()
    }

    /// Whether the list is out of date at the second `now`: it is from
    /// `UPDATE_INTERVAL` seconds after it was fetched.
    pub open spec fn expired_at(self, now: u64) -> bool {
        now - self.last_updated >= UPDATE_INTERVAL
    }

    /// The entry after one selection: the selector has moved, nothing else.
    pub open spec fn advanced(self) -> Self {
        ServiceView { selector: self.selector.advanced(), ..self }
    }

    /// The entry after `steps` selections.
    pub open spec fn advanced_by(self, steps: nat) -> Self {
        ServiceView { selector: self.selector.advanced_by(steps), ..self }
    }

    /// What the next selection returns: the instance at the place that the
    /// selector moves to, or `InternalError` where there is none.
    pub open spec fn pick(self) -> Result<InstanceInfo, WatchtowerError> {
        if self.selector.size > 0 && self.selector.advanced().index < self.instances.len() {
            Ok(self.instances[self.selector.advanced().index as int])
        } else {
            Err(WatchtowerError::InternalError)
        }
    }

    /// Going round: the selection number `k + 1` from now returns the
    /// instance `k + 1` places after the selector's place, counted round the
    /// list. So two selections in a row come from different places of a
    /// list of two or more, and selection `k + 1 + n` returns what selection
    /// `k + 1` returned, where `n` is the length of the list.
    pub proof fn law_selections_go_round(self, k: nat)
        requires
            self.wf(),
            self.instances.len() >= 1,
        ensures
            self.advanced_by(k).wf(),
            self.advanced_by(k).pick() == Ok::<InstanceInfo, WatchtowerError>(
                self.instances[index_after(
                    self.selector.index,
                    self.instances.len(),
                    k + 1,
                ) as int],
            ),
            self.instances.len() >= 2 ==> index_after(
                self.selector.index,
                self.instances.len(),
                k + 1,
            ) != index_after(self.selector.index, self.instances.len(), k + 2),
            self.advanced_by(k + self.instances.len()).pick() == self.advanced_by(k).pick(),
            self.advanced_by(k + 1) == self.advanced_by(k).advanced(),
    {
        let n = self.instances.len();
        let start = self.selector.index;
        self.selector.lemma_advanced_by(k);
        self.selector.lemma_advanced_by(k + 1);
        self.selector.lemma_advanced_by(k + n);
        self.selector.lemma_advanced_by(k + n + 1);
        assert(self.selector.advanced_by(k + 1) == self.selector.advanced_by(k).advanced());
        assert(self.selector.advanced_by(k + n + 1) == self.selector.advanced_by(
            k + n,
        ).advanced());
        assert(index_after(start, n, k + n + 1) == index_after(start, n, k + 1)) by {
            vstd::arithmetic::div_mod::lemma_mod_add_multiples_vanish(
                (start + k + 1) as int,
                n as int,
            );
        }
        if n >= 2 {
            crate::resources::load_balancer::round_robin::lemma_neighbours_differ(
                start + k + 1,
                n,
            );
        }
    }
}

impl Clone for Service {
    /// The copy holds the same instances, selector and time of fetching.
    fn clone(&self) -> (copy: Self)
        ensures
            copy@ == self@,
    {
        let mut instance_infos: Vec<InstanceInfo> = Vec::new();
        let mut i: usize = 0;
        while i < self.instance_infos.len()
            invariant
                i <= self.instance_infos.len(),
                instance_infos@ == self.instance_infos@.take(i as int),
            decreases self.instance_infos.len() - i,
        {
            instance_infos.push(self.instance_infos[i].clone());
            i += 1;
            assert(instance_infos@ =~= self.instance_infos@.take(i as int));
        }
        assert(self.instance_infos@.take(i as int) =~= self.instance_infos@);
        Service {
            instance_infos,
            load_balancer: self.load_balancer,
            last_updated_timestamp: self.last_updated_timestamp,
        }
    }
}

impl Service {
    /// Caches `instance_infos` as fetched now: the entry is what
    /// `fetched_at` makes of them and of the second that the system clock
    /// gives. A clock that cannot be read gives `InternalError`.
    pub fn new(instance_infos: Vec<InstanceInfo>) -> (service: Result<Self, WatchtowerError>)
        ensures
            match service {
                Ok(service) => service@.wf() && service.instance_infos == instance_infos,
                Err(error) => error == WatchtowerError::InternalError,
            },
    {
        match get_time_since_epoch() {
            Ok(now) => Ok(Self::fetched_at(instance_infos, now)),
            Err(error) => Err(error),
        }
    }

    /// Caches `instance_infos` as fetched at the second `now`: the list is
    /// kept as it is, the selector runs over it from a random place, and
    /// the entry is stamped with `now`.
    pub fn fetched_at(instance_infos: Vec<InstanceInfo>, now: u64) -> (service: Self)
        ensures
            service@.wf(),
            service.instance_infos == instance_infos,
            service.last_updated_timestamp == now,
    {
        let load_balancer = RoundRobinLoadBalancer::new(instance_infos.len());
        Service { instance_infos, load_balancer, last_updated_timestamp: now }
    }

    /// Whether the list is out of date at the second `now`.
    pub fn is_expired_at(&self, now: u64) -> (expired: bool)
        ensures
            expired == self@.expired_at(now),
    {
        now >= self.last_updated_timestamp && now - self.last_updated_timestamp >= UPDATE_INTERVAL
    }

    /// Whether the list is out of date by the system clock. A clock that
    /// cannot be read gives `InternalError`.
    pub fn is_expired(&self) -> (expired: Result<bool, WatchtowerError>)
        ensures
            match expired {
                Ok(expired) => exists|now: u64| expired == self@.expired_at(now),
                Err(error) => error == WatchtowerError::InternalError,
            },
    {
        match get_time_since_epoch() {
            Ok(now) => {
                let expired = self.is_expired_at(now);
                assert(expired == self@.expired_at(now));
                Ok(expired)
            },
            Err(error) => Err(error),
        }
    }

    /// Moves the selector on and returns the instance at its new place. A
    /// service without instances gives `InternalError`.
    pub fn get_next_instance(&mut self) -> (instance: Result<InstanceInfo, WatchtowerError>)
        ensures
            final(self)@ == old(self)@.advanced(),
            final(self).instance_infos == old(self).instance_infos,
            instance == old(self)@.pick(),
    {
        match self.load_balancer.get_next_index() {
            Ok(index) => {
                if index < self.instance_infos.len() {
                    Ok(self.instance_infos[index].clone())
                } else {
                    Err(WatchtowerError::InternalError)
                }
            },
            Err(_) => Err(WatchtowerError::InternalError),
        }
    }
}

} // verus!
