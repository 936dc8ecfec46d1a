use vstd::prelude::*;
use vstd::string::StringExecFns;
use crate::error::WatchtowerError;
use crate::resources::instance_info::InstanceInfo;

verus! {

/// Whether `instance_id` names the instance that `registration` holds.
pub open spec fn holds_instance(
    registration: Option<(Seq<char>, InstanceInfo)>,
    instance_id: Seq<char>,
) -> bool {
    registration matches Some((_, instance)) && instance.instance_id@ == instance_id
}

/// The registration of a client: the service and the instance that are
/// registered, or nothing. A client holds at most one registration at a
/// time, so one is entered only where none is held.
pub struct Registration {
    instance_info: Option<(String, InstanceInfo)>,
}

impl View for Registration {
    type V = Option<(Seq<char>, InstanceInfo)>;

    closed spec fn view(&self) -> Option<(Seq<char>, InstanceInfo)> {
        match self.instance_info {
            Some((service_id, instance)) => Some((service_id@, instance)),
            None => None,
        }
    }
}

impl Registration {
    /// Nothing is registered.
    pub fn new() -> (registration: Self)
        ensures
            registration@ is None,
    {
        Registration { instance_info: None }
    }

    /// The service and the instance that are registered, if any.
    pub fn current(&self) -> (registration: Option<(String, InstanceInfo)>)
        ensures
            match registration {
                Some((service_id, instance)) => self@ == Some((service_id@, instance)),
                None => self@ is None,
            },
    {
        match &self.instance_info {
            Some((service_id, instance)) => Some((service_id.clone(), instance.clone())),
            None => None,
        }
    }

    /// Enters `instance` under `service_id`. Where a registration is held,
    /// the call fails with `InstanceAlreadyRegistered` and nothing changes.
    /// Check and entry are one step: of two callers only one can succeed.
    pub fn enter(&mut self, service_id: &str, instance: &InstanceInfo) -> (entered: Result<
        (),
        WatchtowerError,
    >)
        ensures
            old(self)@ is Some ==> final(self)@ == old(self)@ && entered == Err::<
                (),
                WatchtowerError,
            >(WatchtowerError::InstanceAlreadyRegistered),
            old(self)@ is None ==> final(self)@ == Some((service_id@, *instance)) && entered
                == Ok::<(), WatchtowerError>(()),
    {
        if self.instance_info.is_some() {
            return Err(WatchtowerError::InstanceAlreadyRegistered);
        }
        self.instance_info = Some((String::from_str(service_id), instance.clone()));
        Ok(())
    }

    /// The service and the instance whose lease a ping renews, or
    /// `InvalidPing` where nothing is registered.
    pub fn to_renew(&self) -> (lease: Result<(String, InstanceInfo), WatchtowerError>)
        ensures
            match self@ {
                Some((service_id, instance)) => lease matches Ok((id, renewed)) && id@
                    == service_id && renewed == instance,
                None => lease == Err::<(String, InstanceInfo), WatchtowerError>(
                    WatchtowerError::InvalidPing,
                ),
            },
    {
        match self.current() {
            Some(lease) => Ok(lease),
            None => Err(WatchtowerError::InvalidPing),
        }
    }

    /// The service and the instance whose lease a cancellation withdraws,
    /// or `NotFound` where nothing is registered.
    pub fn to_cancel(&self) -> (lease: Result<(String, InstanceInfo), WatchtowerError>)
        ensures
            match self@ {
                Some((service_id, instance)) => lease matches Ok((id, withdrawn)) && id@
                    == service_id && withdrawn == instance,
                None => lease == Err::<(String, InstanceInfo), WatchtowerError>(
                    WatchtowerError::NotFound,
                ),
            },
    {
        match self.current() {
            Some(lease) => Ok(lease),
            None => Err(WatchtowerError::NotFound),
        }
    }

    /// Takes in how the cancellation ended. Only a cancellation that the
    /// registry has carried out clears the registration; after any other
    /// the registration stands, and the cancellation may be tried again.
    pub fn finish_cancel(&mut self, outcome: Result<(), WatchtowerError>) -> (result: Result<
        (),
        WatchtowerError,
    >)
        ensures
            result == outcome,
            outcome is Ok ==> final(self)@ is None,
            outcome is Err ==> final(self)@ == old(self)@,
    {
        if outcome.is_ok() {
            self.instance_info = None;
        }
        outcome
    }

    /// Whether `instance_info` is the instance that is registered: what a
    /// heartbeat asks at each tick. Once it is not, because the
    /// registration was cancelled or another took its place, the heartbeat
    /// that serves it is to end.
    pub fn serves(&self, instance_info: &InstanceInfo) -> (live: bool)
        ensures
            live == holds_instance(self@, instance_info.instance_id@),
    {
        match &self.instance_info {
            Some((_, instance)) => instance.instance_id == instance_info.instance_id,
            None => false,
        }
    }
}

} // verus!
