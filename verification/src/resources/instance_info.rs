use vstd::prelude::*;
use vstd::std_specs::cmp::{PartialEqSpec, PartialOrdSpec};
use vstd::utf8::{decode_utf8, encode_utf8, encode_utf8_decode_utf8};
use std::cmp::Ordering;
use crate::utils::lexical::{compare_bytes, lemma_equal_means_same, lexical_order, Order};

verus! {

/// One running, addressable copy of a service. The identifier alone says
/// which instance a record speaks of: two records with one identifier are
/// the same instance, whatever address and port they carry.
#[derive(Debug)]
pub struct InstanceInfo {
    pub instance_id: String,
    pub ip_addr: String,
    pub port: u16,
}

impl Clone for InstanceInfo {
    /// The copy agrees with the record in every field.
    fn clone(&self) -> (copy: Self)
        ensures
            copy == *self,
    {
        InstanceInfo {
            instance_id: self.instance_id.clone(),
            ip_addr: self.ip_addr.clone(),
            port: self.port,
        }
    }
}

impl PartialEq for InstanceInfo {
    fn eq(&self, other: &Self) -> (same: bool) {
        self.instance_id == other.instance_id
    }
}

impl vstd::std_specs::cmp::PartialEqSpecImpl for InstanceInfo {
    open spec fn obeys_eq_spec() -> bool {
        true
    }

    open spec fn eq_spec(&self, other: &Self) -> bool {
        self.instance_id@ == other.instance_id@
    }
}

impl Eq for InstanceInfo {

}

impl PartialOrd for InstanceInfo {
    fn partial_cmp(&self, other: &Self) -> (order: Option<Ordering>) {
        let own = self.instance_id.as_str().as_bytes();
        let others = other.instance_id.as_str().as_bytes();
        match compare_bytes(own, others) {
            Order::Less => Some(Ordering::Less),
            Order::Equal => Some(Ordering::Equal),
            Order::Greater => Some(Ordering::Greater),
        }
    }
}

impl vstd::std_specs::cmp::PartialOrdSpecImpl for InstanceInfo {
    open spec fn obeys_partial_cmp_spec() -> bool {
        true
    }

    /// Instances stand to each other as their identifiers do, which are
    /// ordered as strings are: by the bytes of their UTF-8 form, in the
    /// order of the dictionary.
    open spec fn partial_cmp_spec(&self, other: &Self) -> Option<Ordering> {
        match lexical_order(encode_utf8(self.instance_id@), encode_utf8(other.instance_id@)) {
            Order::Less => Some(Ordering::Less),
            Order::Equal => Some(Ordering::Equal),
            Order::Greater => Some(Ordering::Greater),
        }
    }
}

impl InstanceInfo {
    /// Order and equality agree: two records stand equal in the order
    /// exactly when they are equal, that is when they carry one
    /// identifier; and a record stands equal to itself.
    pub proof fn law_order_agrees_with_equality(self, other: Self)
        ensures
            self.partial_cmp_spec(&other) == Some(Ordering::Equal) <==> self.eq_spec(&other),
            self.partial_cmp_spec(&self) == Some(Ordering::Equal),
            self.eq_spec(&self),
    {
        let own = encode_utf8(self.instance_id@);
        let others = encode_utf8(other.instance_id@);
        lemma_equal_means_same(own, others);
        lemma_equal_means_same(own, own);
        encode_utf8_decode_utf8(self.instance_id@);
        encode_utf8_decode_utf8(other.instance_id@);
        if own == others {
            assert(decode_utf8(own) == decode_utf8(others));
        }
    }
}

} // verus!
