//! Physical HSM custody with health-checked primary/secondary routing.
//!
//! On every operation the primary is probed; when healthy it is used. When
//! it is not, a failover to the secondary is allowed only outside the
//! cooldown window that follows a previous failover — inside the window
//! the operation is refused even if the secondary is healthy, which
//! rate-limits failover thrashing at the cost of availability. There is no
//! automatic fail-back: recovery is implicit once the primary reports
//! healthy again.

use vstd::prelude::*;

use crate::error::Error;
use crate::hsm::KeyType;
use crate::primitives::current_unix_time;

verus! {

/// Seconds a controller waits after a failover before it may fail over
/// again.
pub const FAILOVER_COOLDOWN_SECS: u64 = 5 * 60;

/// Physical HSM vendor.
#[derive(Debug, Clone, Copy)]
pub enum HsmVendor {
    Thales,
    Utimaco,
    Safenet,
}

/// Which backend an operation is routed to.
#[derive(Debug, Clone, Copy, PartialEq, Eq, Structural)]
pub enum HsmRole {
    Primary,
    Secondary,
}

/// Routing state of the failover controller: when the last failover
/// happened, and how long the cooldown window is.
#[derive(Debug, Clone, Copy)]
pub struct FailoverState {
    /// Unix time of the last failover, if any.
    pub last_failover: Option<u64>,
    /// Length of the cooldown window in seconds.
    pub cooldown: u64,
}

/// True while a previous failover forbids another one.
pub open spec fn in_cooldown(st: FailoverState, now: u64) -> bool {
    match st.last_failover {
        Option::Some(t) => now < t + st.cooldown,
        Option::None => false,
    }
}

/// Where a probe outcome routes an operation: the primary when healthy;
/// nowhere during cooldown; the secondary when present and healthy;
/// nowhere otherwise.
pub open spec fn route_role_spec(
    st: FailoverState,
    primary_healthy: bool,
    secondary_present: bool,
    secondary_healthy: bool,
    now: u64,
) -> Option<HsmRole> {
    if primary_healthy {
        Some(HsmRole::Primary)
    } else if in_cooldown(st, now) {
        None
    } else if secondary_present && secondary_healthy {
        Some(HsmRole::Secondary)
    } else {
        None
    }
}

/// The routing state after a routing decision: unchanged except that a
/// fresh failover records its time.
pub open spec fn route_state_spec(
    st: FailoverState,
    primary_healthy: bool,
    secondary_present: bool,
    secondary_healthy: bool,
    now: u64,
) -> FailoverState {
    if !primary_healthy && !in_cooldown(st, now) && secondary_present && secondary_healthy {
        FailoverState { last_failover: Some(now), cooldown: st.cooldown }
    } else {
        st
    }
}

/// Failover rate limit: with no failover recorded, an unhealthy primary
/// and a healthy secondary route to the secondary and record the time; a
/// second attempt within the cooldown window, with the primary still
/// unhealthy, is refused even though the secondary is still healthy.
pub proof fn lemma_failover_cooldown(st0: FailoverState, now1: u64, now2: u64)
    requires
        st0.last_failover is None,
        now1 <= now2,
        now2 < now1 + st0.cooldown,
    ensures
        route_role_spec(st0, false, true, true, now1) == Some(HsmRole::Secondary),
        route_state_spec(st0, false, true, true, now1).last_failover == Some(now1),
        route_role_spec(
            route_state_spec(st0, false, true, true, now1),
            false,
            true,
            true,
            now2,
        ) is None,
{
}

impl FailoverState {
    /// Decide where to route one operation, given the probe outcomes, and
    /// record a fresh failover time when failing over.
    pub fn route(
        &mut self,
        primary_healthy: bool,
        secondary_present: bool,
        secondary_healthy: bool,
        now: u64,
    ) -> (r: Result<HsmRole, Error>)
        ensures
            r is Ok <==> route_role_spec(
                *old(self),
                primary_healthy,
                secondary_present,
                secondary_healthy,
                now,
            ) is Some,
            r is Ok ==> r->Ok_0 == route_role_spec(
                *old(self),
                primary_healthy,
                secondary_present,
                secondary_healthy,
                now,
            )->0,
            *final(self) == route_state_spec(
                *old(self),
                primary_healthy,
                secondary_present,
                secondary_healthy,
                now,
            ),
            r is Err ==> r->Err_0 is Unavailable,
    {
        if primary_healthy {
            return Ok(HsmRole::Primary);
        }
        if let Option::Some(t) = self.last_failover {
            let in_cd = if now < t {
                true
            } else {
                now - t < self.cooldown
            };
            if in_cd {
                return Err(Error::Unavailable("HSM failover in cooldown".to_owned()));
            }
        }
        if secondary_present && secondary_healthy {
            self.last_failover = Some(now);
            return Ok(HsmRole::Secondary);
        }
        Err(Error::Unavailable("No healthy HSM available".to_owned()))
    }
}

/// A connected vendor HSM client. Implementations live with the host: each
/// vendor SDK is adapted to this surface outside the core.
pub trait HsmClient {
    /// Encrypt data under a key held by the device.
    fn encrypt(&self, key_id: &str, data: &[u8]) -> Result<Vec<u8>, Error>;

    /// Decrypt data under a key held by the device.
    fn decrypt(&self, key_id: &str, data: &[u8]) -> Result<Vec<u8>, Error>;

    /// Sign data with a key held by the device.
    fn sign(&self, key_id: &str, data: &[u8]) -> Result<Vec<u8>, Error>;

    /// Verify a signature with a key held by the device.
    fn verify(&self, key_id: &str, data: &[u8], signature: &[u8]) -> Result<bool, Error>;

    /// Generate a key on the device.
    fn generate_key(&self, key_type: KeyType) -> Result<String, Error>;

    /// Import key material into the device.
    fn import_key(&self, key_type: KeyType, key_material: &[u8]) -> Result<String, Error>;

    /// Probe the device; a timed-out probe counts as unhealthy.
    fn is_healthy(&self) -> Result<(), Error>;
}

/// Parse the configured vendor tag.
pub fn vendor_from_config(v: &Option<String>) -> (r: Result<HsmVendor, Error>)
    ensures
        r is Ok <==> (match v {
            Option::Some(s) => s@ == "thales"@ || s@ == "utimaco"@ || s@ == "safenet"@,
            Option::None => false,
        }),
        r is Ok ==> (match v {
            Option::Some(s) => {
                &&& s@ == "thales"@ ==> r->Ok_0 is Thales
                &&& s@ == "utimaco"@ ==> r->Ok_0 is Utimaco
                &&& s@ == "safenet"@ ==> r->Ok_0 is Safenet
            },
            Option::None => false,
        }),
        r is Err ==> r->Err_0 is Configuration,
{
    proof {
        reveal_strlit("thales");
        reveal_strlit("utimaco");
        reveal_strlit("safenet");
        assert("thales"@ != "utimaco"@) by {
            assert("thales"@.len() != "utimaco"@.len());
        }
        assert("thales"@ != "safenet"@) by {
            assert("thales"@.len() != "safenet"@.len());
        }
        assert("utimaco"@ != "safenet"@) by {
            assert("utimaco"@[0] != "safenet"@[0]);
        }
    }
    match v {
        Option::Some(s) => {
            if crate::primitives::str_eq(s.as_str(), "thales") {
                Ok(HsmVendor::Thales)
            } else if crate::primitives::str_eq(s.as_str(), "utimaco") {
                Ok(HsmVendor::Utimaco)
            } else if crate::primitives::str_eq(s.as_str(), "safenet") {
                Ok(HsmVendor::Safenet)
            } else {
                Err(Error::Configuration("Invalid HSM vendor specified".to_owned()))
            }
        },
        Option::None => Err(Error::Configuration("Invalid HSM vendor specified".to_owned())),
    }
}

/// Physical HSM service holding a primary and an optional secondary
/// connection, routed through the failover controller.
pub struct BareMetalHsmService<C> {
    hsm_type: HsmVendor,
    primary_hsm: Option<C>,
    secondary_hsm: Option<C>,
    failover: FailoverState,
}

impl<C: HsmClient> BareMetalHsmService<C> {
    /// The routing state, at the specification level.
    pub closed spec fn failover_state(&self) -> FailoverState {
        self.failover
    }

    /// Whether a primary connection is held.
    pub closed spec fn has_primary(&self) -> bool {
        self.primary_hsm is Some
    }

    /// Whether a secondary connection is held.
    pub closed spec fn has_secondary(&self) -> bool {
        self.secondary_hsm is Some
    }

    /// True when two service values hold the same connections and vendor.
    pub closed spec fn same_backends(&self, other: &Self) -> bool {
        &&& self.primary_hsm == other.primary_hsm
        &&& self.secondary_hsm == other.secondary_hsm
        &&& self.hsm_type == other.hsm_type
    }

    /// Create a service over connected clients, with no failover recorded
    /// and the fixed five-minute cooldown.
    pub fn new(hsm_type: HsmVendor, primary_hsm: Option<C>, secondary_hsm: Option<C>) -> (r: Self)
        ensures
            r.failover_state().last_failover is None,
            r.failover_state().cooldown == FAILOVER_COOLDOWN_SECS,
            r.has_primary() == (primary_hsm is Some),
            r.has_secondary() == (secondary_hsm is Some),
    {
        BareMetalHsmService {
            hsm_type,
            primary_hsm,
            secondary_hsm,
            failover: FailoverState { last_failover: None, cooldown: FAILOVER_COOLDOWN_SECS },
        }
    }

    /// Probe both backends and decide where to route one operation:
    /// primary when healthy; inside the cooldown window nothing; otherwise
    /// the secondary when present and healthy.
    fn get_active_hsm(&mut self, now: u64) -> (r: Result<HsmRole, Error>)
        ensures
            final(self).same_backends(old(self)),
            final(self).failover_state().cooldown == old(self).failover_state().cooldown,
            r is Err ==> r->Err_0 is Unavailable && final(self).failover_state() == old(
                self,
            ).failover_state(),
            r is Ok && r->Ok_0 is Primary ==> *final(self) == *old(self) && old(self).has_primary(),
            r is Ok && r->Ok_0 is Secondary ==> final(self).failover_state().last_failover == Some(
                now,
            ) && !in_cooldown(old(self).failover_state(), now) && old(self).has_secondary(),
    {
        let primary_healthy = match &self.primary_hsm {
            Option::Some(p) => p.is_healthy().is_ok(),
            Option::None => false,
        };
        let secondary_present = self.secondary_hsm.is_some();
        let secondary_healthy = match &self.secondary_hsm {
            Option::Some(s) => s.is_healthy().is_ok(),
            Option::None => false,
        };
        self.failover.route(primary_healthy, secondary_present, secondary_healthy, now)
    }

    /// Encrypt through whichever backend is routable now.
    pub fn encrypt(&mut self, key_id: &str, data: &[u8]) -> (r: Result<Vec<u8>, Error>)
        ensures
            final(self).same_backends(old(self)),
            final(self).failover_state().cooldown == old(self).failover_state().cooldown,
    {
        let now = current_unix_time();
        match self.get_active_hsm(now) {
            Ok(HsmRole::Primary) => match &self.primary_hsm {
                Option::Some(p) => p.encrypt(key_id, data),
                Option::None => Err(Error::Unavailable("No healthy HSM available".to_owned())),
            },
            Ok(HsmRole::Secondary) => match &self.secondary_hsm {
                Option::Some(s) => s.encrypt(key_id, data),
                Option::None => Err(Error::Unavailable("No healthy HSM available".to_owned())),
            },
            Err(e) => Err(e),
        }
    }

    /// Decrypt through whichever backend is routable now.
    pub fn decrypt(&mut self, key_id: &str, data: &[u8]) -> (r: Result<Vec<u8>, Error>)
        ensures
            final(self).same_backends(old(self)),
            final(self).failover_state().cooldown == old(self).failover_state().cooldown,
    {
        let now = current_unix_time();
        match self.get_active_hsm(now) {
            Ok(HsmRole::Primary) => match &self.primary_hsm {
                Option::Some(p) => p.decrypt(key_id, data),
                Option::None => Err(Error::Unavailable("No healthy HSM available".to_owned())),
            },
            Ok(HsmRole::Secondary) => match &self.secondary_hsm {
                Option::Some(s) => s.decrypt(key_id, data),
                Option::None => Err(Error::Unavailable("No healthy HSM available".to_owned())),
            },
            Err(e) => Err(e),
        }
    }

    /// Sign through whichever backend is routable now.
    pub fn sign(&mut self, key_id: &str, data: &[u8]) -> (r: Result<Vec<u8>, Error>)
        ensures
            final(self).same_backends(old(self)),
            final(self).failover_state().cooldown == old(self).failover_state().cooldown,
    {
        let now = current_unix_time();
        match self.get_active_hsm(now) {
            Ok(HsmRole::Primary) => match &self.primary_hsm {
                Option::Some(p) => p.sign(key_id, data),
                Option::None => Err(Error::Unavailable("No healthy HSM available".to_owned())),
            },
            Ok(HsmRole::Secondary) => match &self.secondary_hsm {
                Option::Some(s) => s.sign(key_id, data),
                Option::None => Err(Error::Unavailable("No healthy HSM available".to_owned())),
            },
            Err(e) => Err(e),
        }
    }

    /// Verify through whichever backend is routable now.
    pub fn verify(&mut self, key_id: &str, data: &[u8], signature: &[u8]) -> (r: Result<
        bool,
        Error,
    >)
        ensures
            final(self).same_backends(old(self)),
            final(self).failover_state().cooldown == old(self).failover_state().cooldown,
    {
        let now = current_unix_time();
        match self.get_active_hsm(now) {
            Ok(HsmRole::Primary) => match &self.primary_hsm {
                Option::Some(p) => p.verify(key_id, data, signature),
                Option::None => Err(Error::Unavailable("No healthy HSM available".to_owned())),
            },
            Ok(HsmRole::Secondary) => match &self.secondary_hsm {
                Option::Some(s) => s.verify(key_id, data, signature),
                Option::None => Err(Error::Unavailable("No healthy HSM available".to_owned())),
            },
            Err(e) => Err(e),
        }
    }

    /// Generate a key through whichever backend is routable now.
    pub fn generate_key(&mut self, key_type: KeyType) -> (r: Result<String, Error>)
        ensures
            final(self).same_backends(old(self)),
            final(self).failover_state().cooldown == old(self).failover_state().cooldown,
    {
        let now = current_unix_time();
        match self.get_active_hsm(now) {
            Ok(HsmRole::Primary) => match &self.primary_hsm {
                Option::Some(p) => p.generate_key(key_type),
                Option::None => Err(Error::Unavailable("No healthy HSM available".to_owned())),
            },
            Ok(HsmRole::Secondary) => match &self.secondary_hsm {
                Option::Some(s) => s.generate_key(key_type),
                Option::None => Err(Error::Unavailable("No healthy HSM available".to_owned())),
            },
            Err(e) => Err(e),
        }
    }

    /// Import a key through whichever backend is routable now.
    pub fn import_key(&mut self, key_type: KeyType, key_material: &[u8]) -> (r: Result<
        String,
        Error,
    >)
        ensures
            final(self).same_backends(old(self)),
            final(self).failover_state().cooldown == old(self).failover_state().cooldown,
    {
        let now = current_unix_time();
        match self.get_active_hsm(now) {
            Ok(HsmRole::Primary) => match &self.primary_hsm {
                Option::Some(p) => p.import_key(key_type, key_material),
                Option::None => Err(Error::Unavailable("No healthy HSM available".to_owned())),
            },
            Ok(HsmRole::Secondary) => match &self.secondary_hsm {
                Option::Some(s) => s.import_key(key_type, key_material),
                Option::None => Err(Error::Unavailable("No healthy HSM available".to_owned())),
            },
            Err(e) => Err(e),
        }
    }

    /// Probe both backends and route at an explicit time, for hosts that
    /// drive the clock themselves.
    pub fn get_active_hsm_at(&mut self, now: u64) -> (r: Result<HsmRole, Error>)
        ensures
            final(self).same_backends(old(self)),
            final(self).failover_state().cooldown == old(self).failover_state().cooldown,
            r is Err ==> r->Err_0 is Unavailable && final(self).failover_state() == old(
                self,
            ).failover_state(),
            r is Ok && r->Ok_0 is Primary ==> *final(self) == *old(self) && old(self).has_primary(),
            r is Ok && r->Ok_0 is Secondary ==> final(self).failover_state().last_failover == Some(
                now,
            ) && !in_cooldown(old(self).failover_state(), now) && old(self).has_secondary(),
    {
        self.get_active_hsm(now)
    }
}

} // verus!
