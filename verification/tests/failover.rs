use sunny_core::hsm::KeyType;
use sunny_core::hsm_failover::{
    vendor_from_config, BareMetalHsmService, FailoverState, HsmClient, HsmRole, HsmVendor,
};
use sunny_core::Error;

struct TestHsm {
    healthy: bool,
    tag: u8,
}

impl HsmClient for TestHsm {
    fn encrypt(&self, _key_id: &str, _data: &[u8]) -> Result<Vec<u8>, Error> {
        Ok(vec![self.tag])
    }

    fn decrypt(&self, _key_id: &str, _data: &[u8]) -> Result<Vec<u8>, Error> {
        Ok(vec![self.tag])
    }

    fn sign(&self, _key_id: &str, _data: &[u8]) -> Result<Vec<u8>, Error> {
        Ok(vec![self.tag])
    }

    fn verify(&self, _key_id: &str, _data: &[u8], _signature: &[u8]) -> Result<bool, Error> {
        Ok(true)
    }

    fn generate_key(&self, _key_type: KeyType) -> Result<String, Error> {
        Ok(format!("key-from-{}", self.tag))
    }

    fn import_key(&self, _key_type: KeyType, _key_material: &[u8]) -> Result<String, Error> {
        Ok(format!("key-from-{}", self.tag))
    }

    fn is_healthy(&self) -> Result<(), Error> {
        if self.healthy {
            Ok(())
        } else {
            Err(Error::Unavailable("probe failed".to_owned()))
        }
    }
}

#[test]
fn routing_state_machine() {
    let mut st = FailoverState { last_failover: None, cooldown: 300 };

    assert_eq!(st.route(true, true, true, 1000).unwrap(), HsmRole::Primary);
    assert_eq!(st.last_failover, None);

    assert_eq!(st.route(false, true, true, 1000).unwrap(), HsmRole::Secondary);
    assert_eq!(st.last_failover, Some(1000));

    let err = st.route(false, true, true, 1299).unwrap_err();
    assert!(matches!(err, Error::Unavailable(_)));
    assert_eq!(st.last_failover, Some(1000));

    assert_eq!(st.route(true, true, true, 1299).unwrap(), HsmRole::Primary);

    assert_eq!(st.route(false, true, true, 1300).unwrap(), HsmRole::Secondary);
    assert_eq!(st.last_failover, Some(1300));
}

#[test]
fn routing_without_usable_secondary() {
    let mut st = FailoverState { last_failover: None, cooldown: 300 };
    assert!(matches!(st.route(false, false, false, 10).unwrap_err(), Error::Unavailable(_)));
    assert!(matches!(st.route(false, true, false, 10).unwrap_err(), Error::Unavailable(_)));
    assert_eq!(st.last_failover, None);
}

#[test]
fn failover_scenario_rate_limits_second_switch() {
    let primary = TestHsm { healthy: false, tag: 1 };
    let secondary = TestHsm { healthy: true, tag: 2 };
    let mut svc = BareMetalHsmService::new(HsmVendor::Safenet, Some(primary), Some(secondary));

    let first = svc.encrypt("k", b"d").unwrap();
    assert_eq!(first, vec![2]);

    let second = svc.encrypt("k", b"d").unwrap_err();
    assert!(matches!(second, Error::Unavailable(_)));
}

#[test]
fn healthy_primary_is_always_used() {
    let primary = TestHsm { healthy: true, tag: 1 };
    let secondary = TestHsm { healthy: true, tag: 2 };
    let mut svc = BareMetalHsmService::new(HsmVendor::Thales, Some(primary), Some(secondary));

    assert_eq!(svc.encrypt("k", b"d").unwrap(), vec![1]);
    assert_eq!(svc.decrypt("k", b"d").unwrap(), vec![1]);
    assert_eq!(svc.sign("k", b"d").unwrap(), vec![1]);
    assert!(svc.verify("k", b"d", b"s").unwrap());
    assert_eq!(svc.generate_key(KeyType::Aes256).unwrap(), "key-from-1");
    assert_eq!(svc.import_key(KeyType::Aes256, b"m").unwrap(), "key-from-1");
}

#[test]
fn no_backend_at_all_is_unavailable() {
    let mut svc: BareMetalHsmService<TestHsm> =
        BareMetalHsmService::new(HsmVendor::Utimaco, None, None);
    assert!(matches!(svc.encrypt("k", b"d").unwrap_err(), Error::Unavailable(_)));
}

#[test]
fn explicit_clock_routing_records_failover_time() {
    let primary = TestHsm { healthy: false, tag: 1 };
    let secondary = TestHsm { healthy: true, tag: 2 };
    let mut svc = BareMetalHsmService::new(HsmVendor::Safenet, Some(primary), Some(secondary));

    assert_eq!(svc.get_active_hsm_at(5000).unwrap(), HsmRole::Secondary);
    assert!(matches!(svc.get_active_hsm_at(5299).unwrap_err(), Error::Unavailable(_)));
    assert_eq!(svc.get_active_hsm_at(5300).unwrap(), HsmRole::Secondary);
}

#[test]
fn vendor_tags_parse_exactly() {
    assert!(matches!(
        vendor_from_config(&Some("thales".to_owned())).unwrap(),
        HsmVendor::Thales
    ));
    assert!(matches!(
        vendor_from_config(&Some("utimaco".to_owned())).unwrap(),
        HsmVendor::Utimaco
    ));
    assert!(matches!(
        vendor_from_config(&Some("safenet".to_owned())).unwrap(),
        HsmVendor::Safenet
    ));
    assert!(matches!(
        vendor_from_config(&Some("Thales".to_owned())).unwrap_err(),
        Error::Configuration(_)
    ));
    assert!(matches!(vendor_from_config(&None).unwrap_err(), Error::Configuration(_)));
}
