use sunny_core::config::Config;
use sunny_core::hsm::{create_hsm_service, HsmProvider, KeyType};
use sunny_core::hsm_aws::{AwsCloudHsmService, Client};
use sunny_core::Error;

#[test]
fn provider_from_str_accepts_known_names() {
    assert_eq!(HsmProvider::from_str("aws").unwrap(), HsmProvider::AwsCloudHsm);
    assert_eq!(HsmProvider::from_str("aws_cloudhsm").unwrap(), HsmProvider::AwsCloudHsm);
    assert_eq!(HsmProvider::from_str("google").unwrap(), HsmProvider::GoogleCloudHsm);
    assert_eq!(HsmProvider::from_str("google_cloudhsm").unwrap(), HsmProvider::GoogleCloudHsm);
    assert_eq!(HsmProvider::from_str("azure").unwrap(), HsmProvider::AzureKeyVault);
    assert_eq!(HsmProvider::from_str("azure_keyvault").unwrap(), HsmProvider::AzureKeyVault);
    assert_eq!(HsmProvider::from_str("thales").unwrap(), HsmProvider::ThalesLuna);
    assert_eq!(HsmProvider::from_str("thales_luna").unwrap(), HsmProvider::ThalesLuna);
    assert_eq!(HsmProvider::from_str("utimaco").unwrap(), HsmProvider::Utimaco);
    assert_eq!(HsmProvider::from_str("software").unwrap(), HsmProvider::SoftwareHsm);
    assert_eq!(HsmProvider::from_str("software_hsm").unwrap(), HsmProvider::SoftwareHsm);
}

#[test]
fn provider_from_str_is_case_insensitive() {
    assert_eq!(HsmProvider::from_str("AWS").unwrap(), HsmProvider::AwsCloudHsm);
    assert_eq!(HsmProvider::from_str("Software_HSM").unwrap(), HsmProvider::SoftwareHsm);
    assert_eq!(HsmProvider::from_str("UtImAcO").unwrap(), HsmProvider::Utimaco);
}

#[test]
fn provider_from_str_rejects_unknown_names() {
    assert!(matches!(
        HsmProvider::from_str("ncipher").unwrap_err(),
        Error::Configuration(_)
    ));
    assert!(matches!(HsmProvider::from_str("").unwrap_err(), Error::Configuration(_)));
}

#[test]
fn service_selection_follows_configuration() {
    let config = Config::default();
    assert!(create_hsm_service(&config).is_ok());

    let mut production = Config::default();
    production.environment = "production".to_owned();
    assert!(matches!(
        create_hsm_service(&production).unwrap_err(),
        Error::Configuration(_)
    ));

    let mut remote = Config::default();
    remote.hsm_provider = "aws".to_owned();
    assert!(matches!(
        create_hsm_service(&remote).unwrap_err(),
        Error::Configuration(_)
    ));

    let mut unknown = Config::default();
    unknown.hsm_provider = "bogus".to_owned();
    assert!(matches!(
        create_hsm_service(&unknown).unwrap_err(),
        Error::Configuration(_)
    ));
}

#[test]
fn mock_client_layouts() {
    let client = Client::new().unwrap();
    let blob = client.encrypt("k", b"data").unwrap();
    assert_eq!(blob.len(), 20);
    assert_eq!(&blob[..16], &[0u8; 16]);
    assert_eq!(&blob[16..], b"data");

    assert_eq!(client.decrypt("k", &blob).unwrap(), b"data".to_vec());
    assert_eq!(client.decrypt("k", &[1u8; 15]).unwrap(), Vec::<u8>::new());

    assert_eq!(client.sign("k", b"d").unwrap(), vec![0u8; 64]);
    assert!(client.verify("k", b"d", b"s").unwrap());
    assert_eq!(client.get_public_key("k").unwrap(), vec![0u8; 65]);
    assert_eq!(client.wrap_key("k", "w").unwrap(), vec![0u8; 256]);

    let id = client.generate_key(KeyType::Aes256).unwrap();
    assert!(id.starts_with("key-"));
    assert_eq!(id.len(), 40);
    assert_ne!(id, client.import_key(KeyType::Aes256, b"m").unwrap());
}

#[test]
fn aws_service_requires_full_configuration() {
    let config = Config::default();
    assert!(matches!(
        AwsCloudHsmService::new(&config).unwrap_err(),
        Error::Configuration(_)
    ));

    let mut full = Config::default();
    full.aws_cloudhsm_cluster_id = Some("cluster-1".to_owned());
    full.aws_cloudhsm_user = Some("crypto-user".to_owned());
    full.aws_cloudhsm_password = Some("SECRET-REDACTED".to_owned());
    assert!(AwsCloudHsmService::new(&full).is_ok());

    let mut missing_user = full.clone();
    missing_user.aws_cloudhsm_user = None;
    assert!(matches!(
        AwsCloudHsmService::new(&missing_user).unwrap_err(),
        Error::Configuration(_)
    ));
}
