use sql_client::common::db_connection_string_builder_util;
use sql_client::db_connection_string_utils::convert_to_boolean;
use sql_client::db_connection_string_utils::convert_to_integrated_security;
use sql_client::db_connection_string_utils::get_local_db_instance_name_from_server_name;
use sql_client::ApplicationIntent;
use sql_client::PoolBlockingPeriod;
use sql_client::SqlAuthenticationMethod;
use sql_client::SqlClientError;
use sql_client::SqlConnectionAttestationProtocol;
use sql_client::SqlConnectionColumnEncryptionSetting;
use sql_client::SqlConnectionIpAddressPreference;
use sql_client::TransactionBinding;
use sql_client::TypeSystem;

#[test]
fn test_convert_to_boolean() {
    for v in ["yes", "YES", " YeS ", "true", "TRUE", " TrUe "] {
        assert_eq!(true, convert_to_boolean(v).unwrap());
    }
    for v in ["no", "NO", "No", " No ", "false", "FALSE", "False", " FaLsE "] {
        assert_eq!(false, convert_to_boolean(v).unwrap());
    }
    match convert_to_boolean("maybe") {
        Err(SqlClientError::UnsupportedValue(kind, value)) => {
            assert_eq!("boolean", kind);
            assert_eq!("maybe", value);
        }
        _ => panic!("expected an unsupported value error"),
    }
}

#[test]
fn test_convert_to_integrated_security() {
    for v in ["sspi", "SSPI", " SsPi ", "yes", "YES", " YeS ", "true", "TRUE", " TrUe "] {
        assert_eq!(true, convert_to_integrated_security(v).unwrap());
    }
    for v in ["no", "NO", "No", " No ", "false", "FALSE", "False", " FaLsE "] {
        assert_eq!(false, convert_to_integrated_security(v).unwrap());
    }
    assert!(convert_to_integrated_security("kerberos").is_err());
}

#[test]
fn test_common_converters() {
    assert_eq!(
        true,
        db_connection_string_builder_util::convert_to_boolean(" TrUe ").unwrap()
    );
    assert_eq!(
        true,
        db_connection_string_builder_util::convert_to_integrated_security("sspi").unwrap()
    );
    assert_eq!(
        PoolBlockingPeriod::AlwaysBlock,
        db_connection_string_builder_util::convert_to_pool_blocking_period(" AlwaysBlock ")
            .unwrap()
    );
    assert_eq!(
        ApplicationIntent::ReadOnly,
        db_connection_string_builder_util::convert_to_application_intent("ReadOnly").unwrap()
    );
    assert_eq!(
        SqlAuthenticationMethod::ActiveDirectoryManagedIdentity,
        db_connection_string_builder_util::convert_to_authentication_method(
            "Active Directory Managed Identity"
        )
        .unwrap()
    );
    match db_connection_string_builder_util::convert_to_pool_blocking_period("sometimes") {
        Err(SqlClientError::UnsupportedValue(kind, value)) => {
            assert_eq!("pool blocking period", kind);
            assert_eq!("sometimes", value);
        }
        _ => panic!("expected an unsupported value error"),
    }
}

#[test]
fn test_application_intent_from_string() {
    for (v, expected) in [
        ("readwrite", ApplicationIntent::ReadWrite),
        ("ReadWrite", ApplicationIntent::ReadWrite),
        ("readonly", ApplicationIntent::ReadOnly),
        ("ReadOnly", ApplicationIntent::ReadOnly),
    ] {
        assert_eq!(expected, ApplicationIntent::try_from(v).unwrap());
    }
    assert!(ApplicationIntent::try_from("sideways").is_err());
}

#[test]
fn test_application_intent_to_string() {
    assert_eq!("ReadWrite", ApplicationIntent::ReadWrite.as_str());
    assert_eq!("ReadOnly", ApplicationIntent::ReadOnly.as_str());
}

#[test]
fn test_pool_blocking_period_from_string() {
    for (v, expected) in [
        ("Auto", PoolBlockingPeriod::Auto),
        ("auto", PoolBlockingPeriod::Auto),
        ("AlwaysBlock", PoolBlockingPeriod::AlwaysBlock),
        ("alwaysblock", PoolBlockingPeriod::AlwaysBlock),
        ("NeverBlock", PoolBlockingPeriod::NeverBlock),
        ("neverblock", PoolBlockingPeriod::NeverBlock),
    ] {
        assert_eq!(expected, PoolBlockingPeriod::try_from(v).unwrap());
    }
    assert!(PoolBlockingPeriod::try_from("sometimes").is_err());
}

#[test]
fn test_pool_blocking_period_to_string() {
    assert_eq!("Auto", PoolBlockingPeriod::Auto.as_str());
    assert_eq!("AlwaysBlock", PoolBlockingPeriod::AlwaysBlock.as_str());
    assert_eq!("NeverBlock", PoolBlockingPeriod::NeverBlock.as_str());
}

#[test]
fn test_authentication_method_from_string() {
    for (v, expected) in [
        ("SqlPassword", SqlAuthenticationMethod::SqlPassword),
        ("Sql Password", SqlAuthenticationMethod::SqlPassword),
        (
            "ActiveDirectoryManagedIdentity",
            SqlAuthenticationMethod::ActiveDirectoryManagedIdentity,
        ),
        (
            "Active Directory Managed Identity",
            SqlAuthenticationMethod::ActiveDirectoryManagedIdentity,
        ),
        (
            "ActiveDirectoryIntegrated",
            SqlAuthenticationMethod::ActiveDirectoryIntegrated,
        ),
        (
            "Active Directory Integrated",
            SqlAuthenticationMethod::ActiveDirectoryIntegrated,
        ),
        (
            "ActiveDirectoryInteractive",
            SqlAuthenticationMethod::ActiveDirectoryInteractive,
        ),
        (
            "Active Directory Interactive",
            SqlAuthenticationMethod::ActiveDirectoryInteractive,
        ),
        (
            "ActiveDirectoryServicePrincipal",
            SqlAuthenticationMethod::ActiveDirectoryServicePrincipal,
        ),
        (
            "Active Directory Service Principal",
            SqlAuthenticationMethod::ActiveDirectoryServicePrincipal,
        ),
        (
            "ActiveDirectoryDeviceCodeFlow",
            SqlAuthenticationMethod::ActiveDirectoryDeviceCodeFlow,
        ),
        (
            "Active Directory Device Code Flow",
            SqlAuthenticationMethod::ActiveDirectoryDeviceCodeFlow,
        ),
        ("ActiveDirectoryMSI", SqlAuthenticationMethod::ActiveDirectoryMSI),
        ("Active Directory MSI", SqlAuthenticationMethod::ActiveDirectoryMSI),
        ("ActiveDirectoryDefault", SqlAuthenticationMethod::ActiveDirectoryDefault),
        ("Active Directory Default", SqlAuthenticationMethod::ActiveDirectoryDefault),
        ("SqlCertificate", SqlAuthenticationMethod::SqlCertificate),
        ("Sql Certificate", SqlAuthenticationMethod::SqlCertificate),
        (
            "ActiveDirectoryPassword",
            SqlAuthenticationMethod::ActiveDirectoryPassword,
        ),
    ] {
        assert_eq!(expected, SqlAuthenticationMethod::try_from(v).unwrap());
    }
    assert!(SqlAuthenticationMethod::try_from("carrier pigeon").is_err());
}

#[test]
fn test_authentication_method_to_string() {
    assert_eq!("Not Specified", SqlAuthenticationMethod::NotSpecified.as_str());
    assert_eq!("Sql Password", SqlAuthenticationMethod::SqlPassword.as_str());
    assert_eq!(
        "Active Directory Managed Identity",
        SqlAuthenticationMethod::ActiveDirectoryManagedIdentity.as_str()
    );
    assert_eq!(
        "Active Directory MSI",
        SqlAuthenticationMethod::ActiveDirectoryMSI.as_str()
    );
    assert_eq!("Sql Certificate", SqlAuthenticationMethod::SqlCertificate.as_str());
}

#[test]
fn test_column_encryption_setting_round_trip() {
    assert_eq!(
        SqlConnectionColumnEncryptionSetting::Disabled,
        SqlConnectionColumnEncryptionSetting::try_from("disabled").unwrap()
    );
    assert_eq!(
        SqlConnectionColumnEncryptionSetting::Enabled,
        SqlConnectionColumnEncryptionSetting::try_from(" Enabled ").unwrap()
    );
    assert_eq!("Disabled", SqlConnectionColumnEncryptionSetting::Disabled.as_str());
    assert_eq!("Enabled", SqlConnectionColumnEncryptionSetting::Enabled.as_str());
    assert!(SqlConnectionColumnEncryptionSetting::try_from("on").is_err());
}

#[test]
fn test_attestation_protocol_round_trip() {
    assert_eq!(
        SqlConnectionAttestationProtocol::NotSpecified,
        SqlConnectionAttestationProtocol::try_from("NotSpecified").unwrap()
    );
    assert_eq!(
        SqlConnectionAttestationProtocol::AAS,
        SqlConnectionAttestationProtocol::try_from("AAS").unwrap()
    );
    assert_eq!(
        SqlConnectionAttestationProtocol::NoAttestation,
        SqlConnectionAttestationProtocol::try_from("None").unwrap()
    );
    assert_eq!(
        SqlConnectionAttestationProtocol::HGS,
        SqlConnectionAttestationProtocol::try_from("HGS").unwrap()
    );
    assert_eq!("NotSpecified", SqlConnectionAttestationProtocol::NotSpecified.as_str());
    assert_eq!("AAS", SqlConnectionAttestationProtocol::AAS.as_str());
    assert_eq!("None", SqlConnectionAttestationProtocol::NoAttestation.as_str());
    assert_eq!("HGS", SqlConnectionAttestationProtocol::HGS.as_str());
    assert!(SqlConnectionAttestationProtocol::try_from("TPM").is_err());
}

#[test]
fn test_ip_address_preference_round_trip() {
    assert_eq!(
        SqlConnectionIpAddressPreference::IPv4First,
        SqlConnectionIpAddressPreference::try_from("IPv4First").unwrap()
    );
    assert_eq!(
        SqlConnectionIpAddressPreference::IPv6First,
        SqlConnectionIpAddressPreference::try_from("IPv6First").unwrap()
    );
    assert_eq!(
        SqlConnectionIpAddressPreference::UsePlatformDefault,
        SqlConnectionIpAddressPreference::try_from("UsePlatformDefault").unwrap()
    );
    assert_eq!("IPv4First", SqlConnectionIpAddressPreference::IPv4First.as_str());
    assert_eq!("IPv6First", SqlConnectionIpAddressPreference::IPv6First.as_str());
    assert_eq!(
        "UsePlatformDefault",
        SqlConnectionIpAddressPreference::UsePlatformDefault.as_str()
    );
    assert!(SqlConnectionIpAddressPreference::try_from("IPv5First").is_err());
}

#[test]
fn test_transaction_binding_round_trip() {
    assert_eq!(
        TransactionBinding::ImplicitUnbind,
        TransactionBinding::try_from("implicit Unbind").unwrap()
    );
    assert_eq!(
        TransactionBinding::ExplicitUnbind,
        TransactionBinding::try_from("Explicit Unbind").unwrap()
    );
    assert_eq!("Implicit Unbind", TransactionBinding::ImplicitUnbind.as_str());
    assert_eq!("Explicit Unbind", TransactionBinding::ExplicitUnbind.as_str());
    assert!(TransactionBinding::try_from("Never Unbind").is_err());
}

#[test]
fn test_type_system_round_trip() {
    for (v, expected) in [
        ("SQL Server 2000", TypeSystem::SqlServer2000),
        ("SQL Server 2005", TypeSystem::SqlServer2005),
        ("SQL Server 2008", TypeSystem::SqlServer2008),
        ("SQL Server 2012", TypeSystem::SqlServer2012),
    ] {
        assert_eq!(expected, TypeSystem::try_from(v).unwrap());
        assert_eq!(v, expected.as_str());
    }
    assert!(TypeSystem::try_from("SQL Server 2019").is_err());
}

#[test]
fn test_get_local_db_instance_name_from_server_name() {
    assert_eq!(None, get_local_db_instance_name_from_server_name("sspi"));
    assert_eq!(
        Some("SOME_NAME".to_string()),
        get_local_db_instance_name_from_server_name("(localdb)\\SOME_NAME")
    );
    assert_eq!(
        Some("ANOTHER_NAME".to_string()),
        get_local_db_instance_name_from_server_name("np:\\\\.\\pipe\\LOCALDB#ANOTHER_NAME")
    );
}
