use vstd::prelude::*;

use crate::sql_client_error::SqlClientError;
use crate::text::canon;
use crate::text::canon_str;
use crate::text::str_eq;

verus! {

/// The authentication methods a client can use when connecting to a SQL
/// database.
#[derive(PartialEq, Debug, Clone, Copy)]
pub enum SqlAuthenticationMethod {
    /// The authentication method is not specified.
    NotSpecified,
    /// SQL Server authentication with a user name and password.
    SqlPassword,
    /// Active Directory authentication with a principal name and password.
    ActiveDirectoryPassword,
    /// Active Directory authentication with integrated Windows credentials.
    ActiveDirectoryIntegrated,
    /// Active Directory authentication through an interactive prompt.
    ActiveDirectoryInteractive,
    /// Active Directory authentication as a service principal.
    ActiveDirectoryServicePrincipal,
    /// Active Directory authentication through the device code flow.
    ActiveDirectoryDeviceCodeFlow,
    /// Active Directory authentication with a managed identity.
    ActiveDirectoryManagedIdentity,
    /// Active Directory authentication with a managed service identity.
    ActiveDirectoryMSI,
    /// Active Directory authentication with the default credential chain.
    ActiveDirectoryDefault,
    /// SQL Server authentication with a certificate.
    SqlCertificate,
}

impl SqlAuthenticationMethod {
    /// The display name of this value.
    pub open spec fn spec_name(&self) -> Seq<char> {
        match self {
            SqlAuthenticationMethod::NotSpecified => "Not Specified"@,
            SqlAuthenticationMethod::SqlPassword => "Sql Password"@,
            SqlAuthenticationMethod::ActiveDirectoryPassword => "Active Directory Password"@,
            SqlAuthenticationMethod::ActiveDirectoryIntegrated => "Active Directory Integrated"@,
            SqlAuthenticationMethod::ActiveDirectoryInteractive => "Active Directory Interactive"@,
            SqlAuthenticationMethod::ActiveDirectoryServicePrincipal => "Active Directory Service Principal"@,
            SqlAuthenticationMethod::ActiveDirectoryDeviceCodeFlow => "Active Directory Device Code Flow"@,
            SqlAuthenticationMethod::ActiveDirectoryManagedIdentity => "Active Directory Managed Identity"@,
            SqlAuthenticationMethod::ActiveDirectoryMSI => "Active Directory MSI"@,
            SqlAuthenticationMethod::ActiveDirectoryDefault => "Active Directory Default"@,
            SqlAuthenticationMethod::SqlCertificate => "Sql Certificate"@,
        }
    }

    /// The value a normalized (trimmed, lowercased) text denotes, if any;
    /// each method is accepted both with and without spaces.
    pub open spec fn spec_parse(s: Seq<char>) -> Option<SqlAuthenticationMethod> {
        if s == "sql password"@ || s == "sqlpassword"@ {
            Some(SqlAuthenticationMethod::SqlPassword)
        } else if s == "active directory password"@ || s == "activedirectorypassword"@ {
            Some(SqlAuthenticationMethod::ActiveDirectoryPassword)
        } else if s == "active directory managed identity"@ || s
            == "activedirectorymanagedidentity"@ {
            Some(SqlAuthenticationMethod::ActiveDirectoryManagedIdentity)
        } else if s == "active directory integrated"@ || s == "activedirectoryintegrated"@ {
            Some(SqlAuthenticationMethod::ActiveDirectoryIntegrated)
        } else if s == "active directory interactive"@ || s == "activedirectoryinteractive"@ {
            Some(SqlAuthenticationMethod::ActiveDirectoryInteractive)
        } else if s == "active directory service principal"@ || s
            == "activedirectoryserviceprincipal"@ {
            Some(SqlAuthenticationMethod::ActiveDirectoryServicePrincipal)
        } else if s == "active directory device code flow"@ || s
            == "activedirectorydevicecodeflow"@ {
            Some(SqlAuthenticationMethod::ActiveDirectoryDeviceCodeFlow)
        } else if s == "active directory msi"@ || s == "activedirectorymsi"@ {
            Some(SqlAuthenticationMethod::ActiveDirectoryMSI)
        } else if s == "active directory default"@ || s == "activedirectorydefault"@ {
            Some(SqlAuthenticationMethod::ActiveDirectoryDefault)
        } else if s == "sql certificate"@ || s == "sqlcertificate"@ {
            Some(SqlAuthenticationMethod::SqlCertificate)
        } else {
            None
        }
    }

    /// The display name of this value.
    pub fn as_str(&self) -> (r: &'static str)
        ensures
            r@ == self.spec_name(),
    {
        match self {
            SqlAuthenticationMethod::NotSpecified => "Not Specified",
            SqlAuthenticationMethod::SqlPassword => "Sql Password",
            SqlAuthenticationMethod::ActiveDirectoryPassword => "Active Directory Password",
            SqlAuthenticationMethod::ActiveDirectoryIntegrated => "Active Directory Integrated",
            SqlAuthenticationMethod::ActiveDirectoryInteractive => "Active Directory Interactive",
            SqlAuthenticationMethod::ActiveDirectoryServicePrincipal => "Active Directory Service Principal",
            SqlAuthenticationMethod::ActiveDirectoryDeviceCodeFlow => "Active Directory Device Code Flow",
            SqlAuthenticationMethod::ActiveDirectoryManagedIdentity => "Active Directory Managed Identity",
            SqlAuthenticationMethod::ActiveDirectoryMSI => "Active Directory MSI",
            SqlAuthenticationMethod::ActiveDirectoryDefault => "Active Directory Default",
            SqlAuthenticationMethod::SqlCertificate => "Sql Certificate",
        }
    }

    /// Parses an authentication method from its textual form, ignoring
    /// case and surrounding whitespace; any other text is an unsupported
    /// value.
    pub fn try_from(value: &str) -> (r: Result<SqlAuthenticationMethod, SqlClientError>)
        ensures
            r is Ok <==> Self::spec_parse(canon(value@)) is Some,
            r matches Ok(a) ==> Self::spec_parse(canon(value@)) == Some(a),
            r matches Err(e) ==> (e matches SqlClientError::UnsupportedValue(k, v) && k@
                == "Authentication Method"@ && v@ == value@),
    {
        let lowered = canon_str(value);
        let l = lowered.as_str();
        if str_eq(l, "sql password") || str_eq(l, "sqlpassword") {
            Ok(SqlAuthenticationMethod::SqlPassword)
        } else if str_eq(l, "active directory password") || str_eq(l, "activedirectorypassword") {
            Ok(SqlAuthenticationMethod::ActiveDirectoryPassword)
        } else if str_eq(l, "active directory managed identity") || str_eq(
            l,
            "activedirectorymanagedidentity",
        ) {
            Ok(SqlAuthenticationMethod::ActiveDirectoryManagedIdentity)
        } else if str_eq(l, "active directory integrated") || str_eq(
            l,
            "activedirectoryintegrated",
        ) {
            Ok(SqlAuthenticationMethod::ActiveDirectoryIntegrated)
        } else if str_eq(l, "active directory interactive") || str_eq(
            l,
            "activedirectoryinteractive",
        ) {
            Ok(SqlAuthenticationMethod::ActiveDirectoryInteractive)
        } else if str_eq(l, "active directory service principal") || str_eq(
            l,
            "activedirectoryserviceprincipal",
        ) {
            Ok(SqlAuthenticationMethod::ActiveDirectoryServicePrincipal)
        } else if str_eq(l, "active directory device code flow") || str_eq(
            l,
            "activedirectorydevicecodeflow",
        ) {
            Ok(SqlAuthenticationMethod::ActiveDirectoryDeviceCodeFlow)
        } else if str_eq(l, "active directory msi") || str_eq(l, "activedirectorymsi") {
            Ok(SqlAuthenticationMethod::ActiveDirectoryMSI)
        } else if str_eq(l, "active directory default") || str_eq(l, "activedirectorydefault") {
            Ok(SqlAuthenticationMethod::ActiveDirectoryDefault)
        } else if str_eq(l, "sql certificate") || str_eq(l, "sqlcertificate") {
            Ok(SqlAuthenticationMethod::SqlCertificate)
        } else {
            Err(
                SqlClientError::UnsupportedValue(
                    "Authentication Method".to_owned(),
                    value.to_owned(),
                ),
            )
        }
    }
}

} // verus!
