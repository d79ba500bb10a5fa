use vstd::prelude::*;

use crate::sql_client_error::SqlClientError;
use crate::text::canon;
use crate::text::canon_str;
use crate::text::str_eq;

verus! {

/// Which address family is preferred when a host name resolves to both
/// IPv4 and IPv6 addresses.
#[derive(PartialEq, Debug)]
pub enum SqlConnectionIpAddressPreference {
    /// Try IPv4 addresses first; this is the default.
    IPv4First,
    /// Try IPv6 addresses first.
    IPv6First,
    /// Use the order the platform returns.
    UsePlatformDefault,
}

impl SqlConnectionIpAddressPreference {
    /// The display name of this value.
    pub open spec fn spec_name(&self) -> Seq<char> {
        match self {
            SqlConnectionIpAddressPreference::IPv4First => "IPv4First"@,
            SqlConnectionIpAddressPreference::IPv6First => "IPv6First"@,
            SqlConnectionIpAddressPreference::UsePlatformDefault => "UsePlatformDefault"@,
        }
    }

    /// The value a normalized (trimmed, lowercased) text denotes, if any.
    pub open spec fn spec_parse(s: Seq<char>) -> Option<SqlConnectionIpAddressPreference> {
        if s == "ipv4first"@ {
            Some(SqlConnectionIpAddressPreference::IPv4First)
        } else if s == "ipv6first"@ {
            Some(SqlConnectionIpAddressPreference::IPv6First)
        } else if s == "useplatformdefault"@ {
            Some(SqlConnectionIpAddressPreference::UsePlatformDefault)
        } else {
            None
        }
    }

    /// The display name of this value.
    pub fn as_str(&self) -> (r: &'static str)
        ensures
            r@ == self.spec_name(),
    {
        match self {
            SqlConnectionIpAddressPreference::IPv4First => "IPv4First",
            SqlConnectionIpAddressPreference::IPv6First => "IPv6First",
            SqlConnectionIpAddressPreference::UsePlatformDefault => "UsePlatformDefault",
        }
    }

    /// Parses an address preference from its textual form, ignoring case
    /// and surrounding whitespace; any other text is an unsupported value.
    pub fn try_from(value: &str) -> (r: Result<
        SqlConnectionIpAddressPreference,
        SqlClientError,
    >)
        ensures
            r is Ok <==> Self::spec_parse(canon(value@)) is Some,
            r matches Ok(a) ==> Self::spec_parse(canon(value@)) == Some(a),
            r matches Err(e) ==> (e matches SqlClientError::UnsupportedValue(k, v) && k@
                == "IP Address Preference"@ && v@ == value@),
    {
        let lowered = canon_str(value);
        if str_eq(lowered.as_str(), "ipv4first") {
            Ok(SqlConnectionIpAddressPreference::IPv4First)
        } else if str_eq(lowered.as_str(), "ipv6first") {
            Ok(SqlConnectionIpAddressPreference::IPv6First)
        } else if str_eq(lowered.as_str(), "useplatformdefault") {
            Ok(SqlConnectionIpAddressPreference::UsePlatformDefault)
        } else {
            Err(
                SqlClientError::UnsupportedValue(
                    "IP Address Preference".to_owned(),
                    value.to_owned(),
                ),
            )
        }
    }
}

} // verus!
