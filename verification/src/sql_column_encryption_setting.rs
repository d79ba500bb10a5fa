use vstd::prelude::*;

use crate::sql_client_error::SqlClientError;
use crate::text::canon;
use crate::text::canon_str;
use crate::text::str_eq;

verus! {

/// Whether Always Encrypted is enabled for a connection.
#[derive(PartialEq, Debug, Clone, Copy)]
pub enum SqlConnectionColumnEncryptionSetting {
    /// Column encryption is disabled for the connection.
    Disabled,
    /// Column encryption is enabled for the connection.
    Enabled,
}

impl SqlConnectionColumnEncryptionSetting {
    /// The display name of this value.
    pub open spec fn spec_name(&self) -> Seq<char> {
        match self {
            SqlConnectionColumnEncryptionSetting::Disabled => "Disabled"@,
            SqlConnectionColumnEncryptionSetting::Enabled => "Enabled"@,
        }
    }

    /// The value a normalized (trimmed, lowercased) text denotes, if any.
    pub open spec fn spec_parse(s: Seq<char>) -> Option<SqlConnectionColumnEncryptionSetting> {
        if s == "disabled"@ {
            Some(SqlConnectionColumnEncryptionSetting::Disabled)
        } else if s == "enabled"@ {
            Some(SqlConnectionColumnEncryptionSetting::Enabled)
        } else {
            None
        }
    }

    /// The display name of this value.
    pub fn as_str(&self) -> (r: &'static str)
        ensures
            r@ == self.spec_name(),
    {
        match self {
            SqlConnectionColumnEncryptionSetting::Disabled => "Disabled",
            SqlConnectionColumnEncryptionSetting::Enabled => "Enabled",
        }
    }

    /// Parses a column encryption setting from its textual form, ignoring
    /// case and surrounding whitespace; any other text is an unsupported
    /// value.
    pub fn try_from(value: &str) -> (r: Result<
        SqlConnectionColumnEncryptionSetting,
        SqlClientError,
    >)
        ensures
            r is Ok <==> Self::spec_parse(canon(value@)) is Some,
            r matches Ok(a) ==> Self::spec_parse(canon(value@)) == Some(a),
            r matches Err(e) ==> (e matches SqlClientError::UnsupportedValue(k, v) && k@
                == "SqlConnectionColumnEncryptionSetting"@ && v@ == value@),
    {
        let lowered = canon_str(value);
        if str_eq(lowered.as_str(), "disabled") {
            Ok(SqlConnectionColumnEncryptionSetting::Disabled)
        } else if str_eq(lowered.as_str(), "enabled") {
            Ok(SqlConnectionColumnEncryptionSetting::Enabled)
        } else {
            Err(
                SqlClientError::UnsupportedValue(
                    "SqlConnectionColumnEncryptionSetting".to_owned(),
                    value.to_owned(),
                ),
            )
        }
    }
}

} // verus!
