use vstd::prelude::*;

use crate::sql_client_error::SqlClientError;
use crate::text::canon;
use crate::text::canon_str;
use crate::text::str_eq;
use crate::text::strip_prefix_str;

verus! {

/// The boolean a normalized (trimmed, lowercased) text denotes, if any:
/// "true" and "yes" are true, "false" and "no" are false.
pub open spec fn spec_boolean(s: Seq<char>) -> Option<bool> {
    if s == "true"@ || s == "yes"@ {
        Some(true)
    } else if s == "false"@ || s == "no"@ {
        Some(false)
    } else {
        None
    }
}

/// The boolean a normalized integrated-security text denotes, if any: as
/// `spec_boolean`, with "sspi" also accepted as true.
pub open spec fn spec_integrated_security(s: Seq<char>) -> Option<bool> {
    if s == "true"@ || s == "yes"@ || s == "sspi"@ {
        Some(true)
    } else if s == "false"@ || s == "no"@ {
        Some(false)
    } else {
        None
    }
}

/// Converts a true/false/yes/no string to a boolean, ignoring case and
/// surrounding whitespace; any other text is an unsupported value.
pub fn convert_to_boolean(value: &str) -> (r: Result<bool, SqlClientError>)
    ensures
        r is Ok <==> spec_boolean(canon(value@)) is Some,
        r matches Ok(b) ==> spec_boolean(canon(value@)) == Some(b),
        r matches Err(e) ==> (e matches SqlClientError::UnsupportedValue(k, v) && k@ == "boolean"@
            && v@ == value@),
{
    let lowered = canon_str(value);
    let l = lowered.as_str();
    if str_eq(l, "true") || str_eq(l, "yes") {
        Ok(true)
    } else if str_eq(l, "false") || str_eq(l, "no") {
        Ok(false)
    } else {
        Err(SqlClientError::UnsupportedValue("boolean".to_owned(), value.to_owned()))
    }
}

/// Converts a true/false/yes/no/sspi string to an integrated-security
/// boolean, ignoring case and surrounding whitespace; any other text is an
/// unsupported value.
pub fn convert_to_integrated_security(value: &str) -> (r: Result<bool, SqlClientError>)
    ensures
        r is Ok <==> spec_integrated_security(canon(value@)) is Some,
        r matches Ok(b) ==> spec_integrated_security(canon(value@)) == Some(b),
        r matches Err(e) ==> (e matches SqlClientError::UnsupportedValue(k, v) && k@
            == "Integrated Security"@ && v@ == value@),
{
    let lowered = canon_str(value);
    let l = lowered.as_str();
    if str_eq(l, "true") || str_eq(l, "yes") || str_eq(l, "sspi") {
        Ok(true)
    } else if str_eq(l, "false") || str_eq(l, "no") {
        Ok(false)
    } else {
        Err(SqlClientError::UnsupportedValue("Integrated Security".to_owned(), value.to_owned()))
    }
}

/// Extracts the LocalDB instance name from a server name: the part after
/// the "(localdb)\" prefix, or after the named-pipe prefix
/// "np:\\.\pipe\LOCALDB#"; a server name with neither prefix has no
/// instance name.
pub fn get_local_db_instance_name_from_server_name(server_name: &str) -> (r: Option<String>)
    ensures
        "(localdb)\\"@.is_prefix_of(server_name@) ==> (r matches Some(n) && "(localdb)\\"@ + n@
            == server_name@),
        !"(localdb)\\"@.is_prefix_of(server_name@) && "np:\\\\.\\pipe\\LOCALDB#"@.is_prefix_of(
            server_name@,
        ) ==> (r matches Some(n) && "np:\\\\.\\pipe\\LOCALDB#"@ + n@ == server_name@),
        !"(localdb)\\"@.is_prefix_of(server_name@) && !"np:\\\\.\\pipe\\LOCALDB#"@.is_prefix_of(
            server_name@,
        ) ==> r is None,
{
    if let Some(instance_name) = strip_prefix_str(server_name, "(localdb)\\") {
        Some(instance_name.to_owned())
    } else if let Some(instance_name) = strip_prefix_str(server_name, "np:\\\\.\\pipe\\LOCALDB#") {
        Some(instance_name.to_owned())
    } else {
        None
    }
}

} // verus!
