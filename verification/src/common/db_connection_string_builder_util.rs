use vstd::prelude::*;

use crate::application_intent::ApplicationIntent;
use crate::pool_blocking_period::PoolBlockingPeriod;
use crate::sql_authentication_method::SqlAuthenticationMethod;
use crate::sql_client_error::SqlClientError;
use crate::db_connection_string_utils::spec_boolean;
use crate::db_connection_string_utils::spec_integrated_security;
use crate::text::canon;
use crate::text::canon_str;
use crate::text::str_eq;

verus! {

/// Converts a true/false/yes/no string to a boolean, ignoring case and
/// surrounding whitespace; any other text is an unsupported value.
pub fn convert_to_boolean(value: &str) -> (r: Result<bool, SqlClientError>)
    ensures
        r is Ok <==> spec_boolean(canon(value@)) is Some,
        r matches Ok(b) ==> spec_boolean(canon(value@)) == Some(b),
        r matches Err(e) ==> (e matches SqlClientError::UnsupportedValue(k, v) && k@ == "boolean"@
            && v@ == value@),
{
    let lowered = canon_str(value);
    let l = lowered.as_str();
    if str_eq(l, "true") || str_eq(l, "yes") {
        Ok(true)
    } else if str_eq(l, "false") || str_eq(l, "no") {
        Ok(false)
    } else {
        Err(SqlClientError::UnsupportedValue("boolean".to_owned(), value.to_owned()))
    }
}

/// Converts a true/false/yes/no/sspi string to an integrated-security
/// boolean, ignoring case and surrounding whitespace; any other text is an
/// unsupported value.
pub fn convert_to_integrated_security(value: &str) -> (r: Result<bool, SqlClientError>)
    ensures
        r is Ok <==> spec_integrated_security(canon(value@)) is Some,
        r matches Ok(b) ==> spec_integrated_security(canon(value@)) == Some(b),
        r matches Err(e) ==> (e matches SqlClientError::UnsupportedValue(k, v) && k@
            == "integrated security"@ && v@ == value@),
{
    let lowered = canon_str(value);
    let l = lowered.as_str();
    if str_eq(l, "true") || str_eq(l, "yes") || str_eq(l, "sspi") {
        Ok(true)
    } else if str_eq(l, "false") || str_eq(l, "no") {
        Ok(false)
    } else {
        Err(SqlClientError::UnsupportedValue("integrated security".to_owned(), value.to_owned()))
    }
}

/// Converts text to a pool blocking period, ignoring case and surrounding
/// whitespace; any other text is an unsupported value.
pub fn convert_to_pool_blocking_period(value: &str) -> (r: Result<
    PoolBlockingPeriod,
    SqlClientError,
>)
    ensures
        r is Ok <==> PoolBlockingPeriod::spec_parse(canon(value@)) is Some,
        r matches Ok(p) ==> PoolBlockingPeriod::spec_parse(canon(value@)) == Some(p),
        r matches Err(e) ==> (e matches SqlClientError::UnsupportedValue(k, v) && k@
            == "pool blocking period"@ && v@ == value@),
{
    match PoolBlockingPeriod::try_from(value) {
        Ok(p) => Ok(p),
        Err(_) => Err(
            SqlClientError::UnsupportedValue("pool blocking period".to_owned(), value.to_owned()),
        ),
    }
}

/// Converts text to an application intent, ignoring case and surrounding
/// whitespace; any other text is an unsupported value.
pub fn convert_to_application_intent(value: &str) -> (r: Result<
    ApplicationIntent,
    SqlClientError,
>)
    ensures
        r is Ok <==> ApplicationIntent::spec_parse(canon(value@)) is Some,
        r matches Ok(a) ==> ApplicationIntent::spec_parse(canon(value@)) == Some(a),
        r matches Err(e) ==> (e matches SqlClientError::UnsupportedValue(k, v) && k@
            == "application intent"@ && v@ == value@),
{
    match ApplicationIntent::try_from(value) {
        Ok(a) => Ok(a),
        Err(_) => Err(
            SqlClientError::UnsupportedValue("application intent".to_owned(), value.to_owned()),
        ),
    }
}

/// Converts text to an authentication method, ignoring case and
/// surrounding whitespace; any other text is an unsupported value.
pub fn convert_to_authentication_method(value: &str) -> (r: Result<
    SqlAuthenticationMethod,
    SqlClientError,
>)
    ensures
        r is Ok <==> SqlAuthenticationMethod::spec_parse(canon(value@)) is Some,
        r matches Ok(a) ==> SqlAuthenticationMethod::spec_parse(canon(value@)) == Some(a),
        r matches Err(e) ==> (e matches SqlClientError::UnsupportedValue(k, v) && k@
            == "authentication method"@ && v@ == value@),
{
    match SqlAuthenticationMethod::try_from(value) {
        Ok(a) => Ok(a),
        Err(_) => Err(
            SqlClientError::UnsupportedValue("authentication method".to_owned(), value.to_owned()),
        ),
    }
}

} // verus!
