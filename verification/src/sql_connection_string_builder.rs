use vstd::prelude::*;
use vstd::string::StringExecFns;

verus! {

/// A connection string extended by one "Keyword=Value" pair: pairs are
/// separated by semicolons, so a non-empty string first gains one.
pub open spec fn spec_appended(pre: Seq<char>, keyword: Seq<char>, value: Seq<char>) -> Seq<
    char,
> {
    if pre.len() > 0 {
        pre + ";"@ + keyword + "="@ + value
    } else {
        pre + keyword + "="@ + value
    }
}

/// Appends a keyword/value pair to a connection string.
pub fn append(connection_string: &mut String, keyword: &str, value: &str)
    ensures
        final(connection_string)@ == spec_appended(old(connection_string)@, keyword@, value@),
{
    // If we already hold pairs, separate the new one from them.
    if !connection_string.as_str().is_empty() {
        connection_string.append(";");
    }
    connection_string.append(keyword);
    connection_string.append("=");
    connection_string.append(value);
}

/// Appends a keyword/value pair to a connection string, taking the value
/// by ownership.
pub fn append_str(connection_string: &mut String, keyword: &str, value: String)
    ensures
        final(connection_string)@ == spec_appended(old(connection_string)@, keyword@, value@),
{
    append(connection_string, keyword, value.as_str());
}

/// Appends a keyword/value pair to a connection string, formatting the
/// boolean as "True" or "False".
pub fn append_bool(connection_string: &mut String, keyword: &str, value: bool)
    ensures
        final(connection_string)@ == spec_appended(
            old(connection_string)@,
            keyword@,
            if value {
                "True"@
            } else {
                "False"@
            },
        ),
{
    append(
        connection_string,
        keyword,
        if value {
            "True"
        } else {
            "False"
        },
    );
}

/// Appends a keyword/value pair to a connection string if there is a
/// value; without one the connection string stays as it is.
pub fn append_opt(connection_string: &mut String, keyword: &str, value: Option<String>)
    ensures
        value matches Some(v) ==> final(connection_string)@ == spec_appended(
            old(connection_string)@,
            keyword@,
            v@,
        ),
        value is None ==> final(connection_string)@ == old(connection_string)@,
{
    if let Some(v) = value {
        append_str(connection_string, keyword, v);
    }
}

} // verus!
