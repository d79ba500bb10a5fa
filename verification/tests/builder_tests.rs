use sql_client::sql_connection_string_builder::append;
use sql_client::sql_connection_string_builder::append_bool;
use sql_client::sql_connection_string_builder::append_opt;
use sql_client::sql_connection_string_builder::append_str;

#[test]
fn test_append_to_empty_string() {
    let mut cs = String::new();
    append(&mut cs, "Data Source", "server1");
    assert_eq!("Data Source=server1", cs);
}

#[test]
fn test_append_separates_pairs_with_semicolons() {
    let mut cs = String::new();
    append(&mut cs, "Data Source", "server1");
    append(&mut cs, "Initial Catalog", "master");
    assert_eq!("Data Source=server1;Initial Catalog=master", cs);
}

#[test]
fn test_append_str_takes_an_owned_value() {
    let mut cs = String::new();
    append_str(&mut cs, "Application Name", "app".to_string());
    assert_eq!("Application Name=app", cs);
}

#[test]
fn test_append_bool_formats_the_value() {
    let mut cs = String::new();
    append_bool(&mut cs, "Pooling", true);
    append_bool(&mut cs, "Enlist", false);
    assert_eq!("Pooling=True;Enlist=False", cs);
}

#[test]
fn test_append_opt_skips_missing_values() {
    let mut cs = String::new();
    append_opt(&mut cs, "Failover Partner", None);
    assert_eq!("", cs);
    append_opt(&mut cs, "Failover Partner", Some("fp".to_string()));
    assert_eq!("Failover Partner=fp", cs);
}
