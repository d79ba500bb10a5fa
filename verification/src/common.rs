pub mod db_connection_string_builder_util;
