//! Retry-interval generation for a SQL database client.
//!
//! When a connection attempt fails transiently, the client waits a bounded,
//! partially randomized amount of time before retrying. The wait is chosen by
//! one of several backoff strategies (none, fixed, incremental, exponential),
//! each exposing `current` / `move_next` / `reset`. Around that core the crate
//! also carries the plain configuration enumerations of the connection string
//! (application intent, authentication method, and so on) and the helpers that
//! convert their textual forms.

pub mod application_intent;
pub mod common;
pub mod db_connection_string_utils;
pub mod pool_blocking_period;
pub mod retry_enumerators;
pub mod retry_enumerators2;
pub mod sql_authentication_method;
pub mod sql_client_error;
pub mod sql_column_encryption_setting;
pub mod sql_connection_attestation_protocol;
pub mod sql_connection_ip_address_preference;
pub mod sql_connection_string_builder;
pub mod sql_retry_interval;
pub mod text;
mod time_span;
pub mod transaction_binding;
pub mod type_system;

pub use application_intent::ApplicationIntent;
pub use pool_blocking_period::PoolBlockingPeriod;
pub use sql_authentication_method::SqlAuthenticationMethod;
pub use sql_client_error::SqlClientError;
pub use sql_column_encryption_setting::SqlConnectionColumnEncryptionSetting;
pub use sql_connection_attestation_protocol::SqlConnectionAttestationProtocol;
pub use sql_connection_ip_address_preference::SqlConnectionIpAddressPreference;
pub use time_span::TimeSpan;
pub use transaction_binding::TransactionBinding;
pub use type_system::TypeSystem;
