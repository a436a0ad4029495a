//! Configuration of the service, as plain values.
use vstd::prelude::*;

verus! {

/// The service's configuration.
pub struct Config {
    /// Ingestion configuration.
    pub ingestion: IngestionConfig,
    /// Tracing configuration.
    pub tracing: TracingConfig,
    /// Object store configuration.
    pub aws: AwsConfig,
    /// Notification webhook configuration.
    pub meta_webhook: MetaWebhookConfig,
}

/// Notification webhook configuration.
#[derive(Debug, PartialEq, Eq)]
pub struct MetaWebhookConfig {
    /// The bearer token.
    pub token: String,
}

/// Object store account configuration.
#[derive(Debug, PartialEq, Eq)]
pub struct AwsConfig {
    /// The profile to load credentials from.
    pub profile_name: Option<String>,
    /// An endpoint that overrides the default one, as URL text.
    pub endpoint_url: Option<String>,
    /// The bucket.
    pub s3_config: AwsS3Config,
}

/// The bucket that holds the attachments.
#[derive(Debug, PartialEq, Eq)]
pub struct AwsS3Config {
    /// The bucket's name.
    pub bucket_name: String,
    /// The base URL under which stored objects are public, as URL text.
    pub public_url: Option<String>,
}

/// Ingestion endpoint configuration.
#[derive(Debug, PartialEq, Eq)]
pub struct IngestionConfig {
    /// The API token for e-mail ingestion.
    pub api_token: String,
}

/// Tracing configuration.
#[derive(Debug, Clone, Copy, PartialEq, Eq)]
pub struct TracingConfig {
    /// Whether traces are exported.
    pub enabled: bool,
}

} // verus!
