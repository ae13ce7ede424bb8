//! The configuration of the notification system and of its adapters.
use vstd::prelude::*;

verus! {

/// Settings of the webhook adapter. The custom headers are kept in the
/// order in which they are sent.
#[derive(Debug, Clone)]
pub struct WebhookConfig {
    pub endpoint: String,
    pub auth_token: Option<String>,
    pub custom_headers: Option<Vec<(String, String)>>,
    pub max_retries: u32,
    pub timeout: u64,
}

/// Settings of the Kafka adapter.
#[derive(Debug, Clone)]
pub struct KafkaConfig {
    pub brokers: String,
    pub topic: String,
    pub max_retries: u32,
}

/// Settings of the MQTT adapter.
#[derive(Debug, Clone)]
pub struct MqttConfig {
    pub broker: String,
    pub port: u16,
    pub client_id: String,
    pub topic: String,
    pub max_retries: u32,
}

/// Settings of one adapter, by kind.
#[derive(Debug, Clone)]
pub enum AdapterConfig {
    Webhook(WebhookConfig),
    Kafka(KafkaConfig),
    Mqtt(MqttConfig),
}

/// Settings of the whole system.
#[derive(Debug, Clone)]
pub struct NotificationConfig {
    pub store_path: String,
    pub channel_capacity: usize,
    pub adapters: Vec<AdapterConfig>,
}

impl AdapterConfig {
    /// The kind of adapter that these settings are for.
    pub open spec fn spec_kind(self) -> crate::adapter::AdapterKind {
        match self {
            AdapterConfig::Webhook(_) => crate::adapter::AdapterKind::Webhook,
            AdapterConfig::Kafka(_) => crate::adapter::AdapterKind::Kafka,
            AdapterConfig::Mqtt(_) => crate::adapter::AdapterKind::Mqtt,
        }
    }

    /// The number of retries that these settings allow.
    pub open spec fn spec_max_retries(self) -> u32 {
        match self {
            AdapterConfig::Webhook(c) => c.max_retries,
            AdapterConfig::Kafka(c) => c.max_retries,
            AdapterConfig::Mqtt(c) => c.max_retries,
        }
    }

    /// The kind of adapter that these settings are for.
    pub fn kind(&self) -> (r: crate::adapter::AdapterKind)
        ensures
            r == self.spec_kind(),
    {
        match self {
            AdapterConfig::Webhook(_) => crate::adapter::AdapterKind::Webhook,
            AdapterConfig::Kafka(_) => crate::adapter::AdapterKind::Kafka,
            AdapterConfig::Mqtt(_) => crate::adapter::AdapterKind::Mqtt,
        }
    }

    /// The number of retries that these settings allow.
    pub fn max_retries(&self) -> (r: u32)
        ensures
            r == self.spec_max_retries(),
    {
        match self {
            AdapterConfig::Webhook(c) => c.max_retries,
            AdapterConfig::Kafka(c) => c.max_retries,
            AdapterConfig::Mqtt(c) => c.max_retries,
        }
    }
}

} // verus!
