//! The service's configuration: an explicit value constructed once at
//! process start and passed on, never read ambiently. The publisher's
//! share of it is split off for the telemetry side.

use vstd::prelude::*;

verus! {

/// Everything the service is configured with.
#[derive(Clone)]
pub struct AppSettings {
    /// The address the gateway listens on.
    pub listen: String,
    /// The address of the pub/sub broker.
    pub address: String,
    /// The topic telemetry frames are published to.
    pub display_topic: String,
    /// The topic buffer frames are published to.
    pub buffer_topic: String,
    /// The forwarding endpoint for notifications.
    pub discord: String,
}

/// The publisher's share of the configuration.
#[derive(Clone)]
pub struct MqttConfig {
    /// The address of the pub/sub broker.
    pub address: String,
    /// The topic telemetry frames are published to.
    pub display_topic: String,
    /// The topic buffer frames are published to.
    pub buffer_topic: String,
    /// The forwarding endpoint for notifications.
    pub discord: String,
}

impl AppSettings {
    /// Split off the publisher's share of the configuration, unchanged.
    pub fn get_mqtt_config(&self) -> (r: MqttConfig)
        ensures
            r.address@ == self.address@,
            r.display_topic@ == self.display_topic@,
            r.buffer_topic@ == self.buffer_topic@,
            r.discord@ == self.discord@,
    {
        MqttConfig {
            address: self.address.clone(),
            display_topic: self.display_topic.clone(),
            buffer_topic: self.buffer_topic.clone(),
            discord: self.discord.clone(),
        }
    }
}

} // verus!
