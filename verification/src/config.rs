//! Target definitions and the list of targets a monitor is started with.

use vstd::prelude::*;

verus! {

/// Seconds between two checks of one target.
pub const DEFAULT_CHECK_INTERVAL_SECONDS: u64 = 30;

/// Seconds a single probe may take before it counts as failed.
pub const DEFAULT_TIMEOUT_SECONDS: u64 = 5;

/// The liveness check used for a target.
#[derive(Debug, Clone, Copy, PartialEq, Eq, Structural)]
pub enum Protocol {
    Ping,
    Tcp,
    Udp,
}

impl Protocol {
    /// The upper-case name shown for the protocol.
    pub open spec fn label_spec(self) -> Seq<char> {
        match self {
            Protocol::Ping => "PING"@,
            Protocol::Tcp => "TCP"@,
            Protocol::Udp => "UDP"@,
        }
    }

    /// The upper-case name shown for the protocol.
    pub fn label(&self) -> (text: String)
        ensures
            text@ == self.label_spec(),
    {
        match self {
            Protocol::Ping => "PING".to_string(),
            Protocol::Tcp => "TCP".to_string(),
            Protocol::Udp => "UDP".to_string(),
        }
    }
}

/// One target: a display name, where to reach it, and how to check it.
#[derive(Debug, PartialEq, Eq)]
pub struct SystemConfig {
    pub name: String,
    pub host: String,
    pub port: Option<u16>,
    pub protocol: Protocol,
    pub enabled: bool,
}

/// Mathematical content of a [`SystemConfig`].
pub struct SystemConfigView {
    pub name: Seq<char>,
    pub host: Seq<char>,
    pub port: Option<u16>,
    pub protocol: Protocol,
    pub enabled: bool,
}

impl View for SystemConfig {
    type V = SystemConfigView;

    open spec fn view(&self) -> SystemConfigView {
        SystemConfigView {
            name: self.name@,
            host: self.host@,
            port: self.port,
            protocol: self.protocol,
            enabled: self.enabled,
        }
    }
}

impl Clone for SystemConfig {
    fn clone(&self) -> (copy: Self)
        ensures
            copy == *self,
    {
        SystemConfig {
            name: self.name.clone(),
            host: self.host.clone(),
            port: self.port,
            protocol: self.protocol,
            enabled: self.enabled,
        }
    }
}

impl SystemConfig {
    /// A target that is enabled from the start.
    pub fn new(name: String, host: String, port: Option<u16>, protocol: Protocol) -> (config: Self)
        ensures
            config@ == (SystemConfigView { name: name@, host: host@, port, protocol, enabled: true }),
    {
        SystemConfig { name, host, port, protocol, enabled: true }
    }
}

/// The targets to monitor and the two timing settings.
#[derive(Debug, PartialEq, Eq)]
pub struct Config {
    pub systems: Vec<SystemConfig>,
    pub check_interval_seconds: u64,
    pub timeout_seconds: u64,
}

/// Mathematical content of a [`Config`].
pub struct ConfigView {
    pub systems: Seq<SystemConfigView>,
    pub check_interval_seconds: u64,
    pub timeout_seconds: u64,
}

/// The views of a list of targets, in order.
pub open spec fn target_views(systems: Seq<SystemConfig>) -> Seq<SystemConfigView> {
    Seq::new(systems.len(), |i: int| systems[i]@)
}

impl View for Config {
    type V = ConfigView;

    open spec fn view(&self) -> ConfigView {
        ConfigView {
            systems: target_views(self.systems@),
            check_interval_seconds: self.check_interval_seconds,
            timeout_seconds: self.timeout_seconds,
        }
    }
}

impl Default for Config {
    /// No targets, a check every 30 seconds, 5 seconds per probe.
    fn default() -> (config: Self)
        ensures
            config@ == (ConfigView {
                systems: Seq::empty(),
                check_interval_seconds: 30,
                timeout_seconds: 5,
            }),
    {
        let config = Config {
            systems: Vec::new(),
            check_interval_seconds: DEFAULT_CHECK_INTERVAL_SECONDS,
            timeout_seconds: DEFAULT_TIMEOUT_SECONDS,
        };
        assert(config@.systems =~= Seq::empty());
        config
    }
}

impl Clone for Config {
    fn clone(&self) -> (copy: Self)
        ensures
            copy@ == self@,
    {
        let mut systems: Vec<SystemConfig> = Vec::new();
        let mut i: usize = 0;
        while i < self.systems.len()
            invariant
                i <= self.systems.len(),
                systems@ == self.systems@.take(i as int),
            decreases self.systems.len() - i,
        {
            systems.push(self.systems[i].clone());
            assert(self.systems@.take(i + 1) == self.systems@.take(i as int).push(
                self.systems@[i as int],
            ));
            i += 1;
        }
        assert(self.systems@.take(i as int) == self.systems@);
        Config {
            systems,
            check_interval_seconds: self.check_interval_seconds,
            timeout_seconds: self.timeout_seconds,
        }
    }
}

impl Config {
    /// The three targets a first start is given.
    pub open spec fn starter_targets() -> Seq<SystemConfigView> {
        seq![
            SystemConfigView {
                name: "Google DNS"@,
                host: "8.8.8.8"@,
                port: None,
                protocol: Protocol::Ping,
                enabled: true,
            },
            SystemConfigView {
                name: "Cloudflare DNS"@,
                host: "1.1.1.1"@,
                port: None,
                protocol: Protocol::Ping,
                enabled: true,
            },
            SystemConfigView {
                name: "Local HTTP"@,
                host: "127.0.0.1"@,
                port: Some(80u16),
                protocol: Protocol::Tcp,
                enabled: false,
            },
        ]
    }

    /// The configuration written when none exists yet: two public DNS
    /// servers checked by ping, and a disabled local HTTP check.
    pub fn create_default_config() -> (config: Self)
        ensures
            config@ == (ConfigView {
                systems: Self::starter_targets(),
                check_interval_seconds: 30,
                timeout_seconds: 5,
            }),
    {
        let mut systems: Vec<SystemConfig> = Vec::new();
        systems.push(
            SystemConfig {
                name: "Google DNS".to_string(),
                host: "8.8.8.8".to_string(),
                port: None,
                protocol: Protocol::Ping,
                enabled: true,
            },
        );
        systems.push(
            SystemConfig {
                name: "Cloudflare DNS".to_string(),
                host: "1.1.1.1".to_string(),
                port: None,
                protocol: Protocol::Ping,
                enabled: true,
            },
        );
        systems.push(
            SystemConfig {
                name: "Local HTTP".to_string(),
                host: "127.0.0.1".to_string(),
                port: Some(80),
                protocol: Protocol::Tcp,
                enabled: false,
            },
        );
        let config = Config {
            systems,
            check_interval_seconds: DEFAULT_CHECK_INTERVAL_SECONDS,
            timeout_seconds: DEFAULT_TIMEOUT_SECONDS,
        };
        assert(config@.systems =~= Self::starter_targets());
        config
    }

    /// Appends a target.
    pub fn add_system(&mut self, system: SystemConfig)
        ensures
            final(self)@.systems == old(self)@.systems.push(system@),
            final(self).check_interval_seconds == old(self).check_interval_seconds,
            final(self).timeout_seconds == old(self).timeout_seconds,
    {
        self.systems.push(system);
    }

    /// Takes out the target at `index`; an index past the end changes nothing.
    pub fn remove_system(&mut self, index: usize)
        ensures
            index < old(self)@.systems.len() ==> final(self)@.systems == old(self)@.systems.remove(
                index as int,
            ),
            index >= old(self)@.systems.len() ==> final(self)@.systems == old(self)@.systems,
            final(self).check_interval_seconds == old(self).check_interval_seconds,
            final(self).timeout_seconds == old(self).timeout_seconds,
    {
        if index < self.systems.len() {
            self.systems.remove(index);
        }
    }

    /// Replaces the target at `index`; an index past the end changes nothing.
    pub fn update_system(&mut self, index: usize, system: SystemConfig)
        ensures
            index < old(self)@.systems.len() ==> final(self)@.systems == old(self)@.systems.update(
                index as int,
                system@,
            ),
            index >= old(self)@.systems.len() ==> final(self)@.systems == old(self)@.systems,
            final(self).check_interval_seconds == old(self).check_interval_seconds,
            final(self).timeout_seconds == old(self).timeout_seconds,
    {
        if index < self.systems.len() {
            self.systems[index] = system;
        }
    }
}

} // verus!
