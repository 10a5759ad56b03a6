//! The agent's configuration and its defaults.

use vstd::prelude::*;

verus! {

/// One file-backed metric: the topic to publish under, the file to read and
/// the position, counted from zero, of the token that holds the value.
#[derive(Debug, PartialEq, Eq)]
pub struct FileMonitor {
    pub topic: String,
    pub file: String,
    pub index: usize,
}

/// The mathematical content of a [`FileMonitor`].
pub struct FileMonitorView {
    pub topic: Seq<char>,
    pub file: Seq<char>,
    pub index: usize,
}

impl View for FileMonitor {
    type V = FileMonitorView;

    open spec fn view(&self) -> FileMonitorView {
        FileMonitorView { topic: self.topic@, file: self.file@, index: self.index }
    }
}

impl Clone for FileMonitor {
    fn clone(&self) -> (copy: Self)
        ensures
            copy@ == self@,
    {
        FileMonitor { topic: self.topic.clone(), file: self.file.clone(), index: self.index }
    }
}

/// The views of a list of monitors, in the list's order.
pub open spec fn monitor_views(monitors: Seq<FileMonitor>) -> Seq<FileMonitorView> {
    monitors.map_values(|m: FileMonitor| m@)
}

/// Everything the agent is told at startup: the broker and its credentials,
/// the file metrics in publishing order, the mount point to watch with the
/// topic prefix of its figures, and the pause between two rounds.
#[derive(Debug, PartialEq, Eq)]
pub struct Config {
    pub server_addr: String,
    pub user_name: String,
    pub password: String,
    pub file_monitors: Vec<FileMonitor>,
    pub mount_monitor: String,
    pub mount_monitor_topic: String,
    pub publish_delay_ms: u64,
}

/// The mathematical content of a [`Config`].
pub struct ConfigView {
    pub server_addr: Seq<char>,
    pub user_name: Seq<char>,
    pub password: Seq<char>,
    pub file_monitors: Seq<FileMonitorView>,
    pub mount_monitor: Seq<char>,
    pub mount_monitor_topic: Seq<char>,
    pub publish_delay_ms: u64,
}

impl View for Config {
    type V = ConfigView;

    open spec fn view(&self) -> ConfigView {
        ConfigView {
            server_addr: self.server_addr@,
            user_name: self.user_name@,
            password: self.password@,
            file_monitors: monitor_views(self.file_monitors@),
            mount_monitor: self.mount_monitor@,
            mount_monitor_topic: self.mount_monitor_topic@,
            publish_delay_ms: self.publish_delay_ms,
        }
    }
}

/// The pause between two rounds where none is configured, in milliseconds.
pub const DEFAULT_PUBLISH_DELAY_MS: u64 = 5000;

/// The configuration that stands in for a missing one: a local broker, one
/// monitor on the system's uptime and one watched mount point.
pub open spec fn default_config() -> ConfigView {
    ConfigView {
        server_addr: "127.0.0.1:1883"@,
        user_name: "user"@,
        password: "password"@,
        file_monitors: seq![
            FileMonitorView { topic: "mqtt/learning"@, file: "/proc/uptime"@, index: 0 },
        ],
        mount_monitor: "/mnt/c"@,
        mount_monitor_topic: "mqtt/mount_monitor"@,
        publish_delay_ms: DEFAULT_PUBLISH_DELAY_MS,
    }
}

impl Config {
    /// The default configuration.
    pub fn make_default() -> (config: Config)
        ensures
            config@ == default_config(),
    {
        let mut file_monitors: Vec<FileMonitor> = Vec::new();
        file_monitors.push(
            FileMonitor {
                topic: "mqtt/learning".to_owned(),
                file: "/proc/uptime".to_owned(),
                index: 0,
            },
        );
        let config = Config {
            server_addr: "127.0.0.1:1883".to_owned(),
            user_name: "user".to_owned(),
            password: "password".to_owned(),
            file_monitors,
            mount_monitor: "/mnt/c".to_owned(),
            mount_monitor_topic: "mqtt/mount_monitor".to_owned(),
            publish_delay_ms: DEFAULT_PUBLISH_DELAY_MS,
        };
        assert(config@.file_monitors =~= default_config().file_monitors);
        config
    }
}

} // verus!
