use vstd::prelude::*;

verus! {

/// How the Java runtime of a server is managed.
#[derive(Clone, Copy, PartialEq, Eq, Structural, Debug)]
pub enum JavaMode {
    /// Chosen from the game files.
    Auto,
    /// A fixed version, or a custom Java installation.
    Manual,
}

/// Java distributions.
#[derive(Clone, Copy, PartialEq, Eq, Structural, Debug)]
pub enum JavaType {
    /// OpenJDK, as Microsoft builds it.
    OpenJDK,
    GraalVM,
    /// A custom installation, not managed automatically.
    Custom,
}

/// Java runtime settings.
pub struct Java {
    pub mode: JavaMode,
    /// The distribution; used when `mode` is manual.
    pub edition: JavaType,
    /// The Java version; used when `edition` is not custom.
    pub version: usize,
    /// The `JAVA_HOME` of a custom installation.
    pub custom: String,
    /// Extra arguments for the JVM.
    pub arguments: Vec<String>,
    /// Initial heap size; `0` leaves it unset.
    pub xms: usize,
    /// Maximum heap size; `0` leaves it unlimited.
    pub xmx: usize,
}

/// Runtime settings of a server.
pub struct Runtime {
    pub java: Java,
}

/// Backups taken on a schedule.
pub struct Time {
    /// Interval between backups while running; `0` turns it off.
    pub interval: usize,
    /// A cron expression of backup times; empty turns it off.
    pub cron: String,
}

/// Backups taken on events.
#[derive(Clone, Copy, PartialEq, Eq, Structural, Debug)]
pub struct Event {
    /// Back up before the server starts.
    pub start: bool,
    /// Back up after the server stops.
    pub stop: bool,
    /// Back up on update.
    pub update: bool,
}

/// Backup settings of a server.
pub struct Backup {
    pub enable: bool,
    /// Back up the worlds.
    pub world: bool,
    /// Back up everything else: configuration, server files, plugins.
    pub other: bool,
    pub time: Option<Time>,
    pub event: Option<Event>,
}

/// Plugin management settings.
#[derive(Clone, Copy, PartialEq, Eq, Structural, Debug)]
pub struct PluginManage {
    pub manage: bool,
}

/// How the daemon saves disk space.
#[derive(Clone, Copy, PartialEq, Eq, Structural, Debug)]
pub enum SaveSpace {
    Disable,
    BindRuntime,
    OverlayFS,
}

/// Storage settings of the daemon.
pub struct Storage {
    pub work_dir: String,
    pub save_space: SaveSpace,
}

/// Security settings of the daemon.
#[derive(Clone, Copy, PartialEq, Eq, Structural, Debug)]
pub struct Security {
    /// The user's uid; negative where POSIX is not supported.
    pub user: isize,
    /// Allow files of other users.
    pub permissive: Option<bool>,
    /// Upload size limit in MB; absent or `0` means no limit.
    pub upload_limit: Option<usize>,
    /// Time to live of a terminal session, in seconds.
    pub websocket_ttl: Option<usize>,
}

/// Why a project's configuration could not be read.
#[derive(Clone, Copy, PartialEq, Eq, Structural, Debug)]
pub enum ConfigErr {
    NotConfigured,
    ConfigBroken,
}

/// Why a server jar could not be analysed.
#[derive(Clone, Copy, Debug)]
pub enum JarError {
    NotJar,
    NoMainClass,
    ClassNotFound,
    IoError(()),
}

/// What analysing a server jar found.
pub struct JarInfo {
    pub main_class: String,
    /// The Java version the jar needs.
    pub java_version: u16,
}

/// A downloaded file and its digests.
pub struct FileDownloadResult {
    pub url: String,
    pub path: String,
    pub sha256: String,
    pub sha1: String,
}

} // verus!
