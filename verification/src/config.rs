//! The runtime configuration of an execution: local threads only, or local
//! threads plus remote workers reached over SSH.
//!
//! Reading a configuration file, the environment or the command line is the
//! embedding binary's work; the types and the validation rules live here.

use vstd::prelude::*;
use crate::coord::CoordUInt;
use crate::coord::HostId;

verus! {

/// The runtime to use for an execution.
#[derive(Clone, Debug, PartialEq, Eq)]
pub enum RuntimeConfig {
    /// Parallelism comes from local threads only.
    Local(LocalConfig),
    /// Local threads plus remote workers.
    Remote(RemoteConfig),
}

/// A runtime that uses only local threads.
#[derive(Clone, Debug, PartialEq, Eq)]
pub struct LocalConfig {
    /// The number of CPU cores of this host: one thread per core, per block
    /// of the job graph.
    pub num_cores: CoordUInt,
}

/// A runtime that uses local threads and remote hosts.
#[derive(Clone, Debug, PartialEq, Eq)]
pub struct RemoteConfig {
    /// The identifier of this host: its index in `hosts`. `None` on the
    /// process that spawns the workers.
    pub host_id: Option<HostId>,
    /// The set of remote hosts to use.
    pub hosts: Vec<HostConfig>,
    /// Where to store debug traces, when set.
    pub tracing_dir: Option<String>,
    /// Whether to remove the remote binaries after the execution.
    pub cleanup_executable: bool,
}

/// The configuration of a single remote host.
#[derive(Clone, Debug, PartialEq, Eq)]
pub struct HostConfig {
    /// The address to connect to, reachable from every host of the cluster.
    pub address: String,
    /// The first port used for inter-host communication; the following ones
    /// are bound too, one per connected pair of blocks.
    pub base_port: u16,
    /// The number of cores of the remote host.
    pub num_cores: CoordUInt,
    /// How to reach the host over SSH.
    pub ssh: SSHConfig,
    /// When set, run the remote worker under a profiler and store its output
    /// at this path.
    pub perf_path: Option<String>,
}

/// How to connect to a remote host via SSH.
#[derive(Clone, Debug, PartialEq, Eq)]
pub struct SSHConfig {
    /// The port the host's SSH server listens on.
    pub ssh_port: u16,
    /// The remote username; the local one when absent.
    pub username: Option<String>,
    /// The password of the remote host; the SSH agent is used when absent.
    pub password: Option<String>,
    /// The path of the private key to authenticate with.
    pub key_file: Option<String>,
    /// The passphrase of the private key.
    pub key_passphrase: Option<String>,
}

/// The common command-line options of an execution: exactly one of a remote
/// configuration path or a local core count, plus whatever the user code
/// wants to parse itself.
#[derive(Clone, Debug, PartialEq, Eq)]
pub struct CommandLineOptions {
    /// The path of the configuration file for a remote execution.
    pub remote: Option<String>,
    /// The number of cores for a local execution.
    pub local: Option<CoordUInt>,
    /// The arguments left for the user code.
    pub args: Vec<String>,
}

/// What can be wrong with a configuration.
#[derive(Clone, Debug, PartialEq, Eq)]
pub enum ConfigError {
    /// The configuration text could not be decoded.
    Serialization(String),
    /// The configuration could not be read.
    IO(String),
    /// The configuration contradicts itself.
    Invalid(String),
}

/// Whether some host of the list declares both a password and a key file;
/// at most one of the two may be given.
pub open spec fn has_conflicting_auth(hosts: Seq<HostConfig>) -> bool {
    exists|i: int|
        0 <= i < hosts.len() && hosts[i].ssh.password is Some && hosts[i].ssh.key_file is Some
}

impl SSHConfig {
    /// A copy safe to log: the password and the passphrase, when present,
    /// are replaced by a fixed marker.
    pub fn redacted(&self) -> (r: SSHConfig)
        ensures
            r.ssh_port == self.ssh_port,
            r.username == self.username,
            r.key_file == self.key_file,
            r.password is Some <==> self.password is Some,
            r.password matches Some(p) ==> p@ == "REDACTED"@,
            r.key_passphrase is Some <==> self.key_passphrase is Some,
            r.key_passphrase matches Some(p) ==> p@ == "REDACTED"@,
    {
        SSHConfig {
            ssh_port: self.ssh_port,
            username: self.username.clone(),
            password: match &self.password {
                Some(_) => Some(String::from_str("REDACTED")),
                None => None,
            },
            key_file: self.key_file.clone(),
            key_passphrase: match &self.key_passphrase {
                Some(_) => Some(String::from_str("REDACTED")),
                None => None,
            },
        }
    }
}

impl Default for SSHConfig {
    /// The default connection: the standard SSH port, the local username
    /// and the SSH agent.
    fn default() -> (r: SSHConfig)
        ensures
            r.ssh_port == 22,
            r.username is None,
            r.password is None,
            r.key_file is None,
            r.key_passphrase is None,
    {
        SSHConfig {
            ssh_port: ssh_default_port(),
            username: None,
            password: None,
            key_file: None,
            key_passphrase: None,
        }
    }
}

/// The port an SSH server listens on when the configuration names none.
pub fn ssh_default_port() -> (r: u16)
    ensures
        r == 22,
{
    22
}

impl RuntimeConfig {
    /// A local runtime: no network, parallelism from threads alone.
    pub fn local(num_cores: CoordUInt) -> (r: RuntimeConfig)
        ensures
            r == RuntimeConfig::Local(LocalConfig { num_cores }),
    {
        RuntimeConfig::Local(LocalConfig { num_cores })
    }

    /// A remote runtime from an already decoded configuration, plus the host
    /// identifier this process was started with, if any.
    ///
    /// The configuration is rejected exactly when some host declares both a
    /// password and a key file. A host identifier handed in must index the
    /// host list; the embedding binary checks the raw value first.
    pub fn remote(config: RemoteConfig, host_id: Option<HostId>) -> (r: Result<
        RuntimeConfig,
        ConfigError,
    >)
        requires
            host_id matches Some(h) ==> (h as int) < config.hosts@.len(),
        ensures
            r is Err <==> has_conflicting_auth(config.hosts@),
            r matches Err(e) ==> e is Invalid,
            r matches Ok(c) ==> c matches RuntimeConfig::Remote(rc) && rc.host_id == host_id
                && rc.hosts == config.hosts && rc.tracing_dir == config.tracing_dir
                && rc.cleanup_executable == config.cleanup_executable,
    {
        let mut i: usize = 0;
        while i < config.hosts.len()
            invariant
                i <= config.hosts@.len(),
                !has_conflicting_auth(config.hosts@.take(i as int)),
            decreases config.hosts@.len() - i,
        {
            let host = &config.hosts[i];
            if host.ssh.password.is_some() && host.ssh.key_file.is_some() {
                assert(has_conflicting_auth(config.hosts@));
                return Err(ConfigError::Invalid(String::from_str(
                    "a host cannot declare both a password and a key file",
                )));
            }
            proof {
                assert(config.hosts@.take(i + 1 as int) =~= config.hosts@.take(i as int).push(
                    config.hosts@[i as int],
                ));
            }
            i += 1;
        }
        proof {
            assert(config.hosts@.take(config.hosts@.len() as int) =~= config.hosts@);
        }
        Ok(RuntimeConfig::Remote(RemoteConfig {
            host_id,
            hosts: config.hosts,
            tracing_dir: config.tracing_dir,
            cleanup_executable: config.cleanup_executable,
        }))
    }

    /// The identifier of this host: 0 in a local runtime, what the process
    /// was started with in a remote one.
    pub fn host_id(&self) -> (r: Option<HostId>)
        ensures
            self is Local ==> r == Some(0 as HostId),
            self matches RuntimeConfig::Remote(rc) ==> r == rc.host_id,
    {
        match self {
            RuntimeConfig::Local(_) => Some(0),
            RuntimeConfig::Remote(remote) => remote.host_id,
        }
    }

    /// Whether this process must spawn the remote workers: it runs a remote
    /// configuration and carries no host identifier of its own. The
    /// spawning itself — copying the binary and starting it over SSH — is
    /// the embedding binary's work.
    pub fn spawn_remote_workers(&self) -> (r: bool)
        ensures
            r == (self matches RuntimeConfig::Remote(rc) && rc.host_id is None),
    {
        match self {
            RuntimeConfig::Local(_) => false,
            RuntimeConfig::Remote(remote) => remote.host_id.is_none(),
        }
    }
}

impl CommandLineOptions {
    /// A well-formed command line names exactly one of a remote
    /// configuration path and a local core count, and a local core count is
    /// positive.
    pub open spec fn is_valid(self) -> bool {
        &&& (self.remote is Some) != (self.local is Some)
        &&& (self.local matches Some(cores) ==> cores > 0)
    }

    /// Check that the parsed options are usable.
    pub fn validate(&self) -> (r: bool)
        ensures
            r == self.is_valid(),
    {
        let one_of = self.remote.is_some() != self.local.is_some();
        let positive = match self.local {
            Some(cores) => cores > 0,
            None => true,
        };
        one_of && positive
    }
}

} // verus!
