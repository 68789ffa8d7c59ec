use crate::log_buffer::BoundedLogBuffer;
use crate::log_buffer::evict_push;
use crate::text::clone_lines;
use vstd::prelude::*;
use vstd::string::StringExecFns;

verus! {

/// Capacity of the supervised process's log buffer.
pub const DEVNET_LOG_CAPACITY: usize = 1000;

/// Connection details derived from a running development-chain process.
#[derive(Debug, PartialEq, Eq)]
pub struct DevnetInfo {
    pub rpc_url: String,
    pub chain_id: u64,
    pub client_version: String,
    pub addresses: Vec<String>,
    pub private_keys: Vec<String>,
}

impl DevnetInfo {
    /// `other` carries the same connection details.
    pub open spec fn same_info(&self, other: DevnetInfo) -> bool {
        &&& self.rpc_url == other.rpc_url
        &&& self.chain_id == other.chain_id
        &&& self.client_version == other.client_version
        &&& self.addresses@ == other.addresses@
        &&& self.private_keys@ == other.private_keys@
    }
}

/// One generated account of the development chain: its address and the
/// matching secret key.
#[derive(Debug, PartialEq, Eq)]
pub struct DevnetWallet {
    pub address: String,
    pub private_key: String,
}

/// Why a devnet request was rejected.
#[derive(Debug, PartialEq, Eq)]
pub enum DevnetError {
    /// A process instance already exists; a second start is rejected,
    /// never queued.
    AlreadyRunning,
    /// No process executable was found on the documented search path.
    ExecutableNotFound,
    /// The process could not be launched; the detail is the launcher's own.
    SpawnFailed(String),
    /// The request needs a running process and none exists.
    NotRunning,
}

impl DevnetError {
    /// Human-readable description of the error.
    pub fn message(&self) -> (text: String)
        ensures
            self is AlreadyRunning ==> text@ == "Devnet is already running"@,
            self is ExecutableNotFound ==> text@
                == "Anvil not found. Please ensure Foundry is installed and Anvil is in your PATH."@,
            self matches DevnetError::SpawnFailed(detail) ==> text@ == "Failed to spawn Anvil instance: "@
                + detail@,
            self is NotRunning ==> text@ == "Devnet is not running"@,
    {
        match self {
            DevnetError::AlreadyRunning => "Devnet is already running".to_owned(),
            DevnetError::ExecutableNotFound => {
                "Anvil not found. Please ensure Foundry is installed and Anvil is in your PATH.".to_owned()
            },
            DevnetError::SpawnFailed(detail) => {
                let mut text = "Failed to spawn Anvil instance: ".to_owned();
                text.append(detail.as_str());
                text
            },
            DevnetError::NotRunning => "Devnet is not running".to_owned(),
        }
    }
}

/// Lifecycle phase of the supervised process.
#[derive(Clone, Copy, Debug, PartialEq, Eq, Structural)]
pub enum DevnetPhase {
    /// No process instance exists.
    Absent,
    /// A start was accepted and the spawn is underway.
    Starting,
    /// The process instance exists and its connection info is cached.
    Running,
}

/// The advisory line recorded when a process starts without output capture.
pub open spec fn capture_unavailable_message() -> Seq<char> {
    "Devnet output capture is unavailable; logs will not be recorded."@
}

/// Supervisor of one spawned development-chain process. At most one
/// process instance exists at a time. The spawn itself is performed by the
/// surrounding application between `start_devnet_begin` and
/// `start_devnet_complete` (or `start_devnet_abort`); the supervisor owns
/// the lifecycle state, the cached connection info, and the bounded buffer
/// that the application's reader task fills with the process's output.
pub struct DevnetState {
    phase: DevnetPhase,
    info: Option<DevnetInfo>,
    logs: BoundedLogBuffer,
}

impl DevnetState {
    /// Current lifecycle phase.
    pub closed spec fn phase(&self) -> DevnetPhase {
        self.phase
    }

    /// Connection details cached while the process runs.
    pub closed spec fn info(&self) -> Option<DevnetInfo> {
        self.info
    }

    /// The captured output lines, oldest first.
    pub closed spec fn log_lines(&self) -> Seq<String> {
        self.logs.contents()
    }

    /// The log buffer itself.
    pub closed spec fn buffer(&self) -> BoundedLogBuffer {
        self.logs
    }

    pub open spec fn wf(&self) -> bool {
        &&& self.buffer().wf()
        &&& self.buffer().cap() == DEVNET_LOG_CAPACITY
        &&& self.phase() is Running <==> self.info() is Some
    }

    pub fn new() -> (devnet: DevnetState)
        ensures
            devnet.wf(),
            devnet.phase() is Absent,
            devnet.info() is None,
            devnet.log_lines() == Seq::<String>::empty(),
    {
        DevnetState {
            phase: DevnetPhase::Absent,
            info: None,
            logs: BoundedLogBuffer::new(DEVNET_LOG_CAPACITY),
        }
    }

    /// Accepts a start request. With a process already starting or running
    /// the request is rejected with `AlreadyRunning` and the existing
    /// instance is left untouched; otherwise the supervisor moves to
    /// `Starting` and the caller proceeds to locate and spawn the process.
    pub fn start_devnet_begin(&mut self) -> (result: Result<(), DevnetError>)
        requires
            old(self).wf(),
        ensures
            final(self).wf(),
            !(old(self).phase() is Absent) ==> {
                &&& result == Err::<(), DevnetError>(DevnetError::AlreadyRunning)
                &&& *final(self) == *old(self)
            },
            old(self).phase() is Absent ==> {
                &&& result == Ok::<(), DevnetError>(())
                &&& final(self).phase() is Starting
                &&& final(self).info() is None
                &&& final(self).buffer() == old(self).buffer()
            },
    {
        match self.phase {
            DevnetPhase::Absent => {
                self.phase = DevnetPhase::Starting;
                Ok(())
            },
            _ => Err(DevnetError::AlreadyRunning),
        }
    }

    /// Records a successful spawn: the supervisor moves to `Running` and
    /// caches the connection details derived from the new process. When the
    /// process's output could not be captured the start still succeeds and
    /// an advisory line takes the place of the logs.
    pub fn start_devnet_complete(&mut self, info: DevnetInfo, capture_ok: bool)
        requires
            old(self).wf(),
            old(self).phase() is Starting,
        ensures
            final(self).wf(),
            final(self).phase() is Running,
            final(self).info() == Some(info),
            capture_ok ==> final(self).buffer() == old(self).buffer(),
            !capture_ok ==> {
                &&& final(self).log_lines().len() > 0
                &&& final(self).log_lines().last()@ == capture_unavailable_message()
                &&& final(self).log_lines() == evict_push(
                    old(self).log_lines(),
                    final(self).log_lines().last(),
                    DEVNET_LOG_CAPACITY as int,
                )
            },
    {
        self.phase = DevnetPhase::Running;
        self.info = Some(info);
        if !capture_ok {
            let line = "Devnet output capture is unavailable; logs will not be recorded."
                .to_owned();
            self.logs.append(line);
        }
    }

    /// Records a failed spawn: the supervisor returns to `Absent` with no
    /// instance; the caller reports the launch error itself.
    pub fn start_devnet_abort(&mut self)
        requires
            old(self).wf(),
            old(self).phase() is Starting,
        ensures
            final(self).wf(),
            final(self).phase() is Absent,
            final(self).info() is None,
            final(self).buffer() == old(self).buffer(),
    {
        self.phase = DevnetPhase::Absent;
        self.info = None;
    }

    /// Releases the supervisor's ownership of the process instance, ending
    /// it, and returns to `Absent`. Always succeeds; stopping an absent
    /// devnet is a no-op that leaves the supervisor exactly as it was.
    /// The caller that holds the real process handle ends the process and
    /// confirms its exit before or after this transition; the reader task
    /// stops on its own when the output pipe closes.
    pub fn stop_devnet(&mut self) -> (result: Result<(), DevnetError>)
        requires
            old(self).wf(),
        ensures
            final(self).wf(),
            result == Ok::<(), DevnetError>(()),
            final(self).phase() is Absent,
            final(self).info() is None,
            final(self).buffer() == old(self).buffer(),
            old(self).phase() is Absent ==> *final(self) == *old(self),
    {
        self.phase = DevnetPhase::Absent;
        self.info = None;
        Ok(())
    }

    /// Whether a process instance currently exists and is running.
    pub fn get_devnet_status(&self) -> (running: bool)
        ensures
            running == self.phase() is Running,
    {
        match self.phase {
            DevnetPhase::Running => true,
            _ => false,
        }
    }

    /// An ordered copy of the captured output lines, oldest first.
    pub fn get_devnet_logs(&self) -> (lines: Vec<String>)
        ensures
            lines@ == self.log_lines(),
    {
        self.logs.snapshot()
    }

    /// Adds one line of process output to the bounded buffer; once the
    /// buffer holds its full capacity the oldest line is evicted first.
    /// Called by the application's reader task until the pipe closes.
    pub fn append_devnet_log(&mut self, line: String)
        requires
            old(self).wf(),
        ensures
            final(self).wf(),
            final(self).phase() == old(self).phase(),
            final(self).info() == old(self).info(),
            final(self).log_lines() == evict_push(
                old(self).log_lines(),
                line,
                DEVNET_LOG_CAPACITY as int,
            ),
    {
        self.logs.append(line);
    }

    /// The cached connection details, available exactly while the process
    /// is running; otherwise the request fails with `NotRunning`.
    pub fn get_devnet_info(&self) -> (result: Result<DevnetInfo, DevnetError>)
        requires
            self.wf(),
        ensures
            self.phase() is Running ==> (result matches Ok(got) && self.info() matches Some(
                cached,
            ) && got.same_info(cached)),
            !(self.phase() is Running) ==> result == Err::<DevnetInfo, DevnetError>(
                DevnetError::NotRunning,
            ),
    {
        match (&self.phase, &self.info) {
            (DevnetPhase::Running, Some(cached)) => Ok(
                DevnetInfo {
                    rpc_url: cached.rpc_url.clone(),
                    chain_id: cached.chain_id,
                    client_version: cached.client_version.clone(),
                    addresses: clone_lines(&cached.addresses),
                    private_keys: clone_lines(&cached.private_keys),
                },
            ),
            _ => Err(DevnetError::NotRunning),
        }
    }

    /// The generated accounts of the running process, each address paired
    /// with its secret key in order; fails with `NotRunning` otherwise.
    pub fn get_devnet_wallets(&self) -> (result: Result<Vec<DevnetWallet>, DevnetError>)
        requires
            self.wf(),
        ensures
            self.phase() is Running ==> (result matches Ok(wallets) && self.info() matches Some(
                cached,
            ) && {
                &&& wallets@.len() == (if cached.addresses@.len() <= cached.private_keys@.len() {
                    cached.addresses@.len()
                } else {
                    cached.private_keys@.len()
                })
                &&& forall|k: int|
                    0 <= k < wallets@.len() ==> wallets@[k].address == cached.addresses@[k]
                        && wallets@[k].private_key == cached.private_keys@[k]
            }),
            !(self.phase() is Running) ==> result == Err::<Vec<DevnetWallet>, DevnetError>(
                DevnetError::NotRunning,
            ),
    {
        match (&self.phase, &self.info) {
            (DevnetPhase::Running, Some(cached)) => {
                let n = if cached.addresses.len() <= cached.private_keys.len() {
                    cached.addresses.len()
                } else {
                    cached.private_keys.len()
                };
                let mut wallets: Vec<DevnetWallet> = Vec::new();
                let mut i: usize = 0;
                while i < n
                    invariant
                        i <= n,
                        n <= cached.addresses@.len(),
                        n <= cached.private_keys@.len(),
                        wallets@.len() == i,
                        forall|k: int|
                            0 <= k < i ==> wallets@[k].address == cached.addresses@[k]
                                && wallets@[k].private_key == cached.private_keys@[k],
                    decreases n - i,
                {
                    wallets.push(
                        DevnetWallet {
                            address: cached.addresses[i].clone(),
                            private_key: cached.private_keys[i].clone(),
                        },
                    );
                    i = i + 1;
                }
                Ok(wallets)
            },
            _ => Err(DevnetError::NotRunning),
        }
    }

    /// Accepts a request to start the process mirroring the remote network
    /// at `url`. The single-instance rule is the same as for a plain start;
    /// on acceptance the remote location is handed back for the caller to
    /// configure the spawn with.
    pub fn fork_network_begin(&mut self, url: String) -> (result: Result<String, DevnetError>)
        requires
            old(self).wf(),
        ensures
            final(self).wf(),
            !(old(self).phase() is Absent) ==> {
                &&& result == Err::<String, DevnetError>(DevnetError::AlreadyRunning)
                &&& *final(self) == *old(self)
            },
            old(self).phase() is Absent ==> {
                &&& result == Ok::<String, DevnetError>(url)
                &&& final(self).phase() is Starting
                &&& final(self).info() is None
                &&& final(self).buffer() == old(self).buffer()
            },
    {
        match self.start_devnet_begin() {
            Ok(_) => Ok(url),
            Err(rejection) => Err(rejection),
        }
    }
}

} // verus!
