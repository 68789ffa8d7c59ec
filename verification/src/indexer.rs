use crate::fanout::LogBroadcaster;
use crate::text::clone_lines;
use crate::text::clone_optional_line;
use vstd::prelude::*;
use vstd::string::StringExecFns;

verus! {

/// Per-subscriber queue bound of the indexer's log fan-out.
pub const LOG_CHANNEL_CAPACITY: usize = 100;

/// Configuration of one indexing run, handed through to the external
/// runner by the surrounding application. All values are plain data; the
/// library only normalizes them (output directory and dataset choice
/// override whatever the caller put in those fields).
#[derive(Debug)]
pub struct IndexerOptions {
    // Basic options
    pub datatype: Vec<String>,
    pub rpc: Option<String>,
    pub output_dir: String,
    // Content options
    pub blocks: Option<Vec<String>>,
    pub timestamps: Option<Vec<String>>,
    pub txs: Option<Vec<String>>,
    pub align: bool,
    pub reorg_buffer: u64,
    pub include_columns: Option<Vec<String>>,
    pub exclude_columns: Option<Vec<String>>,
    pub columns: Option<Vec<String>>,
    pub u256_types: Option<Vec<String>>,
    pub hex: bool,
    pub sort: Option<Vec<String>>,
    pub exclude_failed: bool,
    // Source options
    pub network_name: Option<String>,
    // Acquisition options
    pub requests_per_second: Option<u32>,
    pub max_retries: u32,
    pub initial_backoff: u64,
    pub max_concurrent_requests: Option<u64>,
    pub max_concurrent_chunks: Option<u64>,
    pub chunk_order: Option<String>,
    pub dry: bool,
    // Output options
    pub chunk_size: u64,
    pub n_chunks: Option<u64>,
    pub partition_by: Option<Vec<String>>,
    pub subdirs: Vec<String>,
    pub label: Option<String>,
    pub overwrite: bool,
    pub csv: bool,
    pub json: bool,
    pub row_group_size: Option<usize>,
    pub n_row_groups: Option<usize>,
    pub no_stats: bool,
    pub compression: Vec<String>,
    pub report_dir: Option<String>,
    pub no_report: bool,
    // Dataset-specific options
    pub address: Option<Vec<String>>,
    pub to_address: Option<Vec<String>>,
    pub from_address: Option<Vec<String>>,
    pub call_data: Option<Vec<String>>,
    pub function: Option<Vec<String>>,
    pub inputs: Option<Vec<String>>,
    pub slot: Option<Vec<String>>,
    pub contract: Option<Vec<String>>,
    pub topic0: Option<Vec<String>>,
    pub topic1: Option<Vec<String>>,
    pub topic2: Option<Vec<String>>,
    pub topic3: Option<Vec<String>>,
    pub event_signature: Option<String>,
    pub inner_request_size: u64,
    pub js_tracer: Option<String>,
}

/// Condensed summary of a completed indexing run.
#[derive(Clone, Copy, Debug, PartialEq, Eq, Structural)]
pub struct CompactFreezeSummary {
    pub completed_chunks: usize,
    pub skipped_chunks: usize,
    pub errored_chunks: usize,
    pub total_chunks: usize,
    pub rows_written: u64,
}

impl CompactFreezeSummary {
    /// The chunk total accounts for every chunk the run touched.
    pub open spec fn wf(&self) -> bool {
        self.total_chunks == self.completed_chunks + self.skipped_chunks + self.errored_chunks
    }

    /// Condenses the chunk counts of a finished run; the total is their sum.
    pub fn from_counts(
        completed_chunks: usize,
        skipped_chunks: usize,
        errored_chunks: usize,
        rows_written: u64,
    ) -> (summary: CompactFreezeSummary)
        requires
            completed_chunks + skipped_chunks + errored_chunks <= usize::MAX,
        ensures
            summary.completed_chunks == completed_chunks,
            summary.skipped_chunks == skipped_chunks,
            summary.errored_chunks == errored_chunks,
            summary.rows_written == rows_written,
            summary.wf(),
    {
        let total_chunks = completed_chunks + skipped_chunks + errored_chunks;
        CompactFreezeSummary {
            completed_chunks,
            skipped_chunks,
            errored_chunks,
            total_chunks,
            rows_written,
        }
    }
}

/// What the external indexing runner came back with: a summary, a clean
/// finish without one, or a failure with its detail message.
#[derive(Debug)]
pub enum RunnerOutcome {
    Completed(CompactFreezeSummary),
    NoSummary,
    Failed(String),
}

/// Why an indexer request was rejected or a run did not deliver a summary.
#[derive(Debug, PartialEq, Eq)]
pub enum IndexerError {
    /// A run is in flight; a second one is rejected, never queued.
    JobAlreadyRunning,
    /// The requested dataset is not one of the available datasets.
    InvalidSelection,
    /// The run finished but the runner produced no summary.
    NoSummaryProduced,
    /// The runner failed; the detail message is the runner's own.
    JobFailed(String),
}

impl IndexerError {
    /// Human-readable description of the error.
    pub fn message(&self) -> (text: String)
        ensures
            self is JobAlreadyRunning ==> text@ == "A job is already running"@,
            self is InvalidSelection ==> text@ == "Invalid dataset selected"@,
            self is NoSummaryProduced ==> text@ == "No summary produced"@,
            self matches IndexerError::JobFailed(detail) ==> text@ == detail@,
    {
        match self {
            IndexerError::JobAlreadyRunning => "A job is already running".to_owned(),
            IndexerError::InvalidSelection => "Invalid dataset selected".to_owned(),
            IndexerError::NoSummaryProduced => "No summary produced".to_owned(),
            IndexerError::JobFailed(detail) => detail.clone(),
        }
    }
}

/// Shared state of the background indexing job. Readers obtain
/// point-in-time snapshots; all mutation goes through the exclusive access
/// the `IndexerTool` methods demand.
#[derive(Debug)]
#[verifier::ext_equal]
pub struct IndexerState {
    /// Completion percentage of the current run, 0 to 100.
    pub indexing_progress: u32,
    /// Status lines of the current run, oldest first; reset when a new
    /// run starts.
    pub log_messages: Vec<String>,
    /// The fixed set of dataset kinds a run may index.
    pub available_datasets: Vec<String>,
    /// Dataset choice, always one of the available datasets once set.
    pub selected_dataset: Option<String>,
    /// Summary of the most recently completed run, if any run completed.
    pub summary: Option<CompactFreezeSummary>,
    /// Output locations handed to past and current runs.
    pub indexed_dirs: Vec<String>,
    /// Files reported by past runs.
    pub indexed_files: Vec<String>,
}

impl IndexerState {
    /// The available dataset names as character sequences.
    pub open spec fn dataset_views(&self) -> Seq<Seq<char>> {
        self.available_datasets@.map_values(|s: String| s@)
    }

    /// `other` shows the same observable state: same progress, messages,
    /// datasets, selection, summary and locations.
    pub open spec fn same_snapshot(&self, other: IndexerState) -> bool {
        &&& self.indexing_progress == other.indexing_progress
        &&& self.log_messages@ == other.log_messages@
        &&& self.available_datasets@ == other.available_datasets@
        &&& self.selected_dataset == other.selected_dataset
        &&& self.summary == other.summary
        &&& self.indexed_dirs@ == other.indexed_dirs@
        &&& self.indexed_files@ == other.indexed_files@
    }

    /// Progress stays a percentage, and a state showing full progress
    /// always carries a completed run's summary.
    pub open spec fn wf(&self) -> bool {
        &&& self.indexing_progress <= 100
        &&& self.indexing_progress == 100 ==> self.summary is Some
    }
}

/// Law: no observable snapshot mixes full progress with an absent result.
/// Every well-formed job state keeps its progress in the percentage range,
/// and whenever it reports progress 100 it also carries the summary of the
/// completed run.
pub proof fn lemma_snapshot_consistent(state: IndexerState)
    requires
        state.wf(),
    ensures
        state.indexing_progress <= 100,
        state.indexing_progress == 100 ==> state.summary is Some,
{
}

/// The dataset kinds offered at construction, in order.
pub open spec fn standard_datasets() -> Seq<Seq<char>> {
    seq![
        "address_appearances"@,
        "balance_diffs"@,
        "balance_reads"@,
        "balances"@,
        "blocks"@,
        "code_diffs"@,
        "code_reads"@,
        "codes"@,
        "contracts"@,
        "erc20_balances"@,
        "erc20_metadata"@,
        "erc20_supplies"@,
        "erc20_transfers"@,
        "erc721_metadata"@,
        "erc721_transfers"@,
        "eth_calls"@,
        "four_byte_counts"@,
        "geth_calls"@,
        "geth_code_diffs"@,
        "geth_balance_diffs"@,
        "geth_storage_diffs"@,
        "geth_nonce_diffs"@,
        "geth_opcodes"@,
        "javascript_traces"@,
        "logs"@,
        "native_transfers"@,
        "nonce_diffs"@,
        "nonce_reads"@,
        "nonces"@,
        "slots"@,
        "storage_diffs"@,
        "storage_reads"@,
        "traces"@,
        "trace_calls"@,
        "transactions"@,
        "vm_traces"@,
    ]
}

/// The status line recorded when a run for `dataset` starts.
pub open spec fn start_message(dataset: Seq<char>) -> Seq<char> {
    "Starting indexing for dataset: "@ + dataset
}

/// The returned request is `options` with the output directory and the
/// dataset choice overridden by the run's `path` and `dataset`.
pub open spec fn normalized_request(
    req: IndexerOptions,
    path: String,
    dataset: String,
    options: IndexerOptions,
) -> bool {
    &&& req.output_dir == path
    &&& req.datatype@ == seq![dataset]
    &&& req.rpc == options.rpc
    &&& req.blocks == options.blocks
    &&& req.timestamps == options.timestamps
    &&& req.txs == options.txs
    &&& req.align == options.align
    &&& req.reorg_buffer == options.reorg_buffer
    &&& req.include_columns == options.include_columns
    &&& req.exclude_columns == options.exclude_columns
    &&& req.columns == options.columns
    &&& req.u256_types == options.u256_types
    &&& req.hex == options.hex
    &&& req.sort == options.sort
    &&& req.exclude_failed == options.exclude_failed
    &&& req.network_name == options.network_name
    &&& req.requests_per_second == options.requests_per_second
    &&& req.max_retries == options.max_retries
    &&& req.initial_backoff == options.initial_backoff
    &&& req.max_concurrent_requests == options.max_concurrent_requests
    &&& req.max_concurrent_chunks == options.max_concurrent_chunks
    &&& req.chunk_order == options.chunk_order
    &&& req.dry == options.dry
    &&& req.chunk_size == options.chunk_size
    &&& req.n_chunks == options.n_chunks
    &&& req.partition_by == options.partition_by
    &&& req.subdirs == options.subdirs
    &&& req.label == options.label
    &&& req.overwrite == options.overwrite
    &&& req.csv == options.csv
    &&& req.json == options.json
    &&& req.row_group_size == options.row_group_size
    &&& req.n_row_groups == options.n_row_groups
    &&& req.no_stats == options.no_stats
    &&& req.compression == options.compression
    &&& req.report_dir == options.report_dir
    &&& req.no_report == options.no_report
    &&& req.address == options.address
    &&& req.to_address == options.to_address
    &&& req.from_address == options.from_address
    &&& req.call_data == options.call_data
    &&& req.function == options.function
    &&& req.inputs == options.inputs
    &&& req.slot == options.slot
    &&& req.contract == options.contract
    &&& req.topic0 == options.topic0
    &&& req.topic1 == options.topic1
    &&& req.topic2 == options.topic2
    &&& req.topic3 == options.topic3
    &&& req.event_signature == options.event_signature
    &&& req.inner_request_size == options.inner_request_size
    &&& req.js_tracer == options.js_tracer
}

/// Supervisor of the background indexing job: it owns the job state and
/// the log fan-out, runs at most one job at a time, and translates the
/// external runner's outcome into a state update and a caller-visible
/// result. The long-running external call itself happens between
/// `start_indexing_begin` and `start_indexing_finish`, outside any
/// exclusive access to this supervisor.
pub struct IndexerTool {
    state: IndexerState,
    log_sender: LogBroadcaster,
    job_in_flight: bool,
}

impl IndexerTool {
    /// The current job state.
    pub closed spec fn job_state(&self) -> IndexerState {
        self.state
    }

    /// The log fan-out carrying the live stream of run output.
    pub closed spec fn sender(&self) -> LogBroadcaster {
        self.log_sender
    }

    /// Whether a run is currently between begin and finish.
    pub closed spec fn in_flight(&self) -> bool {
        self.job_in_flight
    }

    pub open spec fn wf(&self) -> bool {
        &&& self.job_state().wf()
        &&& self.sender().wf()
    }

    pub fn new() -> (tool: IndexerTool)
        ensures
            tool.wf(),
            !tool.in_flight(),
            tool.job_state().indexing_progress == 0,
            tool.job_state().log_messages@ == Seq::<String>::empty(),
            tool.job_state().dataset_views() == standard_datasets(),
            tool.job_state().selected_dataset is None,
            tool.job_state().summary is None,
            tool.job_state().indexed_dirs@ == Seq::<String>::empty(),
            tool.job_state().indexed_files@ == Seq::<String>::empty(),
            tool.sender().sub_count() == 0,
            tool.sender().history() == Seq::<String>::empty(),
            tool.sender().cap() == LOG_CHANNEL_CAPACITY,
    {
        let mut available_datasets: Vec<String> = Vec::new();
        available_datasets.push("address_appearances".to_owned());
        available_datasets.push("balance_diffs".to_owned());
        available_datasets.push("balance_reads".to_owned());
        available_datasets.push("balances".to_owned());
        available_datasets.push("blocks".to_owned());
        available_datasets.push("code_diffs".to_owned());
        available_datasets.push("code_reads".to_owned());
        available_datasets.push("codes".to_owned());
        available_datasets.push("contracts".to_owned());
        available_datasets.push("erc20_balances".to_owned());
        available_datasets.push("erc20_metadata".to_owned());
        available_datasets.push("erc20_supplies".to_owned());
        available_datasets.push("erc20_transfers".to_owned());
        available_datasets.push("erc721_metadata".to_owned());
        available_datasets.push("erc721_transfers".to_owned());
        available_datasets.push("eth_calls".to_owned());
        available_datasets.push("four_byte_counts".to_owned());
        available_datasets.push("geth_calls".to_owned());
        available_datasets.push("geth_code_diffs".to_owned());
        available_datasets.push("geth_balance_diffs".to_owned());
        available_datasets.push("geth_storage_diffs".to_owned());
        available_datasets.push("geth_nonce_diffs".to_owned());
        available_datasets.push("geth_opcodes".to_owned());
        available_datasets.push("javascript_traces".to_owned());
        available_datasets.push("logs".to_owned());
        available_datasets.push("native_transfers".to_owned());
        available_datasets.push("nonce_diffs".to_owned());
        available_datasets.push("nonce_reads".to_owned());
        available_datasets.push("nonces".to_owned());
        available_datasets.push("slots".to_owned());
        available_datasets.push("storage_diffs".to_owned());
        available_datasets.push("storage_reads".to_owned());
        available_datasets.push("traces".to_owned());
        available_datasets.push("trace_calls".to_owned());
        available_datasets.push("transactions".to_owned());
        available_datasets.push("vm_traces".to_owned());
        let state = IndexerState {
            indexing_progress: 0,
            log_messages: Vec::new(),
            available_datasets,
            selected_dataset: None,
            summary: None,
            indexed_dirs: Vec::new(),
            indexed_files: Vec::new(),
        };
        let tool = IndexerTool {
            state,
            log_sender: LogBroadcaster::new(LOG_CHANNEL_CAPACITY),
            job_in_flight: false,
        };
        proof {
            assert(tool.job_state().dataset_views() =~= standard_datasets());
        }
        tool
    }

    /// Point-in-time snapshot of the job state. The caller sees either the
    /// state before or after any given mutation, never a mix.
    pub fn get_state(&self) -> (snapshot: IndexerState)
        ensures
            snapshot.same_snapshot(self.job_state()),
    {
        let snapshot = IndexerState {
            indexing_progress: self.state.indexing_progress,
            log_messages: clone_lines(&self.state.log_messages),
            available_datasets: clone_lines(&self.state.available_datasets),
            selected_dataset: clone_optional_line(&self.state.selected_dataset),
            summary: self.state.summary,
            indexed_dirs: clone_lines(&self.state.indexed_dirs),
            indexed_files: clone_lines(&self.state.indexed_files),
        };
        snapshot
    }

    /// Selects a dataset kind for the next run. Exactly the dataset names
    /// in the available set are accepted; anything else is rejected with
    /// `InvalidSelection` and leaves the state untouched.
    pub fn set_selected_dataset(&mut self, dataset: String) -> (result: Result<(), IndexerError>)
        requires
            old(self).wf(),
        ensures
            final(self).wf(),
            final(self).in_flight() == old(self).in_flight(),
            final(self).sender() == old(self).sender(),
            old(self).job_state().dataset_views().contains(dataset@) ==> {
                &&& result == Ok::<(), IndexerError>(())
                &&& final(self).job_state() == (IndexerState {
                    selected_dataset: Some(dataset),
                    ..old(self).job_state()
                })
            },
            !old(self).job_state().dataset_views().contains(dataset@) ==> {
                &&& result == Err::<(), IndexerError>(IndexerError::InvalidSelection)
                &&& final(self).job_state() == old(self).job_state()
            },
    {
        let n = self.state.available_datasets.len();
        let mut i: usize = 0;
        while i < n
            invariant
                *self == *old(self),
                old(self).wf(),
                n == self.state.available_datasets@.len(),
                i <= n,
                forall|j: int| 0 <= j < i ==> self.state.dataset_views()[j] != dataset@,
            decreases n - i,
        {
            if self.state.available_datasets[i] == dataset {
                proof {
                    assert(self.state.dataset_views()[i as int] == dataset@);
                }
                self.state.selected_dataset = Some(dataset);
                proof {
                    assert(self.job_state() =~= (IndexerState {
                        selected_dataset: Some(dataset),
                        ..old(self).job_state()
                    }));
                }
                return Ok(());
            }
            i = i + 1;
        }
        proof {
            assert(!self.state.dataset_views().contains(dataset@));
        }
        Err(IndexerError::InvalidSelection)
    }

    /// The dataset kinds a run may index.
    pub fn get_available_datasets(&self) -> (datasets: Vec<String>)
        ensures
            datasets@ == self.job_state().available_datasets@,
    {
        clone_lines(&self.state.available_datasets)
    }

    /// Starts a run: enforces single-flight, resets progress and messages,
    /// records the dataset choice and the output location, and hands back
    /// the normalized request for the external runner. The caller performs
    /// the external call and then reports its outcome to
    /// `start_indexing_finish`.
    pub fn start_indexing_begin(
        &mut self,
        path: String,
        dataset: String,
        options: IndexerOptions,
    ) -> (result: Result<IndexerOptions, IndexerError>)
        requires
            old(self).wf(),
        ensures
            final(self).wf(),
            old(self).in_flight() ==> {
                &&& result matches Err(e) && e == IndexerError::JobAlreadyRunning
                &&& *final(self) == *old(self)
            },
            !old(self).in_flight() ==> {
                &&& final(self).in_flight()
                &&& final(self).sender() == old(self).sender()
                &&& final(self).job_state().selected_dataset == Some(dataset)
                &&& final(self).job_state().indexing_progress == 0
                &&& final(self).job_state().log_messages@.len() == 1
                &&& final(self).job_state().log_messages@[0]@ == start_message(dataset@)
                &&& final(self).job_state().indexed_dirs@ == old(self).job_state().indexed_dirs@.push(path)
                &&& final(self).job_state().indexed_files == old(self).job_state().indexed_files
                &&& final(self).job_state().summary == old(self).job_state().summary
                &&& final(self).job_state().available_datasets == old(self).job_state().available_datasets
                &&& result matches Ok(req) && normalized_request(req, path, dataset, options)
            },
    {
        if self.job_in_flight {
            return Err(IndexerError::JobAlreadyRunning);
        }
        self.job_in_flight = true;
        self.state.selected_dataset = Some(dataset.clone());
        self.state.indexing_progress = 0;
        let mut start_line = "Starting indexing for dataset: ".to_owned();
        start_line.append(dataset.as_str());
        let mut log_messages: Vec<String> = Vec::new();
        log_messages.push(start_line);
        self.state.log_messages = log_messages;
        self.state.indexed_dirs.push(path.clone());
        let mut req = options;
        req.output_dir = path;
        let mut datatype: Vec<String> = Vec::new();
        datatype.push(dataset);
        req.datatype = datatype;
        Ok(req)
    }

    /// Finishes the run begun by `start_indexing_begin`, translating the
    /// runner's outcome into the state update and the caller-visible
    /// result: a summary completes the run at progress 100, a missing
    /// summary or a failure records a diagnostic message and leaves
    /// progress untouched. Progress never decreases within a run.
    pub fn start_indexing_finish(&mut self, outcome: RunnerOutcome) -> (result: Result<
        CompactFreezeSummary,
        IndexerError,
    >)
        requires
            old(self).wf(),
            old(self).in_flight(),
        ensures
            final(self).wf(),
            !final(self).in_flight(),
            final(self).sender() == old(self).sender(),
            final(self).job_state().available_datasets == old(self).job_state().available_datasets,
            final(self).job_state().selected_dataset == old(self).job_state().selected_dataset,
            final(self).job_state().indexed_dirs == old(self).job_state().indexed_dirs,
            final(self).job_state().indexed_files == old(self).job_state().indexed_files,
            final(self).job_state().indexing_progress >= old(self).job_state().indexing_progress,
            final(self).job_state().log_messages@.len() == old(self).job_state().log_messages@.len() + 1,
            final(self).job_state().log_messages@.drop_last() == old(self).job_state().log_messages@,
            outcome matches RunnerOutcome::Completed(summary) ==> {
                &&& result == Ok::<CompactFreezeSummary, IndexerError>(summary)
                &&& final(self).job_state().summary == Some(summary)
                &&& final(self).job_state().indexing_progress == 100
                &&& final(self).job_state().log_messages@.last()@
                    == "Indexing completed successfully."@
            },
            outcome is NoSummary ==> {
                &&& result == Err::<CompactFreezeSummary, IndexerError>(
                    IndexerError::NoSummaryProduced,
                )
                &&& final(self).job_state().summary == old(self).job_state().summary
                &&& final(self).job_state().indexing_progress == old(self).job_state().indexing_progress
                &&& final(self).job_state().log_messages@.last()@
                    == "Indexing completed, but no summary was produced."@
            },
            outcome matches RunnerOutcome::Failed(detail) ==> {
                &&& result == Err::<CompactFreezeSummary, IndexerError>(
                    IndexerError::JobFailed(detail),
                )
                &&& final(self).job_state().summary == old(self).job_state().summary
                &&& final(self).job_state().indexing_progress == old(self).job_state().indexing_progress
                &&& final(self).job_state().log_messages@.last()@ == "Error: "@ + detail@
            },
    {
        self.job_in_flight = false;
        match outcome {
            RunnerOutcome::Completed(summary) => {
                self.state.summary = Some(summary);
                self.state.indexing_progress = 100;
                self.state.log_messages.push("Indexing completed successfully.".to_owned());
                proof {
                    assert(self.state.log_messages@.drop_last() =~= old(self).job_state().log_messages@);
                }
                Ok(summary)
            },
            RunnerOutcome::NoSummary => {
                self.state.log_messages.push(
                    "Indexing completed, but no summary was produced.".to_owned(),
                );
                proof {
                    assert(self.state.log_messages@.drop_last() =~= old(self).job_state().log_messages@);
                }
                Err(IndexerError::NoSummaryProduced)
            },
            RunnerOutcome::Failed(detail) => {
                let mut line = "Error: ".to_owned();
                line.append(detail.as_str());
                self.state.log_messages.push(line);
                proof {
                    assert(self.state.log_messages@.drop_last() =~= old(self).job_state().log_messages@);
                }
                Err(IndexerError::JobFailed(detail))
            },
        }
    }

    /// Registers a new live-stream subscriber; it observes only lines
    /// published after this call. The job state itself is untouched.
    pub fn subscribe_to_logs(&mut self) -> (id: usize)
        requires
            old(self).wf(),
        ensures
            final(self).wf(),
            final(self).job_state() == old(self).job_state(),
            final(self).in_flight() == old(self).in_flight(),
            id == old(self).sender().sub_count(),
            final(self).sender().sub_count() == old(self).sender().sub_count() + 1,
            final(self).sender().is_open(id as int),
            final(self).sender().pending(id as int) == Seq::<String>::empty(),
            final(self).sender().cursor(id as int) == old(self).sender().history().len(),
            final(self).sender().history() == old(self).sender().history(),
            final(self).sender().cap() == old(self).sender().cap(),
            forall|other: int|
                0 <= other < old(self).sender().sub_count() ==> final(self).sender().sub_unchanged(
                    old(self).sender(),
                    other,
                ),
    {
        self.log_sender.subscribe()
    }

    /// Publishes one line of live run output to every open subscriber;
    /// a subscriber with a full queue loses its oldest pending line, and
    /// the publisher never waits. The job state itself is untouched.
    pub fn publish_log(&mut self, line: String)
        requires
            old(self).wf(),
        ensures
            final(self).wf(),
            final(self).job_state() == old(self).job_state(),
            final(self).in_flight() == old(self).in_flight(),
            final(self).sender().history() == old(self).sender().history().push(line),
            final(self).sender().sub_count() == old(self).sender().sub_count(),
            final(self).sender().cap() == old(self).sender().cap(),
            forall|id: int|
                0 <= id < old(self).sender().sub_count() ==> final(self).sender().is_open(id)
                    == old(self).sender().is_open(id),
            forall|id: int|
                0 <= id < old(self).sender().sub_count() && !old(self).sender().is_open(id)
                    ==> final(self).sender().pending(id) == old(self).sender().pending(id),
            forall|id: int|
                0 <= id < old(self).sender().sub_count() && old(self).sender().is_open(id)
                    ==> final(self).sender().pending(id) == (if old(self).sender().pending(
                    id,
                ).len() < old(self).sender().cap() {
                    old(self).sender().pending(id).push(line)
                } else {
                    old(self).sender().pending(id).skip(1).push(line)
                }),
    {
        self.log_sender.publish(line);
    }

    /// Takes the oldest pending line for subscriber `id`, or `None` when
    /// nothing is pending. Lines arrive in publish order.
    pub fn recv_log(&mut self, id: usize) -> (line: Option<String>)
        requires
            old(self).wf(),
            id < old(self).sender().sub_count(),
        ensures
            final(self).wf(),
            final(self).job_state() == old(self).job_state(),
            final(self).in_flight() == old(self).in_flight(),
            final(self).sender().history() == old(self).sender().history(),
            final(self).sender().sub_count() == old(self).sender().sub_count(),
            final(self).sender().cap() == old(self).sender().cap(),
            forall|other: int|
                0 <= other < old(self).sender().sub_count() && other != id ==> final(self).sender().sub_unchanged(old(self).sender(), other),
            old(self).sender().is_open(id as int) && old(self).sender().pending(id as int).len()
                > 0 ==> {
                &&& line == Some(old(self).sender().pending(id as int)[0])
                &&& final(self).sender().pending(id as int) == old(self).sender().pending(
                    id as int,
                ).skip(1)
                &&& final(self).sender().cursor(id as int) == old(self).sender().cursor(id as int)
                    + 1
            },
            !(old(self).sender().is_open(id as int) && old(self).sender().pending(
                id as int,
            ).len() > 0) ==> {
                &&& line is None
                &&& final(self).sender().sub_unchanged(old(self).sender(), id as int)
            },
    {
        self.log_sender.recv(id)
    }

    /// Whether a run is currently in flight.
    pub fn is_job_in_flight(&self) -> (running: bool)
        ensures
            running == self.in_flight(),
    {
        self.job_in_flight
    }
}

} // verus!
