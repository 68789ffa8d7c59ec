use chainjobs::indexer::CompactFreezeSummary;
use chainjobs::indexer::IndexerError;
use chainjobs::indexer::IndexerOptions;
use chainjobs::indexer::IndexerTool;
use chainjobs::indexer::RunnerOutcome;

fn options_with_rpc(rpc: &str) -> IndexerOptions {
    IndexerOptions {
        datatype: Vec::new(),
        rpc: Some(rpc.to_string()),
        output_dir: String::new(),
        blocks: None,
        timestamps: None,
        txs: None,
        align: false,
        reorg_buffer: 0,
        include_columns: None,
        exclude_columns: None,
        columns: None,
        u256_types: None,
        hex: false,
        sort: None,
        exclude_failed: false,
        network_name: None,
        requests_per_second: None,
        max_retries: 3,
        initial_backoff: 500,
        max_concurrent_requests: None,
        max_concurrent_chunks: None,
        chunk_order: None,
        dry: false,
        chunk_size: 1000,
        n_chunks: None,
        partition_by: None,
        subdirs: Vec::new(),
        label: None,
        overwrite: false,
        csv: false,
        json: false,
        row_group_size: None,
        n_row_groups: None,
        no_stats: false,
        compression: vec!["lz4".to_string()],
        report_dir: None,
        no_report: false,
        address: None,
        to_address: None,
        from_address: None,
        call_data: None,
        function: None,
        inputs: None,
        slot: None,
        contract: None,
        topic0: None,
        topic1: None,
        topic2: None,
        topic3: None,
        event_signature: None,
        inner_request_size: 100,
        js_tracer: None,
    }
}

#[test]
fn initial_state_is_empty() {
    let tool = IndexerTool::new();
    let state = tool.get_state();
    assert_eq!(state.indexing_progress, 0);
    assert!(state.log_messages.is_empty());
    assert_eq!(state.selected_dataset, None);
    assert!(state.summary.is_none());
    assert!(state.indexed_dirs.is_empty());
    assert!(state.indexed_files.is_empty());
    assert_eq!(state.available_datasets.len(), 36);
    assert!(state.available_datasets.contains(&"blocks".to_string()));
    assert!(state.available_datasets.contains(&"transactions".to_string()));
    assert!(!tool.is_job_in_flight());
}

#[test]
fn get_available_datasets_lists_the_fixed_set() {
    let tool = IndexerTool::new();
    let datasets = tool.get_available_datasets();
    assert_eq!(datasets.len(), 36);
    assert_eq!(datasets[0], "address_appearances");
    assert_eq!(datasets[35], "vm_traces");
}

#[test]
fn set_selected_dataset_accepts_a_member() {
    let mut tool = IndexerTool::new();
    assert_eq!(tool.set_selected_dataset("blocks".to_string()), Ok(()));
    assert_eq!(tool.get_state().selected_dataset, Some("blocks".to_string()));
}

#[test]
fn set_selected_dataset_rejects_unknown_kind() {
    let mut tool = IndexerTool::new();
    let result = tool.set_selected_dataset("not-a-real-kind".to_string());
    assert_eq!(result, Err(IndexerError::InvalidSelection));
    assert_eq!(tool.get_state().selected_dataset, None);
}

#[test]
fn selection_rejection_leaves_previous_choice() {
    let mut tool = IndexerTool::new();
    assert_eq!(tool.set_selected_dataset("logs".to_string()), Ok(()));
    let result = tool.set_selected_dataset("not-a-real-kind".to_string());
    assert_eq!(result, Err(IndexerError::InvalidSelection));
    assert_eq!(tool.get_state().selected_dataset, Some("logs".to_string()));
}

#[test]
fn begin_normalizes_the_request() {
    let mut tool = IndexerTool::new();
    let req = tool
        .start_indexing_begin(
            "/tmp/out".to_string(),
            "blocks".to_string(),
            options_with_rpc("http://x"),
        )
        .unwrap();
    assert_eq!(req.output_dir, "/tmp/out");
    assert_eq!(req.datatype, vec!["blocks".to_string()]);
    assert_eq!(req.rpc, Some("http://x".to_string()));
    assert_eq!(req.chunk_size, 1000);
    let state = tool.get_state();
    assert_eq!(state.indexing_progress, 0);
    assert_eq!(state.selected_dataset, Some("blocks".to_string()));
    assert_eq!(
        state.log_messages,
        vec!["Starting indexing for dataset: blocks".to_string()]
    );
    assert_eq!(state.indexed_dirs, vec!["/tmp/out".to_string()]);
    assert!(tool.is_job_in_flight());
}

#[test]
fn completed_run_records_summary_and_full_progress() {
    let mut tool = IndexerTool::new();
    tool.start_indexing_begin(
        "/tmp/out".to_string(),
        "blocks".to_string(),
        options_with_rpc("http://x"),
    )
    .unwrap();
    let summary = CompactFreezeSummary::from_counts(10, 1, 0, 420);
    let result = tool.start_indexing_finish(RunnerOutcome::Completed(summary));
    let got = result.unwrap();
    assert_eq!(got.total_chunks, 11);
    assert_eq!(got.completed_chunks, 10);
    assert_eq!(got.skipped_chunks, 1);
    assert_eq!(got.errored_chunks, 0);
    let state = tool.get_state();
    let recorded = state.summary.unwrap();
    assert_eq!(recorded.total_chunks, 11);
    assert_eq!(state.indexing_progress, 100);
    assert!(state
        .log_messages
        .contains(&"Indexing completed successfully.".to_string()));
    assert!(!tool.is_job_in_flight());
}

#[test]
fn run_without_summary_leaves_progress_unchanged() {
    let mut tool = IndexerTool::new();
    tool.start_indexing_begin(
        "/tmp/out".to_string(),
        "blocks".to_string(),
        options_with_rpc("http://x"),
    )
    .unwrap();
    let progress_before = tool.get_state().indexing_progress;
    let result = tool.start_indexing_finish(RunnerOutcome::NoSummary);
    assert_eq!(result, Err(IndexerError::NoSummaryProduced));
    let state = tool.get_state();
    assert_eq!(state.indexing_progress, progress_before);
    assert!(state.summary.is_none());
    assert!(state
        .log_messages
        .contains(&"Indexing completed, but no summary was produced.".to_string()));
}

#[test]
fn failed_run_reports_the_detail() {
    let mut tool = IndexerTool::new();
    tool.start_indexing_begin(
        "/tmp/out".to_string(),
        "blocks".to_string(),
        options_with_rpc("http://x"),
    )
    .unwrap();
    let result = tool.start_indexing_finish(RunnerOutcome::Failed("rpc unreachable".to_string()));
    assert_eq!(
        result,
        Err(IndexerError::JobFailed("rpc unreachable".to_string()))
    );
    let state = tool.get_state();
    assert_eq!(state.indexing_progress, 0);
    assert!(state
        .log_messages
        .contains(&"Error: rpc unreachable".to_string()));
}

#[test]
fn second_start_is_rejected_while_in_flight() {
    let mut tool = IndexerTool::new();
    tool.start_indexing_begin(
        "/tmp/out".to_string(),
        "blocks".to_string(),
        options_with_rpc("http://x"),
    )
    .unwrap();
    let second = tool.start_indexing_begin(
        "/tmp/other".to_string(),
        "logs".to_string(),
        options_with_rpc("http://y"),
    );
    assert!(matches!(second, Err(IndexerError::JobAlreadyRunning)));
    // The rejected request changed nothing.
    let state = tool.get_state();
    assert_eq!(state.selected_dataset, Some("blocks".to_string()));
    assert_eq!(state.indexed_dirs, vec!["/tmp/out".to_string()]);
    // After the run finishes, a new one is accepted.
    tool.start_indexing_finish(RunnerOutcome::NoSummary).ok();
    assert!(tool
        .start_indexing_begin(
            "/tmp/other".to_string(),
            "logs".to_string(),
            options_with_rpc("http://y"),
        )
        .is_ok());
}

#[test]
fn from_counts_totals_every_chunk() {
    let summary = CompactFreezeSummary::from_counts(7, 2, 3, 999);
    assert_eq!(summary.total_chunks, 12);
    assert_eq!(summary.rows_written, 999);
}

#[test]
fn error_messages_are_stable() {
    assert_eq!(
        IndexerError::JobAlreadyRunning.message(),
        "A job is already running"
    );
    assert_eq!(
        IndexerError::InvalidSelection.message(),
        "Invalid dataset selected"
    );
    assert_eq!(
        IndexerError::NoSummaryProduced.message(),
        "No summary produced"
    );
    assert_eq!(
        IndexerError::JobFailed("boom".to_string()).message(),
        "boom"
    );
}

#[test]
fn live_log_stream_is_independent_of_state_messages() {
    let mut tool = IndexerTool::new();
    let sub = tool.subscribe_to_logs();
    tool.publish_log("chunk 1 done".to_string());
    assert_eq!(tool.recv_log(sub), Some("chunk 1 done".to_string()));
    assert_eq!(tool.recv_log(sub), None);
    assert!(tool.get_state().log_messages.is_empty());
}

#[test]
fn slow_log_subscriber_loses_only_the_oldest_lines() {
    let mut tool = IndexerTool::new();
    let sub = tool.subscribe_to_logs();
    for i in 0..101 {
        tool.publish_log(format!("line-{}", i));
    }
    // The queue holds 100 lines; the single overflow dropped "line-0".
    assert_eq!(tool.recv_log(sub), Some("line-1".to_string()));
    let mut received: usize = 1;
    while tool.recv_log(sub).is_some() {
        received += 1;
    }
    assert_eq!(received, 100);
}

#[test]
fn log_subscriber_after_publishes_sees_only_new_lines() {
    let mut tool = IndexerTool::new();
    tool.publish_log("early".to_string());
    let sub = tool.subscribe_to_logs();
    assert_eq!(tool.recv_log(sub), None);
    tool.publish_log("late".to_string());
    assert_eq!(tool.recv_log(sub), Some("late".to_string()));
}
