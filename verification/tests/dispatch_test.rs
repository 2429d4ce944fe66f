use lw_telemetry::blob::seq_to_blob_id;
use lw_telemetry::channels::make_blob_channels;
use lw_telemetry::dispatch::{
    extract_blob_ids, handle_blob_record, handle_signal_record, lw_task_handler, route_plan,
};
use lw_telemetry::types::{
    lw_blob, lw_filename, lw_pid, lw_signal_header, lw_signal_task, lw_task, lw_task_exec,
    LW_SIGNAL_TASK,
};
use lw_telemetry::BlobError;

fn blob_record(cpu: usize, sequence: u64, next: u64, payload: &[u8]) -> Vec<u8> {
    let mut buf = vec![0u8; 512];
    buf[0..8].copy_from_slice(&seq_to_blob_id(cpu, sequence).to_le_bytes());
    buf[8..16].copy_from_slice(&seq_to_blob_id(cpu, next).to_le_bytes());
    buf[16..18].copy_from_slice(&(payload.len() as u16).to_le_bytes());
    buf[24..24 + payload.len()].copy_from_slice(payload);
    buf
}

fn task_record(filename: Result<u64, &[u8]>, args: u64, env: u64) -> Vec<u8> {
    let mut buf = vec![0u8; 72];
    buf[0..4].copy_from_slice(&LW_SIGNAL_TASK.to_le_bytes());
    buf[4..8].copy_from_slice(&101u32.to_le_bytes());
    buf[8..12].copy_from_slice(&1u32.to_le_bytes());
    buf[12..16].copy_from_slice(&100u32.to_le_bytes());
    buf[16..20].copy_from_slice(&1u32.to_le_bytes());
    match filename {
        Ok(blob_id) => {
            // Overflow flag word stays 0; the blob id follows it.
            buf[32..40].copy_from_slice(&blob_id.to_le_bytes());
        }
        Err(name) => {
            buf[24..24 + name.len()].copy_from_slice(name);
        }
    }
    buf[56..64].copy_from_slice(&args.to_le_bytes());
    buf[64..72].copy_from_slice(&env.to_le_bytes());
    buf
}

fn task_value(filename: lw_filename, args: u64, env: u64) -> lw_signal_task {
    lw_signal_task {
        header: lw_signal_header { signal_type: LW_SIGNAL_TASK },
        body: lw_task {
            pid: lw_pid { pid: 101, pid_vnr: 1 },
            parent: lw_pid { pid: 100, pid_vnr: 1 },
            exec_info: lw_task_exec { filename, args, env },
        },
    }
}

#[test]
fn test_blob_record_decode() {
    let buf = blob_record(1, 2, 9, b"0");
    let blob = lw_blob::copy_from_bytes(&buf).expect("decode failed");
    assert_eq!(blob.header.blob_id, seq_to_blob_id(1, 2));
    assert_eq!(blob.header.blob_next, seq_to_blob_id(1, 9));
    assert_eq!(blob.header.effective_data_size, 1);
    assert_eq!(blob.data.len(), 488);
    assert_eq!(blob.data[0], b'0');
    assert_eq!(blob.data[1], 0);
}

#[test]
fn test_blob_record_decode_full_payload() {
    // The payload area filled to the last byte still decodes.
    let payload = vec![7u8; 488];
    let buf = blob_record(0, 3, 0, &payload);
    let blob = lw_blob::copy_from_bytes(&buf).expect("decode failed");
    assert_eq!(blob.header.effective_data_size, 488);
    assert_eq!(blob.data, payload);
}

#[test]
fn test_blob_record_corrupted() {
    let short = vec![0u8; 100];
    assert_eq!(
        lw_blob::copy_from_bytes(&short).unwrap_err(),
        BlobError::CorruptedRecord
    );

    // Whole record, but the effective size exceeds the payload area.
    let mut buf = blob_record(1, 2, 0, b"0");
    buf[16..18].copy_from_slice(&489u16.to_le_bytes());
    assert_eq!(
        lw_blob::copy_from_bytes(&buf).unwrap_err(),
        BlobError::CorruptedRecord
    );
}

#[test]
fn test_task_record_decode() {
    let blob_id = seq_to_blob_id(1, 2);
    let buf = task_record(Ok(blob_id), 7, 9);
    let task = lw_signal_task::copy_from_bytes(&buf).expect("decode failed");
    assert_eq!(task.header.signal_type, LW_SIGNAL_TASK);
    assert_eq!(task.body.pid.pid, 101);
    assert_eq!(task.body.pid.pid_vnr, 1);
    assert_eq!(task.body.parent.pid, 100);
    assert!(matches!(task.body.exec_info.filename, lw_filename::Blob(id) if id == blob_id));
    assert_eq!(task.body.exec_info.args, 7);
    assert_eq!(task.body.exec_info.env, 9);

    let buf = task_record(Err(b"/usr/bin/date"), 0, 0);
    let task = lw_signal_task::copy_from_bytes(&buf).expect("decode failed");
    match task.body.exec_info.filename {
        lw_filename::Inline(name) => {
            assert_eq!(name.len(), 32);
            assert_eq!(&name[..13], b"/usr/bin/date");
        }
        lw_filename::Blob(_) => panic!("expected an inline filename"),
    }

    let short = vec![0u8; 10];
    assert_eq!(
        lw_signal_task::copy_from_bytes(&short).unwrap_err(),
        BlobError::CorruptedRecord
    );
}

#[test]
fn test_extract_blob_ids_sorted() {
    let task = task_value(lw_filename::Blob(30), 10, 20);
    let ids = extract_blob_ids(&task);
    assert_eq!(ids, vec![10, 20, 30]);

    let task = task_value(lw_filename::Inline(b"sh".to_vec()), 20, 10);
    let ids = extract_blob_ids(&task);
    assert_eq!(ids, vec![10, 20]);

    let task = task_value(lw_filename::Inline(b"sh".to_vec()), 0, 0);
    let ids = extract_blob_ids(&task);
    assert!(ids.is_empty());
}

#[test]
fn test_handle_blob_record_routes_by_cpu() {
    let (srs, mut endpoints) = make_blob_channels(2);

    let buf = blob_record(1, 2, 0, b"0");
    let routed = handle_blob_record(&buf, &srs.blob_senders).expect("routing failed");
    assert_eq!(routed, 1);

    let blob = endpoints[1].blob_receiver.try_recv().expect("nothing routed");
    assert_eq!(blob.header.blob_id, seq_to_blob_id(1, 2));
    assert!(endpoints[0].blob_receiver.try_recv().is_err());

    // A record whose cpu index is beyond the topology is dropped.
    let buf = blob_record(5, 2, 0, b"0");
    assert_eq!(
        handle_blob_record(&buf, &srs.blob_senders).unwrap_err(),
        BlobError::InvalidCpu
    );

    // A short record is corrupted.
    assert_eq!(
        handle_blob_record(&[0u8; 4], &srs.blob_senders).unwrap_err(),
        BlobError::CorruptedRecord
    );

    // A closed fragment queue is reported, not swallowed.
    drop(endpoints);
    let buf = blob_record(1, 2, 0, b"0");
    assert_eq!(
        handle_blob_record(&buf, &srs.blob_senders).unwrap_err(),
        BlobError::ChannelClosed
    );
}

#[test]
fn test_lw_task_handler_routes_requests_in_order() {
    let (srs, mut endpoints) = make_blob_channels(1);
    let (task_sender, mut task_receiver) = tokio::sync::mpsc::unbounded_channel();

    let filename_id = seq_to_blob_id(0, 30);
    let args_id = seq_to_blob_id(0, 10);
    let env_id = seq_to_blob_id(0, 20);
    let task = task_value(lw_filename::Blob(filename_id), args_id, env_id);

    let mut failures = vec![0u64; srs.blob_id_senders.len()];
    let rc = lw_task_handler(task, &srs.blob_id_senders, &task_sender, &mut failures);
    assert_eq!(rc, 0);
    assert_eq!(failures, vec![0]);

    // Ascending id order: the ids share the cpu, so this is sequence order.
    let queue = &mut endpoints[0].blob_id_receiver;
    assert_eq!(queue.try_recv().unwrap(), args_id);
    assert_eq!(queue.try_recv().unwrap(), env_id);
    assert_eq!(queue.try_recv().unwrap(), filename_id);
    assert!(queue.try_recv().is_err());

    let forwarded = task_receiver.try_recv().expect("task not forwarded");
    assert_eq!(forwarded.body.pid.pid, 101);
}

#[test]
fn test_handle_signal_record() {
    let (srs, mut endpoints) = make_blob_channels(1);
    let (task_sender, mut task_receiver) = tokio::sync::mpsc::unbounded_channel();
    let mut failures = vec![0u64; srs.blob_id_senders.len()];

    let blob_id = seq_to_blob_id(0, 2);
    let buf = task_record(Ok(blob_id), 0, 0);
    let rc = handle_signal_record(&buf, &srs.blob_id_senders, &task_sender, &mut failures);
    assert_eq!(rc, 0);
    assert_eq!(endpoints[0].blob_id_receiver.try_recv().unwrap(), blob_id);
    assert!(task_receiver.try_recv().is_ok());

    // A signal of another kind is ignored.
    let mut other = task_record(Ok(blob_id), 0, 0);
    other[0..4].copy_from_slice(&7u32.to_le_bytes());
    let rc = handle_signal_record(&other, &srs.blob_id_senders, &task_sender, &mut failures);
    assert_eq!(rc, 0);
    assert!(endpoints[0].blob_id_receiver.try_recv().is_err());

    // A truncated envelope is dropped.
    let rc = handle_signal_record(&[1u8, 0], &srs.blob_id_senders, &task_sender, &mut failures);
    assert_eq!(rc, 0);

    // A task-typed record shorter than the full layout is dropped too.
    let rc = handle_signal_record(&buf[..40], &srs.blob_id_senders, &task_sender, &mut failures);
    assert_eq!(rc, 0);
    assert!(task_receiver.try_recv().is_err());
    assert_eq!(failures, vec![0]);

    // A closed task channel is the callback's failure case.
    drop(task_receiver);
    let buf = task_record(Ok(blob_id), 0, 0);
    let rc = handle_signal_record(&buf, &srs.blob_id_senders, &task_sender, &mut failures);
    assert_eq!(rc, -1);
}

#[test]
fn test_route_plan_filters_and_targets() {
    let in_range = seq_to_blob_id(3, 7);
    let out_of_range = seq_to_blob_id(900, 1);
    let ids = vec![0, 5, in_range, out_of_range];
    let plan = route_plan(&ids, 4);
    assert_eq!(plan, vec![(0, 5), (3, in_range)]);
}

#[test]
fn test_broken_shard_does_not_halt_ingestion() {
    let (srs, mut endpoints) = make_blob_channels(2);
    let (task_sender, mut task_receiver) = tokio::sync::mpsc::unbounded_channel();
    let mut failures = vec![0u64; 2];

    // Close cpu 0's request queue; cpu 1's stays open.
    endpoints[0].blob_id_receiver.close();

    let cpu0_id = seq_to_blob_id(0, 5);
    let cpu1_id = seq_to_blob_id(1, 3);
    let task = task_value(lw_filename::Blob(cpu0_id), cpu1_id, 0);

    let rc = lw_task_handler(task, &srs.blob_id_senders, &task_sender, &mut failures);

    // The broken shard loses only its own id: the other id and the task
    // itself still arrive, and the loss is counted against cpu 0 alone.
    assert_eq!(rc, 0);
    assert_eq!(failures, vec![1, 0]);
    assert_eq!(endpoints[1].blob_id_receiver.try_recv().unwrap(), cpu1_id);
    assert!(task_receiver.try_recv().is_ok());
}
