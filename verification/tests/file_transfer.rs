use mmc::file_transfer::error::Error;
use mmc::file_transfer::transfer::{ChunkInfo, ChunkManifest, TransferProgress, TransferService, TransferState, TransferTask};
use mmc::protocol::{Frame, FrameType};

#[test]
fn test_transfer_state_variants() {
    assert_eq!(TransferState::Idle as u8, 0);
    assert!(matches!(TransferState::Idle, TransferState::Idle));
    assert!(matches!(TransferState::Preparing, TransferState::Preparing));
    assert!(matches!(TransferState::Transferring, TransferState::Transferring));
    assert!(matches!(TransferState::Paused, TransferState::Paused));
    assert!(matches!(TransferState::Completed, TransferState::Completed));
    assert!(matches!(TransferState::Failed, TransferState::Failed));
    assert!(matches!(TransferState::Canceled, TransferState::Canceled));
}

#[test]
fn lib_test_transfer_state_default() {
    let state: TransferState = TransferState::default();
    assert_eq!(state, TransferState::Idle);
}

#[test]
fn test_chunk_info_creation() {
    let info = ChunkInfo { index: 5, hash: [0u8; 32], size: 100 };
    assert_eq!(info.index, 5);
    assert_eq!(info.size, 100);
}

#[test]
fn test_chunk_manifest_creation() {
    let manifest = ChunkManifest {
        file_id: "f-1".to_string(),
        file_name: "test.txt".to_string(),
        total_size: 500,
        chunk_size: 100,
        total_chunks: 5,
        chunks: vec![],
    };
    assert_eq!(manifest.file_id, "f-1");
    assert_eq!(manifest.file_name, "test.txt");
    assert_eq!(manifest.total_size, 500);
    assert_eq!(manifest.total_chunks, 5);
    assert_eq!(manifest.chunk_size, 100);
    assert!(manifest.chunks.is_empty());
}

#[test]
fn test_transfer_progress_new() {
    let progress = TransferProgress::new("task-1".to_string(), 1000);
    assert_eq!(progress.state, TransferState::Idle);
    assert_eq!(progress.task_id, "task-1");
    assert_eq!(progress.total_bytes, 1000);
    assert_eq!(progress.bytes_transferred, 0);
}

#[test]
fn test_transfer_progress_update() {
    let mut progress = TransferProgress::new("t1".to_string(), 1000);
    progress.update(500, 1000);
    assert_eq!(progress.bytes_transferred, 500);
    assert_eq!(progress.state, TransferState::Transferring);
    assert_eq!(progress.speed_bps, 500);
    assert_eq!(progress.remaining_ms, 1000);
}

#[test]
fn transfer_progress_update_without_time_keeps_speed() {
    let mut progress = TransferProgress::new("t1".to_string(), 1000);
    progress.update(100, 0);
    assert_eq!(progress.speed_bps, 0);
    assert_eq!(progress.remaining_ms, 0);
    assert_eq!(progress.bytes_transferred, 100);
}

#[test]
fn test_transfer_progress_complete() {
    let mut progress = TransferProgress::new("t1".to_string(), 500);
    progress.update(250, 250);
    progress.complete();
    assert_eq!(progress.bytes_transferred, 500);
    assert_eq!(progress.state, TransferState::Completed);
    assert_eq!(progress.speed_bps, 0);
    assert_eq!(progress.remaining_ms, 0);
}

#[test]
fn lib_test_transfer_progress_fail() {
    let mut progress = TransferProgress::new("t2".to_string(), 500);
    progress.update(250, 100);
    progress.fail();
    assert_eq!(progress.state, TransferState::Failed);
    assert_eq!(progress.bytes_transferred, 250);
}

#[test]
fn test_compute_manifest() {
    let service = TransferService::new();
    let manifest = service.compute_manifest(b"hello world", "test.txt".to_string(), 1024).unwrap();
    assert_eq!(manifest.file_name, "test.txt");
    assert_eq!(manifest.total_size, 11);
    assert_eq!(manifest.total_chunks, 1);
    assert_eq!(manifest.chunks.len(), 1);
    assert_eq!(manifest.chunks[0].index, 0);
    assert_eq!(manifest.chunks[0].size, 11);
    assert_eq!(manifest.chunks[0].hash, *blake3::hash(b"hello world").as_bytes());
}

#[test]
fn test_compute_manifest_multi_chunk() {
    let service = TransferService::new();
    let data: Vec<u8> = (0..300).map(|_| b'x').collect();
    let manifest = service.compute_manifest(&data, "large.txt".to_string(), 100).unwrap();
    assert_eq!(manifest.total_size, 300);
    assert_eq!(manifest.total_chunks, 3);
    assert_eq!(manifest.chunks.len(), 3);
    for i in 0..3 {
        assert_eq!(manifest.chunks[i].index, i as u32);
        assert_eq!(manifest.chunks[i].size, 100);
    }
}

#[test]
fn compute_manifest_short_last_chunk() {
    let service = TransferService::new();
    let data: Vec<u8> = (0..250u32).map(|i| i as u8).collect();
    let manifest = service.compute_manifest(&data, "f".to_string(), 100).unwrap();
    assert_eq!(manifest.total_chunks, 3);
    assert_eq!(manifest.chunks[2].size, 50);
    assert_eq!(manifest.chunks[2].hash, *blake3::hash(&data[200..]).as_bytes());
    let empty = service.compute_manifest(b"", "e".to_string(), 100).unwrap();
    assert_eq!(empty.total_chunks, 0);
    assert!(empty.chunks.is_empty());
}

#[test]
fn test_get_tasks_empty() {
    let service = TransferService::new();
    assert!(service.get_tasks().is_empty());
}

fn manifest(size: u64) -> ChunkManifest {
    ChunkManifest {
        file_id: "f-1".to_string(),
        file_name: "a.bin".to_string(),
        total_size: size,
        chunk_size: 100,
        total_chunks: ((size + 99) / 100) as u32,
        chunks: vec![],
    }
}

#[test]
fn transfer_task_lifecycle() {
    let mut service = TransferService::new();
    service.register_task("t-1", &manifest(1000), TransferState::Preparing);
    let tasks = service.get_tasks();
    assert_eq!(tasks.len(), 1);
    assert_eq!(tasks[0].state, TransferState::Preparing);
    assert_eq!(tasks[0].progress.total_bytes, 1000);

    service.record_sent("t-1", 200, 100);
    let tasks = service.get_tasks();
    assert_eq!(tasks[0].state, TransferState::Transferring);
    assert_eq!(tasks[0].progress.bytes_transferred, 200);
    assert_eq!(tasks[0].progress.speed_bps, 2000);

    service.receive_chunk("t-1", &[0u8; 50]).unwrap();
    assert_eq!(service.get_tasks()[0].progress.bytes_transferred, 250);

    service.finish_receive("t-1").unwrap();
    let tasks = service.get_tasks();
    assert_eq!(tasks[0].state, TransferState::Completed);
    assert_eq!(tasks[0].progress.bytes_transferred, 1000);
}

#[test]
fn test_cancel_transfer() {
    let mut service = TransferService::new();
    service.register_task("t-1", &manifest(10), TransferState::Transferring);
    service.cancel("t-1").unwrap();
    let tasks = service.get_tasks();
    assert_eq!(tasks[0].state, TransferState::Canceled);
    assert_eq!(tasks[0].progress.state, TransferState::Failed);
    assert!(service.cancel("missing").is_ok());
}

#[test]
fn register_task_replaces_same_id() {
    let mut service = TransferService::new();
    service.register_task("t-1", &manifest(10), TransferState::Transferring);
    service.register_task("t-1", &manifest(20), TransferState::Preparing);
    let tasks = service.get_tasks();
    assert_eq!(tasks.len(), 1);
    assert_eq!(tasks[0].total_size, 20);
}

#[test]
fn progress_is_published() {
    let mut service = TransferService::new();
    let mut events = service.events();
    service.register_task("t-1", &manifest(100), TransferState::Transferring);
    service.record_received("t-1", 40, 10);
    let progress = events.try_recv().unwrap();
    assert_eq!(progress.bytes_transferred, 40);
}

#[test]
fn incoming_frames_are_classified() {
    assert!(matches!(TransferService::check_incoming_frame(FrameType::TransferComplete), Ok(true)));
    assert!(matches!(TransferService::check_incoming_frame(FrameType::ChunkData), Ok(false)));
    match TransferService::check_incoming_frame(FrameType::Ping) {
        Err(Error::Protocol(m)) => assert_eq!(m, "Unexpected frame type: Ping"),
        _ => panic!("Expected a protocol error"),
    }
}

#[test]
fn transfer_error_messages() {
    assert_eq!(Error::ChecksumMismatch.to_string(), "Checksum mismatch");
    assert_eq!(Error::TaskNotFound("t".to_string()).to_string(), "Task not found: t");
}

#[test]
fn test_transfer_service_creation() {
    let service = TransferService::new();
    assert!(service.get_tasks().is_empty());
}

#[test]
fn test_transfer_progress() {
    let mut progress = TransferProgress::new("task-1".to_string(), 1000);
    progress.update(500, 1000);
    assert_eq!(progress.speed_bps, 500);
    progress.complete();
    assert_eq!(progress.state, TransferState::Completed);
    assert_eq!(progress.bytes_transferred, 1000);
}

#[test]
fn transfer_test_transfer_progress_fail() {
    let mut progress = TransferProgress::new("task-1".to_string(), 500);
    progress.update(250, 500);
    assert_eq!(progress.bytes_transferred, 250);
    progress.fail();
    assert_eq!(progress.state, TransferState::Failed);
}

#[test]
fn transfer_test_transfer_state_default() {
    let state: TransferState = TransferState::default();
    assert_eq!(state, TransferState::Idle);
}

#[test]
fn test_chunk_info_fields() {
    let info = ChunkInfo { index: 5, hash: [0u8; 32], size: 100 };
    assert_eq!(info.index, 5);
    assert_eq!(info.size, 100);
}

#[test]
fn test_chunk_manifest_fields() {
    let manifest = ChunkManifest {
        file_id: "f-1".to_string(),
        file_name: "test.txt".to_string(),
        total_size: 500,
        chunk_size: 100,
        total_chunks: 5,
        chunks: vec![],
    };
    assert_eq!(manifest.file_id, "f-1");
    assert_eq!(manifest.total_size, 500);
    assert_eq!(manifest.total_chunks, 5);
    assert_eq!(manifest.chunk_size, 100);
}

#[test]
fn test_transfer_task_fields() {
    let task = TransferTask {
        task_id: "task-1".to_string(),
        file_id: "file-1".to_string(),
        file_name: "test.txt".to_string(),
        total_size: 1000,
        chunk_size: 256,
        total_chunks: 4,
        state: TransferState::Idle,
        progress: TransferProgress::new("task-1".to_string(), 1000),
        created_at: chrono::Utc::now().timestamp(),
    };
    assert_eq!(task.task_id, "task-1");
    assert_eq!(task.total_chunks, 4);
    assert_eq!(task.state, TransferState::Idle);
    assert!(task.created_at > 0);
}

#[test]
fn manifest_answers() {
    assert!(TransferService::check_manifest_answer(FrameType::FileManifestResponse, Some(true), None).is_ok());
    match TransferService::check_manifest_answer(FrameType::FileManifestResponse, Some(false), Some("disk full".to_string())) {
        Err(Error::Rejected(m)) => assert_eq!(m, "disk full"),
        other => panic!("unexpected {:?}", other),
    }
    match TransferService::check_manifest_answer(FrameType::FileManifestResponse, None, None) {
        Err(Error::Rejected(m)) => assert_eq!(m, "Unknown"),
        other => panic!("unexpected {:?}", other),
    }
    match TransferService::check_manifest_answer(FrameType::Ping, Some(true), None) {
        Err(Error::Protocol(m)) => assert_eq!(m, "Unexpected response type"),
        other => panic!("unexpected {:?}", other),
    }
}

#[test]
fn chunks_already_held_are_skipped() {
    assert_eq!(TransferService::chunks_to_send(5, &[1, 3, 9]), vec![0, 2, 4]);
    assert_eq!(TransferService::chunks_to_send(3, &[]), vec![0, 1, 2]);
    assert!(TransferService::chunks_to_send(0, &[0]).is_empty());
    assert_eq!(TransferService::sent_bytes(0, 512), 512);
    assert_eq!(TransferService::sent_bytes(3, 512), 2048);
    assert_eq!(TransferService::sent_bytes(u32::MAX, u32::MAX), (u32::MAX as u64 + 1) * u32::MAX as u64);
}

#[test]
fn received_frames_are_hashed_and_counted() {
    let mut service = TransferService::new();
    let data: Vec<u8> = (0..2000u32).map(|i| (i * 7 + 3) as u8).collect();
    let manifest = service.compute_manifest(&data, "source.bin".to_string(), 512).unwrap();
    let mut session = service.begin_receive("recv-1", &manifest);
    assert_eq!(session.task_id(), "recv-1");
    assert_eq!(service.get_tasks()[0].state, TransferState::Transferring);
    for chunk in data.chunks(512) {
        let r = service.receive_frame(&mut session, &Frame::new(FrameType::ChunkData, chunk.to_vec())).unwrap();
        assert!(r.is_none());
    }
    assert_eq!(session.bytes_received(), 2000);
    assert_eq!(service.get_tasks()[0].progress.bytes_transferred, 2000);
    match service.receive_frame(&mut session, &Frame::new(FrameType::Ping, vec![])) {
        Err(Error::Protocol(m)) => assert_eq!(m, "Unexpected frame type: Ping"),
        other => panic!("unexpected {:?}", other),
    }
    let hash = service.receive_frame(&mut session, &Frame::new(FrameType::TransferComplete, vec![])).unwrap().unwrap();
    assert_eq!(hash, *blake3::hash(&data).as_bytes());
    assert_eq!(service.get_tasks()[0].state, TransferState::Completed);
}
