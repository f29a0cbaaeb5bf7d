use uce::ack_spool::{claim_batch, enqueue_batch, remove_by_queue_ids, AckSpoolEntry, MAX_ENTRIES};
use uce::upload_spool::{
    uce_spool_ack, uce_spool_claim_batch, uce_spool_enqueue, uce_spool_fail, SpoolEntry,
};

fn ack(q: &str, written: Option<&str>) -> AckSpoolEntry {
    AckSpoolEntry {
        queue_id: q.to_string(),
        source_table: "business_documents".to_string(),
        source_id: "1".to_string(),
        status: "written".to_string(),
        error_message: None,
        written_path: written.map(String::from),
        sub_folder: None,
        action_type: None,
        enqueued_unix_ms: 0,
        attempts: 0,
        last_error: String::new(),
    }
}

#[test]
fn ack_spool_counts_retries_and_appends_new_entries() {
    let mut spool = Vec::new();
    assert_eq!(enqueue_batch(&mut spool, vec![ack("a", None), ack("b", None)], "timeout", 10), 2);
    assert_eq!(spool[0].attempts, 1);
    assert_eq!(spool[0].enqueued_unix_ms, 10);
    assert_eq!(spool[0].last_error, "timeout");
    assert_eq!(enqueue_batch(&mut spool, vec![ack("a", Some("C:\\x.pdf")), ack("c", None)], "503", 20), 3);
    assert_eq!(spool[0].queue_id, "a");
    assert_eq!(spool[0].attempts, 2);
    assert_eq!(spool[0].enqueued_unix_ms, 10);
    assert_eq!(spool[0].written_path.as_deref(), Some("C:\\x.pdf"));
    assert_eq!(spool[0].last_error, "503");
    assert_eq!(spool[2].queue_id, "c");
    assert_eq!(enqueue_batch(&mut spool, vec![], "x", 30), 3);
}

#[test]
fn ack_spool_keeps_the_newest_entries() {
    let mut spool = Vec::new();
    let batch: Vec<AckSpoolEntry> = (0..MAX_ENTRIES + 5).map(|i| ack(&format!("q{i}"), None)).collect();
    assert_eq!(enqueue_batch(&mut spool, batch, "e", 1) as usize, MAX_ENTRIES);
    assert_eq!(spool[0].queue_id, "q5");
}

#[test]
fn ack_spool_claim_and_remove() {
    let mut spool = Vec::new();
    enqueue_batch(&mut spool, vec![ack("a", None), ack("b", None), ack("c", None)], "e", 1);
    let batch = claim_batch(&mut spool, 2);
    let ids: Vec<&str> = batch.iter().map(|e| e.queue_id.as_str()).collect();
    assert_eq!(ids, vec!["a", "b"]);
    assert_eq!(spool.len(), 1);
    enqueue_batch(&mut spool, vec![ack("d", None)], "e", 2);
    assert_eq!(remove_by_queue_ids(&mut spool, &vec!["c".to_string(), "zz".to_string()]), 1);
    assert_eq!(spool[0].queue_id, "d");
    let all = claim_batch(&mut spool, 10);
    assert_eq!(all.len(), 1);
    assert!(spool.is_empty());
}

#[test]
fn upload_spool_enqueue_rules() {
    let mut q: Vec<SpoolEntry> = Vec::new();
    assert_eq!(
        uce_spool_enqueue(&mut q, " ", "fp", "watch", 1).err().as_deref(),
        Some("file_path and fingerprint required")
    );
    assert_eq!(uce_spool_enqueue(&mut q, " C:\\a.pdf ", " fp1 ", "  ", 5), Ok(1));
    assert_eq!(q[0].id, "fp1");
    assert_eq!(q[0].file_path, "C:\\a.pdf");
    assert_eq!(q[0].source, "spool");
    assert_eq!(q[0].enqueued_unix_ms, 5);
    assert_eq!(uce_spool_enqueue(&mut q, "C:\\other.pdf", "fp1", "watch", 6), Ok(1));
    assert_eq!(q[0].file_path, "C:\\a.pdf");
    assert_eq!(uce_spool_enqueue(&mut q, "C:\\b.pdf", "fp2", "watch", 7), Ok(2));
}

#[test]
fn upload_spool_claim_ack_fail() {
    let mut q: Vec<SpoolEntry> = Vec::new();
    for i in 0..30 {
        uce_spool_enqueue(&mut q, &format!("C:\\f{i}.pdf"), &format!("fp{i}"), "w", i).unwrap();
    }
    assert_eq!(uce_spool_claim_batch(&q, 0).len(), 1);
    assert_eq!(uce_spool_claim_batch(&q, 100).len(), 25);
    assert_eq!(uce_spool_claim_batch(&q, 3)[2].id, "fp2");
    assert_eq!(uce_spool_fail(&mut q, " fp3 ", "  "), 30);
    assert_eq!(q[3].attempts, 1);
    assert_eq!(q[3].last_error, "unknown");
    let long = "e".repeat(600);
    uce_spool_fail(&mut q, "fp3", &long);
    assert_eq!(q[3].attempts, 2);
    assert_eq!(q[3].last_error.len(), 500);
    assert_eq!(uce_spool_ack(&mut q, " fp3"), 29);
    assert!(q.iter().all(|e| e.id != "fp3"));
    assert_eq!(uce_spool_ack(&mut q, "missing"), 29);
}
