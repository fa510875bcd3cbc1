use ncd::transfer::{plan_request, run_transfer, SegmentTransfer};

#[test]
fn resumed_transfer_keeps_prefix_and_ends_at_total_length() {
    let source: Vec<u8> = (0..100u8).collect();
    let existing: Vec<u8> = source[..40].to_vec();
    let chunks: Vec<Vec<u8>> = vec![
        source[40..60].to_vec(),
        source[60..61].to_vec(),
        source[61..100].to_vec(),
    ];
    let out = run_transfer(existing, true, true, 60, &chunks);
    assert_eq!(out.len(), 100);
    assert_eq!(out, source);
    assert_eq!(&out[..40], &source[..40]);
    assert_eq!(&out[40..], &source[40..]);
}

#[test]
fn ignored_range_restarts_from_zero_and_still_ends_at_total_length() {
    let source: Vec<u8> = (0..50u8).collect();
    let stale: Vec<u8> = vec![0xee; 20];
    let chunks: Vec<Vec<u8>> = vec![source[..30].to_vec(), source[30..].to_vec()];
    let out = run_transfer(stale, true, false, 50, &chunks);
    assert_eq!(out.len(), 50);
    assert_eq!(out, source);
}

#[test]
fn plain_transfer_ignores_existing_bytes() {
    let body = vec![9u8; 10];
    let out = run_transfer(vec![1u8; 5], false, true, 10, &vec![body.clone()]);
    assert_eq!(out, body);
}

#[test]
fn resume_of_empty_destination_sends_plain_request() {
    assert_eq!(plan_request(true, 0), None);
    assert_eq!(plan_request(true, 40), Some(40));
    assert_eq!(plan_request(false, 40), None);
}

#[test]
fn chunks_accumulate_and_progress_counts_bytes() {
    let mut t = SegmentTransfer::begin(vec![1, 2, 3], true, true, 4);
    assert_eq!(t.total_expected, 7);
    assert_eq!(t.downloaded(), 3);
    t.on_chunk(&vec![4, 5]);
    t.on_chunk(&vec![]);
    t.on_chunk(&vec![6, 7]);
    assert_eq!(t.downloaded(), 7);
    assert_eq!(t.dest, vec![1, 2, 3, 4, 5, 6, 7]);
}

#[test]
fn non_partial_answer_truncates_before_writing() {
    let t = SegmentTransfer::begin(vec![1, 2, 3], true, false, 9);
    assert_eq!(t.dest, Vec::<u8>::new());
    assert_eq!(t.total_expected, 9);
}
