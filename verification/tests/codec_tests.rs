use ussal_runner::codec::{join_fields, split_fields};

#[test]
fn test_split_fields_basic() {
    let parts = split_fields(b"echo\0ok\0--fast");
    assert_eq!(parts, vec![b"echo".to_vec(), b"ok".to_vec(), b"--fast".to_vec()]);
}

#[test]
fn test_split_fields_empty_frame_is_one_empty_field() {
    assert_eq!(split_fields(b""), vec![b"".to_vec()]);
}

#[test]
fn test_split_fields_keeps_empty_fields() {
    let parts = split_fields(b"\0a\0");
    assert_eq!(parts, vec![b"".to_vec(), b"a".to_vec(), b"".to_vec()]);
}

#[test]
fn test_join_then_split_round_trip() {
    let parts = vec![b"run".to_vec(), b"--iterations".to_vec(), b"100".to_vec()];
    let frame = join_fields(&parts);
    assert_eq!(frame, b"run\0--iterations\0100".to_vec());
    assert_eq!(split_fields(&frame), parts);
}

#[test]
fn test_split_then_join_round_trip() {
    let frame = b"one\0\0three".to_vec();
    let parts = split_fields(&frame);
    assert_eq!(join_fields(&parts), frame);
}
