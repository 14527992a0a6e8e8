use trait_link::framing::{get_request_id, prepend_id, split_frame, ID_LEN};

#[test]
fn prepend_id_is_little_endian() {
    assert_eq!(prepend_id(0x0102_0304, vec![9, 8]), vec![4, 3, 2, 1, 9, 8]);
    assert_eq!(prepend_id(1, vec![]), vec![1, 0, 0, 0]);
    assert_eq!(prepend_id(u32::MAX, vec![7]), vec![255, 255, 255, 255, 7]);
    assert_eq!(prepend_id(0, vec![0]), vec![0, 0, 0, 0, 0]);
}

#[test]
fn prepend_id_agrees_with_std() {
    for id in [0u32, 1, 255, 256, 65_535, 65_536, 0xdead_beef, u32::MAX] {
        let mut expected = id.to_le_bytes().to_vec();
        expected.extend_from_slice(b"payload");
        assert_eq!(prepend_id(id, b"payload".to_vec()), expected);
    }
}

#[test]
fn get_request_id_strips_four_bytes() {
    let (id, payload) = get_request_id(&[4, 3, 2, 1, 9, 8]);
    assert_eq!(id, 0x0102_0304);
    assert_eq!(payload, vec![9, 8]);
    let (id, payload) = get_request_id(&[0, 0, 0, 128]);
    assert_eq!(id, 0x8000_0000);
    assert_eq!(payload, Vec::<u8>::new());
}

#[test]
fn frames_round_trip() {
    for id in [0u32, 7, 300, 70_000, 0xffff_fffe, u32::MAX] {
        let payload = vec![1u8, 2, 3, 255, 0];
        let frame = prepend_id(id, payload.clone());
        assert_eq!(frame.len(), payload.len() + ID_LEN);
        assert_eq!(get_request_id(&frame), (id, payload));
    }
}

#[test]
fn split_frame_refuses_short_frames() {
    assert_eq!(split_frame(&[]), None);
    assert_eq!(split_frame(&[1, 2, 3]), None);
    assert_eq!(split_frame(&[1, 0, 0, 0]), Some((1, vec![])));
    assert_eq!(split_frame(&[2, 1, 0, 0, 5]), Some((258, vec![5])));
}
