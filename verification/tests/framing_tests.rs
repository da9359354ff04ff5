use conmind::framing::{fit_to_length, interleaved_groups, FrameBuffer};

#[test]
fn push_hands_out_a_full_frame_and_starts_over() {
    let mut buf: FrameBuffer<u32> = FrameBuffer::new(3);
    assert_eq!(buf.push(1), None);
    assert_eq!(buf.push(2), None);
    assert_eq!(buf.pending_len(), 2);
    assert_eq!(buf.push(3), Some(vec![1, 2, 3]));
    assert_eq!(buf.pending_len(), 0);
    assert_eq!(buf.push(4), None);
    assert_eq!(buf.pending_len(), 1);
    assert_eq!(buf.frame_length(), 3);
}

#[test]
fn frame_of_one_sample_is_handed_out_at_once() {
    let mut buf: FrameBuffer<i16> = FrameBuffer::new(1);
    assert_eq!(buf.push(-7), Some(vec![-7]));
    assert_eq!(buf.pending_len(), 0);
}

#[test]
fn push_all_cuts_samples_into_frames_in_order() {
    let mut buf: FrameBuffer<u8> = FrameBuffer::new(4);
    let frames = buf.push_all(&[1, 2, 3, 4, 5, 6, 7, 8, 9, 10]);
    assert_eq!(frames, vec![vec![1, 2, 3, 4], vec![5, 6, 7, 8]]);
    assert_eq!(buf.pending_len(), 2);
    let more = buf.push_all(&[11, 12, 13]);
    assert_eq!(more, vec![vec![9, 10, 11, 12]]);
    assert_eq!(buf.pending_len(), 1);
}

#[test]
fn two_batches_give_the_frames_of_one() {
    let samples: Vec<u32> = (0..23).collect();
    let mut once: FrameBuffer<u32> = FrameBuffer::new(5);
    let all = once.push_all(&samples);
    let mut twice: FrameBuffer<u32> = FrameBuffer::new(5);
    let mut split = twice.push_all(&samples[..7]);
    split.extend(twice.push_all(&samples[7..]));
    assert_eq!(all, split);
    assert_eq!(once.pending_len(), twice.pending_len());
    assert_eq!(once.pending_len(), 3);
}

#[test]
fn push_all_of_nothing_changes_nothing() {
    let mut buf: FrameBuffer<u8> = FrameBuffer::new(2);
    buf.push(9);
    let frames = buf.push_all(&[]);
    assert!(frames.is_empty());
    assert_eq!(buf.pending_len(), 1);
}

#[test]
fn analysis_frame_fills_after_frame_len_samples() {
    let mut buf: FrameBuffer<u16> = FrameBuffer::new(conmind::spectrum::FRAME_LEN);
    let samples: Vec<u16> = (0..1023).collect();
    assert!(buf.push_all(&samples).is_empty());
    let frame = buf.push(1023).unwrap();
    assert_eq!(frame.len(), 1024);
    assert_eq!(frame[1023], 1023);
}

#[test]
fn stereo_samples_are_grouped_by_instant() {
    let groups = interleaved_groups(&[1, 2, 3, 4, 5, 6], 2);
    assert_eq!(groups, vec![vec![1, 2], vec![3, 4], vec![5, 6]]);
}

#[test]
fn incomplete_last_group_is_left_out() {
    let groups = interleaved_groups(&[1, 2, 3, 4, 5, 6, 7], 3);
    assert_eq!(groups, vec![vec![1, 2, 3], vec![4, 5, 6]]);
    let none = interleaved_groups(&[1, 2], 3);
    assert!(none.is_empty());
}

#[test]
fn mono_samples_form_groups_of_one() {
    let groups = interleaved_groups(&[8, 9], 1);
    assert_eq!(groups, vec![vec![8], vec![9]]);
}

#[test]
fn short_input_is_padded() {
    assert_eq!(fit_to_length(&[1, 2], 5, 0), vec![1, 2, 0, 0, 0]);
}

#[test]
fn long_input_is_cut() {
    assert_eq!(fit_to_length(&[1, 2, 3, 4], 2, 0), vec![1, 2]);
}

#[test]
fn zero_length_gives_nothing() {
    assert!(fit_to_length(&[1, 2, 3], 0, 9).is_empty());
    assert_eq!(fit_to_length::<u8>(&[], 3, 9), vec![9, 9, 9]);
}
