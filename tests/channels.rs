use bevy::image::Image;
use bevy_capture::{
    check_attached, prepare_region, step_after_create, zero_fill, CaptureState, CreateOutcome, EncodeError, LineBuffer,
    LineRecord, MyCustomEncoder, OpenStep, PoseBuffer, PoseRecord, SegmentError, Vec3Bits,
};

fn v(x: f32, y: f32, z: f32) -> Vec3Bits {
    Vec3Bits::new(x.to_bits(), y.to_bits(), z.to_bits())
}

fn floats(region: &[u8]) -> Vec<f32> {
    region
        .chunks_exact(4)
        .map(|c| f32::from_le_bytes([c[0], c[1], c[2], c[3]]))
        .collect()
}

fn sample_pose() -> PoseRecord {
    PoseRecord {
        translation: v(1.5, -2.0, 3.25),
        x_axis: v(1.0, 0.0, 0.0),
        y_axis: v(0.0, 0.5, -0.5),
        z_axis: v(0.0, 0.5, 0.5),
    }
}

#[test]
fn pose_round_trip_is_byte_exact() {
    let poses = PoseBuffer::new(4);
    let mut region = vec![0u8; poses.byte_len()];
    let pose = sample_pose();
    poses.set_record(&mut region, 2, &pose);
    assert_eq!(poses.get_record(&region, 2), pose);
    let f = floats(&region);
    assert_eq!(
        &f[24..36],
        &[1.5, -2.0, 3.25, 1.0, 0.0, 0.0, 0.0, 0.5, -0.5, 0.0, 0.5, 0.5]
    );
    assert!(region[..96].iter().all(|b| *b == 0));
    assert!(region[144..].iter().all(|b| *b == 0));
}

#[test]
fn pose_record_layout_is_little_endian() {
    let poses = PoseBuffer::new(1);
    let mut region = vec![0u8; 48];
    let pose = PoseRecord {
        translation: Vec3Bits::new(0x0403_0201, 0, 0),
        x_axis: Vec3Bits::zero(),
        y_axis: Vec3Bits::zero(),
        z_axis: Vec3Bits::new(0, 0, 0xAABB_CCDD),
    };
    poses.set_record(&mut region, 0, &pose);
    assert_eq!(&region[0..4], &[1, 2, 3, 4]);
    assert_eq!(&region[44..48], &[0xDD, 0xCC, 0xBB, 0xAA]);
}

#[test]
fn pose_write_keeps_other_records() {
    let poses = PoseBuffer::new(3);
    let mut region: Vec<u8> = (0..144u32).map(|i| i as u8).collect();
    let before = region.clone();
    poses.set_record(&mut region, 1, &sample_pose());
    assert_eq!(&region[..48], &before[..48]);
    assert_eq!(&region[96..], &before[96..]);
    assert_eq!(poses.get_record(&region, 1), sample_pose());
}

#[test]
fn pose_index_past_capacity_has_no_record() {
    let poses = PoseBuffer::new(512);
    assert_eq!(poses.byte_len(), 512 * 48);
    assert_eq!(poses.record_offset(0), Some(0));
    assert_eq!(poses.record_offset(511), Some(511 * 48));
    assert_eq!(poses.record_offset(512), None);
    assert_eq!(poses.record_offset(usize::MAX), None);
}

#[test]
fn created_segment_reads_all_zero() {
    let mut region = vec![0xA5u8; 300];
    zero_fill(&mut region);
    assert_eq!(region.len(), 300);
    assert!(region.iter().all(|b| *b == 0));
}

#[test]
fn empty_segment_zero_fill() {
    let mut region: Vec<u8> = Vec::new();
    zero_fill(&mut region);
    assert!(region.is_empty());
}

#[test]
fn line_channel_always_yields_capacity() {
    let lines = LineBuffer::new(512);
    assert_eq!(lines.byte_len(), 512 * 24);
    let mut region = vec![0u8; lines.byte_len()];
    assert_eq!(lines.read_all(&region).len(), 512);
    lines.set_record(&mut region, 7, &LineRecord::new(v(1.0, 2.0, 3.0), v(4.0, 5.0, 6.0)));
    let all = lines.read_all(&region);
    assert_eq!(all.len(), 512);
    assert_eq!(all[7], LineRecord::new(v(1.0, 2.0, 3.0), v(4.0, 5.0, 6.0)));
}

#[test]
fn line_channel_scenario_capacity_four() {
    let lines = LineBuffer::new(4);
    let mut region = vec![0u8; lines.byte_len()];
    zero_fill(&mut region);
    let a = LineRecord::new(v(0.0, 0.0, 0.0), v(1.0, 0.0, 0.0));
    let b = LineRecord::new(v(0.0, 0.0, 0.0), v(0.0, 0.0, 1.0));
    lines.set_record(&mut region, 0, &a);
    lines.set_record(&mut region, 2, &b);
    let all = lines.read_all(&region);
    let origin = LineRecord::new(v(0.0, 0.0, 0.0), v(0.0, 0.0, 0.0));
    assert_eq!(all, vec![a, origin, b, origin]);
    assert_eq!(floats(&region)[..6], [0.0, 0.0, 0.0, 1.0, 0.0, 0.0]);
}

#[test]
fn line_channel_of_no_lines() {
    let lines = LineBuffer::new(0);
    assert_eq!(lines.byte_len(), 0);
    assert!(lines.read_all(&[]).is_empty());
}

#[test]
fn frame_size_is_width_height_four() {
    assert_eq!(MyCustomEncoder::new(512, 512).frame_size(), 1_048_576);
    assert_eq!(MyCustomEncoder::new(3, 2).frame_size(), 24);
    assert_eq!(MyCustomEncoder::new(0, 7).frame_size(), 0);
}

#[test]
fn frame_of_exact_size_is_copied() {
    let enc = MyCustomEncoder::new(1, 2);
    let mut region = vec![9u8; 10];
    let data = [1u8, 2, 3, 4, 5, 6, 7, 8];
    assert_eq!(enc.encode_bytes(&data, &mut region), Ok(()));
    assert_eq!(region, vec![1, 2, 3, 4, 5, 6, 7, 8, 9, 9]);
}

#[test]
fn frame_of_wrong_size_leaves_segment_unchanged() {
    let enc = MyCustomEncoder::new(1, 2);
    let mut region = vec![9u8; 8];
    let short = [1u8, 2, 3, 4];
    assert_eq!(
        enc.encode_bytes(&short, &mut region),
        Err(EncodeError::SizeMismatch { expected: 8, got: 4 })
    );
    assert_eq!(region, vec![9u8; 8]);
    let long = [7u8; 12];
    assert_eq!(
        enc.encode_bytes(&long, &mut region),
        Err(EncodeError::SizeMismatch { expected: 8, got: 12 })
    );
    assert_eq!(region, vec![9u8; 8]);
}

#[test]
fn rendered_image_is_written_as_rgba8() {
    let enc = MyCustomEncoder::new(1, 1);
    let mut region = vec![7u8; 5];
    assert_eq!(enc.encode(&Image::transparent(), &mut region), Ok(()));
    assert_eq!(region, vec![255, 255, 255, 0, 7]);
}

#[test]
fn rendered_image_of_other_size_is_rejected() {
    let enc = MyCustomEncoder::new(2, 2);
    let mut region = vec![3u8; 16];
    assert_eq!(
        enc.encode(&Image::default(), &mut region),
        Err(EncodeError::SizeMismatch { expected: 16, got: 4 })
    );
    assert_eq!(region, vec![3u8; 16]);
}

#[test]
fn rendered_image_with_extra_bytes_is_rejected() {
    let enc = MyCustomEncoder::new(1, 1);
    let mut image = Image::default();
    image.data = Some(vec![1, 2, 3, 4, 5, 6, 7, 8]);
    let mut region = vec![0u8; 4];
    assert_eq!(
        enc.encode(&image, &mut region),
        Err(EncodeError::SizeMismatch { expected: 4, got: 8 })
    );
    assert_eq!(region, vec![0u8; 4]);
}

#[test]
fn image_without_data_is_a_conversion_error() {
    let enc = MyCustomEncoder::new(1, 1);
    let mut region = vec![5u8; 4];
    assert_eq!(
        enc.encode(&Image::default_uninit(), &mut region),
        Err(EncodeError::Conversion)
    );
    assert_eq!(region, vec![5u8; 4]);
}

#[test]
fn create_or_attach_steps() {
    assert_eq!(step_after_create(CreateOutcome::Created), OpenStep::ZeroFill);
    assert_eq!(step_after_create(CreateOutcome::NameTaken), OpenStep::Attach);
    assert_eq!(step_after_create(CreateOutcome::Failed), OpenStep::Abort);
}

#[test]
fn attach_checks_the_size() {
    assert_eq!(check_attached(1024, 1024), Ok(()));
    assert_eq!(
        check_attached(1024, 2048),
        Err(SegmentError::SizeMismatch { requested: 1024, found: 2048 })
    );
}

#[test]
fn paused_camera_takes_no_frame() {
    let enc = MyCustomEncoder::new(1, 1);
    let mut region = vec![7u8; 4];
    assert_eq!(enc.capture_frame(CaptureState::Paused, &Image::default(), &mut region), None);
    assert_eq!(
        enc.capture_frame(CaptureState::NotCapturing, &Image::default(), &mut region),
        None
    );
    assert_eq!(region, vec![7u8; 4]);
    assert_eq!(
        enc.capture_frame(CaptureState::Capturing, &Image::transparent(), &mut region),
        Some(Ok(()))
    );
    assert_eq!(region, vec![255, 255, 255, 0]);
    assert_eq!(
        enc.capture_frame(CaptureState::Capturing, &Image::default_uninit(), &mut region),
        Some(Err(EncodeError::Conversion))
    );
    assert_eq!(region, vec![255, 255, 255, 0]);
}

#[test]
fn created_region_is_cleared_attached_one_kept() {
    let mut created = vec![0x5Au8; 64];
    prepare_region(step_after_create(CreateOutcome::Created), &mut created);
    assert_eq!(created, vec![0u8; 64]);
    let mut attached = vec![0x5Au8; 64];
    prepare_region(step_after_create(CreateOutcome::NameTaken), &mut attached);
    assert_eq!(attached, vec![0x5Au8; 64]);
}
