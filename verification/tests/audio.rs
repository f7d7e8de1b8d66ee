use rmf::audio::{AudioData, AudioDataContext, AudioFormat};

type Context = AudioDataContext<
    AudioData<u8>,
    AudioData<i16>,
    AudioData<i32>,
    AudioData<i64>,
    AudioData<f32>,
    AudioData<f64>,
>;

#[test]
fn the_format_follows_the_tag() {
    assert_eq!(Context::Unspecified.format(), AudioFormat::Unspecified);
    assert_eq!(Context::U8(AudioData::new(vec![])).format(), AudioFormat::U8);
    assert_eq!(Context::I16(AudioData::new(vec![])).format(), AudioFormat::I16);
    assert_eq!(Context::I32(AudioData::new(vec![])).format(), AudioFormat::I32);
    assert_eq!(Context::I64(AudioData::new(vec![])).format(), AudioFormat::I64);
    assert_eq!(Context::F32(AudioData::new(vec![])).format(), AudioFormat::F32);
    assert_eq!(Context::F64(AudioData::new(vec![])).format(), AudioFormat::F64);
}

#[test]
fn a_block_has_one_line_per_channel() {
    let block = AudioData::new(vec![vec![1i16, 2, 3], vec![4, 5, 6]]);
    assert_eq!(block.channels_len(), 2);
    assert_eq!(block.get_channel_line(0), Some(&[1i16, 2, 3][..]));
    assert_eq!(block.get_channel_line(1), Some(&[4i16, 5, 6][..]));
    assert_eq!(block.get_channel_line(2), None);
}

#[test]
fn a_block_without_channels_has_no_lines() {
    let block: AudioData<f32> = AudioData::new(vec![]);
    assert_eq!(block.channels_len(), 0);
    assert_eq!(block.get_channel_line(0), None);
}

#[test]
fn float_samples_are_kept_as_they_are() {
    let block = AudioData::new(vec![vec![0.5f32, -0.25]]);
    assert_eq!(block.get_channel_line(0), Some(&[0.5f32, -0.25][..]));
}
