use vass::render::{render_block, render_channel};

#[test]
fn voice_frames_go_to_every_channel() {
    let mut outputs = vec![vec![9.0f32; 4], vec![7.0f32; 4]];
    let voice = Some(vec![0.5f32, -0.25, 0.125, 1.0]);
    render_block(&mut outputs, 4, &voice, 0.0);
    assert_eq!(outputs[0], vec![0.5, -0.25, 0.125, 1.0]);
    assert_eq!(outputs[1], vec![0.5, -0.25, 0.125, 1.0]);
}

#[test]
fn no_voice_renders_silence() {
    let mut outputs = vec![vec![9.0f32; 3], vec![7.0f32; 3], vec![1.0f32; 3]];
    render_block(&mut outputs, 3, &None, 0.0);
    for ch in &outputs {
        assert_eq!(ch, &vec![0.0f32; 3]);
    }
}

#[test]
fn positions_past_block_untouched() {
    let mut outputs = vec![vec![9i32; 5]];
    render_block(&mut outputs, 2, &Some(vec![1, 2]), 0);
    assert_eq!(outputs[0], vec![1, 2, 9, 9, 9]);
}

#[test]
fn empty_block_and_no_channels() {
    let mut outputs: Vec<Vec<f32>> = Vec::new();
    render_block(&mut outputs, 0, &None, 0.0);
    assert!(outputs.is_empty());
    let mut ch = vec![3u8, 4];
    render_channel(&mut ch, 0, &None, 0);
    assert_eq!(ch, vec![3, 4]);
}
