use av_sync::audio::AudioPlayer;
use av_sync::audio::AUDIO_BUFFER_SIZE;
use av_sync::clock::AudioClock;
use av_sync::rational::Rational;

fn stereo() -> AudioPlayer<f32> {
    AudioPlayer::new(2, Rational::new(1, 44100), 44100, 0.0)
}

#[test]
fn new_player_is_empty_and_at_zero() {
    let player = stereo();
    assert_eq!(player.channels(), 2);
    assert_eq!(player.sample_rate(), 44100);
    assert_eq!(player.capacity(), 32768);
    assert_eq!(player.capacity(), AUDIO_BUFFER_SIZE * 2);
    assert_eq!(player.buffered_len(), 0);
    assert_eq!(player.clock(), AudioClock { ticks: 0, time_base: Rational::new(1, 44100) });
    assert_eq!(player.clock().position_nanos(), Some(0));
}

#[test]
fn capacity_follows_the_channel_count() {
    let mono: AudioPlayer<f32> = AudioPlayer::new(1, Rational::new(1, 48000), 48000, 0.0);
    assert_eq!(mono.capacity(), 16384);
    let surround: AudioPlayer<f32> = AudioPlayer::new(6, Rational::new(1, 48000), 48000, 0.0);
    assert_eq!(surround.capacity(), 98304);
    let most: AudioPlayer<f32> = AudioPlayer::new(255, Rational::new(1, 48000), 48000, 0.0);
    assert_eq!(most.capacity(), 4_177_920);
    let none: AudioPlayer<f32> = AudioPlayer::new(0, Rational::new(1, 48000), 48000, 0.0);
    assert_eq!(none.capacity(), 0);
}

#[test]
fn enqueue_moves_the_clock_to_the_pts() {
    let mut player = stereo();
    assert_eq!(player.enqueue(&[0.1, 0.2, 0.3, 0.4], 44100), 4);
    assert_eq!(player.buffered_len(), 4);
    assert_eq!(player.clock().ticks, 44100);
    assert_eq!(player.clock().position_nanos(), Some(1_000_000_000));
    player.enqueue(&[0.5, 0.6], 45124);
    assert_eq!(player.clock().ticks, 45124);
    assert_eq!(player.clock().position_nanos(), Some(1_023_219_955));
}

#[test]
fn enqueue_on_a_full_buffer_drops_samples_and_still_moves_the_clock() {
    let mut player = stereo();
    let block = vec![0.25f32; 32768];
    assert_eq!(player.enqueue(&block, 100), 32768);
    assert_eq!(player.buffered_len(), 32768);
    assert_eq!(player.enqueue(&[0.75, 0.75, 0.75], 200), 0);
    assert_eq!(player.buffered_len(), 32768);
    assert_eq!(player.clock().ticks, 200);
    let out = player.pull(32768);
    assert!(out.iter().all(|s| *s == 0.25));
}

#[test]
fn enqueue_fills_the_free_space_with_the_leading_samples() {
    let mut player: AudioPlayer<f32> = AudioPlayer::new(1, Rational::new(1, 8000), 8000, 0.0);
    let backlog = vec![1.0f32; 16380];
    assert_eq!(player.enqueue(&backlog, 0), 16380);
    // Four slots are free, six samples arrive.
    assert_eq!(player.enqueue(&[2.0, 3.0, 4.0, 5.0, 6.0, 7.0], 16380), 4);
    assert_eq!(player.buffered_len(), 16384);
    assert_eq!(player.clock().ticks, 16380);
    let out = player.pull(16384);
    assert_eq!(&out[16378..], &[1.0, 1.0, 2.0, 3.0, 4.0, 5.0]);
}

#[test]
fn player_without_channels_drops_everything_and_still_moves_the_clock() {
    let mut player: AudioPlayer<f32> = AudioPlayer::new(0, Rational::new(1, 8000), 8000, 0.0);
    assert_eq!(player.enqueue(&[1.0, 2.0], 9), 0);
    assert_eq!(player.buffered_len(), 0);
    assert_eq!(player.clock().ticks, 9);
}

#[test]
fn pull_from_an_empty_player_is_silence() {
    let mut player = stereo();
    let out = player.pull(4096);
    assert_eq!(out.len(), 4096);
    assert!(out.iter().all(|s| *s == 0.0));
    assert_eq!(player.buffered_len(), 0);
}

#[test]
fn pull_leaves_the_clock_alone() {
    let mut player = stereo();
    player.enqueue(&[0.1, 0.2], 77);
    assert_eq!(player.pull(8), vec![0.1, 0.2, 0.0, 0.0, 0.0, 0.0, 0.0, 0.0]);
    assert_eq!(player.clock().ticks, 77);
}

#[test]
fn fill_serves_the_device_in_order() {
    let mut player = stereo();
    player.enqueue(&[0.1, -0.1, 0.2, -0.2, 0.3, -0.3], 5);
    let mut first = [1.0f32; 4];
    player.fill(&mut first);
    assert_eq!(first, [0.1, -0.1, 0.2, -0.2]);
    let mut second = [1.0f32; 4];
    player.fill(&mut second);
    assert_eq!(second, [0.3, -0.3, 0.0, 0.0]);
    assert_eq!(player.buffered_len(), 0);
    assert_eq!(player.clock().ticks, 5);
}

#[test]
fn clock_accepts_any_pts() {
    let mut player = stereo();
    player.enqueue(&[], -44100);
    assert_eq!(player.clock().position_nanos(), Some(-1_000_000_000));
    player.enqueue(&[], i64::MIN);
    assert_eq!(player.clock().ticks, i64::MIN);
    player.enqueue(&[], i64::MAX);
    assert_eq!(player.clock().ticks, i64::MAX);
}

#[test]
fn clock_position_without_a_time_base() {
    let mut player: AudioPlayer<f32> = AudioPlayer::new(2, Rational::new(1, 0), 44100, 0.0);
    player.enqueue(&[0.5], 10);
    assert_eq!(player.clock().ticks, 10);
    assert_eq!(player.clock().position_nanos(), None);
}

#[test]
fn clock_on_its_own() {
    let mut clock = AudioClock::new(Rational::new(1, 1000));
    assert_eq!(clock.ticks, 0);
    assert_eq!(clock.position_nanos(), Some(0));
    clock.set(1500);
    assert_eq!(clock.ticks, 1500);
    assert_eq!(clock.time_base, Rational::new(1, 1000));
    assert_eq!(clock.position_nanos(), Some(1_500_000_000));
}

#[test]
fn device_is_asked_for_blocks_of_4096_samples() {
    assert_eq!(av_sync::audio::DEVICE_BUFFER_SAMPLES, 4096);
    assert_eq!(AUDIO_BUFFER_SIZE, 16384);
}
