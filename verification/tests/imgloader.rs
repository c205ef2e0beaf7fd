use imgseq::imgloader::img_load;
use imgseq::playback::{Direction, Playback, PlaybackError};

#[test]
fn missing_directory_gives_an_empty_sequence() {
    let frames = img_load("no_such_directory");
    assert!(frames.is_empty());
}

#[test]
fn directory_without_frame_zero_gives_an_empty_sequence() {
    // The crate's own source directory exists but holds no `0.jpg`.
    let frames = img_load("src");
    assert!(frames.is_empty());
}

#[test]
fn empty_load_refuses_to_start_playback() {
    let frames = img_load("no_such_directory");
    let result = Playback::new(frames.len(), 128, Direction::Forward);
    assert_eq!(result, Err(PlaybackError::EmptySequence));
}
