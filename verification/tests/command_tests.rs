use vid2mp3::command::{conversion_args, thumbnail_args, transcoder_program};

#[test]
fn transcoder_is_ffmpeg() {
    assert_eq!(transcoder_program(), "ffmpeg");
}

#[test]
fn conversion_arguments_are_exact() {
    let args = conversion_args("movie.mp4", "movie.mp3");
    let expected = vec![
        "-i",
        "movie.mp4",
        "-vn",
        "-acodec",
        "libmp3lame",
        "-ab",
        "192k",
        "-y",
        "movie.mp3",
    ];
    assert_eq!(args, expected);
}

#[test]
fn thumbnail_arguments_are_exact() {
    let args = thumbnail_args("movie.mp4", "/tmp/vid2mp3/thumbnail_9.jpg");
    let expected = vec![
        "-ss",
        "00:00:01",
        "-i",
        "movie.mp4",
        "-vframes",
        "1",
        "-q:v",
        "2",
        "-y",
        "/tmp/vid2mp3/thumbnail_9.jpg",
    ];
    assert_eq!(args, expected);
}
