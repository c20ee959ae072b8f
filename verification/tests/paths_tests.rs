use vid2mp3::paths::{derive_output_path, file_name, thumbnail_file_name, u64_to_string};

#[test]
fn output_path_replaces_extension() {
    assert_eq!(derive_output_path("movie.mp4"), "movie.mp3");
}

#[test]
fn output_path_for_mkv() {
    assert_eq!(derive_output_path("clip.mkv"), "clip.mp3");
}

#[test]
fn output_path_keeps_directories() {
    assert_eq!(derive_output_path("/a/b/video.webm"), "/a/b/video.mp3");
}

#[test]
fn output_path_appends_when_no_extension() {
    assert_eq!(derive_output_path("noext"), "noext.mp3");
}

#[test]
fn output_path_hidden_file_has_no_extension() {
    assert_eq!(derive_output_path(".hidden"), ".hidden.mp3");
}

#[test]
fn output_path_replaces_only_last_extension() {
    assert_eq!(derive_output_path("a.b.c"), "a.b.mp3");
}

#[test]
fn output_path_ignores_dot_in_directory() {
    assert_eq!(derive_output_path("dir.d/file"), "dir.d/file.mp3");
}

#[test]
fn output_path_empty_input() {
    assert_eq!(derive_output_path(""), ".mp3");
}

#[test]
fn file_name_strips_directories() {
    assert_eq!(file_name("/a/b/video.webm"), "video.webm");
}

#[test]
fn file_name_of_bare_name() {
    assert_eq!(file_name("plain.mp4"), "plain.mp4");
}

#[test]
fn decimal_of_zero() {
    assert_eq!(u64_to_string(0), "0");
}

#[test]
fn decimal_of_three_digits() {
    assert_eq!(u64_to_string(907), "907");
}

#[test]
fn decimal_of_largest() {
    assert_eq!(u64_to_string(u64::MAX), "18446744073709551615");
}

#[test]
fn thumbnail_name_at_zero() {
    assert_eq!(thumbnail_file_name(0), "thumbnail_0.jpg");
}

#[test]
fn thumbnail_name_at_timestamp() {
    assert_eq!(thumbnail_file_name(1234567890), "thumbnail_1234567890.jpg");
}
