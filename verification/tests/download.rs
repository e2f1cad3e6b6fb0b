//! File names and extensions.

use dqn::download::{
    artists_text, file_stem, original_url_extension, sanitize_filename, segment_extension,
    segments_extension, UrlFailure,
};
use dqn::music::{Song, SongAlbum, SongArtist};

fn artist(id: &str, name: &str) -> SongArtist {
    SongArtist {
        id: id.to_owned(),
        name: name.to_owned(),
    }
}

fn song(name: &str, artists: Vec<SongArtist>) -> Song {
    Song {
        id: "123456".to_owned(),
        name: name.to_owned(),
        pic_url: String::new(),
        artists,
        album: SongAlbum {
            id: "3".to_owned(),
            name: "专辑".to_owned(),
        },
    }
}

#[test]
fn filename_is_safe_on_windows() {
    assert_eq!(sanitize_filename(" A:B/C*D?  "), "A_B_C_D_");
}

#[test]
fn filename_contains_only_song_name_and_artists() {
    let song = song("歌曲名", vec![artist("1", "歌手甲"), artist("2", "歌手乙")]);

    assert_eq!(file_stem(&song), "歌曲名 - 歌手甲,歌手乙");
    assert!(!file_stem(&song).contains(&song.id));
}

#[test]
fn extension_is_kept_from_original_url() {
    assert_eq!(
        original_url_extension("https://x/path/song.mp3?token=1").unwrap(),
        "mp3"
    );
    assert_eq!(
        original_url_extension("https://x/path/song.FLAC#play").unwrap(),
        "FLAC"
    );
}

#[test]
fn missing_original_extension_is_not_guessed() {
    assert!(original_url_extension("https://x/download?id=1").is_err());
}

#[test]
fn each_url_failure_has_its_message() {
    let failure = original_url_extension("no url").unwrap_err();
    assert_eq!(failure, UrlFailure::Invalid);
    assert_eq!(failure.message(), "平台返回的下载链接格式无效");
    for url in ["https://x/", "https://x/path/", "mailto:song.mp3"] {
        let failure = original_url_extension(url).unwrap_err();
        assert_eq!(failure, UrlFailure::NoFileName, "{url}");
        assert_eq!(failure.message(), "平台返回的下载链接没有原始文件名");
    }
    for url in [
        "https://x/song",
        "https://x/song.",
        "https://x/song.m%20p",
        "https://x/song.01234567890123456",
    ] {
        let failure = original_url_extension(url).unwrap_err();
        assert_eq!(failure, UrlFailure::NoExtension, "{url}");
        assert_eq!(failure.message(), "平台返回的下载链接没有可用的原始扩展名");
    }
    assert_eq!(
        original_url_extension("https://x/a.b/song.tar.0123456789012345").unwrap(),
        "0123456789012345"
    );
}

#[test]
fn extension_follows_the_last_dot_of_the_segment() {
    assert_eq!(segment_extension(Some("a.b.mp3".to_owned())), Ok("mp3".to_owned()));
    assert_eq!(segment_extension(Some(".m4a".to_owned())), Ok("m4a".to_owned()));
    assert_eq!(segment_extension(Some("歌.歌".to_owned())), Err(UrlFailure::NoExtension));
    assert_eq!(segment_extension(Some(String::new())), Err(UrlFailure::NoFileName));
    assert_eq!(segment_extension(None), Err(UrlFailure::NoFileName));
}

#[test]
fn extension_is_that_of_the_last_segment() {
    let segments = |names: &[&str]| Some(names.iter().map(|name| name.to_string()).collect());
    assert_eq!(segments_extension(segments(&["a.b", "song.mp3"])), Ok("mp3".to_owned()));
    assert_eq!(
        segments_extension(segments(&["song.mp3", ""])),
        Err(UrlFailure::NoFileName)
    );
    assert_eq!(segments_extension(segments(&[])), Err(UrlFailure::NoFileName));
    assert_eq!(segments_extension(None), Err(UrlFailure::NoFileName));
}

#[test]
fn songs_without_artists_are_named_too() {
    assert_eq!(file_stem(&song("歌", Vec::new())), "歌 - 未知歌手");
    assert_eq!(artists_text(&song("歌", Vec::new())), "");
    assert_eq!(artists_text(&song("歌", vec![artist("1", "甲")])), "甲");
}

#[test]
fn nothing_left_of_a_name_is_replaced() {
    assert_eq!(sanitize_filename(""), "未命名歌曲");
    assert_eq!(sanitize_filename(" . . "), "未命名歌曲");
    assert_eq!(sanitize_filename("..."), "未命名歌曲");
}

#[test]
fn white_space_collapses_and_control_characters_are_replaced() {
    assert_eq!(sanitize_filename("a \u{3000}\u{a0} b"), "a b");
    assert_eq!(sanitize_filename("a\tb\nc"), "a_b_c");
    assert_eq!(sanitize_filename("a\u{85}b"), "a_b");
    assert_eq!(sanitize_filename("<>:\"/\\|?*"), "_________");
    assert_eq!(sanitize_filename("name. . ."), "name");
}

#[test]
fn long_names_are_cut() {
    assert_eq!(sanitize_filename(&"歌".repeat(200)), "歌".repeat(140));
    let spaced = format!("{}  tail", "x".repeat(139));
    assert_eq!(sanitize_filename(&spaced), "x".repeat(139));
    let dotted = format!("{}...tail", "x".repeat(138));
    assert_eq!(sanitize_filename(&dotted), "x".repeat(138));
    assert_eq!(
        sanitize_filename(&format!(" {}", "x".repeat(200))),
        "x".repeat(139)
    );
}

#[test]
fn safe_names_stay_as_they_are() {
    for name in ["歌曲名 - 歌手甲,歌手乙", "a.b", "_", "x y z"] {
        assert_eq!(sanitize_filename(name), name);
    }
    for name in [" A:B/C*D?  ", "", "a \t b.", "歌曲名 - 歌手", "...x...", "_"] {
        let once = sanitize_filename(name);
        assert_eq!(sanitize_filename(&once), once);
        assert!(!once.is_empty() && once.chars().count() <= 140);
        assert!(!once.ends_with('.') && once.trim() == once);
        assert!(!once
            .chars()
            .any(|c| c.is_control() || "<>:\"/\\|?*".contains(c)));
    }
}
