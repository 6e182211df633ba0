use stride::playlist::{contains, lines, ytdl_playlist};

fn chars(s: &str) -> Vec<char> {
    s.chars().collect()
}

#[test]
fn lines_agree_with_the_standard_library() {
    let cases = [
        "", "a", "a\n", "a\nb", "a\nb\n", "\n", "\n\n", "a\r\nb\r\n", "a\r", "a\r\n", "\r\n",
        "a\rb\nc", "a\n\nb", "\r", "a\r\r\nb", "one\ntwo\r\nthree", "x\n\r",
    ];
    for case in cases {
        let got: Vec<String> = lines(&chars(case)).iter().map(|l| l.iter().collect()).collect();
        let want: Vec<String> = case.lines().map(|l| l.to_string()).collect();
        assert_eq!(got, want, "{:?}", case);
    }
}

#[test]
fn contains_agrees_with_the_standard_library() {
    let texts = ["", "a", "available", "unavailable video", "availabl", "xxavailablexx", "aavailable"];
    let patterns = ["", "a", "available", "le", "xx", "avaiable"];
    for text in texts {
        for pattern in patterns {
            assert_eq!(
                contains(&chars(text), &chars(pattern)),
                text.contains(pattern),
                "{:?} in {:?}",
                pattern,
                text
            );
        }
    }
}

#[test]
fn playlist_addresses() {
    assert_eq!(
        ytdl_playlist("abc\ndef\n"),
        vec![
            "https://www.youtube.com/watch?v=abc".to_string(),
            "https://www.youtube.com/watch?v=def".to_string()
        ]
    );
    assert!(ytdl_playlist("").is_empty());
}

#[test]
fn playlist_skips_reports_of_missing_videos() {
    let output = "abc\nERROR: Video unavailable\ndef\nThis video is not available.\nghi";
    assert_eq!(
        ytdl_playlist(output),
        vec![
            "https://www.youtube.com/watch?v=abc".to_string(),
            "https://www.youtube.com/watch?v=def".to_string(),
            "https://www.youtube.com/watch?v=ghi".to_string()
        ]
    );
    assert!(ytdl_playlist("unavailable\nnot available").is_empty());
}
