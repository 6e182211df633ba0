use stride::embeds::{now_playing, playing_song, progress_line, queued, queued_top, Notice};
use stride::responses::Color;
use stride::title::{clean_title, title_can_be_cut};

#[test]
fn short_plain_title_stays() {
    assert_eq!(clean_title("A Song".to_string()), "A Song");
    assert_eq!(clean_title(String::new()), "");
}

#[test]
fn formatting_characters_are_replaced() {
    assert_eq!(
        clean_title("[a](b)<c>`d`".to_string()),
        "\\\u{FF3B}a\\\u{FF3D}\\\u{2768}b\\\u{2769}\\\u{02C2}c\\\u{02C3}\\\u{02CB}d\\\u{02CB}"
    );
}

#[test]
fn long_title_is_cut_at_sixty_four_bytes() {
    let exactly = "x".repeat(64);
    assert_eq!(clean_title(exactly.clone()), exactly);
    let longer = "x".repeat(65);
    assert_eq!(clean_title(longer), format!("{}...", exactly));
    let with_bracket = format!("{}[tail", "y".repeat(63));
    assert_eq!(clean_title(with_bracket), format!("{}\\\u{FF3B}...", "y".repeat(63)));
}

#[test]
fn long_title_with_wide_characters() {
    let title = "\u{00E9}".repeat(40);
    assert!(title_can_be_cut(&title));
    assert_eq!(clean_title(title), format!("{}...", "\u{00E9}".repeat(32)));
    let odd = format!("a{}", "\u{00E9}".repeat(40));
    assert!(!title_can_be_cut(&odd));
    assert!(title_can_be_cut("short \u{00E9}"));
    let fits = format!("a{}", "\u{00E9}".repeat(31));
    assert_eq!(fits.len(), 63);
    assert!(title_can_be_cut(&fits));
    assert_eq!(clean_title(fits.clone()), fits);
}

#[test]
fn song_embeds() {
    let title = Some("So[ng".to_string());
    let url = Some("http://a".to_string());
    assert_eq!(playing_song(&title, &url, 5), "Playing [So\\\u{FF3B}ng](http://a) [<@5>]");
    assert_eq!(queued_top(&title, &url, 5), "Queued `Position 1` [So\\\u{FF3B}ng](http://a) [<@5>]");
    assert_eq!(queued(3, &title, &url, 5), "Queued `Position 3`  [So\\\u{FF3B}ng](http://a) [<@5>]");
    assert_eq!(playing_song(&None, &None, 5), "Playing [N/A](https://www.zombo.com/) [<@5>]");
}

#[test]
fn now_playing_embed() {
    let title = Some("Song".to_string());
    assert_eq!(now_playing(&title, &None, Some(9)), "[Song](https://www.zombo.com/) [<@9>]");
    assert_eq!(
        now_playing(&None, &Some("http://a".to_string()), None),
        "[N/A](http://a) [N/A]"
    );
}

#[test]
fn progress_lines() {
    let bar = |dot: usize| -> String {
        (0..20).map(|i| if i == dot { '\u{1F535}' } else { '\u{25AC}' }).collect()
    };
    assert_eq!(progress_line(0, 0, 185), format!("{} 0:00/3:05", bar(0)));
    assert_eq!(progress_line(10, 92, 185), format!("{} 1:32/3:05", bar(10)));
    assert_eq!(progress_line(19, 3700, 3720), format!("{} 1:01:40/1:02:00", bar(19)));
}

#[test]
fn notices_with_numbers() {
    assert_eq!(Notice::QueuedMultiple(12).text(), "Queued **12** tracks.");
    assert_eq!(Notice::Connected(77).text(), "Joined <#77>");
    assert_eq!(Notice::SkippedTo(3).text(), "Skipped 3 songs.");
    assert_eq!(Notice::NeedDj(5).text(), "You need the the <@&5> role to run this command.");
    assert_eq!(Notice::ChangedPrefix("!".to_string()).text(), "Changed the command prefix to: !");
    assert_eq!(Notice::CurrentPrefix("?".to_string()).text(), "Changed the command prefix to: ?");
}

#[test]
fn notices_with_fixed_words() {
    assert_eq!(Notice::Source.text(), "[Stride on github](https://github.com/DontStarve72/stride)");
    assert_eq!(Notice::Skipped.text(), "Song skipped.");
    assert_eq!(Notice::QueueCleared.text(), "Queue cleared.");
    assert_eq!(Notice::BotLeft.text(), "Left the voice channel.");
    assert_eq!(Notice::Shuffled.text(), "Shuffled the queue.");
    assert_eq!(
        Notice::NoDj.text(),
        "You need the a `DJ` role to run this command, but no such role has been configured."
    );
    assert_eq!(Notice::BotMissing.text(), "The bot is not connected to a voice channel.");
    assert_eq!(Notice::NotPlaying.text(), "The bot is not currently playing anything.");
    assert_eq!(Notice::UserMissing.text(), "You are not in any voice channels.");
    assert_eq!(
        Notice::CannotJoin.text(),
        "Could not join the voice channel. (Insufficient permissions?)."
    );
    assert_eq!(Notice::IndexOor.text(), "Index out of range.");
    assert_eq!(Notice::InvalidIndex.text(), "Invaid index.");
    assert_eq!(
        Notice::UrlError.text(),
        "Issue retrieving content from url. (Invalid URL, Geo-Blocked, Age-Restricted content.)"
    );
    assert_eq!(Notice::UrlMissing.text(), "Must provide a query or a url");
    assert_eq!(
        Notice::SearchError.text(),
        "Issue retrieving content from search. (Geo-Blocked, Age-Restricted content.)"
    );
    assert_eq!(Notice::TrackError.text(), "Couldn't get the info of the currently playing track.");
    assert_eq!(Notice::AlreadyInVc.text(), "Could not join voice channel (Already connected).");
    assert_eq!(Notice::CantShuffle0.text(), "No songs in the queue to shuffle.");
    assert_eq!(Notice::CantShuffle1.text(), "Cannot shuffle 1 song.");
}

#[test]
fn notice_colors() {
    assert_eq!(Notice::Skipped.color(), Color::Default);
    assert_eq!(Notice::Connected(1).color(), Color::Default);
    assert_eq!(Notice::NoDj.color(), Color::Error);
    assert_eq!(Notice::CantShuffle1.color(), Color::Error);
    assert_eq!(Notice::ChangedPrefix(String::new()).color(), Color::Setting);
    assert_eq!(Notice::CurrentPrefix(String::new()).color(), Color::Setting);
}
