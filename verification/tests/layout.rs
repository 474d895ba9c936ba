use net_manthan::decimal::{i64_to_decimal, u64_to_decimal, usize_to_decimal};
use net_manthan::download::DownloadStatus;
use net_manthan::pretty_print::{
    border_line, rewind_line_count, stats_line, stats_summary, title_line, shorten_file_name, stats_padding, status_text, title_padding,
    visible_length, MAX_FILE_NAME_LEN, PROGRESS_BAR_WIDTH,
};
use net_manthan::ui::icon::IconName;
use net_manthan::ui_types::{Page, ThemeOptions};

#[test]
fn numbers_in_decimal() {
    assert_eq!(usize_to_decimal(0), "0");
    assert_eq!(usize_to_decimal(1234567), "1234567");
    assert_eq!(u64_to_decimal(u64::MAX), "18446744073709551615");
    assert_eq!(i64_to_decimal(-42), "-42");
    assert_eq!(i64_to_decimal(7), "7");
    assert_eq!(i64_to_decimal(i64::MIN), "-9223372036854775808");
    // written numbers read back
    assert_eq!(usize_to_decimal(98765).parse::<usize>().unwrap(), 98765);
}

#[test]
fn escape_sequences_take_no_room() {
    assert_eq!(visible_length("plain"), 5);
    assert_eq!(visible_length("\x1b[32mabc\x1b[0m"), 3);
    assert_eq!(visible_length(""), 0);
    // an open sequence hides the rest
    assert_eq!(visible_length("ab\x1b[3"), 2);
    assert_eq!(visible_length("é✓"), 2);
}

#[test]
fn long_file_names_are_cut() {
    assert_eq!(MAX_FILE_NAME_LEN, 60);
    assert_eq!(shorten_file_name("movie.mkv"), "movie.mkv");
    let exactly = "a".repeat(60);
    assert_eq!(shorten_file_name(&exactly), exactly);
    let long = "b".repeat(70);
    let cut = shorten_file_name(&long);
    assert_eq!(cut, format!("{}...", "b".repeat(57)));
    // a cut that ends a character
    let mixed = format!("{}é{}", "c".repeat(55), "d".repeat(10));
    assert_eq!(shorten_file_name(&mixed), format!("{}é...", "c".repeat(55)));
}

#[test]
fn lines_are_padded_to_the_bar() {
    assert_eq!(PROGRESS_BAR_WIDTH, 75);
    assert_eq!(title_padding("file.zip", "Downloading"), 52);
    assert_eq!(title_padding("é", "Failed"), 64);
    assert_eq!(stats_padding("\x1b[34m10%\x1b[0m"), 72);
    assert_eq!(stats_padding(&"x".repeat(80)), 0);
    assert_eq!(stats_padding(&"x".repeat(75)), 0);
    assert_eq!(rewind_line_count(0), 2);
    assert_eq!(rewind_line_count(3), 17);
}

#[test]
fn status_labels() {
    assert_eq!(status_text(DownloadStatus::Downloading), "Downloading");
    assert_eq!(status_text(DownloadStatus::Complete), "Complete");
    assert_eq!(status_text(DownloadStatus::Cancelled), "Cancelled");
    assert_eq!(status_text(DownloadStatus::Retrying), "Retrying");
}

#[test]
fn page_titles() {
    assert_eq!(Page::Downloading.as_str(), "Downloading");
    assert_eq!(Page::Paused.as_str(), "Paused");
    assert_eq!(Page::AllDownloads.as_str(), "All Downloads");
    assert_eq!(Page::Settings.as_str(), "Settings");
}

#[test]
fn theme_names_and_order() {
    assert_eq!(ThemeOptions::Light.label(), "Light Mode");
    assert_eq!(ThemeOptions::Dark.label(), "Dark Mode");
    assert_eq!(ThemeOptions::CatppuccinMacchiato.label(), "Catppuccin Macchiato");
    assert_eq!(ThemeOptions::TokyoNightStorm.label(), "Tokyo Night Storm");
    let all = ThemeOptions::all();
    assert_eq!(all.len(), 22);
    assert_eq!(all[4], ThemeOptions::SolarizedDark);
    assert_eq!(all[21], ThemeOptions::Ferra);
}

#[test]
fn icon_paths() {
    assert_eq!(IconName::Archive.path(), "icons/archive.svg");
    assert_eq!(IconName::Minimize.path(), "icons/generic_minimize.svg");
    assert_eq!(IconName::Close.path(), "icons/generic_close.svg");
    assert_eq!(IconName::Plus.path(), "icons/plus.svg");
}

#[test]
fn block_lines() {
    let top = border_line(true);
    assert_eq!(top, format!("  \u{250c}{}\u{2510}", "\u{2500}".repeat(77)));
    let bottom = border_line(false);
    assert_eq!(bottom, format!("  \u{2514}{}\u{2518}", "\u{2500}".repeat(77)));
    let title = title_line(0, "file.zip", "Downloading", "\x1b[34mDownloading\x1b[0m", "| ", " |");
    assert_eq!(
        title,
        format!("\x1b[K  | 1. file.zip {}\x1b[34mDownloading\x1b[0m |", " ".repeat(52))
    );
    let stats = stats_line("10MB/20MB(\x1b[34m50%\x1b[0m)", "", "");
    assert_eq!(stats, format!("\x1b[K  10MB/20MB(\x1b[34m50%\x1b[0m){}", " ".repeat(75 - 14)));
    let wide = stats_line(&"x".repeat(80), "<", ">");
    assert_eq!(wide, format!("\x1b[K  <{}>", "x".repeat(80)));
}

#[test]
fn statistics_text() {
    assert_eq!(
        stats_summary("10MB", "20MB", "50%", 4, "1MB/s", "00:10/00:10", true),
        "10MB/20MB(50%) Parts:4 Speed:1MB/s Time:00:10/00:10"
    );
    assert_eq!(
        stats_summary("0B", "Unknown", "0%", 0, "0B/s", "00:00/\u{221e}", false),
        "[0B/Unknown(0%) Parts:0 Speed:0B/s Time:00:00/\u{221e}]"
    );
}
