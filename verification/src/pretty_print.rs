//! Laying out download progress on a terminal: measuring text that carries
//! colour escape sequences, and the widths and line counts of each block.
use vstd::prelude::*;
use vstd::string::StringExecFns;
use vstd::string::StringSliceAdditionalSpecFns;
use vstd::utf8::{encode_utf8, is_char_boundary};

use crate::decimal::{decimal_text, usize_to_decimal};
use crate::download::DownloadStatus;

verus! {

/// The escape character that starts a terminal control sequence.
pub open spec fn is_escape(c: char) -> bool {
    c == '\u{1b}'
}

/// Whether, after reading `s`, a control sequence is still open: one starts at
/// an escape character and runs up to and including the next `m`.
pub open spec fn in_escape_after(s: Seq<char>) -> bool
    decreases s.len(),
{
    if s.len() == 0 {
        false
    } else if in_escape_after(s.drop_last()) {
        s.last() != 'm'
    } else {
        is_escape(s.last())
    }
}

/// Whether the last character of `s` is shown: it is not an escape character
/// and does not belong to a control sequence.
pub open spec fn last_is_visible(s: Seq<char>) -> bool {
    s.len() > 0 && !in_escape_after(s.drop_last()) && !is_escape(s.last())
}

/// The number of characters of `s` that are shown on a terminal.
pub open spec fn visible_count(s: Seq<char>) -> nat
    decreases s.len(),
{
    if s.len() == 0 {
        0
    } else {
        visible_count(s.drop_last()) + if last_is_visible(s) {
            1nat
        } else {
            0nat
        }
    }
}

/// The number of characters of `s` that are shown on a terminal: colour
/// escape sequences (from the escape character up to the next `m`) take no room.
pub fn visible_length(s: &str) -> (n: usize)
    ensures
        n == visible_count(s@),
{
    let len = s.unicode_len();
    let mut in_escape = false;
    let mut count: usize = 0;
    let mut i: usize = 0;
    while i < len
        invariant
            len == s@.len(),
            i <= len,
            in_escape == in_escape_after(s@.take(i as int)),
            count == visible_count(s@.take(i as int)),
            count <= i,
        decreases len - i,
    {
        let c = s.get_char(i);
        proof {
            assert(s@.take(i + 1).drop_last() =~= s@.take(i as int));
            assert(s@.take(i + 1).last() == c);
        }
        if in_escape {
            if c == 'm' {
                in_escape = false;
            }
        } else if c == '\u{1b}' {
            in_escape = true;
        } else {
            count = count + 1;
        }
        i = i + 1;
    }
    assert(s@.take(len as int) =~= s@);
    count
}

/// The width of a progress bar, in cells; the other lines of a block are
/// padded to it.
pub const PROGRESS_BAR_WIDTH: usize = 75;

/// The longest file name shown whole, in bytes.
pub const MAX_FILE_NAME_LEN: usize = 60;

/// The lines each download's block takes, with its border.
pub const DOWNLOAD_HEIGHT: usize = 5;

/// The label shown for a status.
pub open spec fn status_label(status: DownloadStatus) -> Seq<char> {
    match status {
        DownloadStatus::Created => "Created"@,
        DownloadStatus::Queued => "Queued"@,
        DownloadStatus::Connecting => "Connecting"@,
        DownloadStatus::Retrying => "Retrying"@,
        DownloadStatus::Downloading => "Downloading"@,
        DownloadStatus::Paused => "Paused"@,
        DownloadStatus::Complete => "Complete"@,
        DownloadStatus::Failed => "Failed"@,
        DownloadStatus::Cancelled => "Cancelled"@,
    }
}

/// The label shown for a status.
pub fn status_text(status: DownloadStatus) -> (s: &'static str)
    ensures
        s@ == status_label(status),
{
    match status {
        DownloadStatus::Created => "Created",
        DownloadStatus::Queued => "Queued",
        DownloadStatus::Connecting => "Connecting",
        DownloadStatus::Retrying => "Retrying",
        DownloadStatus::Downloading => "Downloading",
        DownloadStatus::Paused => "Paused",
        DownloadStatus::Complete => "Complete",
        DownloadStatus::Failed => "Failed",
        DownloadStatus::Cancelled => "Cancelled",
    }
}

/// Whether a file name can be cut for display: one longer than
/// `MAX_FILE_NAME_LEN` bytes is cut after its first `MAX_FILE_NAME_LEN - 3`
/// bytes, which must end a character.
pub open spec fn can_shorten(name: &str) -> bool {
    name.spec_bytes().len() > MAX_FILE_NAME_LEN ==> is_char_boundary(
        name.spec_bytes(),
        (MAX_FILE_NAME_LEN - 3) as int,
    )
}

/// A file name as shown: whole when it has at most `MAX_FILE_NAME_LEN`
/// bytes, else its first `MAX_FILE_NAME_LEN - 3` bytes followed by `...`.
pub fn shorten_file_name(name: &str) -> (r: String)
    requires
        can_shorten(name),
    ensures
        name.spec_bytes().len() <= MAX_FILE_NAME_LEN ==> r@ == name@,
        name.spec_bytes().len() > MAX_FILE_NAME_LEN ==> {
            &&& r@.len() >= 3
            &&& encode_utf8(r@.take(r@.len() - 3)) == name.spec_bytes().subrange(
                0,
                (MAX_FILE_NAME_LEN - 3) as int,
            )
            &&& r@.skip(r@.len() - 3) == "..."@
        },
{
    if name.as_bytes().len() <= MAX_FILE_NAME_LEN {
        return name.to_owned();
    }
    let (head, _) = name.split_at(MAX_FILE_NAME_LEN - 3);
    let mut r = head.to_owned();
    r.append("...");
    proof {
        reveal_strlit("...");
        assert(r@.take(r@.len() - 3) =~= head@);
        assert(r@.skip(r@.len() - 3) =~= "..."@);
    }
    r
}

/// Whether a block's title line fits the bar: its number, file name and
/// status, with their separators, take at most `PROGRESS_BAR_WIDTH` cells.
pub open spec fn title_fits(name: Seq<char>, status: Seq<char>) -> bool {
    4 + name.len() + status.len() <= PROGRESS_BAR_WIDTH
}

/// The spaces put between the file name and the status on a block's title
/// line, so that the status ends where the bar does.
pub fn title_padding(name: &str, status: &str) -> (n: usize)
    requires
        title_fits(name@, status@),
    ensures
        n == PROGRESS_BAR_WIDTH - (4 + name@.len() + status@.len()),
{
    PROGRESS_BAR_WIDTH - (4 + name.unicode_len() + status.unicode_len())
}

/// The spaces that pad a block's statistics line to the bar's width; none
/// when the line is already wider.
pub fn stats_padding(stats: &str) -> (n: usize)
    ensures
        n == if visible_count(stats@) <= PROGRESS_BAR_WIDTH {
            PROGRESS_BAR_WIDTH - visible_count(stats@)
        } else {
            0
        },
{
    let len = visible_length(stats);
    if len <= PROGRESS_BAR_WIDTH {
        PROGRESS_BAR_WIDTH - len
    } else {
        0
    }
}

/// The lines to move the cursor up after printing `count` blocks, so that
/// the next print overwrites them: each block, and the blank lines around
/// them.
pub fn rewind_line_count(count: usize) -> (n: usize)
    requires
        count * DOWNLOAD_HEIGHT + 2 <= usize::MAX,
    ensures
        n == count * DOWNLOAD_HEIGHT + 2,
{
    count * DOWNLOAD_HEIGHT + 2
}

/// `t` written `n` times.
pub open spec fn repeated(t: Seq<char>, n: nat) -> Seq<char>
    decreases n,
{
    if n == 0 {
        Seq::<char>::empty()
    } else {
        repeated(t, (n - 1) as nat) + t
    }
}

/// Appends `t` to `s`, `n` times.
fn push_repeated(s: &mut String, t: &str, n: usize)
    ensures
        final(s)@ == old(s)@ + repeated(t@, n as nat),
{
    let mut i: usize = 0;
    while i < n
        invariant
            i <= n,
            s@ == old(s)@ + repeated(t@, i as nat),
        decreases n - i,
    {
        s.append(t);
        proof {
            assert(repeated(t@, (i + 1) as nat) == repeated(t@, i as nat) + t@);
            assert(old(s)@ + repeated(t@, i as nat) + t@ =~= old(s)@ + repeated(t@, (i + 1) as nat));
        }
        i = i + 1;
    }
}

/// The control sequence that clears the rest of a terminal line.
pub open spec fn clear_line_text() -> Seq<char> {
    seq!['\u{1b}', '[', 'K']
}

/// The indent of every line of a block.
pub open spec fn tab_text() -> Seq<char> {
    seq![' ', ' ']
}

/// The frame line above (`top`) or below a block: the indent, a corner, a
/// horizontal bar two cells wider than the progress bar, and a corner.
pub open spec fn border_text(top: bool) -> Seq<char> {
    tab_text() + seq![if top { '\u{250c}' } else { '\u{2514}' }] + repeated(
        seq!['\u{2500}'],
        (PROGRESS_BAR_WIDTH + 2) as nat,
    ) + seq![if top { '\u{2510}' } else { '\u{2518}' }]
}

/// The frame line above (`top`) or below a block.
pub fn border_line(top: bool) -> (s: String)
    ensures
        s@ == border_text(top),
{
    let mut s = String::new();
    s.append("  ");
    if top {
        s.append("\u{250c}");
    } else {
        s.append("\u{2514}");
    }
    push_repeated(&mut s, "\u{2500}", PROGRESS_BAR_WIDTH + 2);
    if top {
        s.append("\u{2510}");
    } else {
        s.append("\u{2518}");
    }
    proof {
        reveal_strlit("  ");
        reveal_strlit("\u{250c}");
        reveal_strlit("\u{2514}");
        reveal_strlit("\u{2500}");
        reveal_strlit("\u{2510}");
        reveal_strlit("\u{2518}");
        assert("\u{2500}"@ =~= seq!['\u{2500}']);
        assert("  "@ =~= tab_text());
    }
    assert(s@ =~= border_text(top));
    s
}

/// A block's title line: a cleared line, the indent, the left border, the
/// block's number (counting from one), a dot, the file name, then spaces up to
/// the status so that it ends where the bar does, and the right border. The
/// status is given both as shown (perhaps coloured) and as plain text, whose
/// length sets the padding.
pub open spec fn title_text(
    index: usize,
    name: Seq<char>,
    status: Seq<char>,
    status_shown: Seq<char>,
    left: Seq<char>,
    right: Seq<char>,
) -> Seq<char> {
    clear_line_text() + tab_text() + left + decimal_text((index + 1) as nat) + ". "@ + name + " "@ + repeated(
        " "@,
        (PROGRESS_BAR_WIDTH - (4 + name.len() + status.len())) as nat,
    ) + status_shown + right
}

/// A block's title line.
pub fn title_line(
    index: usize,
    name: &str,
    status: &str,
    status_shown: &str,
    left: &str,
    right: &str,
) -> (s: String)
    requires
        title_fits(name@, status@),
        index < usize::MAX,
    ensures
        s@ == title_text(index, name@, status@, status_shown@, left@, right@),
{
    let pad = title_padding(name, status);
    let mut s = String::new();
    s.append("\u{1b}[K");
    s.append("  ");
    s.append(left);
    let number = usize_to_decimal(index + 1);
    s.append(number.as_str());
    s.append(". ");
    s.append(name);
    s.append(" ");
    push_repeated(&mut s, " ", pad);
    s.append(status_shown);
    s.append(right);
    proof {
        reveal_strlit("\u{1b}[K");
        reveal_strlit("  ");
    }
    assert(s@ =~= title_text(index, name@, status@, status_shown@, left@, right@));
    s
}

/// A block's statistics, from their already written pieces: downloaded and
/// total sizes, the percentage, the number of parts, the speed and the time.
/// Without a border they are wrapped in square brackets.
pub open spec fn stats_summary_text(
    downloaded: Seq<char>,
    total: Seq<char>,
    percentage: Seq<char>,
    parts: usize,
    speed: Seq<char>,
    time: Seq<char>,
    border: bool,
) -> Seq<char> {
    (if border { Seq::<char>::empty() } else { "["@ }) + downloaded + "/"@ + total + "("@ + percentage
        + ") Parts:"@ + decimal_text(parts as nat) + " Speed:"@ + speed + " Time:"@ + time + (if border {
        Seq::<char>::empty()
    } else {
        "]"@
    })
}

/// A block's statistics, from their already written pieces.
pub fn stats_summary(
    downloaded: &str,
    total: &str,
    percentage: &str,
    parts: usize,
    speed: &str,
    time: &str,
    border: bool,
) -> (s: String)
    ensures
        s@ == stats_summary_text(downloaded@, total@, percentage@, parts, speed@, time@, border),
{
    let mut s = String::new();
    if !border {
        s.append("[");
    }
    s.append(downloaded);
    s.append("/");
    s.append(total);
    s.append("(");
    s.append(percentage);
    s.append(") Parts:");
    let n = usize_to_decimal(parts);
    s.append(n.as_str());
    s.append(" Speed:");
    s.append(speed);
    s.append(" Time:");
    s.append(time);
    if !border {
        s.append("]");
    }
    proof {
        reveal_strlit("[");
        reveal_strlit("]");
    }
    assert(s@ =~= stats_summary_text(downloaded@, total@, percentage@, parts, speed@, time@, border));
    s
}

/// A block's statistics line: a cleared line, the indent, the left border,
/// the statistics, spaces up to the bar's width (counting only the cells the
/// statistics take on screen), and the right border.
pub open spec fn stats_text(stats: Seq<char>, left: Seq<char>, right: Seq<char>) -> Seq<char> {
    clear_line_text() + tab_text() + left + stats + repeated(
        " "@,
        if visible_count(stats) <= PROGRESS_BAR_WIDTH {
            (PROGRESS_BAR_WIDTH - visible_count(stats)) as nat
        } else {
            0
        },
    ) + right
}

/// A block's statistics line.
pub fn stats_line(stats: &str, left: &str, right: &str) -> (s: String)
    ensures
        s@ == stats_text(stats@, left@, right@),
{
    let pad = stats_padding(stats);
    let mut s = String::new();
    s.append("\u{1b}[K");
    s.append("  ");
    s.append(left);
    s.append(stats);
    push_repeated(&mut s, " ", pad);
    s.append(right);
    proof {
        reveal_strlit("\u{1b}[K");
        reveal_strlit("  ");
    }
    assert(s@ =~= stats_text(stats@, left@, right@));
    s
}

/// Text without escape characters is shown whole.
pub proof fn lemma_plain_text_fully_visible(s: Seq<char>)
    requires
        forall|i: int| 0 <= i < s.len() ==> !is_escape(#[trigger] s[i]),
    ensures
        visible_count(s) == s.len(),
        !in_escape_after(s),
    decreases s.len(),
{
    if s.len() > 0 {
        let init = s.drop_last();
        assert forall|i: int| 0 <= i < init.len() implies !is_escape(#[trigger] init[i]) by {
            assert(init[i] == s[i]);
        }
        lemma_plain_text_fully_visible(init);
        assert(!is_escape(s[s.len() - 1]));
    }
}

/// A complete control sequence (an escape character, then characters other
/// than `m`, then `m`) appended to text takes no room.
pub proof fn lemma_escape_sequence_invisible(s: Seq<char>, body: Seq<char>)
    requires
        !in_escape_after(s),
        forall|i: int| 0 <= i < body.len() ==> #[trigger] body[i] != 'm',
    ensures
        visible_count(s + seq!['\u{1b}'] + body + seq!['m']) == visible_count(s),
        !in_escape_after(s + seq!['\u{1b}'] + body + seq!['m']),
    decreases body.len(),
{
    let t = s + seq!['\u{1b}'];
    assert(t.drop_last() =~= s);
    lemma_open_sequence(t, body);
    let u = t + body;
    assert((u + seq!['m']).drop_last() =~= u);
}

/// Inside an open control sequence, characters other than `m` take no room
/// and keep it open.
proof fn lemma_open_sequence(t: Seq<char>, body: Seq<char>)
    requires
        in_escape_after(t),
        forall|i: int| 0 <= i < body.len() ==> #[trigger] body[i] != 'm',
    ensures
        in_escape_after(t + body),
        visible_count(t + body) == visible_count(t),
    decreases body.len(),
{
    if body.len() > 0 {
        let init = body.drop_last();
        assert forall|i: int| 0 <= i < init.len() implies #[trigger] init[i] != 'm' by {
            assert(init[i] == body[i]);
        }
        lemma_open_sequence(t, init);
        assert((t + body).drop_last() =~= t + init);
        assert((t + body).last() == body[body.len() - 1]);
    } else {
        assert(t + body =~= t);
    }
}

} // verus!
