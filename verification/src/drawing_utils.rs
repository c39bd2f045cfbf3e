//! What the frame shows: titles, the rows of the queue table, the progress
//! bar, and the constraints that divide the screen.

use vstd::prelude::*;
use vstd::string::{StrSliceExecFns, StringExecFns};
use crate::text::{decimal, push_decimal};
use crate::utils::{fmt_time, group_count, groups_text, Padding};

verus! {

/// Where a text stands within its area.
#[derive(Clone, Copy, Debug, PartialEq, Eq, Structural)]
pub enum Alignment {
    Left,
    Center,
    Right,
}

/// One constraint on the extent of an area, in cells or in hundredths of
/// what is there.
#[derive(Clone, Copy, Debug, PartialEq, Eq, Structural)]
pub enum Extent {
    Length(u16),
    Min(u16),
    Percentage(u16),
}

/// A line of text with its style: a border below it or none, its
/// alignment, bold or plain.
#[derive(Clone, Debug)]
pub struct Title {
    pub text: String,
    pub border: bool,
    pub align: Alignment,
    pub bold: bool,
}

/// One entry of the queue as the server lists it: the file, what the
/// server tells of title, artist and duration in whole seconds, and the
/// other tags by name, in the order in which they came.
#[derive(Clone, Debug)]
pub struct QueueEntry {
    pub file: String,
    pub title: Option<String>,
    pub artist: Option<String>,
    pub duration: Option<i64>,
    pub tags: Vec<(String, String)>,
}

/// One row of the queue table.
#[derive(Clone, Debug)]
pub struct Row {
    pub artist: String,
    pub track: String,
    pub title: String,
    pub album: String,
    pub time: String,
}

/// Whether `t` is the title with this text and style.
pub open spec fn is_title(t: Title, text: Seq<char>, border: bool, align: Alignment, bold: bool) -> bool {
    &&& t.text@ == text
    &&& t.border == border
    &&& t.align == align
    &&& t.bold == bold
}

/// The text of the volume indicator.
pub open spec fn volume_text(volume: i8) -> Seq<char> {
    "Volume: "@ + decimal(volume as int) + seq!['%']
}

/// What follows the last slash of `path`; all of it where it has none.
pub open spec fn after_last_slash(path: Seq<char>) -> Seq<char>
    decreases path.len(),
{
    if path.len() == 0 {
        Seq::empty()
    } else if path.last() == '/' {
        Seq::empty()
    } else {
        after_last_slash(path.drop_last()).push(path.last())
    }
}

/// The place of the last dot of `name`; `-1` where it has none.
pub open spec fn last_dot(name: Seq<char>) -> int
    decreases name.len(),
{
    if name.len() == 0 {
        -1
    } else if name.last() == '.' {
        name.len() - 1
    } else {
        last_dot(name.drop_last())
    }
}

/// A file's name without its extension: cut before its last dot, and kept
/// whole where it has no dot or none but a leading one.
pub open spec fn without_extension(name: Seq<char>) -> Seq<char> {
    if last_dot(name) > 0 {
        name.take(last_dot(name))
    } else {
        name
    }
}

/// The stem of the file at `path`: what follows the last slash, without
/// its extension.
pub open spec fn file_stem(path: Seq<char>) -> Seq<char> {
    without_extension(after_last_slash(path))
}

/// The text of an optional string.
pub open spec fn text_of(value: Option<String>) -> Option<Seq<char>> {
    match value {
        Some(t) => Some(t@),
        None => None,
    }
}

/// A text, or `fallback` where there is none.
pub open spec fn text_or(value: Option<Seq<char>>, fallback: Seq<char>) -> Seq<char> {
    match value {
        Some(t) => t,
        None => fallback,
    }
}

/// The value of the tag named `key`: that of the last tag with this name,
/// none where no tag has it.
pub open spec fn tag_value(tags: Seq<(String, String)>, key: Seq<char>) -> Option<Seq<char>>
    decreases tags.len(),
{
    if tags.len() == 0 {
        None
    } else if tags.last().0@ == key {
        Some(tags.last().1@)
    } else {
        tag_value(tags.drop_last(), key)
    }
}

/// The title of an entry: the one it is tagged with, or the stem of its
/// file where it has no title.
pub open spec fn entry_title(entry: QueueEntry) -> Seq<char> {
    text_or(text_of(entry.title), file_stem(entry.file@))
}

/// The duration of an entry as the table shows it: empty where the entry
/// has none.
pub open spec fn entry_time(entry: QueueEntry) -> Seq<char> {
    match entry.duration {
        Some(d) => groups_text(d as int, group_count(d as int), Padding::AboveTen),
        None => Seq::empty(),
    }
}

/// Whether `row` is the row of `entry`.
pub open spec fn row_shows(row: Row, entry: QueueEntry) -> bool {
    &&& row.artist@ == text_or(text_of(entry.artist), "<empty>"@)
    &&& row.track@ == text_or(tag_value(entry.tags@, "Track"@), Seq::empty())
    &&& row.title@ == entry_title(entry)
    &&& row.album@ == text_or(tag_value(entry.tags@, "Album"@), "<empty>"@)
    &&& row.time@ == entry_time(entry)
}

/// The share of `width` that the progress bar fills: `width` times the
/// fraction `elapsed / total`, rounded down. Nothing where the total is
/// zero or the fraction is not positive.
pub open spec fn fill_width(elapsed: int, total: int, width: int) -> int {
    if total > 0 && elapsed > 0 {
        (width * elapsed) / total
    } else if total < 0 && elapsed < 0 {
        (width * (-elapsed)) / (-total)
    } else {
        0
    }
}

/// Nothing is filled where the total is zero, whatever has elapsed; all of
/// the width is filled where the elapsed time equals a total that is not
/// zero.
pub proof fn lemma_fill_ends(elapsed: int, total: int, width: int)
    requires
        width >= 0,
    ensures
        fill_width(elapsed, 0, width) == 0,
        total != 0 ==> fill_width(total, total, width) == width,
{
    if total > 0 {
        assert((width * total) / total == width) by (nonlinear_arith)
            requires
                total > 0,
        ;
    } else if total < 0 {
        assert((width * (-total)) / (-total) == width) by (nonlinear_arith)
            requires
                total < 0,
        ;
    }
}

/// The progress bar of `fill` cells: equals signs with a `>` at the end.
pub open spec fn bar_text(fill: nat) -> Seq<char>
    recommends
        fill > 0,
{
    Seq::new((fill - 1) as nat, |i: int| '=').push('>')
}

/// The rows of the frame, from the top: header, queue table, status line,
/// progress line.
pub open spec fn frame_extents() -> Seq<Extent> {
    seq![Extent::Length(2), Extent::Min(3), Extent::Length(1), Extent::Length(1)]
}

/// The columns of the header: the view's title, the volume.
pub open spec fn header_extents() -> Seq<Extent> {
    seq![Extent::Percentage(85), Extent::Percentage(15)]
}

/// The columns of the status line: state, title, countdown.
pub open spec fn status_extents() -> Seq<Extent> {
    seq![Extent::Length(10), Extent::Percentage(70), Extent::Length(20)]
}

/// The columns of the queue table: artist, track, title, album, time.
pub open spec fn table_extents() -> Seq<Extent> {
    seq![
        Extent::Percentage(20),
        Extent::Percentage(10),
        Extent::Percentage(50),
        Extent::Percentage(15),
        Extent::Percentage(5),
    ]
}

/// The headings of the queue table, column by column.
pub open spec fn heading_texts() -> Seq<Seq<char>> {
    seq!["Artist"@, "Track"@, "Title"@, "Album"@, "Time"@]
}

/// The headings of the queue table, column by column.
pub fn table_heading() -> (heading: Vec<String>)
    ensures
        heading@.len() == 5,
        forall|i: int| 0 <= i < 5 ==> (#[trigger] heading@[i])@ == heading_texts()[i],
{
    vec![
        String::from_str("Artist"),
        String::from_str("Track"),
        String::from_str("Title"),
        String::from_str("Album"),
        String::from_str("Time"),
    ]
}

/// The constraints that divide the frame into its rows.
pub fn frame_layout() -> (rows: Vec<Extent>)
    ensures
        rows@ == frame_extents(),
{
    let rows = vec![Extent::Length(2), Extent::Min(3), Extent::Length(1), Extent::Length(1)];
    assert(rows@ =~= frame_extents());
    rows
}

/// The constraints that divide the header into its columns.
pub fn header_layout() -> (columns: Vec<Extent>)
    ensures
        columns@ == header_extents(),
{
    let columns = vec![Extent::Percentage(85), Extent::Percentage(15)];
    assert(columns@ =~= header_extents());
    columns
}

/// The constraints that divide the status line into its columns.
pub fn status_layout() -> (columns: Vec<Extent>)
    ensures
        columns@ == status_extents(),
{
    let columns = vec![Extent::Length(10), Extent::Percentage(70), Extent::Length(20)];
    assert(columns@ =~= status_extents());
    columns
}

/// The widths of the columns of the queue table.
pub fn table_layout() -> (columns: Vec<Extent>)
    ensures
        columns@ == table_extents(),
{
    let columns = vec![
        Extent::Percentage(20),
        Extent::Percentage(10),
        Extent::Percentage(50),
        Extent::Percentage(15),
        Extent::Percentage(5),
    ];
    assert(columns@ =~= table_extents());
    columns
}

/// A title with the given text and style.
pub fn create_title(title: &str, is_border: bool, align: Alignment, is_bold: bool) -> (t: Title)
    ensures
        is_title(t, title@, is_border, align, is_bold),
{
    Title { text: String::from_str(title), border: is_border, align, bold: is_bold }
}

/// The two titles of the header: the view's name, bold at the left, and
/// the volume in percent at the right, both above a border.
pub fn render_header(title: &str, volume: i8) -> (header: (Title, Title))
    ensures
        is_title(header.0, title@, true, Alignment::Left, true),
        is_title(header.1, volume_text(volume), true, Alignment::Right, false),
{
    let mut text = String::from_str("Volume: ");
    push_decimal(&mut text, volume as i64);
    text.push('%');
    assert(text@ =~= volume_text(volume));
    (
        create_title(title, true, Alignment::Left, true),
        create_title(text.as_str(), true, Alignment::Right, false),
    )
}

/// The stem of the file at `path`: its name without directories and
/// without extension.
pub fn file_name(path: &str) -> (name: String)
    ensures
        name@ == file_stem(path@),
{
    let tail = path_tail(path);
    let n = tail.as_str().unicode_len();
    let mut dot: Option<usize> = None;
    let mut i: usize = 0;
    while i < n
        invariant
            i <= n,
            n == tail@.len(),
            match dot {
                Some(k) => k < i && k == last_dot(tail@.take(i as int)),
                None => last_dot(tail@.take(i as int)) == -1,
            },
        decreases n - i,
    {
        let c = tail.as_str().get_char(i);
        proof {
            let next = tail@.take(i + 1);
            assert(next.drop_last() =~= tail@.take(i as int));
            assert(next.last() == c);
        }
        if c == '.' {
            dot = Some(i);
        }
        i = i + 1;
    }
    assert(tail@.take(n as int) =~= tail@);
    match dot {
        Some(k) => {
            if k > 0 {
                let stem = String::from_str(tail.as_str().substring_char(0, k));
                assert(stem@ =~= tail@.take(k as int));
                stem
            } else {
                tail
            }
        },
        None => tail,
    }
}

/// The part of a path that follows its last slash.
pub fn path_tail(path: &str) -> (name: String)
    ensures
        name@ == after_last_slash(path@),
{
    let n = path.unicode_len();
    let mut name = String::new();
    let mut i: usize = 0;
    while i < n
        invariant
            i <= n,
            n == path@.len(),
            name@ == after_last_slash(path@.take(i as int)),
        decreases n - i,
    {
        let c = path.get_char(i);
        proof {
            let next = path@.take(i + 1);
            assert(next.drop_last() =~= path@.take(i as int));
            assert(next.last() == c);
        }
        if c == '/' {
            name = String::new();
        } else {
            name.push(c);
        }
        i = i + 1;
    }
    assert(path@.take(n as int) =~= path@);
    name
}

/// The value of the tag named `key` among `tags`.
pub fn find_tag(tags: &Vec<(String, String)>, key: &str) -> (value: Option<String>)
    ensures
        text_of(value) == tag_value(tags@, key@),
{
    let wanted = String::from_str(key);
    let mut value: Option<String> = None;
    let mut i: usize = 0;
    while i < tags.len()
        invariant
            i <= tags@.len(),
            wanted@ == key@,
            text_of(value) == tag_value(tags@.take(i as int), key@),
        decreases tags@.len() - i,
    {
        proof {
            let next = tags@.take(i + 1);
            assert(next.drop_last() =~= tags@.take(i as int));
            assert(next.last() == tags@[i as int]);
        }
        if tags[i].0 == wanted {
            value = Some(tags[i].1.clone());
        }
        i = i + 1;
    }
    assert(tags@.take(tags@.len() as int) =~= tags@);
    value
}

fn text_or_else(value: Option<String>, fallback: &str) -> (text: String)
    ensures
        text@ == text_or(text_of(value), fallback@),
{
    match value {
        Some(t) => t,
        None => String::from_str(fallback),
    }
}

/// The row of the queue table that shows `entry`.
pub fn song_row(entry: &QueueEntry) -> (row: Row)
    ensures
        row_shows(row, *entry),
{
    let title = match &entry.title {
        Some(t) => t.clone(),
        None => file_name(entry.file.as_str()),
    };
    let time = match entry.duration {
        Some(d) => fmt_time(d).1,
        None => String::new(),
    };
    proof {
        reveal_strlit("");
        assert(""@ =~= Seq::<char>::empty());
    }
    let artist = match &entry.artist {
        Some(a) => a.clone(),
        None => String::from_str("<empty>"),
    };
    Row {
        artist,
        track: text_or_else(find_tag(&entry.tags, "Track"), ""),
        title,
        album: text_or_else(find_tag(&entry.tags, "Album"), "<empty>"),
        time,
    }
}

/// The rows of the queue table, one for each entry and in the queue's
/// order.
pub fn render_songs(queue: &Vec<QueueEntry>) -> (rows: Vec<Row>)
    ensures
        rows@.len() == queue@.len(),
        forall|i: int| 0 <= i < queue@.len() ==> row_shows(#[trigger] rows@[i], queue@[i]),
{
    let mut rows: Vec<Row> = Vec::new();
    let mut i: usize = 0;
    while i < queue.len()
        invariant
            i <= queue@.len(),
            rows@.len() == i,
            forall|k: int| 0 <= k < i ==> row_shows(#[trigger] rows@[k], queue@[k]),
        decreases queue@.len() - i,
    {
        rows.push(song_row(&queue[i]));
        i = i + 1;
    }
    rows
}

/// How many cells of a line of `width` cells the progress bar fills.
pub fn progress_fill(elapsed: i64, total: i64, width: u16) -> (fill: usize)
    ensures
        fill_width(elapsed as int, total as int, width as int) <= usize::MAX ==> fill == fill_width(
            elapsed as int,
            total as int,
            width as int,
        ),
        fill_width(elapsed as int, total as int, width as int) > usize::MAX ==> fill == usize::MAX,
        total == 0 ==> fill == 0,
        total != 0 && elapsed == total ==> fill == width,
{
    if (total > 0 && elapsed > 0) || (total < 0 && elapsed < 0) {
        let e: u128 = magnitude(elapsed);
        let t: u128 = magnitude(total);
        assert(width as int * e as int <= 65535 * 9223372036854775808) by (nonlinear_arith)
            requires
                0 <= width as int <= 65535,
                0 <= e as int <= 9223372036854775808,
        ;
        let q: u128 = (width as u128 * e) / t;
        proof {
            if elapsed == total {
                assert((width as int * e as int) / (e as int) == width as int) by (nonlinear_arith)
                    requires
                        e as int > 0,
                ;
            }
        }
        if q > usize::MAX as u128 {
            usize::MAX
        } else {
            q as usize
        }
    } else {
        0
    }
}

fn magnitude(v: i64) -> (m: u128)
    ensures
        v >= 0 ==> m == v,
        v < 0 ==> m == -v,
{
    if v < 0 {
        (-(v as i128)) as u128
    } else {
        v as u128
    }
}

/// The progress bar of `fill` cells; none where nothing is filled.
pub fn progress_bar(fill: usize) -> (bar: Option<String>)
    ensures
        fill == 0 ==> bar is None,
        fill > 0 ==> bar is Some && bar->Some_0@ == bar_text(fill as nat),
{
    if fill == 0 {
        return None;
    }
    let mut bar = String::new();
    let mut i: usize = 1;
    while i < fill
        invariant
            1 <= i <= fill,
            bar@ == Seq::new((i - 1) as nat, |k: int| '='),
        decreases fill - i,
    {
        bar.push('=');
        i = i + 1;
        assert(bar@ =~= Seq::new((i - 1) as nat, |k: int| '='));
    }
    bar.push('>');
    Some(bar)
}

} // verus!
