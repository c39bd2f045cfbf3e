//! The player state as the display needs it, made from what the music
//! server answered.

use vstd::prelude::*;
use vstd::string::StringExecFns;

verus! {

/// Why the player cannot go on.
#[derive(Clone, Copy, Debug, PartialEq, Eq, Structural)]
pub enum Failure {
    /// The server could not be reached when the session began.
    Connect,
    /// The server did not answer a question about the current song or the
    /// status.
    Query,
}

/// What came back from one question to the server.
#[derive(Clone, Debug)]
pub enum Reply<T> {
    /// The question failed.
    Failed,
    /// The server's answer.
    Answer(T),
}

/// The transport state that the server reports.
#[derive(Clone, Copy, Debug, PartialEq, Eq, Structural)]
pub enum Transport {
    Play,
    Pause,
    Stop,
}

/// The current track as the server describes it.
#[derive(Clone, Debug)]
pub struct TrackInfo {
    pub title: Option<String>,
}

/// The server's status: volume, times in whole seconds, transport state.
#[derive(Clone, Copy, Debug)]
pub struct StatusInfo {
    pub volume: i8,
    pub elapsed: Option<i64>,
    pub duration: Option<i64>,
    pub state: Transport,
}

/// The song on display.
#[derive(Clone, Debug)]
pub struct Song {
    pub title: String,
    pub elapsed: i64,
    pub total: i64,
    pub state: String,
    pub is_change: bool,
}

/// The player as the display sees it. It remembers the title that the last
/// poll showed.
pub struct Model {
    current_song: String,
}

/// The label of a transport state.
pub open spec fn transport_label(state: Transport) -> Seq<char> {
    match state {
        Transport::Play => "Playing"@,
        Transport::Pause => "Paused"@,
        Transport::Stop => "Stopped"@,
    }
}

/// The title of a track; empty where the track has none.
pub open spec fn track_title(track: TrackInfo) -> Seq<char> {
    match track.title {
        Some(t) => t@,
        None => Seq::empty(),
    }
}

/// A time of the status; zero where the server gave none.
pub open spec fn seconds_or_zero(time: Option<i64>) -> int {
    match time {
        Some(t) => t as int,
        None => 0,
    }
}

/// Whether a poll that shows `title` reports a change, when the poll before
/// it left `last` behind.
pub open spec fn title_changed(last: Seq<char>, title: Seq<char>) -> bool {
    title != last
}

/// The title that a poll leaves behind for the next one.
pub open spec fn title_after(last: Seq<char>, title: Seq<char>) -> Seq<char> {
    title
}

/// Whether `song` is the placeholder for "no track loaded".
pub open spec fn is_sentinel(song: Song) -> bool {
    &&& song.title@.len() == 0
    &&& song.elapsed == 0
    &&& song.total == 0
    &&& song.state@.len() == 0
    &&& song.is_change
}

/// Whether `song` shows `track` under `status`, after a poll that left
/// `last` behind.
pub open spec fn shows(song: Song, track: TrackInfo, status: StatusInfo, last: Seq<char>) -> bool {
    &&& song.title@ == track_title(track)
    &&& song.elapsed == seconds_or_zero(status.elapsed)
    &&& song.total == seconds_or_zero(status.duration)
    &&& song.state@ == transport_label(status.state)
    &&& song.is_change == title_changed(last, track_title(track))
}

/// The address to connect to: host, colon, port, with `localhost` written
/// as `127.0.0.1`.
pub open spec fn address_of(host: Seq<char>, port: Seq<char>) -> Seq<char> {
    (if host == "localhost"@ {
        "127.0.0.1"@
    } else {
        host
    }) + seq![':'] + port
}

/// The address at which the server is reached.
pub fn server_address(host: &str, port: &str) -> (address: String)
    ensures
        address@ == address_of(host@, port@),
{
    let given = String::from_str(host);
    let local = String::from_str("localhost");
    let mut address = if given == local {
        String::from_str("127.0.0.1")
    } else {
        given
    };
    address.push(':');
    address.append(port);
    address
}

/// The label of a transport state, as text.
pub fn label_of(state: Transport) -> (label: String)
    ensures
        label@ == transport_label(state),
{
    match state {
        Transport::Play => String::from_str("Playing"),
        Transport::Pause => String::from_str("Paused"),
        Transport::Stop => String::from_str("Stopped"),
    }
}

impl Model {
    /// The title that the last poll showed.
    pub closed spec fn last_title(&self) -> Seq<char> {
        self.current_song@
    }

    /// Begins a session. `connected` says whether the server was reached;
    /// if it was not, the session cannot begin.
    pub fn create_conn(connected: bool) -> (r: Result<Model, Failure>)
        ensures
            connected ==> r is Ok && r->Ok_0.last_title() == Seq::<char>::empty(),
            !connected ==> r == Err::<Model, Failure>(Failure::Connect),
    {
        if connected {
            Ok(Model { current_song: String::new() })
        } else {
            Err(Failure::Connect)
        }
    }

    /// Whether the status has to be asked for after this answer about the
    /// current song: only where there is a song.
    pub fn wants_status(current: &Reply<Option<TrackInfo>>) -> (wanted: bool)
        ensures
            wanted == (current matches Reply::Answer(Some(_))),
    {
        match current {
            Reply::Answer(Some(_)) => true,
            _ => false,
        }
    }

    /// The song on display, from the server's answers about the current
    /// song and the status.
    ///
    /// A failed question about the song is fatal. Where no track is loaded
    /// the placeholder comes back, whatever `status` holds, and the
    /// remembered title stays. Where a track is loaded a failed status is
    /// fatal; otherwise the song shows the track, reports a change exactly
    /// when its title differs from the remembered one, and its title is
    /// remembered.
    pub fn get_current(
        &mut self,
        current: Reply<Option<TrackInfo>>,
        status: Reply<StatusInfo>,
    ) -> (r: Result<Song, Failure>)
        ensures
            match (current, status) {
                (Reply::Failed, _) => {
                    &&& r == Err::<Song, Failure>(Failure::Query)
                    &&& final(self).last_title() == old(self).last_title()
                },
                (Reply::Answer(None), _) => {
                    &&& r is Ok
                    &&& is_sentinel(r->Ok_0)
                    &&& final(self).last_title() == old(self).last_title()
                },
                (Reply::Answer(Some(_)), Reply::Failed) => {
                    &&& r == Err::<Song, Failure>(Failure::Query)
                    &&& final(self).last_title() == old(self).last_title()
                },
                (Reply::Answer(Some(track)), Reply::Answer(info)) => {
                    &&& r is Ok
                    &&& shows(r->Ok_0, track, info, old(self).last_title())
                    &&& final(self).last_title() == title_after(
                        old(self).last_title(),
                        track_title(track),
                    )
                },
            },
    {
        let track = match current {
            Reply::Failed => {
                return Err(Failure::Query);
            },
            Reply::Answer(None) => {
                return Ok(
                    Song {
                        title: String::new(),
                        elapsed: 0,
                        total: 0,
                        state: String::new(),
                        is_change: true,
                    },
                );
            },
            Reply::Answer(Some(track)) => track,
        };
        let info = match status {
            Reply::Failed => {
                return Err(Failure::Query);
            },
            Reply::Answer(info) => info,
        };
        let title = match track.title {
            Some(t) => t,
            None => String::new(),
        };
        let elapsed: i64 = match info.elapsed {
            Some(t) => t,
            None => 0,
        };
        let total: i64 = match info.duration {
            Some(t) => t,
            None => 0,
        };
        let is_change = !(title == self.current_song);
        self.current_song = title.clone();
        Ok(Song { title, elapsed, total, state: label_of(info.state), is_change })
    }

    /// The volume that the status reports. A failed status is fatal.
    pub fn get_volume(&mut self, status: Reply<StatusInfo>) -> (r: Result<i8, Failure>)
        ensures
            status is Failed ==> r == Err::<i8, Failure>(Failure::Query),
            status matches Reply::Answer(info) ==> r == Ok::<i8, Failure>(info.volume),
            final(self).last_title() == old(self).last_title(),
    {
        match status {
            Reply::Failed => Err(Failure::Query),
            Reply::Answer(info) => Ok(info.volume),
        }
    }

    /// The pending queue. A failed question is no failure of the player:
    /// the queue is then empty.
    pub fn queue<E>(&mut self, listing: Reply<Vec<E>>) -> (entries: Vec<E>)
        ensures
            listing is Failed ==> entries@.len() == 0,
            listing matches Reply::Answer(list) ==> entries == list,
            final(self).last_title() == old(self).last_title(),
    {
        match listing {
            Reply::Failed => Vec::new(),
            Reply::Answer(list) => list,
        }
    }
}

/// Two polls in a row that show one title: the second reports no change,
/// whatever was remembered before the first.
pub proof fn lemma_same_title_is_no_change(last: Seq<char>, title: Seq<char>)
    ensures
        !title_changed(title_after(last, title), title),
{
}

/// A new title counts as a change once: the poll that first shows it
/// reports a change, and the poll after it, showing it again, reports none.
pub proof fn lemma_new_title_changes_once(last: Seq<char>, before: Seq<char>, title: Seq<char>)
    requires
        title != before,
    ensures
        title_changed(title_after(last, before), title),
        !title_changed(title_after(title_after(last, before), title), title),
{
}

} // verus!
