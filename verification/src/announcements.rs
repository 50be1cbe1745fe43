//! Timed announcements: when one is due, and what the announcement files
//! hold.

use vstd::prelude::*;
use crate::text::{copy_bytes, split_once, split_first, parse_usize, decimal_value};
use crate::channel::ChannelMessages;

verus! {

/// A timed announcement: its text, its period in seconds, and the second
/// its period began.
#[derive(Clone, Debug)]
pub struct Announcement {
    pub name: Vec<u8>,
    pub timing: u64,
    pub message: Vec<u8>,
    pub start: u64,
}

/// Whether an announcement is due at the second `now`: more than its
/// period has passed since its period began. A period that began after
/// `now` is not due.
pub open spec fn is_due(announcement: Announcement, now: u64) -> bool {
    now >= announcement.start && now - announcement.start > announcement.timing
}

/// Whether an announcement is due at the second `now`.
pub fn check_announcement(announcement: &Announcement, now: u64) -> (due: bool)
    ensures
        due == is_due(*announcement, now),
{
    now >= announcement.start && now - announcement.start > announcement.timing
}

/// An announcement file: its name and what it holds.
#[derive(Clone, Debug)]
pub struct AnnouncementFile {
    pub name: Vec<u8>,
    pub contents: Vec<u8>,
}

/// Why the announcement files could not be read.
#[derive(Clone, Copy, Debug, PartialEq, Eq, Structural)]
pub enum AnnouncementError {
    /// A file's first line is no number of minutes that fits, in seconds,
    /// 64 bits.
    BadTiming,
}

/// The period in seconds that a first line of minutes writes; `None` where
/// the line is no number or the seconds do not fit 64 bits.
pub open spec fn period_of(line: Seq<u8>) -> Option<u64> {
    match decimal_value(line) {
        Some(minutes) => if minutes * 60 <= u64::MAX && minutes <= usize::MAX {
            Some((minutes * 60) as u64)
        } else {
            None
        },
        None => None,
    }
}

/// Reads one announcement file. A file without line feed holds no
/// announcement; otherwise its first line is the period in minutes and the
/// rest is the text.
pub fn read_announcement(file: &AnnouncementFile, now: u64) -> (out: Result<
    Option<Announcement>,
    AnnouncementError,
>)
    ensures
        match split_first(file.contents@, 10) {
            None => out == Ok::<Option<Announcement>, AnnouncementError>(None),
            Some((line, rest)) => match period_of(line) {
                None => out == Err::<Option<Announcement>, AnnouncementError>(
                    AnnouncementError::BadTiming,
                ),
                Some(seconds) => out matches Ok(Some(a)) && a.name@ == file.name@ && a.timing
                    == seconds && a.message@ == rest && a.start == now,
            },
        },
{
    match split_once(file.contents.as_slice(), 10) {
        None => Ok(None),
        Some((line, rest)) => {
            match parse_usize(line.as_slice()) {
                None => Err(AnnouncementError::BadTiming),
                Some(minutes) => {
                    if minutes as u64 > u64::MAX / 60 {
                        Err(AnnouncementError::BadTiming)
                    } else {
                        Ok(
                            Some(
                                Announcement {
                                    name: copy_bytes(file.name.as_slice()),
                                    timing: minutes as u64 * 60,
                                    message: rest,
                                    start: now,
                                },
                            ),
                        )
                    }
                },
            }
        },
    }
}

/// Whether `out` holds the announcements of the first `n` files, in order.
pub open spec fn holds_announcements(files: Seq<AnnouncementFile>, n: int, now: u64, out: Seq<Announcement>) -> bool
    decreases n,
{
    if n <= 0 {
        out.len() == 0
    } else {
        match split_first(files[n - 1].contents@, 10) {
            None => holds_announcements(files, n - 1, now, out),
            Some((line, rest)) => match period_of(line) {
                None => false,
                Some(seconds) => {
                    &&& out.len() > 0
                    &&& out.last().name@ == files[n - 1].name@
                    &&& out.last().timing == seconds
                    &&& out.last().message@ == rest
                    &&& out.last().start == now
                    &&& holds_announcements(files, n - 1, now, out.drop_last())
                },
            },
        }
    }
}

/// Whether one of the first `n` files has a first line that is no period.
pub open spec fn has_bad_timing(files: Seq<AnnouncementFile>, n: int) -> bool
    decreases n,
{
    if n <= 0 {
        false
    } else {
        has_bad_timing(files, n - 1) || match split_first(files[n - 1].contents@, 10) {
            None => false,
            Some((line, _)) => period_of(line) is None,
        }
    }
}

/// Reads the announcement files, each period beginning at `now`. One file
/// with a bad period fails the whole reading.
pub fn get_announcements(files: &Vec<AnnouncementFile>, now: u64) -> (out: Result<
    Vec<Announcement>,
    AnnouncementError,
>)
    ensures
        match out {
            Ok(announcements) => !has_bad_timing(files@, files@.len() as int) && holds_announcements(
                files@,
                files@.len() as int,
                now,
                announcements@,
            ),
            Err(error) => error == AnnouncementError::BadTiming && has_bad_timing(
                files@,
                files@.len() as int,
            ),
        },
{
    let mut announcements: Vec<Announcement> = Vec::new();
    let mut i: usize = 0;
    while i < files.len()
        invariant
            i <= files.len(),
            !has_bad_timing(files@, i as int),
            holds_announcements(files@, i as int, now, announcements@),
        decreases files.len() - i,
    {
        match read_announcement(&files[i], now) {
            Err(error) => {
                proof {
                    has_bad_timing_grows(files@, i as int + 1, files@.len() as int);
                }
                return Err(error);
            },
            Ok(None) => {},
            Ok(Some(announcement)) => {
                let ghost before = announcements@;
                announcements.push(announcement);
                assert(announcements@.drop_last() =~= before);
            },
        }
        i += 1;
    }
    Ok(announcements)
}

/// A bad period among the first `n` files is one among the first `m`, for
/// every `m` from `n` on.
pub proof fn has_bad_timing_grows(files: Seq<AnnouncementFile>, n: int, m: int)
    requires
        n <= m,
        has_bad_timing(files, n),
    ensures
        has_bad_timing(files, m),
    decreases m - n,
{
    if n < m {
        has_bad_timing_grows(files, n, m - 1);
    }
}

/// The message that announces `announcement`.
pub fn announce(announcement: &Announcement) -> (out: ChannelMessages)
    ensures
        out matches ChannelMessages::Announcement { message } && message@ == announcement.message@,
{
    ChannelMessages::Announcement { message: copy_bytes(announcement.message.as_slice()) }
}


/// The messages of the announcements among the first `n` that are due at
/// `now`, in order.
pub open spec fn due_messages(announcements: Seq<Announcement>, now: u64, n: int) -> Seq<Seq<u8>>
    decreases n,
{
    if n <= 0 {
        Seq::empty()
    } else if is_due(announcements[n - 1], now) {
        due_messages(announcements, now, n - 1).push(announcements[n - 1].message@)
    } else {
        due_messages(announcements, now, n - 1)
    }
}

/// The text of an announcement message; empty for any other message.
pub open spec fn announced_text(message: ChannelMessages) -> Seq<u8> {
    match message {
        ChannelMessages::Announcement { message } => message@,
        _ => Seq::empty(),
    }
}

/// Announces what is due at the second `now`: every due announcement gives
/// one message, in order, and its period begins anew at `now`; every other
/// announcement stays as it is.
pub fn announce_due(announcements: &mut Vec<Announcement>, now: u64) -> (out: Vec<ChannelMessages>)
    ensures
        final(announcements)@.len() == old(announcements)@.len(),
        forall|i: int|
            0 <= i < old(announcements)@.len() ==> {
                let before = old(announcements)@[i];
                let after = #[trigger] final(announcements)@[i];
                &&& after.name == before.name
                &&& after.timing == before.timing
                &&& after.message == before.message
                &&& after.start == (if is_due(before, now) {
                    now
                } else {
                    before.start
                })
            },
        out@.len() == due_messages(old(announcements)@, now, old(announcements)@.len() as int).len(),
        forall|k: int|
            0 <= k < out@.len() ==> (#[trigger] out@[k]) is Announcement && announced_text(out@[k])
                == due_messages(old(announcements)@, now, old(announcements)@.len() as int)[k],
{
    let mut out: Vec<ChannelMessages> = Vec::new();
    let mut i: usize = 0;
    while i < announcements.len()
        invariant
            i <= announcements@.len(),
            announcements@.len() == old(announcements)@.len(),
            forall|j: int|
                0 <= j < i ==> {
                    let before = old(announcements)@[j];
                    let after = #[trigger] announcements@[j];
                    &&& after.name == before.name
                    &&& after.timing == before.timing
                    &&& after.message == before.message
                    &&& after.start == (if is_due(before, now) {
                        now
                    } else {
                        before.start
                    })
                },
            forall|j: int|
                i <= j < announcements@.len() ==> #[trigger] announcements@[j] == old(announcements)@[j],
            out@.len() == due_messages(old(announcements)@, now, i as int).len(),
            forall|k: int|
                0 <= k < out@.len() ==> (#[trigger] out@[k]) is Announcement && announced_text(
                    out@[k],
                ) == due_messages(old(announcements)@, now, i as int)[k],
        decreases announcements@.len() - i,
    {
        if check_announcement(&announcements[i], now) {
            let message = announce(&announcements[i]);
            announcements[i].start = now;
            out.push(message);
        }
        i += 1;
    }
    out
}

/// The announcements to go on with once the files were read anew: the
/// fresh ones where their number differs from that of the current ones,
/// else the current ones, which keep the beginnings of their periods.
pub fn reload(current: Vec<Announcement>, fresh: Vec<Announcement>) -> (out: Vec<Announcement>)
    ensures
        out == (if current@.len() != fresh@.len() {
            fresh
        } else {
            current
        }),
{
    if current.len() != fresh.len() {
        fresh
    } else {
        current
    }
}

} // verus!
