//! The chat-line tag parser: badges, emotes, flags, colour, and the names and
//! images of emotes.

use vstd::prelude::*;
use vstd::string::*;
use crate::assets::{badge_file, badge_file_name};
use crate::image_protocols::{reencode_png, reencoded, base64_standard, encodable, inline_emote, inline_badge, get_iterm_image_encoding, get_emote_image, get_iterm_encoded_image};
use crate::text::{views, text, push_all, is_text, first_from, first_from_bounds, find_byte, slice_of, pieces, split, decimal_value, parse_usize, trimmed, trim, occurs_at, matches_at, occurs, contains, copy_bytes, bytes_equal};

verus! {

/// One tag of a chat line: a key and, where the line gave one, a value.
#[derive(Clone, Debug)]
pub struct Tag {
    pub key: Vec<u8>,
    pub value: Option<Vec<u8>>,
}

/// The command of a chat line, as far as the parser reads it.
#[derive(Clone, Debug)]
pub enum Command {
    /// A chat post to `target` with the text `text`.
    Privmsg { target: Vec<u8>, text: Vec<u8> },
    /// A command that the line protocol does not name; `line` is the whole
    /// line as it was received.
    Raw { line: Vec<u8> },
    /// Any other command.
    Other,
}

/// One line of the chat protocol.
#[derive(Clone, Debug)]
pub struct Message {
    pub tags: Option<Vec<Tag>>,
    pub nickname: Option<Vec<u8>>,
    pub command: Command,
}

/// An emote in a chat message. `start` and `end` are byte offsets into the
/// message text as it was received, `end` inclusive.
#[derive(Clone, Debug)]
pub struct Emote {
    pub start: usize,
    pub end: usize,
    pub url: Vec<u8>,
    pub name: Vec<u8>,
}

/// What an `Emote` holds.
pub struct EmoteView {
    pub start: usize,
    pub end: usize,
    pub url: Seq<u8>,
    pub name: Seq<u8>,
}

impl View for Emote {
    type V = EmoteView;

    open spec fn view(&self) -> EmoteView {
        EmoteView { start: self.start, end: self.end, url: self.url@, name: self.name@ }
    }
}

/// What a vector of emotes holds.
pub open spec fn emote_views(emotes: Seq<Emote>) -> Seq<EmoteView> {
    emotes.map_values(|e: Emote| e@)
}

/// The value of a flag tag: anything but the text `0` is true.
pub open spec fn flag_value(value: Seq<u8>) -> bool {
    value != "0".spec_bytes()
}

/// Reads a flag tag's value.
pub fn get_bool(value: &[u8]) -> (flag: bool)
    ensures
        flag == flag_value(value@),
{
    !is_text(value, "0")
}

/// The key of a badge entry: what stands before its first `/`.
pub open spec fn badge_key(entry: Seq<u8>) -> Seq<u8> {
    entry.subrange(0, first_from(entry, 47, 0))
}

/// Whether a badge entry is kept: it has a version, between its first `/`
/// and the next one or the end, and that version is the text `1`.
pub open spec fn badge_kept(entry: Seq<u8>) -> bool {
    let slash = first_from(entry, 47, 0);
    slash < entry.len() && entry.subrange(slash + 1, first_from(entry, 47, slash + 1))
        == "1".spec_bytes()
}

/// The kept badge keys among the first `n` entries, in order.
pub open spec fn badges_among(entries: Seq<Seq<u8>>, n: int) -> Seq<Seq<u8>>
    decreases n,
{
    if n <= 0 {
        Seq::empty()
    } else if badge_kept(entries[n - 1]) {
        badges_among(entries, n - 1).push(badge_key(entries[n - 1]))
    } else {
        badges_among(entries, n - 1)
    }
}

/// The badges that a `badges` tag value names: its entries are separated by
/// `,`, and each kept entry gives its key.
pub open spec fn badges_in(value: Seq<u8>) -> Seq<Seq<u8>> {
    let entries = pieces(value, 44);
    badges_among(entries, entries.len() as int)
}

/// Appends the badges of one `badges` tag value to `valid_badges`.
pub fn set_badges(value: &[u8], valid_badges: &mut Vec<Vec<u8>>)
    ensures
        views(final(valid_badges)@) == views(old(valid_badges)@) + badges_in(value@),
{
    let entries = split(value, 44);
    let ghost specs = pieces(value@, 44);
    let mut i: usize = 0;
    while i < entries.len()
        invariant
            i <= entries.len(),
            views(entries@) == specs,
            views(valid_badges@) =~= views(old(valid_badges)@) + badges_among(specs, i as int),
        decreases entries.len() - i,
    {
        let entry = &entries[i];
        assert(entry@ == specs[i as int]);
        proof {
            first_from_bounds(entry@, 47, 0);
        }
        let slash = find_byte(entry.as_slice(), 47, 0);
        if slash < entry.len() {
            proof {
                first_from_bounds(entry@, 47, slash + 1);
            }
            let stop = find_byte(entry.as_slice(), 47, slash + 1);
            let version = slice_of(entry.as_slice(), slash + 1, stop);
            if is_text(version.as_slice(), "1") {
                let key = slice_of(entry.as_slice(), 0, slash);
                let ghost before = views(valid_badges@);
                valid_badges.push(key);
                assert(views(valid_badges@) =~= before.push(key@));
            }
        }
        i += 1;
    }
}

/// The address of an emote's image.
pub open spec fn emote_url(id: Seq<u8>) -> Seq<u8> {
    "https://static-cdn.jtvnw.net/emoticons/v2/".spec_bytes() + id
        + "/default/dark/1.0".spec_bytes()
}

/// The first range of an emote entry: what stands between the entry's first
/// `:` and the next `:` or the end, up to the first `,`.
pub open spec fn first_range(entry: Seq<u8>) -> Seq<u8> {
    let colon = first_from(entry, 58, 0);
    let positions = entry.subrange(colon + 1, first_from(entry, 58, colon + 1));
    positions.subrange(0, first_from(positions, 44, 0))
}

/// A number that text writes, where it fits the machine word.
pub open spec fn word_value(s: Seq<u8>) -> Option<usize> {
    match decimal_value(s) {
        Some(v) => if v <= usize::MAX {
            Some(v as usize)
        } else {
            None
        },
        None => None,
    }
}

/// The emote that one entry `id:start-end[,start-end..]` describes, with its
/// name still empty. Only the first range counts. An entry without `:`,
/// without `-` in its first range, or with a bound that is no number that
/// fits the machine word describes none.
pub open spec fn entry_emote(entry: Seq<u8>) -> Option<EmoteView> {
    let colon = first_from(entry, 58, 0);
    let range = first_range(entry);
    let dash = first_from(range, 45, 0);
    if colon >= entry.len() || dash >= range.len() {
        None
    } else {
        match (
            word_value(range.subrange(0, dash)),
            word_value(range.subrange(dash + 1, range.len() as int)),
        ) {
            (Some(start), Some(end)) => Some(
                EmoteView {
                    start,
                    end,
                    url: emote_url(entry.subrange(0, colon)),
                    name: Seq::empty(),
                },
            ),
            _ => None,
        }
    }
}

/// The emotes that the first `n` entries describe, in order.
pub open spec fn emotes_among(entries: Seq<Seq<u8>>, n: int) -> Seq<EmoteView>
    decreases n,
{
    if n <= 0 {
        Seq::empty()
    } else {
        match entry_emote(entries[n - 1]) {
            Some(emote) => emotes_among(entries, n - 1).push(emote),
            None => emotes_among(entries, n - 1),
        }
    }
}

/// The emotes that an `emotes` tag value describes: its entries are
/// separated by `/`.
pub open spec fn emotes_in(value: Seq<u8>) -> Seq<EmoteView> {
    let entries = pieces(value, 47);
    emotes_among(entries, entries.len() as int)
}

/// Reads one emote entry.
pub fn parse_emote_entry(entry: &[u8]) -> (out: Option<Emote>)
    ensures
        match out {
            Some(emote) => entry_emote(entry@) == Some(emote@),
            None => entry_emote(entry@) is None,
        },
{
    proof {
        first_from_bounds(entry@, 58, 0);
    }
    let colon = find_byte(entry, 58, 0);
    if colon >= entry.len() {
        return None;
    }
    proof {
        first_from_bounds(entry@, 58, colon + 1);
    }
    let stop = find_byte(entry, 58, colon + 1);
    let positions = slice_of(entry, colon + 1, stop);
    proof {
        first_from_bounds(positions@, 44, 0);
    }
    let comma = find_byte(positions.as_slice(), 44, 0);
    let range = slice_of(positions.as_slice(), 0, comma);
    assert(range@ == first_range(entry@));
    proof {
        first_from_bounds(range@, 45, 0);
    }
    let dash = find_byte(range.as_slice(), 45, 0);
    if dash >= range.len() {
        return None;
    }
    let low = slice_of(range.as_slice(), 0, dash);
    let high = slice_of(range.as_slice(), dash + 1, range.len());
    match (parse_usize(low.as_slice()), parse_usize(high.as_slice())) {
        (Some(start), Some(end)) => {
            let mut url = text("https://static-cdn.jtvnw.net/emoticons/v2/");
            push_all(&mut url, slice_of(entry, 0, colon).as_slice());
            push_all(&mut url, "/default/dark/1.0".as_bytes());
            Some(Emote { start, end, url, name: Vec::new() })
        },
        _ => None,
    }
}

/// Appends the emotes of one `emotes` tag value to `emotes`.
pub fn process_emotes(value: &[u8], emotes: &mut Vec<Emote>)
    ensures
        emote_views(final(emotes)@) == emote_views(old(emotes)@) + emotes_in(value@),
{
    let entries = split(value, 47);
    let ghost specs = pieces(value@, 47);
    let mut i: usize = 0;
    while i < entries.len()
        invariant
            i <= entries.len(),
            views(entries@) == specs,
            emote_views(emotes@) =~= emote_views(old(emotes)@) + emotes_among(specs, i as int),
        decreases entries.len() - i,
    {
        let entry = &entries[i];
        assert(entry@ == specs[i as int]);
        match parse_emote_entry(entry.as_slice()) {
            Some(emote) => {
                let ghost before = emote_views(emotes@);
                emotes.push(emote);
                assert(emote_views(emotes@) =~= before.push(emote@));
            },
            None => {},
        }
        i += 1;
    }
}


/// Whether index `i` of `s` starts a character of UTF-8 text, or is its end.
pub open spec fn is_boundary(s: Seq<u8>, i: int) -> bool {
    i == 0 || i == s.len() || (0 < i < s.len() && !(128 <= s[i] < 192))
}

/// The name of an emote: the bytes of the message from `start` to `end`,
/// both inclusive, where that is a slice of the text; else the empty text.
pub open spec fn emote_name(message: Seq<u8>, start: usize, end: usize) -> Seq<u8> {
    if start <= end && end < message.len() && is_boundary(message, start as int) && is_boundary(
        message,
        end + 1,
    ) {
        message.subrange(start as int, end + 1)
    } else {
        Seq::empty()
    }
}

/// An emote with its name taken from `message`.
pub open spec fn named(emote: EmoteView, message: Seq<u8>) -> EmoteView {
    EmoteView {
        start: emote.start,
        end: emote.end,
        url: emote.url,
        name: emote_name(message, emote.start, emote.end),
    }
}

/// Whether index `i` of `s` starts a character, or is the end of `s`.
pub fn at_boundary(s: &[u8], i: usize) -> (yes: bool)
    ensures
        yes == is_boundary(s@, i as int),
{
    i == 0 || i == s.len() || (i < s.len() && !(128 <= s[i] && s[i] < 192))
}

/// Takes an emote's name out of the message text.
pub fn resolve_name(message: &[u8], start: usize, end: usize) -> (name: Vec<u8>)
    ensures
        name@ == emote_name(message@, start, end),
{
    if start <= end && end < message.len() && at_boundary(message, start) && at_boundary(
        message,
        end + 1,
    ) {
        slice_of(message, start, end + 1)
    } else {
        Vec::new()
    }
}

/// Gives every emote its name, taken from `message` by the emote's own
/// offsets. Offsets and addresses stay as they are.
pub fn resolve_names(message: &[u8], emotes: &Vec<Emote>) -> (out: Vec<Emote>)
    ensures
        out@.len() == emotes@.len(),
        forall|i: int| 0 <= i < emotes@.len() ==> (#[trigger] out@[i])@ == named(emotes@[i]@, message@),
{
    let mut out: Vec<Emote> = Vec::new();
    let mut i: usize = 0;
    while i < emotes.len()
        invariant
            i <= emotes.len(),
            out@.len() == i,
            forall|j: int| 0 <= j < i ==> (#[trigger] out@[j])@ == named(emotes@[j]@, message@),
        decreases emotes.len() - i,
    {
        let emote = &emotes[i];
        let name = resolve_name(message, emote.start, emote.end);
        out.push(Emote { start: emote.start, end: emote.end, url: copy_bytes(emote.url.as_slice()), name });
        i += 1;
    }
    out
}

/// `hay` from `from` on, with every occurrence of `needle` replaced by
/// `with`, scanning from the left and never inside a replacement. An empty
/// `needle` replaces nothing.
pub open spec fn replaced_from(hay: Seq<u8>, needle: Seq<u8>, with: Seq<u8>, from: int) -> Seq<u8>
    decreases hay.len() - from,
{
    if from < 0 || from >= hay.len() {
        Seq::empty()
    } else if needle.len() == 0 {
        hay.subrange(from, hay.len() as int)
    } else if occurs_at(hay, needle, from) {
        with + replaced_from(hay, needle, with, from + needle.len())
    } else {
        seq![hay[from]] + replaced_from(hay, needle, with, from + 1)
    }
}

/// `hay` with every occurrence of `needle` replaced by `with`.
pub open spec fn replaced(hay: Seq<u8>, needle: Seq<u8>, with: Seq<u8>) -> Seq<u8> {
    replaced_from(hay, needle, with, 0)
}

/// Replaces every occurrence of `needle` in `hay` by `with`.
pub fn replace(hay: &[u8], needle: &[u8], with: &[u8]) -> (out: Vec<u8>)
    ensures
        out@ == replaced(hay@, needle@, with@),
{
    if needle.len() == 0 {
        assert(hay@.subrange(0, hay@.len() as int) =~= hay@);
        assert(replaced(hay@, needle@, with@) =~= hay@);
        return copy_bytes(hay);
    }
    let mut out: Vec<u8> = Vec::new();
    let mut i: usize = 0;
    while i < hay.len()
        invariant
            i <= hay.len(),
            needle@.len() > 0,
            out@ + replaced_from(hay@, needle@, with@, i as int) =~= replaced(hay@, needle@, with@),
        decreases hay.len() - i,
    {
        if matches_at(hay, needle, i) {
            push_all(&mut out, with);
            i += needle.len();
        } else {
            out.push(hay[i]);
            i += 1;
        }
    }
    out
}

/// The image of an emote, by the address it was fetched from.
#[derive(Clone, Debug)]
pub struct EmoteImage {
    pub url: Vec<u8>,
    pub image: Vec<u8>,
}

/// The stored base64 text of a badge's image, by the name of the file
/// that keeps it.
#[derive(Clone, Debug)]
pub struct BadgeImage {
    pub name: Vec<u8>,
    pub base64: Vec<u8>,
}

/// The image of the first entry at or after `from` with the address `url`.
pub open spec fn image_from(images: Seq<EmoteImage>, url: Seq<u8>, from: int) -> Option<Seq<u8>>
    decreases images.len() - from,
{
    if from < 0 || from >= images.len() {
        None
    } else if images[from].url@ == url {
        Some(images[from].image@)
    } else {
        image_from(images, url, from + 1)
    }
}

/// The base64 text of the first entry at or after `from` with the name `name`.
pub open spec fn badge_from(images: Seq<BadgeImage>, name: Seq<u8>, from: int) -> Option<Seq<u8>>
    decreases images.len() - from,
{
    if from < 0 || from >= images.len() {
        None
    } else if images[from].name@ == name {
        Some(images[from].base64@)
    } else {
        badge_from(images, name, from + 1)
    }
}

/// Finds the image that was fetched from `url`.
pub fn find_image<'a>(images: &'a Vec<EmoteImage>, url: &[u8]) -> (out: Option<&'a EmoteImage>)
    ensures
        match out {
            Some(found) => image_from(images@, url@, 0) == Some(found.image@),
            None => image_from(images@, url@, 0) is None,
        },
{
    let mut i: usize = 0;
    while i < images.len()
        invariant
            i <= images.len(),
            image_from(images@, url@, 0) == image_from(images@, url@, i as int),
        decreases images.len() - i,
    {
        if bytes_equal(images[i].url.as_slice(), url) {
            return Some(&images[i]);
        }
        i += 1;
    }
    None
}

/// Finds the stored image of the badge `name`.
pub fn find_badge<'a>(images: &'a Vec<BadgeImage>, name: &[u8]) -> (out: Option<&'a BadgeImage>)
    ensures
        match out {
            Some(found) => badge_from(images@, name@, 0) == Some(found.base64@),
            None => badge_from(images@, name@, 0) is None,
        },
{
    let mut i: usize = 0;
    while i < images.len()
        invariant
            i <= images.len(),
            badge_from(images@, name@, 0) == badge_from(images@, name@, i as int),
        decreases images.len() - i,
    {
        if bytes_equal(images[i].name.as_slice(), name) {
            return Some(&images[i]);
        }
        i += 1;
    }
    None
}

/// The message text after the first `n` emotes were put in: for each emote
/// in turn, every occurrence of its name is replaced by its inline image. An
/// emote without image, or with an image too large to encode, changes
/// nothing.
pub open spec fn with_emotes(
    message: Seq<u8>,
    emotes: Seq<EmoteView>,
    images: Seq<EmoteImage>,
    tmux: bool,
    n: int,
) -> Seq<u8>
    decreases n,
{
    if n <= 0 {
        message
    } else {
        let before = with_emotes(message, emotes, images, tmux, n - 1);
        match image_from(images, emotes[n - 1].url, 0) {
            Some(image) => if encodable(image) {
                replaced(before, emotes[n - 1].name, inline_emote(base64_standard(image), tmux))
            } else {
                before
            },
            None => before,
        }
    }
}

/// Names every emote from the message as it was received, and only then
/// replaces the names in the text by inline images.
pub fn add_emotes(message: &mut Vec<u8>, emotes: &mut Vec<Emote>, images: &Vec<EmoteImage>, tmux: bool)
    ensures
        final(emotes)@.len() == old(emotes)@.len(),
        forall|i: int|
            0 <= i < old(emotes)@.len() ==> (#[trigger] final(emotes)@[i])@ == named(
                old(emotes)@[i]@,
                old(message)@,
            ),
        final(message)@ == with_emotes(
            old(message)@,
            emote_views(final(emotes)@),
            images@,
            tmux,
            old(emotes)@.len() as int,
        ),
{
    let resolved = resolve_names(message.as_slice(), emotes);
    *emotes = resolved;
    let ghost received = message@;
    let ghost specs = emote_views(emotes@);
    let mut i: usize = 0;
    while i < emotes.len()
        invariant
            i <= emotes.len(),
            specs == emote_views(emotes@),
            message@ == with_emotes(received, specs, images@, tmux, i as int),
        decreases emotes.len() - i,
    {
        let emote = &emotes[i];
        assert(specs[i as int] == emote@);
        match find_image(images, emote.url.as_slice()) {
            Some(found) => {
                match get_iterm_image_encoding(found.image.as_slice()) {
                    Some(base64) => {
                        let inline = get_emote_image(base64.as_slice(), tmux);
                        let next = replace(message.as_slice(), emote.name.as_slice(), inline.as_slice());
                        *message = next;
                    },
                    None => {},
                }
            },
            None => {},
        }
        i += 1;
    }
}

/// The inline images of the first `n` badges, one after another. A kept
/// badge is of version `1`, and its image is the one stored under the file
/// name of that version. A badge without stored image adds nothing.
pub open spec fn badge_images(badges: Seq<Seq<u8>>, images: Seq<BadgeImage>, n: int) -> Seq<u8>
    decreases n,
{
    if n <= 0 {
        Seq::empty()
    } else {
        match badge_from(images, badge_file(badges[n - 1], "1".spec_bytes()), 0) {
            Some(base64) => badge_images(badges, images, n - 1) + inline_badge(base64),
            None => badge_images(badges, images, n - 1),
        }
    }
}

/// The inline images of the given badges, one after another.
pub fn add_badges(badges: &Vec<Vec<u8>>, images: &Vec<BadgeImage>) -> (out: Vec<u8>)
    ensures
        out@ == badge_images(views(badges@), images@, badges@.len() as int),
{
    let mut out: Vec<u8> = Vec::new();
    let mut i: usize = 0;
    while i < badges.len()
        invariant
            i <= badges.len(),
            out@ == badge_images(views(badges@), images@, i as int),
        decreases badges.len() - i,
    {
        assert(views(badges@)[i as int] == badges@[i as int]@);
        let file_name = badge_file_name(badges[i].as_slice(), "1".as_bytes());
        match find_badge(images, file_name.as_slice()) {
            Some(found) => {
                let inline = get_iterm_encoded_image(found.base64.as_slice());
                push_all(&mut out, inline.as_slice());
            },
            None => {},
        }
        i += 1;
    }
    out
}


/// A chat post, parsed.
#[derive(Clone, Debug)]
pub struct ChatMessage {
    pub badges: Vec<Vec<u8>>,
    pub emotes: Vec<Emote>,
    pub nickname: Vec<u8>,
    pub display_name: Vec<u8>,
    pub first_msg: bool,
    pub returning_chatter: bool,
    pub subscriber: bool,
    pub moderator: bool,
    pub message: Vec<u8>,
    pub color: Vec<u8>,
    pub channel: Vec<u8>,
    pub raid: bool,
    pub raid_notice: Vec<u8>,
}

/// What the parser makes of a chat line.
#[derive(Clone, Debug)]
pub enum TwitchMessage {
    RaidMessage { user_id: Vec<u8>, raid_notice: Vec<u8> },
    PrivMessage { message: ChatMessage },
}

/// Why a chat line gave no message.
#[derive(Clone, Copy, Debug, PartialEq, Eq, Structural)]
pub enum ParseError {
    /// The line was handed to the chat-post parser and is no chat post.
    NotChatPost,
    /// The line is an unnamed command that announces no raid.
    NotRaid,
    /// The line's command is neither a chat post nor an unnamed command.
    UnhandledCommand,
}

impl ParseError {
    /// The error in words.
    pub fn message(&self) -> (out: &'static str)
        ensures
            out@ == match *self {
                ParseError::NotChatPost => "This shoulnt happen"@,
                ParseError::NotRaid => "oops"@,
                ParseError::UnhandledCommand => "Unhandled Command"@,
            },
    {
        match self {
            ParseError::NotChatPost => "This shoulnt happen",
            ParseError::NotRaid => "oops",
            ParseError::UnhandledCommand => "Unhandled Command",
        }
    }
}

/// The tags of a line; none where the line has no tag section.
pub open spec fn tags_of(line: Message) -> Seq<Tag> {
    match line.tags {
        Some(tags) => tags@,
        None => Seq::empty(),
    }
}

/// Whether a tag has the key `key` and a value.
pub open spec fn has_value(tag: Tag, key: Seq<u8>) -> bool {
    tag.key@ == key && tag.value is Some
}

/// The flag `key` after the first `n` tags: the last tag with that key and
/// a value decides; false where there is none.
pub open spec fn flag_among(tags: Seq<Tag>, key: Seq<u8>, n: int) -> bool
    decreases n,
{
    if n <= 0 {
        false
    } else if has_value(tags[n - 1], key) {
        flag_value(tags[n - 1].value.unwrap()@)
    } else {
        flag_among(tags, key, n - 1)
    }
}

/// The colour that stands for a chatter who chose none.
pub open spec fn default_color() -> Seq<u8> {
    "#FF9912".spec_bytes()
}

/// The colour after the first `n` tags: the value of the last `color` tag
/// that has a value which is not empty, or the default colour.
pub open spec fn color_among(tags: Seq<Tag>, n: int) -> Seq<u8>
    decreases n,
{
    if n <= 0 {
        default_color()
    } else if has_value(tags[n - 1], "color".spec_bytes()) && tags[n - 1].value.unwrap()@.len() > 0 {
        tags[n - 1].value.unwrap()@
    } else {
        color_among(tags, n - 1)
    }
}

/// The value of the last tag among the first `n` with the key `key` and a
/// value; empty where there is none.
pub open spec fn last_value(tags: Seq<Tag>, key: Seq<u8>, n: int) -> Seq<u8>
    decreases n,
{
    if n <= 0 {
        Seq::empty()
    } else if has_value(tags[n - 1], key) {
        tags[n - 1].value.unwrap()@
    } else {
        last_value(tags, key, n - 1)
    }
}

/// The display name after the first `n` tags: the trimmed value of the last
/// `display-name` tag with a value.
pub open spec fn display_among(tags: Seq<Tag>, n: int) -> Seq<u8>
    decreases n,
{
    if n <= 0 {
        Seq::empty()
    } else if has_value(tags[n - 1], "display-name".spec_bytes()) {
        trimmed(tags[n - 1].value.unwrap()@)
    } else {
        display_among(tags, n - 1)
    }
}

/// The badges of the first `n` tags: those of every `badges` tag with a
/// value, in order.
pub open spec fn badges_of_tags(tags: Seq<Tag>, n: int) -> Seq<Seq<u8>>
    decreases n,
{
    if n <= 0 {
        Seq::empty()
    } else if has_value(tags[n - 1], "badges".spec_bytes()) {
        badges_of_tags(tags, n - 1) + badges_in(tags[n - 1].value.unwrap()@)
    } else {
        badges_of_tags(tags, n - 1)
    }
}

/// The emotes of the first `n` tags, names still empty: those of every
/// `emotes` tag with a value, in order.
pub open spec fn emotes_of_tags(tags: Seq<Tag>, n: int) -> Seq<EmoteView>
    decreases n,
{
    if n <= 0 {
        Seq::empty()
    } else if has_value(tags[n - 1], "emotes".spec_bytes()) {
        emotes_of_tags(tags, n - 1) + emotes_in(tags[n - 1].value.unwrap()@)
    } else {
        emotes_of_tags(tags, n - 1)
    }
}

/// The emotes that a line's tags ask for, names still empty. A caller
/// fetches their images before it parses the line.
pub fn requested_emotes(line: &Message) -> (out: Vec<Emote>)
    ensures
        emote_views(out@) == emotes_of_tags(tags_of(*line), tags_of(*line).len() as int),
{
    let mut emotes: Vec<Emote> = Vec::new();
    match &line.tags {
        Some(tags) => {
            let mut i: usize = 0;
            while i < tags.len()
                invariant
                    i <= tags.len(),
                    tags@ == tags_of(*line),
                    emote_views(emotes@) =~= emotes_of_tags(tags@, i as int),
                decreases tags.len() - i,
            {
                let tag = &tags[i];
                if is_text(tag.key.as_slice(), "emotes") {
                    match &tag.value {
                        Some(value) => {
                            process_emotes(value.as_slice(), &mut emotes);
                        },
                        None => {},
                    }
                }
                i += 1;
            }
        },
        None => {},
    }
    emotes
}

/// Whether `out` is what the chat post `line` parses to, given the images
/// at hand.
pub open spec fn parsed_chat(
    line: Message,
    images: Seq<EmoteImage>,
    badge_art: Seq<BadgeImage>,
    tmux: bool,
    out: ChatMessage,
) -> bool {
    let tags = tags_of(line);
    let n = tags.len() as int;
    let asked = emotes_of_tags(tags, n);
    match line.command {
        Command::Privmsg { target, text } => {
            &&& views(out.badges@) == badges_of_tags(tags, n)
            &&& out.emotes@.len() == asked.len()
            &&& forall|i: int|
                0 <= i < asked.len() ==> (#[trigger] out.emotes@[i])@ == named(asked[i], text@)
            &&& out.message@ == with_emotes(
                text@,
                emote_views(out.emotes@),
                images,
                tmux,
                asked.len() as int,
            )
            &&& out.nickname@ == match line.nickname {
                Some(nick) => nick@,
                None => Seq::empty(),
            }
            &&& out.display_name@ == badge_images(views(out.badges@), badge_art, out.badges@.len() as int)
                + " ".spec_bytes() + display_among(tags, n)
            &&& out.first_msg == flag_among(tags, "first-msg".spec_bytes(), n)
            &&& out.subscriber == flag_among(tags, "subscriber".spec_bytes(), n)
            &&& out.returning_chatter == flag_among(tags, "returning-chatter".spec_bytes(), n)
            &&& out.moderator == flag_among(tags, "mod".spec_bytes(), n)
            &&& out.color@ == color_among(tags, n)
            &&& out.channel@ == target@
            &&& !out.raid
            &&& out.raid_notice@.len() == 0
        },
        _ => false,
    }
}

/// Parses a chat post. Fails only where the line is no chat post.
pub fn parse_privmsg(
    irc_message: &Message,
    images: &Vec<EmoteImage>,
    badge_art: &Vec<BadgeImage>,
    tmux: bool,
) -> (out: Result<TwitchMessage, ParseError>)
    ensures
        match out {
            Ok(TwitchMessage::PrivMessage { message }) => parsed_chat(
                *irc_message,
                images@,
                badge_art@,
                tmux,
                message,
            ),
            Ok(TwitchMessage::RaidMessage { .. }) => false,
            Err(error) => error == ParseError::NotChatPost && !(irc_message.command is Privmsg),
        },
{
    let nickname: Vec<u8> = match &irc_message.nickname {
        Some(nick) => copy_bytes(nick.as_slice()),
        None => Vec::new(),
    };
    let mut badges: Vec<Vec<u8>> = Vec::new();
    let mut color = text("#FF9912");
    let mut display_name: Vec<u8> = Vec::new();
    let mut first_msg = false;
    let mut subscriber = false;
    let mut returning_chatter = false;
    let mut moderator = false;
    let mut emotes: Vec<Emote> = Vec::new();

    match &irc_message.tags {
        Some(tags) => {
            let mut i: usize = 0;
            while i < tags.len()
                invariant
                    i <= tags.len(),
                    tags@ == tags_of(*irc_message),
                    views(badges@) =~= badges_of_tags(tags@, i as int),
                    emote_views(emotes@) =~= emotes_of_tags(tags@, i as int),
                    color@ == color_among(tags@, i as int),
                    display_name@ == display_among(tags@, i as int),
                    first_msg == flag_among(tags@, "first-msg".spec_bytes(), i as int),
                    subscriber == flag_among(tags@, "subscriber".spec_bytes(), i as int),
                    returning_chatter == flag_among(tags@, "returning-chatter".spec_bytes(), i as int),
                    moderator == flag_among(tags@, "mod".spec_bytes(), i as int),
                decreases tags.len() - i,
            {
                let tag = &tags[i];
                match &tag.value {
                    Some(value) => {
                        let key = tag.key.as_slice();
                        let value = value.as_slice();
                        if is_text(key, "badges") {
                            set_badges(value, &mut badges);
                        }
                        if is_text(key, "color") && value.len() > 0 {
                            color = copy_bytes(value);
                        }
                        if is_text(key, "display-name") {
                            display_name = trim(value);
                        }
                        if is_text(key, "first-msg") {
                            first_msg = get_bool(value);
                        }
                        if is_text(key, "subscriber") {
                            subscriber = get_bool(value);
                        }
                        if is_text(key, "returning-chatter") {
                            returning_chatter = get_bool(value);
                        }
                        if is_text(key, "mod") {
                            moderator = get_bool(value);
                        }
                        if is_text(key, "emotes") {
                            process_emotes(value, &mut emotes);
                        }
                    },
                    None => {},
                }
                i += 1;
            }
        },
        None => {},
    }

    match &irc_message.command {
        Command::Privmsg { target, text: body } => {
            let channel = copy_bytes(target.as_slice());
            let mut message = copy_bytes(body.as_slice());
            let ghost asked = emote_views(emotes@);
            assert(forall|i: int| 0 <= i < emotes@.len() ==> asked[i] == (#[trigger] emotes@[i])@);
            add_emotes(&mut message, &mut emotes, images, tmux);
            let encoded_badges = add_badges(&badges, badge_art);
            let mut shown = encoded_badges;
            push_all(&mut shown, " ".as_bytes());
            push_all(&mut shown, display_name.as_slice());
            proof {
                let tags = tags_of(*irc_message);
                let n = tags.len() as int;
                assert(views(badges@) == badges_of_tags(tags, n));
            }
            Ok(
                TwitchMessage::PrivMessage {
                    message: ChatMessage {
                        badges,
                        emotes,
                        nickname,
                        display_name: shown,
                        first_msg,
                        returning_chatter,
                        subscriber,
                        moderator,
                        message,
                        color,
                        channel,
                        raid: false,
                        raid_notice: Vec::new(),
                    },
                },
            )
        },
        _ => Err(ParseError::NotChatPost),
    }
}

/// Whether one of the first `n` tags has the value `value`.
pub open spec fn any_value(tags: Seq<Tag>, value: Seq<u8>, n: int) -> bool
    decreases n,
{
    if n <= 0 {
        false
    } else {
        (tags[n - 1].value is Some && tags[n - 1].value.unwrap()@ == value) || any_value(
            tags,
            value,
            n - 1,
        )
    }
}

/// Whether a line announces a raid: it is an unnamed command whose text
/// holds `USERNOTICE`, it has a tag section, one of its tags has the value
/// `raid`, and its last `system-msg` tag has a value that is not empty.
pub open spec fn announces_raid(line: Message) -> bool {
    let tags = tags_of(line);
    let n = tags.len() as int;
    match line.command {
        Command::Raw { line: whole } => {
            &&& occurs(whole@, "USERNOTICE".spec_bytes())
            &&& line.tags is Some
            &&& any_value(tags, "raid".spec_bytes(), n)
            &&& last_value(tags, "system-msg".spec_bytes(), n).len() > 0
        },
        _ => false,
    }
}

/// Parses an unnamed command: a raid notice or nothing.
pub fn parse_raw(irc_message: &Message) -> (out: Result<TwitchMessage, ParseError>)
    ensures
        match out {
            Ok(TwitchMessage::RaidMessage { user_id, raid_notice }) => {
                let tags = tags_of(*irc_message);
                &&& announces_raid(*irc_message)
                &&& raid_notice@ == last_value(tags, "system-msg".spec_bytes(), tags.len() as int)
                &&& user_id@ == last_value(tags, "user-id".spec_bytes(), tags.len() as int)
            },
            Ok(TwitchMessage::PrivMessage { .. }) => false,
            Err(error) => error == ParseError::NotRaid && !announces_raid(*irc_message),
        },
{
    match &irc_message.command {
        Command::Raw { line } => {
            if !contains(line.as_slice(), "USERNOTICE".as_bytes()) {
                return Err(ParseError::NotRaid);
            }
        },
        _ => {
            return Err(ParseError::NotRaid);
        },
    }
    match &irc_message.tags {
        Some(tags) => {
            let mut system_msg: Vec<u8> = Vec::new();
            let mut is_raid = false;
            let mut user_id: Vec<u8> = Vec::new();
            let mut i: usize = 0;
            while i < tags.len()
                invariant
                    i <= tags.len(),
                    tags@ == tags_of(*irc_message),
                    is_raid == any_value(tags@, "raid".spec_bytes(), i as int),
                    system_msg@ == last_value(tags@, "system-msg".spec_bytes(), i as int),
                    user_id@ == last_value(tags@, "user-id".spec_bytes(), i as int),
                decreases tags.len() - i,
            {
                let tag = &tags[i];
                match &tag.value {
                    Some(value) => {
                        if is_text(value.as_slice(), "raid") {
                            is_raid = true;
                        }
                        if is_text(tag.key.as_slice(), "system-msg") {
                            system_msg = copy_bytes(value.as_slice());
                        }
                        if is_text(tag.key.as_slice(), "user-id") {
                            user_id = copy_bytes(value.as_slice());
                        }
                    },
                    None => {},
                }
                i += 1;
            }
            if is_raid && system_msg.len() > 0 {
                Ok(TwitchMessage::RaidMessage { user_id, raid_notice: system_msg })
            } else {
                Err(ParseError::NotRaid)
            }
        },
        None => Err(ParseError::NotRaid),
    }
}

/// Parses one chat line: a chat post gives a chat message, an unnamed
/// command that announces a raid gives a raid notice, and every other line
/// gives an error.
pub fn parse(
    irc_message: &Message,
    images: &Vec<EmoteImage>,
    badge_art: &Vec<BadgeImage>,
    tmux: bool,
) -> (out: Result<TwitchMessage, ParseError>)
    ensures
        match out {
            Ok(TwitchMessage::PrivMessage { message }) => parsed_chat(
                *irc_message,
                images@,
                badge_art@,
                tmux,
                message,
            ),
            Ok(TwitchMessage::RaidMessage { user_id, raid_notice }) => {
                let tags = tags_of(*irc_message);
                &&& announces_raid(*irc_message)
                &&& raid_notice@ == last_value(tags, "system-msg".spec_bytes(), tags.len() as int)
                &&& user_id@ == last_value(tags, "user-id".spec_bytes(), tags.len() as int)
            },
            Err(error) => match irc_message.command {
                Command::Privmsg { .. } => false,
                Command::Raw { .. } => error == ParseError::NotRaid && !announces_raid(*irc_message),
                Command::Other => error == ParseError::UnhandledCommand,
            },
        },
{
    match &irc_message.command {
        Command::Privmsg { .. } => parse_privmsg(irc_message, images, badge_art, tmux),
        Command::Raw { .. } => parse_raw(irc_message),
        Command::Other => Err(ParseError::UnhandledCommand),
    }
}


/// Whether `b` is a hexadecimal digit.
pub open spec fn is_hex_digit(b: u8) -> bool {
    (48 <= b <= 57) || (65 <= b <= 70) || (97 <= b <= 102)
}

/// The value of a hexadecimal digit.
pub open spec fn hex_value(b: u8) -> int {
    if 48 <= b <= 57 {
        b - 48
    } else if 65 <= b <= 70 {
        b - 55
    } else {
        b - 87
    }
}

/// Whether `s` writes a colour as `#` and six hexadecimal digits.
pub open spec fn is_hex_color(s: Seq<u8>) -> bool {
    s.len() == 7 && s[0] == 35 && forall|i: int| 1 <= i < 7 ==> is_hex_digit(#[trigger] s[i])
}

/// The byte that the two hexadecimal digits at `i` and `i + 1` write.
pub open spec fn hex_pair(s: Seq<u8>, i: int) -> u8 {
    (hex_value(s[i]) * 16 + hex_value(s[i + 1])) as u8
}

/// Calls `Color::new` of the hex_rgb crate, which reads a colour code. For
/// `#` and six hexadecimal digits it strips the `#` and reads each pair of
/// digits as one byte: red, green, blue. The contract says so for such
/// codes and leaves every other code out: on some of them the crate's
/// function panics.
#[verifier::external_body]
fn hex_color(code: &[u8]) -> (out: Option<(u8, u8, u8)>)
    requires
        is_hex_color(code@),
    ensures
        out == Some((hex_pair(code@, 1), hex_pair(code@, 3), hex_pair(code@, 5))),
{
    match hex_rgb::Color::new(&String::from_utf8_lossy(code)) {
        Ok(color) => Some((color.red, color.green, color.blue)),
        Err(_) => None,
    }
}

/// Whether `code` writes a colour as `#` and six hexadecimal digits.
pub fn is_color_code(code: &[u8]) -> (yes: bool)
    ensures
        yes == is_hex_color(code@),
{
    if code.len() != 7 || code[0] != 35 {
        return false;
    }
    let mut i: usize = 1;
    while i < 7
        invariant
            1 <= i <= 7,
            code@.len() == 7,
            forall|j: int| 1 <= j < i ==> is_hex_digit(#[trigger] code@[j]),
        decreases 7 - i,
    {
        let b = code[i];
        if !((48 <= b && b <= 57) || (65 <= b && b <= 70) || (97 <= b && b <= 102)) {
            return false;
        }
        i += 1;
    }
    true
}

impl ChatMessage {
    /// The chatter's colour as red, green and blue; `None` where the
    /// colour is not written as `#` and six hexadecimal digits.
    pub fn get_nickname_color(&self) -> (out: Option<(u8, u8, u8)>)
        ensures
            out == (if is_hex_color(self.color@) {
                Some((hex_pair(self.color@, 1), hex_pair(self.color@, 3), hex_pair(self.color@, 5)))
            } else {
                None
            }),
    {
        if is_color_code(self.color.as_slice()) {
            hex_color(self.color.as_slice())
        } else {
            None
        }
    }
}


/// A flag whose key no tag has is false; and of the values that a flag tag
/// may have, `0` reads as false and `1` as true.
pub proof fn flag_laws(tags: Seq<Tag>, key: Seq<u8>, n: int)
    requires
        0 <= n <= tags.len(),
        forall|i: int| 0 <= i < n ==> (#[trigger] tags[i]).key@ != key,
    ensures
        !flag_among(tags, key, n),
        !flag_value("0".spec_bytes()),
        flag_value("1".spec_bytes()),
    decreases n,
{
    if n > 0 {
        flag_laws(tags, key, n - 1);
    }
    reveal_strlit("0");
    reveal_strlit("1");
    assert(is_ascii("0"));
    assert(is_ascii("1"));
    is_ascii_spec_bytes("0");
    is_ascii_spec_bytes("1");
    assert("0".spec_bytes()[0] == 48u8);
    assert("1".spec_bytes()[0] == 49u8);
}

/// The last tag with the flag's key and a value decides the flag, whatever
/// came before it.
pub proof fn last_flag_tag_decides(tags: Seq<Tag>, key: Seq<u8>, n: int)
    requires
        0 < n <= tags.len(),
        has_value(tags[n - 1], key),
    ensures
        flag_among(tags, key, n) == flag_value(tags[n - 1].value.unwrap()@),
{
}

/// A parsed chat post has one emote for every emote that its tags ask
/// for, in order, and each emote's name is the slice of the text as it was
/// received, from the emote's `start` to its `end`, both inclusive,
/// wherever these two delimit a slice of the text.
pub proof fn emote_names_are_slices(
    line: Message,
    images: Seq<EmoteImage>,
    badge_art: Seq<BadgeImage>,
    tmux: bool,
    out: ChatMessage,
)
    requires
        parsed_chat(line, images, badge_art, tmux, out),
    ensures
        out.emotes@.len() == emotes_of_tags(tags_of(line), tags_of(line).len() as int).len(),
        forall|i: int|
            0 <= i < out.emotes@.len() ==> {
                let emote = #[trigger] out.emotes@[i];
                let received = line.command->Privmsg_text@;
                &&& emote.start == emotes_of_tags(tags_of(line), tags_of(line).len() as int)[i].start
                &&& emote.end == emotes_of_tags(tags_of(line), tags_of(line).len() as int)[i].end
                &&& emote.name@ == emote_name(received, emote.start, emote.end)
                &&& (emote.start <= emote.end < received.len() && is_boundary(
                    received,
                    emote.start as int,
                ) && is_boundary(received, emote.end + 1)) ==> emote.name@ == received.subrange(
                    emote.start as int,
                    emote.end + 1,
                )
            },
{
    let asked = emotes_of_tags(tags_of(line), tags_of(line).len() as int);
    assert forall|i: int| 0 <= i < out.emotes@.len() implies {
        let emote = #[trigger] out.emotes@[i];
        let received = line.command->Privmsg_text@;
        &&& emote.start == asked[i].start
        &&& emote.end == asked[i].end
        &&& emote.name@ == emote_name(received, emote.start, emote.end)
    } by {
        assert(out.emotes@[i]@ == named(asked[i], line.command->Privmsg_text@));
    }
}


/// Where every one of the first `n` entries describes an emote, there are
/// as many emotes as entries.
pub proof fn every_entry_gives_an_emote(entries: Seq<Seq<u8>>, n: int)
    requires
        0 <= n <= entries.len(),
        forall|i: int| 0 <= i < n ==> entry_emote(#[trigger] entries[i]) is Some,
    ensures
        emotes_among(entries, n).len() == n,
        forall|i: int| 0 <= i < n ==> Some(#[trigger] emotes_among(entries, n)[i]) == entry_emote(entries[i]),
    decreases n,
{
    if n > 0 {
        every_entry_gives_an_emote(entries, n - 1);
        assert(entry_emote(entries[n - 1]) is Some);
    }
}


/// The images among the first `n` fetched ones whose PNG form is there,
/// each by its address and with that PNG form, in order.
pub open spec fn png_images_among(
    fetched: Seq<EmoteImage>,
    pngs: Seq<Option<Vec<u8>>>,
    n: int,
) -> Seq<(Seq<u8>, Seq<u8>)>
    decreases n,
{
    if n <= 0 {
        Seq::empty()
    } else {
        match pngs[n - 1] {
            Some(png) => png_images_among(fetched, pngs, n - 1).push((fetched[n - 1].url@, png@)),
            None => png_images_among(fetched, pngs, n - 1),
        }
    }
}

/// What a vector of images holds: addresses and bytes.
pub open spec fn image_views(images: Seq<EmoteImage>) -> Seq<(Seq<u8>, Seq<u8>)> {
    images.map_values(|image: EmoteImage| (image.url@, image.image@))
}

/// The bytes of an optional byte vector.
pub open spec fn option_bytes(item: Option<Vec<u8>>) -> Option<Seq<u8>> {
    match item {
        Some(bytes) => Some(bytes@),
        None => None,
    }
}

/// Encodes every fetched image anew as PNG: one result per image, in
/// order, each the PNG form of its image, `None` for an image that has
/// none.
pub fn reencode_all(fetched: &Vec<EmoteImage>) -> (pngs: Vec<Option<Vec<u8>>>)
    ensures
        pngs@.len() == fetched@.len(),
        forall|i: int|
            0 <= i < fetched@.len() ==> option_bytes(#[trigger] pngs@[i]) == reencoded(
                fetched@[i].image@,
            ),
{
    let mut pngs: Vec<Option<Vec<u8>>> = Vec::new();
    let mut i: usize = 0;
    while i < fetched.len()
        invariant
            i <= fetched.len(),
            pngs@.len() == i,
            forall|j: int|
                0 <= j < i ==> option_bytes(#[trigger] pngs@[j]) == reencoded(fetched@[j].image@),
        decreases fetched.len() - i,
    {
        pngs.push(reencode_png(fetched[i].image.as_slice()));
        i += 1;
    }
    pngs
}

/// The table of images for the parser: every fetched image whose PNG form
/// is there, by its address and with that PNG form. The two vectors are
/// read side by side as far as the shorter one goes.
pub fn png_table(fetched: &Vec<EmoteImage>, pngs: &Vec<Option<Vec<u8>>>) -> (out: Vec<EmoteImage>)
    ensures
        image_views(out@) == png_images_among(
            fetched@,
            pngs@,
            if fetched@.len() <= pngs@.len() {
                fetched@.len() as int
            } else {
                pngs@.len() as int
            },
        ),
{
    let mut out: Vec<EmoteImage> = Vec::new();
    let mut i: usize = 0;
    while i < fetched.len() && i < pngs.len()
        invariant
            i <= fetched.len(),
            i <= pngs.len(),
            image_views(out@) =~= png_images_among(fetched@, pngs@, i as int),
        decreases fetched.len() - i,
    {
        match &pngs[i] {
            Some(png) => {
                let image = EmoteImage {
                    url: copy_bytes(fetched[i].url.as_slice()),
                    image: copy_bytes(png.as_slice()),
                };
                let ghost before = image_views(out@);
                out.push(image);
                assert(image_views(out@) =~= before.push((image.url@, image.image@)));
            },
            None => {},
        }
        i += 1;
    }
    out
}

/// The images among the first `n` fetched ones that have a PNG form, each
/// by its address and with that form, in order.
pub open spec fn png_forms_among(fetched: Seq<EmoteImage>, n: int) -> Seq<(Seq<u8>, Seq<u8>)>
    decreases n,
{
    if n <= 0 {
        Seq::empty()
    } else {
        match reencoded(fetched[n - 1].image@) {
            Some(png) => png_forms_among(fetched, n - 1).push((fetched[n - 1].url@, png)),
            None => png_forms_among(fetched, n - 1),
        }
    }
}

/// Where every result is the PNG form of its image, the images whose
/// result is there are the images that have a PNG form.
pub proof fn results_give_png_forms(fetched: Seq<EmoteImage>, pngs: Seq<Option<Vec<u8>>>, n: int)
    requires
        0 <= n <= fetched.len(),
        n <= pngs.len(),
        forall|i: int|
            0 <= i < n ==> option_bytes(#[trigger] pngs[i]) == reencoded(fetched[i].image@),
    ensures
        png_images_among(fetched, pngs, n) == png_forms_among(fetched, n),
    decreases n,
{
    if n > 0 {
        results_give_png_forms(fetched, pngs, n - 1);
        assert(option_bytes(pngs[n - 1]) == reencoded(fetched[n - 1].image@));
    }
}

/// Parses one chat line with the emote images as they were fetched: the
/// images are encoded anew as PNG, and the line is parsed with the table of
/// those that have a PNG form, each by its address.
pub fn parse_fetched(
    irc_message: &Message,
    fetched: &Vec<EmoteImage>,
    badge_art: &Vec<BadgeImage>,
    tmux: bool,
) -> (out: Result<TwitchMessage, ParseError>)
    ensures
        match out {
            Ok(TwitchMessage::PrivMessage { message }) => exists|images: Seq<EmoteImage>|
                image_views(images) == png_forms_among(fetched@, fetched@.len() as int)
                    && parsed_chat(*irc_message, images, badge_art@, tmux, message),
            Ok(TwitchMessage::RaidMessage { user_id, raid_notice }) => {
                let tags = tags_of(*irc_message);
                &&& announces_raid(*irc_message)
                &&& raid_notice@ == last_value(tags, "system-msg".spec_bytes(), tags.len() as int)
                &&& user_id@ == last_value(tags, "user-id".spec_bytes(), tags.len() as int)
            },
            Err(error) => match irc_message.command {
                Command::Privmsg { .. } => false,
                Command::Raw { .. } => error == ParseError::NotRaid && !announces_raid(*irc_message),
                Command::Other => error == ParseError::UnhandledCommand,
            },
        },
{
    let pngs = reencode_all(fetched);
    let images = png_table(fetched, &pngs);
    proof {
        results_give_png_forms(fetched@, pngs@, fetched@.len() as int);
    }
    let out = parse(irc_message, &images, badge_art, tmux);
    assert(out matches Ok(TwitchMessage::PrivMessage { message }) ==> image_views(images@)
        == png_forms_among(fetched@, fetched@.len() as int) && parsed_chat(
        *irc_message,
        images@,
        badge_art@,
        tmux,
        message,
    ));
    out
}

} // verus!
