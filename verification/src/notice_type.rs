//! The kinds of chat notice and their wire names.

use vstd::prelude::*;
use vstd::string::*;
use vstd::utf8::{encode_utf8, encode_utf8_decode_utf8};
use crate::text::is_text;

verus! {

/// A kind of chat notice. `Unknown` stands for every wire name that
/// the table does not hold.
#[derive(Clone, Copy, Debug, PartialEq, Eq, Structural)]
pub enum NoticeType {
    Sub,
    Resub,
    SubGift,
    CommunitySubGift,
    GiftPaidUpgrade,
    PrimePaidUpgrade,
    Raid,
    Unraid,
    PayItForward,
    Announcement,
    BitsBadgeTier,
    CharityDonation,
    SharedChatSub,
    SharedChatResub,
    SharedChatSubGift,
    SharedChatCommunitySubGift,
    SharedChatGiftPaidUpgrade,
    SharedChatPrimePaidUpgrade,
    SharedChatRaid,
    SharedChatPayItForward,
    SharedChatAnnouncement,
    Unknown,
}

impl NoticeType {
    /// The wire name of a kind, as characters.
    pub open spec fn wire_chars(self) -> Seq<char> {
        match self {
            NoticeType::Sub => "sub"@,
            NoticeType::Resub => "resub"@,
            NoticeType::SubGift => "sub_gift"@,
            NoticeType::CommunitySubGift => "community_sub_gift"@,
            NoticeType::GiftPaidUpgrade => "gift_paid_upgrade"@,
            NoticeType::PrimePaidUpgrade => "prime_paid_upgrade"@,
            NoticeType::Raid => "raid"@,
            NoticeType::Unraid => "unraid"@,
            NoticeType::PayItForward => "pay_it_forward"@,
            NoticeType::Announcement => "announcement"@,
            NoticeType::BitsBadgeTier => "bits_badge_tier"@,
            NoticeType::CharityDonation => "charity_donation"@,
            NoticeType::SharedChatSub => "shared_chat_sub"@,
            NoticeType::SharedChatResub => "shared_chat_resub"@,
            NoticeType::SharedChatSubGift => "shared_chat_sub_gift"@,
            NoticeType::SharedChatCommunitySubGift => "shared_chat_community_sub_gift"@,
            NoticeType::SharedChatGiftPaidUpgrade => "shared_chat_gift_paid_upgrade"@,
            NoticeType::SharedChatPrimePaidUpgrade => "shared_chat_prime_paid_upgrade"@,
            NoticeType::SharedChatRaid => "shared_chat_raid"@,
            NoticeType::SharedChatPayItForward => "shared_chat_pay_it_forward"@,
            NoticeType::SharedChatAnnouncement => "shared_chat_announcement"@,
            NoticeType::Unknown => "unknown"@,
        }
    }

    /// The mark of a kind's wire name: its length, its eleventh character
    /// and its fifth character from the end.
    pub open spec fn wire_mark(self) -> (int, char, char) {
        match self {
            NoticeType::Sub => (3, ' ', ' '),
            NoticeType::Resub => (5, ' ', 'r'),
            NoticeType::SubGift => (8, ' ', '_'),
            NoticeType::CommunitySubGift => (18, 's', '_'),
            NoticeType::GiftPaidUpgrade => (17, 'u', 'g'),
            NoticeType::PrimePaidUpgrade => (18, '_', 'g'),
            NoticeType::Raid => (4, ' ', ' '),
            NoticeType::Unraid => (6, ' ', 'n'),
            NoticeType::PayItForward => (14, 'w', 'r'),
            NoticeType::Announcement => (12, 'n', 'e'),
            NoticeType::BitsBadgeTier => (15, '_', '_'),
            NoticeType::CharityDonation => (16, 'n', 'a'),
            NoticeType::SharedChatSub => (15, 't', 't'),
            NoticeType::SharedChatResub => (17, 't', 'r'),
            NoticeType::SharedChatSubGift => (20, 't', '_'),
            NoticeType::SharedChatCommunitySubGift => (30, 't', '_'),
            NoticeType::SharedChatGiftPaidUpgrade => (29, 't', 'g'),
            NoticeType::SharedChatPrimePaidUpgrade => (30, 't', 'g'),
            NoticeType::SharedChatRaid => (16, 't', '_'),
            NoticeType::SharedChatPayItForward => (26, 't', 'r'),
            NoticeType::SharedChatAnnouncement => (24, 't', 'e'),
            NoticeType::Unknown => (7, ' ', 'k'),
        }
    }

    /// The wire name of a kind, as bytes.
    pub open spec fn wire(self) -> Seq<u8> {
        encode_utf8(self.wire_chars())
    }

    /// The wire name of a kind.
    pub fn to_wire(&self) -> (name: &'static str)
        ensures
            name.spec_bytes() == self.wire(),
    {
        match self {
            NoticeType::Sub => "sub",
            NoticeType::Resub => "resub",
            NoticeType::SubGift => "sub_gift",
            NoticeType::CommunitySubGift => "community_sub_gift",
            NoticeType::GiftPaidUpgrade => "gift_paid_upgrade",
            NoticeType::PrimePaidUpgrade => "prime_paid_upgrade",
            NoticeType::Raid => "raid",
            NoticeType::Unraid => "unraid",
            NoticeType::PayItForward => "pay_it_forward",
            NoticeType::Announcement => "announcement",
            NoticeType::BitsBadgeTier => "bits_badge_tier",
            NoticeType::CharityDonation => "charity_donation",
            NoticeType::SharedChatSub => "shared_chat_sub",
            NoticeType::SharedChatResub => "shared_chat_resub",
            NoticeType::SharedChatSubGift => "shared_chat_sub_gift",
            NoticeType::SharedChatCommunitySubGift => "shared_chat_community_sub_gift",
            NoticeType::SharedChatGiftPaidUpgrade => "shared_chat_gift_paid_upgrade",
            NoticeType::SharedChatPrimePaidUpgrade => "shared_chat_prime_paid_upgrade",
            NoticeType::SharedChatRaid => "shared_chat_raid",
            NoticeType::SharedChatPayItForward => "shared_chat_pay_it_forward",
            NoticeType::SharedChatAnnouncement => "shared_chat_announcement",
            NoticeType::Unknown => "unknown",
        }
    }

    /// Decodes a wire name: the first kind of the table with that name, and
    /// `Unknown` for a name that the table does not hold. Decoding never fails.
    pub fn from_wire(name: &[u8]) -> (kind: NoticeType)
        ensures
            kind == decoded(name@),
    {
        let table = notice_table();
        let mut i: usize = 0;
        while i < table.len()
            invariant
                i <= table.len(),
                table@ == known_notices(),
                first_named(known_notices(), name@, 0) == first_named(known_notices(), name@, i as int),
            decreases table.len() - i,
        {
            let candidate = table[i];
            if is_text(name, candidate.to_wire()) {
                return candidate;
            }
            i += 1;
        }
        NoticeType::Unknown
    }
}

/// The table of kinds, in decoding order.
pub open spec fn known_notices() -> Seq<NoticeType> {
    seq![
        NoticeType::Sub,
        NoticeType::Resub,
        NoticeType::SubGift,
        NoticeType::CommunitySubGift,
        NoticeType::GiftPaidUpgrade,
        NoticeType::PrimePaidUpgrade,
        NoticeType::Raid,
        NoticeType::Unraid,
        NoticeType::PayItForward,
        NoticeType::Announcement,
        NoticeType::BitsBadgeTier,
        NoticeType::CharityDonation,
        NoticeType::SharedChatSub,
        NoticeType::SharedChatResub,
        NoticeType::SharedChatSubGift,
        NoticeType::SharedChatCommunitySubGift,
        NoticeType::SharedChatGiftPaidUpgrade,
        NoticeType::SharedChatPrimePaidUpgrade,
        NoticeType::SharedChatRaid,
        NoticeType::SharedChatPayItForward,
        NoticeType::SharedChatAnnouncement,
    ]
}

/// The table of kinds as a vector.
pub fn notice_table() -> (table: Vec<NoticeType>)
    ensures
        table@ == known_notices(),
{
    let table = vec![
        NoticeType::Sub,
        NoticeType::Resub,
        NoticeType::SubGift,
        NoticeType::CommunitySubGift,
        NoticeType::GiftPaidUpgrade,
        NoticeType::PrimePaidUpgrade,
        NoticeType::Raid,
        NoticeType::Unraid,
        NoticeType::PayItForward,
        NoticeType::Announcement,
        NoticeType::BitsBadgeTier,
        NoticeType::CharityDonation,
        NoticeType::SharedChatSub,
        NoticeType::SharedChatResub,
        NoticeType::SharedChatSubGift,
        NoticeType::SharedChatCommunitySubGift,
        NoticeType::SharedChatGiftPaidUpgrade,
        NoticeType::SharedChatPrimePaidUpgrade,
        NoticeType::SharedChatRaid,
        NoticeType::SharedChatPayItForward,
        NoticeType::SharedChatAnnouncement,
    ];
    assert(table@ =~= known_notices());
    table
}

/// The first kind at or after `from` in `table` whose wire name is `name`,
/// or `Unknown`.
pub open spec fn first_named(table: Seq<NoticeType>, name: Seq<u8>, from: int) -> NoticeType
    decreases table.len() - from,
{
    if from < 0 || from >= table.len() {
        NoticeType::Unknown
    } else if table[from].wire() == name {
        table[from]
    } else {
        first_named(table, name, from + 1)
    }
}

/// What a wire name decodes to.
pub open spec fn decoded(name: Seq<u8>) -> NoticeType {
    first_named(known_notices(), name, 0)
}

/// The position of a kind in the table.
pub open spec fn table_index(kind: NoticeType) -> int {
    match kind {
        NoticeType::Sub => 0,
        NoticeType::Resub => 1,
        NoticeType::SubGift => 2,
        NoticeType::CommunitySubGift => 3,
        NoticeType::GiftPaidUpgrade => 4,
        NoticeType::PrimePaidUpgrade => 5,
        NoticeType::Raid => 6,
        NoticeType::Unraid => 7,
        NoticeType::PayItForward => 8,
        NoticeType::Announcement => 9,
        NoticeType::BitsBadgeTier => 10,
        NoticeType::CharityDonation => 11,
        NoticeType::SharedChatSub => 12,
        NoticeType::SharedChatResub => 13,
        NoticeType::SharedChatSubGift => 14,
        NoticeType::SharedChatCommunitySubGift => 15,
        NoticeType::SharedChatGiftPaidUpgrade => 16,
        NoticeType::SharedChatPrimePaidUpgrade => 17,
        NoticeType::SharedChatRaid => 18,
        NoticeType::SharedChatPayItForward => 19,
        NoticeType::SharedChatAnnouncement => 20,
        NoticeType::Unknown => 21,
    }
}

/// Every kind but `Unknown` stands in the table, at its index.
pub proof fn table_holds_every_kind(kind: NoticeType)
    requires
        kind != NoticeType::Unknown,
    ensures
        0 <= table_index(kind) < known_notices().len(),
        known_notices()[table_index(kind)] == kind,
{
}

/// The table does not hold `Unknown`.
pub proof fn table_lacks_unknown()
    ensures
        forall|i: int| 0 <= i < known_notices().len() ==> known_notices()[i] != NoticeType::Unknown,
{
}

/// A search that starts at or before an entry with the wanted name finds a
/// kind with that name.
pub proof fn first_named_finds(table: Seq<NoticeType>, name: Seq<u8>, from: int, at: int)
    requires
        0 <= from <= at < table.len(),
        table[at].wire() == name,
        forall|i: int| 0 <= i < table.len() ==> table[i] != NoticeType::Unknown,
    ensures
        first_named(table, name, from) != NoticeType::Unknown,
        first_named(table, name, from).wire() == name,
    decreases at - from,
{
    if table[from].wire() != name {
        first_named_finds(table, name, from + 1, at);
    }
}

/// A decoded kind other than `Unknown` has the decoded name as its wire name.
pub proof fn decoded_has_name(table: Seq<NoticeType>, name: Seq<u8>, from: int)
    requires
        0 <= from,
    ensures
        first_named(table, name, from) != NoticeType::Unknown ==> first_named(
            table,
            name,
            from,
        ).wire() == name,
    decreases table.len() - from,
{
    if from < table.len() && table[from].wire() != name {
        decoded_has_name(table, name, from + 1);
    }
}

/// A name that no kind of the table has decodes to `Unknown`.
pub proof fn unlisted_decodes_to_unknown(table: Seq<NoticeType>, name: Seq<u8>, from: int)
    requires
        0 <= from,
        forall|i: int| 0 <= i < table.len() ==> table[i].wire() != name,
    ensures
        first_named(table, name, from) == NoticeType::Unknown,
    decreases table.len() - from,
{
    if from < table.len() {
        unlisted_decodes_to_unknown(table, name, from + 1);
    }
}

/// Encoding a kind and decoding the result gives a kind with the same wire
/// name, never `Unknown`; decoding any name gives `Unknown` or a kind that
/// encodes to that name again; and a name that the table lacks decodes to
/// `Unknown`.
pub proof fn wire_round_trip(kind: NoticeType, name: Seq<u8>)
    ensures
        kind != NoticeType::Unknown ==> decoded(kind.wire()) != NoticeType::Unknown
            && decoded(kind.wire()).wire() == kind.wire(),
        decoded(name) != NoticeType::Unknown ==> decoded(name).wire() == name,
        (forall|i: int| 0 <= i < known_notices().len() ==> known_notices()[i].wire() != name)
            ==> decoded(name) == NoticeType::Unknown,
{
    decoded_has_name(known_notices(), name, 0);
    if forall|i: int| 0 <= i < known_notices().len() ==> known_notices()[i].wire() != name {
        unlisted_decodes_to_unknown(known_notices(), name, 0);
    }
    if kind != NoticeType::Unknown {
        table_holds_every_kind(kind);
        table_lacks_unknown();
        first_named_finds(known_notices(), kind.wire(), 0, table_index(kind));
    }
}


/// The mark of a name: its length, its eleventh character and its fifth
/// character from the end, with a space where the name is too short.
pub open spec fn mark_of(name: Seq<char>) -> (int, char, char) {
    (
        name.len() as int,
        if name.len() > 10 {
            name[10]
        } else {
            ' '
        },
        if name.len() >= 5 {
            name[name.len() - 5]
        } else {
            ' '
        },
    )
}

/// Every kind's wire name has the mark that the table of marks gives it.
pub proof fn wire_has_its_mark(kind: NoticeType)
    ensures
        mark_of(kind.wire_chars()) == kind.wire_mark(),
{
    match kind {
        NoticeType::Sub => {
            reveal_strlit("sub");
        },
        NoticeType::Resub => {
            reveal_strlit("resub");
        },
        NoticeType::SubGift => {
            reveal_strlit("sub_gift");
        },
        NoticeType::CommunitySubGift => {
            reveal_strlit("community_sub_gift");
        },
        NoticeType::GiftPaidUpgrade => {
            reveal_strlit("gift_paid_upgrade");
        },
        NoticeType::PrimePaidUpgrade => {
            reveal_strlit("prime_paid_upgrade");
        },
        NoticeType::Raid => {
            reveal_strlit("raid");
        },
        NoticeType::Unraid => {
            reveal_strlit("unraid");
        },
        NoticeType::PayItForward => {
            reveal_strlit("pay_it_forward");
        },
        NoticeType::Announcement => {
            reveal_strlit("announcement");
        },
        NoticeType::BitsBadgeTier => {
            reveal_strlit("bits_badge_tier");
        },
        NoticeType::CharityDonation => {
            reveal_strlit("charity_donation");
        },
        NoticeType::SharedChatSub => {
            reveal_strlit("shared_chat_sub");
        },
        NoticeType::SharedChatResub => {
            reveal_strlit("shared_chat_resub");
        },
        NoticeType::SharedChatSubGift => {
            reveal_strlit("shared_chat_sub_gift");
        },
        NoticeType::SharedChatCommunitySubGift => {
            reveal_strlit("shared_chat_community_sub_gift");
        },
        NoticeType::SharedChatGiftPaidUpgrade => {
            reveal_strlit("shared_chat_gift_paid_upgrade");
        },
        NoticeType::SharedChatPrimePaidUpgrade => {
            reveal_strlit("shared_chat_prime_paid_upgrade");
        },
        NoticeType::SharedChatRaid => {
            reveal_strlit("shared_chat_raid");
        },
        NoticeType::SharedChatPayItForward => {
            reveal_strlit("shared_chat_pay_it_forward");
        },
        NoticeType::SharedChatAnnouncement => {
            reveal_strlit("shared_chat_announcement");
        },
        NoticeType::Unknown => {
            reveal_strlit("unknown");
        },
    }
}

/// Two kinds with different marks have different wire names.
pub proof fn marks_tell_names_apart(a: NoticeType, b: NoticeType)
    requires
        a.wire_mark() != b.wire_mark(),
    ensures
        a.wire() != b.wire(),
{
    wire_has_its_mark(a);
    wire_has_its_mark(b);
    encode_utf8_decode_utf8(a.wire_chars());
    encode_utf8_decode_utf8(b.wire_chars());
}

/// A search from the start of the table that meets no entry with the wanted
/// name before index `at`, and one with it at `at`, yields that entry.
pub proof fn first_named_is(table: Seq<NoticeType>, name: Seq<u8>, from: int, at: int)
    requires
        0 <= from <= at < table.len(),
        table[at].wire() == name,
        forall|j: int| from <= j < at ==> (#[trigger] table[j]).wire() != name,
    ensures
        first_named(table, name, from) == table[at],
    decreases at - from,
{
    if from < at {
        first_named_is(table, name, from + 1, at);
    }
}

/// Before a kind's place in the table no kind has its mark.
pub proof fn marks_are_new(kind: NoticeType, j: int)
    requires
        kind != NoticeType::Unknown,
        0 <= j < table_index(kind),
    ensures
        known_notices()[j].wire_mark() != kind.wire_mark(),
{
}

/// Encoding then decoding gives the kind back: for every kind but
/// `Unknown`, decoding its wire name yields the kind itself.
pub proof fn decoding_inverts_encoding(kind: NoticeType)
    requires
        kind != NoticeType::Unknown,
    ensures
        decoded(kind.wire()) == kind,
{
    table_holds_every_kind(kind);
    let at = table_index(kind);
    assert forall|j: int| 0 <= j < at implies (#[trigger] known_notices()[j]).wire() != kind.wire() by {
        marks_are_new(kind, j);
        marks_tell_names_apart(known_notices()[j], kind);
    }
    first_named_is(known_notices(), kind.wire(), 0, at);
}

} // verus!
