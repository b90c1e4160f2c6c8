//! Memory-card addressing. Each (port, slot) is backed by an 8MB card image
//! owned by the host; the PS2 has two ports and one slot per port (no
//! multitap). This module decides which card a request names, whether a byte
//! range lies inside a card, what the card reports about itself, and keeps the
//! table of backing handles that are opened on first access.

use vstd::prelude::*;

verus! {

/// Bytes in one card image (8MB).
pub const MC_SIZE: u64 = 0x80_0000;

/// Bytes in one card page.
pub const MC_PAGE_SIZE: u32 = 0x400;

/// Pages in one block (a 16KB cluster).
pub const MC_PAGES_PER_BLOCK: u32 = 16;

/// Blocks in one card image.
pub const MC_TOTAL_BLOCKS: u32 = 512;

/// Number of pad ports with a card connector.
pub const MC_PORTS: usize = 2;

/// Card slots per port.
pub const MC_SLOTS: usize = 1;

/// Card type reported for every card: a PS2 memory card.
pub const MC_TYPE_PS2: u32 = 2;

/// Format flag reported for every card: formatted.
pub const MC_FORMATTED: u32 = 1;

/// The blocks of a card cover its image exactly.
pub proof fn lemma_card_geometry()
    ensures
        MC_TOTAL_BLOCKS as int * MC_PAGES_PER_BLOCK as int * MC_PAGE_SIZE as int == MC_SIZE as int,
{
}

/// Whether (port, slot) names a connected card.
pub open spec fn valid_card(port: int, slot: int) -> bool {
    0 <= port < MC_PORTS && 0 <= slot < MC_SLOTS
}

/// Position of card (port, slot) in the host's card table.
pub open spec fn card_position(port: int, slot: int) -> int {
    port * MC_SLOTS + slot
}

/// Whether (port, slot) names a connected card: ports 0 and 1, slot 0.
pub fn valid(port: i32, slot: i32) -> (r: bool)
    ensures
        r == valid_card(port as int, slot as int),
        r == (0 <= port < 2 && slot == 0),
{
    0 <= port && port < 2 && slot == 0
}

/// The table position of card (port, slot), if it names a connected card.
pub fn card_index(port: i32, slot: i32) -> (r: Option<usize>)
    ensures
        r is Some <==> valid_card(port as int, slot as int),
        r matches Some(i) ==> i == card_position(port as int, slot as int) && i < MC_PORTS * MC_SLOTS,
        r matches Some(i) ==> i == port,
{
    if valid(port, slot) {
        Some(port as usize * MC_SLOTS + slot as usize)
    } else {
        None
    }
}

/// Whether `len` bytes starting at `offset` lie inside a card image.
pub fn range_in_card(offset: u64, len: usize) -> (r: bool)
    ensures
        r == (offset + len <= MC_SIZE),
{
    offset <= MC_SIZE && len as u64 <= MC_SIZE - offset
}

/// What a card reports about itself: its type, its free blocks and its format
/// flag. Every card is reported as a formatted PS2 card with all blocks free,
/// since the card's file table is not parsed.
pub fn card_info() -> (r: (u32, u32, u32))
    ensures
        r == (MC_TYPE_PS2, MC_TOTAL_BLOCKS, MC_FORMATTED),
{
    (MC_TYPE_PS2, MC_TOTAL_BLOCKS, MC_FORMATTED)
}

/// Status code of a memory-card call at the C boundary: 0 on success, 1 on
/// failure.
pub fn mc_status(ok: bool) -> (r: i32)
    ensures
        r == (if ok { 0i32 } else { 1i32 }),
{
    if ok {
        0
    } else {
        1
    }
}

/// The decimal digit for `d` in 0..=9.
pub open spec fn digit(d: int) -> char {
    (d + 48) as char
}

/// Name of the image file of card (port, slot): `mc<port>-<slot>.ps2`.
pub open spec fn card_file_name_spec(port: int, slot: int) -> Seq<char> {
    seq!['m', 'c'] + seq![digit(port)] + seq!['-'] + seq![digit(slot)] + seq!['.', 'p', 's', '2']
}

fn digit_str(d: i32) -> (s: &'static str)
    requires
        0 <= d <= 1,
    ensures
        s@ == seq![digit(d as int)],
{
    if d == 0 {
        proof {
            reveal_strlit("0");
        }
        "0"
    } else {
        proof {
            reveal_strlit("1");
        }
        "1"
    }
}

/// The two connected cards are backed by `mc0-0.ps2` and `mc1-0.ps2`, and
/// different cards never share a file.
pub proof fn lemma_card_file_names(port: int, slot: int, other_port: int, other_slot: int)
    requires
        valid_card(port, slot),
        valid_card(other_port, other_slot),
    ensures
        card_file_name_spec(port, slot) == (if port == 0 {
            "mc0-0.ps2"@
        } else {
            "mc1-0.ps2"@
        }),
        (port, slot) != (other_port, other_slot) ==> card_file_name_spec(port, slot)
            != card_file_name_spec(other_port, other_slot),
{
    reveal_strlit("mc0-0.ps2");
    reveal_strlit("mc1-0.ps2");
    assert(card_file_name_spec(0, 0) =~= "mc0-0.ps2"@);
    assert(card_file_name_spec(1, 0) =~= "mc1-0.ps2"@);
    if (port, slot) != (other_port, other_slot) {
        assert(card_file_name_spec(port, slot)[2] != card_file_name_spec(other_port, other_slot)[2]);
    }
}

/// The image file name of a connected card, such as `mc1-0.ps2`.
pub fn card_file_name(port: i32, slot: i32) -> (s: String)
    requires
        valid_card(port as int, slot as int),
    ensures
        s@ == card_file_name_spec(port as int, slot as int),
{
    proof {
        reveal_strlit("mc");
        reveal_strlit("-");
        reveal_strlit(".ps2");
    }
    let mut s = String::from_str("mc");
    s.append(digit_str(port));
    s.append("-");
    s.append(digit_str(slot));
    s.append(".ps2");
    assert(s@ =~= card_file_name_spec(port as int, slot as int));
    s
}

/// Path components of the save directory: an explicit override as is;
/// otherwise the per-user data directory under the home directory; otherwise
/// `memcards` relative to the working directory.
pub open spec fn save_dir_spec(override_dir: Option<Seq<char>>, home: Option<Seq<char>>) -> Seq<
    Seq<char>,
> {
    match override_dir {
        Some(d) => seq![d],
        None => match home {
            Some(h) => seq![
                h,
                "Library"@,
                "Application Support"@,
                "ps2recomp"@,
                "memcards"@,
            ],
            None => seq!["memcards"@],
        },
    }
}

pub open spec fn option_view(o: Option<String>) -> Option<Seq<char>> {
    match o {
        Some(s) => Some(s@),
        None => None,
    }
}

/// The save directory, as path components, from the `PS2X_SAVE_DIR` override
/// and the `HOME` directory (each `None` when unset).
pub fn save_dir_components(override_dir: Option<String>, home: Option<String>) -> (r: Vec<String>)
    ensures
        r@.map_values(|c: String| c@) == save_dir_spec(option_view(override_dir), option_view(home)),
        override_dir matches Some(d) ==> r@.len() == 1 && r@[0]@ == d@,
        override_dir is None ==> (home matches Some(h) ==> {
            &&& r@.len() == 5
            &&& r@[0]@ == h@
            &&& r@[1]@ == "Library"@
            &&& r@[2]@ == "Application Support"@
            &&& r@[3]@ == "ps2recomp"@
            &&& r@[4]@ == "memcards"@
        }),
        override_dir is None && home is None ==> r@.len() == 1 && r@[0]@ == "memcards"@,
{
    let mut r: Vec<String> = Vec::new();
    match override_dir {
        Some(d) => {
            r.push(d);
        },
        None => match home {
            Some(h) => {
                r.push(h);
                r.push(String::from_str("Library"));
                r.push(String::from_str("Application Support"));
                r.push(String::from_str("ps2recomp"));
                r.push(String::from_str("memcards"));
            },
            None => {
                r.push(String::from_str("memcards"));
            },
        },
    }
    assert(r@.map_values(|c: String| c@) =~= save_dir_spec(option_view(override_dir), option_view(home)));
    r
}

/// An explicit override is the save directory whatever `HOME` holds.
pub proof fn lemma_override_wins(d: Seq<char>, home: Option<Seq<char>>, other_home: Option<Seq<char>>)
    ensures
        save_dir_spec(Some(d), home) == seq![d],
        save_dir_spec(Some(d), home) == save_dir_spec(Some(d), other_home),
{
}

/// Without an override, the directory lies under `HOME` when it is set, and
/// is the relative `memcards` only when it is not; either way it ends in
/// `memcards`.
pub proof fn lemma_home_fallback(h: Seq<char>)
    ensures
        save_dir_spec(None, Some(h)).len() == 5,
        save_dir_spec(None, Some(h))[0] == h,
        save_dir_spec(None, Some(h)).last() == "memcards"@,
        save_dir_spec(None, None) == seq!["memcards"@],
{
}

/// Where a card request stands in the card table.
#[derive(Clone, Copy, Debug, PartialEq, Eq)]
pub enum CardLookup {
    /// (port, slot) names no connected card.
    Invalid,
    /// The card at this table position has no backing handle yet.
    Closed(usize),
    /// The card at this table position is open.
    Open(usize),
}

/// The backing handles of the cards, one per table position, each opened on
/// first access and kept open afterwards.
pub struct CardTable<F> {
    cards: [Option<F>; 2],
}

impl<F> View for CardTable<F> {
    type V = Seq<Option<F>>;

    closed spec fn view(&self) -> Seq<Option<F>> {
        self.cards@
    }
}

impl<F> CardTable<F> {
    /// A table with every card closed.
    pub fn new() -> (t: CardTable<F>)
        ensures
            t@ == Seq::new((MC_PORTS * MC_SLOTS) as nat, |i: int| None::<F>),
    {
        let cards: [Option<F>; 2] = [None, None];
        assert(cards@ =~= Seq::new((MC_PORTS * MC_SLOTS) as nat, |i: int| None::<F>));
        CardTable { cards }
    }

    /// Where card (port, slot) stands: not a card, closed, or open.
    pub fn lookup(&self, port: i32, slot: i32) -> (r: CardLookup)
        ensures
            self@.len() == MC_PORTS * MC_SLOTS,
            r == (if !valid_card(port as int, slot as int) {
                CardLookup::Invalid
            } else if self@[card_position(port as int, slot as int)] is Some {
                CardLookup::Open(card_position(port as int, slot as int) as usize)
            } else {
                CardLookup::Closed(card_position(port as int, slot as int) as usize)
            }),
    {
        match card_index(port, slot) {
            None => CardLookup::Invalid,
            Some(i) => {
                if self.cards[i].is_some() {
                    CardLookup::Open(i)
                } else {
                    CardLookup::Closed(i)
                }
            },
        }
    }

    /// Keep `handle` as the backing of the card at table position `i`.
    pub fn put(&mut self, i: usize, handle: F)
        requires
            i < MC_PORTS * MC_SLOTS,
        ensures
            final(self)@ == old(self)@.update(i as int, Some(handle)),
    {
        self.cards[i] = Some(handle);
    }

    /// Take the backing of the card at table position `i` out of the table,
    /// leaving it closed.
    pub fn take(&mut self, i: usize) -> (r: Option<F>)
        requires
            i < MC_PORTS * MC_SLOTS,
        ensures
            r == old(self)@[i as int],
            final(self)@ == old(self)@.update(i as int, None),
    {
        let mut out: Option<F> = None;
        std::mem::swap(&mut out, &mut self.cards[i]);
        out
    }
}

/// Putting back the handle that was taken from a position leaves the table as
/// it was.
pub proof fn lemma_take_put_restores<F>(t: Seq<Option<F>>, i: int, handle: F)
    requires
        0 <= i < t.len(),
        t[i] == Some(handle),
    ensures
        t.update(i, None).update(i, Some(handle)) == t,
{
    assert(t.update(i, None).update(i, Some(handle)) =~= t);
}

/// Once a card is put in the table, a lookup of its (port, slot) finds it
/// open, and the other card is left as it was.
pub proof fn lemma_put_then_lookup<F>(t: Seq<Option<F>>, port: int, slot: int, handle: F)
    requires
        t.len() == MC_PORTS * MC_SLOTS,
        valid_card(port, slot),
    ensures
        t.update(card_position(port, slot), Some(handle))[card_position(port, slot)] is Some,
        forall|j: int|
            0 <= j < t.len() && j != card_position(port, slot) ==> #[trigger] t.update(
                card_position(port, slot),
                Some(handle),
            )[j] == t[j],
{
}

} // verus!
