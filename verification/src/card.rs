//! Cards, the codes that name them, and counted cards.
//!
//! A card code is seven characters long: two decimal digits for the set,
//! two capital letters for the faction, three decimal digits for the number
//! of the card within its set. `"01SI015"` is card 15 of faction `SI` in
//! set 1. Any two capital letters are read as a faction: which factions a
//! game knows is not decided here.

use vstd::prelude::*;
use vstd::string::StrSliceExecFns;
use crate::error::LorError;

verus! {

/// The number of characters of a card code.
pub const CARD_CODE_LEN: usize = 7;

/// The two capital letters that name a faction, in their order.
#[derive(Clone, Copy, Debug, PartialEq, Eq, Hash, Structural)]
pub struct Faction(pub char, pub char);

/// A card of the game: the set it was released in, its faction and its
/// number within the set.
#[derive(Clone, Copy, Debug, PartialEq, Eq, Hash, Structural)]
pub struct Card {
    pub set: u32,
    pub faction: Faction,
    pub number: u32,
}

/// A card together with the number of its copies.
#[derive(Clone, Copy, Debug, PartialEq, Eq, Hash, Structural)]
pub struct CardCodeAndCount {
    pub card: Card,
    pub count: i32,
}

/// Whether `c` is one of the decimal digits `0` to `9`.
pub open spec fn is_digit(c: char) -> bool {
    '0' <= c <= '9'
}

/// Whether `c` is one of the capital letters `A` to `Z`.
pub open spec fn is_capital(c: char) -> bool {
    'A' <= c <= 'Z'
}

/// The number that the decimal digit `c` stands for.
pub open spec fn digit_value(c: char) -> int
    recommends
        is_digit(c),
{
    c as int - '0' as int
}

/// Whether `code` has the shape of a card code: seven characters, of which
/// the first two and the last three are digits and the two between them
/// capital letters.
pub open spec fn is_card_code(code: Seq<char>) -> bool {
    &&& code.len() == CARD_CODE_LEN
    &&& is_digit(code[0])
    &&& is_digit(code[1])
    &&& is_capital(code[2])
    &&& is_capital(code[3])
    &&& is_digit(code[4])
    &&& is_digit(code[5])
    &&& is_digit(code[6])
}

/// The card that `code` names, if it names one: the digits read as decimal
/// numbers, the letters taken as they stand.
pub open spec fn card_of_code(code: Seq<char>) -> Option<Card> {
    if is_card_code(code) {
        Some(
            Card {
                set: (10 * digit_value(code[0]) + digit_value(code[1])) as u32,
                faction: Faction(code[2], code[3]),
                number: (100 * digit_value(code[4]) + 10 * digit_value(code[5]) + digit_value(
                    code[6],
                )) as u32,
            },
        )
    } else {
        None
    }
}

/// The entry that `code` and `count` describe, if `code` names a card.
pub open spec fn entry_of_data(code: Seq<char>, count: i32) -> Option<CardCodeAndCount> {
    match card_of_code(code) {
        Some(card) => Some(CardCodeAndCount { card, count }),
        None => None,
    }
}

/// The card that a code names holds what the code spells: a set below 100,
/// a number below 1000, both as the digits give them, and two capital
/// letters.
pub proof fn lemma_card_of_code_in_range(code: Seq<char>)
    requires
        is_card_code(code),
    ensures
        card_of_code(code) matches Some(card) && {
            &&& card.set == 10 * digit_value(code[0]) + digit_value(code[1])
            &&& card.set < 100
            &&& card.faction == Faction(code[2], code[3])
            &&& is_capital(card.faction.0)
            &&& is_capital(card.faction.1)
            &&& card.number == 100 * digit_value(code[4]) + 10 * digit_value(code[5])
                + digit_value(code[6])
            &&& card.number < 1000
        },
{
}

/// Two card codes that name the same card are the same code.
pub proof fn lemma_card_of_code_is_injective(a: Seq<char>, b: Seq<char>)
    requires
        is_card_code(a),
        is_card_code(b),
        card_of_code(a) == card_of_code(b),
    ensures
        a == b,
{
    lemma_card_of_code_in_range(a);
    lemma_card_of_code_in_range(b);
    assert(a =~= b);
}

/// A text with a character beyond ASCII is no card code.
proof fn lemma_card_code_is_ascii(code: Seq<char>)
    requires
        is_card_code(code),
    ensures
        vstd::utf8::is_ascii_chars(code),
{
    assert forall|i: int| 0 <= i < code.len() implies '\0' <= #[trigger] code[i] <= '\u{7f}' by {
        if i == 0 {
        } else if i == 1 {
        } else if i == 2 {
        } else if i == 3 {
        } else if i == 4 {
        } else if i == 5 {
        } else {
            assert(i == 6);
        }
    }
}

/// The character at position `i` of an ASCII text.
fn char_at(text: &str, i: usize) -> (c: char)
    requires
        text.is_ascii(),
        i < text@.len(),
    ensures
        c == text@[i as int],
{
    let byte = text.get_ascii(i);
    proof {
        vstd::utf8::is_ascii_chars_nat_bound(text@);
    }
    byte as char
}

/// The value of `c` as a decimal digit, or `None` where it is no digit.
fn digit_of(c: char) -> (r: Option<u32>)
    ensures
        r is Some <==> is_digit(c),
        r is Some ==> r->0 == digit_value(c),
{
    if '0' <= c && c <= '9' {
        Some(c as u32 - '0' as u32)
    } else {
        None
    }
}

/// Whether `c` is a capital letter.
fn capital(c: char) -> (r: bool)
    ensures
        r == is_capital(c),
{
    'A' <= c && c <= 'Z'
}

impl Card {
    /// Reads a card code. Succeeds on exactly the texts that have the shape
    /// of a card code, with the card that the code names.
    pub fn from_code(code: &str) -> (r: Result<Card, LorError>)
        ensures
            r == match card_of_code(code@) {
                Some(card) => Ok::<Card, LorError>(card),
                None => Err(LorError::InvalidCardCode),
            },
    {
        if !code.is_ascii() {
            proof {
                if is_card_code(code@) {
                    lemma_card_code_is_ascii(code@);
                }
            }
            return Err(LorError::InvalidCardCode);
        }
        proof {
            vstd::string::is_ascii_spec_bytes(code);
        }
        if code.as_bytes().len() != CARD_CODE_LEN {
            return Err(LorError::InvalidCardCode);
        }
        let set_tens = digit_of(char_at(code, 0));
        let set_units = digit_of(char_at(code, 1));
        let first = char_at(code, 2);
        let second = char_at(code, 3);
        let hundreds = digit_of(char_at(code, 4));
        let tens = digit_of(char_at(code, 5));
        let units = digit_of(char_at(code, 6));
        match (set_tens, set_units, hundreds, tens, units) {
            (Some(st), Some(su), Some(h), Some(t), Some(u)) if capital(first) && capital(
                second,
            ) => Ok(
                Card {
                    set: 10 * st + su,
                    faction: Faction(first, second),
                    number: 100 * h + 10 * t + u,
                },
            ),
            _ => Err(LorError::InvalidCardCode),
        }
    }
}

impl CardCodeAndCount {
    /// Pairs `card` with `count`.
    pub fn new(card: Card, count: i32) -> (entry: CardCodeAndCount)
        ensures
            entry == (CardCodeAndCount { card, count }),
    {
        CardCodeAndCount { card, count }
    }

    /// Reads the card code `code` and pairs the card with `count`. Fails on
    /// exactly the texts that name no card.
    pub fn from_data(code: &str, count: i32) -> (r: Result<CardCodeAndCount, LorError>)
        ensures
            r == match entry_of_data(code@, count) {
                Some(entry) => Ok::<CardCodeAndCount, LorError>(entry),
                None => Err(LorError::InvalidCardCode),
            },
    {
        match Card::from_code(code) {
            Ok(card) => Ok(CardCodeAndCount::new(card, count)),
            Err(e) => Err(e),
        }
    }
}

} // verus!
