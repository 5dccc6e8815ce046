//! Identifiers: 128-bit numbers, read and written in the form of a UUID. The
//! number is the UUID read as one big-endian integer, so numbers compare as
//! UUIDs do.

use vstd::prelude::*;

use crate::text::ascii_lowered;

verus! {

/// The lower-case hexadecimal digit of a number below sixteen.
pub open spec fn hex_digit(n: u128) -> char {
    if n < 10 {
        (n + 0x30) as char
    } else {
        (n - 10 + 0x61) as char
    }
}

/// The hexadecimal digit at a place, counted from the most significant one.
pub open spec fn digit_at(id: u128, place: int) -> char {
    hex_digit((id >> ((124 - 4 * place) as u128)) & 0xf)
}

/// An identifier written in five groups of lower-case hexadecimal digits.
pub open spec fn hyphenated(id: u128) -> Seq<char> {
    Seq::new(
        36,
        |i: int|
            if i < 8 {
                digit_at(id, i)
            } else if i == 8 || i == 13 || i == 18 || i == 23 {
                '-'
            } else if i < 13 {
                digit_at(id, i - 1)
            } else if i < 18 {
                digit_at(id, i - 2)
            } else if i < 23 {
                digit_at(id, i - 3)
            } else {
                digit_at(id, i - 4)
            },
    )
}

/// An identifier written in hexadecimal digits alone.
pub open spec fn unhyphenated(id: u128) -> Seq<char> {
    Seq::new(32, |i: int| digit_at(id, i))
}

/// The texts that stand for an identifier, in capital or small letters: its
/// digits with hyphens or without them, and the hyphenated form in braces or
/// as a URN.
pub open spec fn written_as(id: u128, text: Seq<char>) -> bool {
    let lowered = text.map_values(|c: char| ascii_lowered(c));
    ||| lowered == hyphenated(id)
    ||| lowered == unhyphenated(id)
    ||| lowered == "{"@ + hyphenated(id) + "}"@
    ||| lowered == "urn:uuid:"@ + hyphenated(id)
}

/// The identifier that a text stands for, where it stands for one.
pub open spec fn identifier_of(text: Seq<char>) -> Option<u128> {
    if exists|id: u128| written_as(id, text) {
        Some(choose|id: u128| written_as(id, text))
    } else {
        None
    }
}

/// Calls `uuid::Uuid::parse_str`. It reads the number of a UUID out of exactly
/// the texts of `written_as`; why another text is refused is not told.
#[verifier::external_body]
fn parse_uuid(text: &str) -> (id: Option<u128>)
    ensures
        id matches Some(n) ==> written_as(n, text@),
        id is None ==> forall|n: u128| !written_as(n, text@),
{
    match uuid::Uuid::parse_str(text) {
        Ok(parsed) => Some(parsed.as_u128()),
        Err(_) => None,
    }
}

/// Reads the identifier that a text stands for.
pub fn read_identifier(text: &str) -> (id: Option<u128>)
    ensures
        id == identifier_of(text@),
{
    let id = parse_uuid(text);
    proof {
        if let Some(n) = id {
            written_form_is_read_back(n, text@);
        }
    }
    id
}

/// Calls `to_string` on a `uuid::Uuid`, whose `Display` writes the hyphenated
/// lower-case form.
#[verifier::external_body]
pub(crate) fn format_uuid(id: u128) -> (text: String)
    ensures
        text@ == hyphenated(id),
{
    uuid::Uuid::from_u128(id).to_string()
}

/// A number that carries the version and the variant of a random UUID.
pub open spec fn random_form(id: u128) -> bool {
    &&& (id >> 76) & 0xf == 4
    &&& (id >> 62) & 0x3 == 2
}

/// Calls `uuid::Uuid::new_v4`, which draws the number from the randomness of
/// the system and sets the version to 4 and the variant to that of RFC 9562.
/// The rest of the number is left to chance.
#[verifier::external_body]
fn random_uuid() -> (id: u128)
    ensures
        random_form(id),
{
    uuid::Uuid::new_v4().as_u128()
}

/// The randomness of the system gave this number when it was asked.
pub closed spec fn number_drawn(id: u128) -> bool {
    call_ensures(random_uuid, (), id)
}

/// A number was drawn where asking the system gives it, and in no other way.
proof fn numbers_come_from_the_system(id: u128)
    ensures
        number_drawn(id) ==> call_ensures(random_uuid, (), id),
{
}

/// Draws the number of a random UUID.
pub(crate) fn draw_identifier() -> (id: u128)
    ensures
        number_drawn(id),
        random_form(id),
{
    random_uuid()
}

/// Places with the same digit hold the same four bits.
proof fn same_digit_at(a: u128, b: u128, place: int)
    requires
        0 <= place < 32,
        digit_at(a, place) == digit_at(b, place),
    ensures
        (a >> ((124 - 4 * place) as u128)) & 0xf == (b >> ((124 - 4 * place) as u128)) & 0xf,
{
    let shift = (124 - 4 * place) as u128;
    let x = (a >> shift) & 0xf;
    let y = (b >> shift) & 0xf;
    assert((a >> shift) & 0xf < 16) by (bit_vector);
    assert((b >> shift) & 0xf < 16) by (bit_vector);
    assert(hex_digit(x) == hex_digit(y));
}

/// Numbers whose digits agree up to a place agree in the bits up to there.
proof fn same_leading_bits(a: u128, b: u128, places: int)
    requires
        1 <= places <= 32,
        forall|i: int| 0 <= i < places ==> #[trigger] digit_at(a, i) == digit_at(b, i),
    ensures
        a >> ((128 - 4 * places) as u128) == b >> ((128 - 4 * places) as u128),
    decreases places,
{
    let shift = (128 - 4 * places) as u128;
    assert(digit_at(a, places - 1) == digit_at(b, places - 1));
    same_digit_at(a, b, places - 1);
    if places == 1 {
        assert(a >> 124u128 == b >> 124u128) by (bit_vector)
            requires
                (a >> 124u128) & 0xf == (b >> 124u128) & 0xf,
        ;
    } else {
        same_leading_bits(a, b, places - 1);
        let above = (shift + 4) as u128;
        assert(a >> shift == b >> shift) by (bit_vector)
            requires
                shift <= 120,
                above == shift + 4,
                a >> above == b >> above,
                (a >> shift) & 0xf == (b >> shift) & 0xf,
        ;
    }
}

/// Two identifiers with the same digits are the same.
proof fn same_digits(a: u128, b: u128)
    requires
        forall|i: int| 0 <= i < 32 ==> #[trigger] digit_at(a, i) == digit_at(b, i),
    ensures
        a == b,
{
    same_leading_bits(a, b, 32);
    assert(a == b) by (bit_vector)
        requires
            a >> 0u128 == b >> 0u128,
    ;
}

/// Two identifiers that are written alike are the same.
pub proof fn written_form_is_unique(a: u128, b: u128)
    requires
        hyphenated(a) == hyphenated(b),
    ensures
        a == b,
{
    assert forall|place: int| 0 <= place < 32 implies #[trigger] digit_at(a, place) == digit_at(
        b,
        place,
    ) by {
        let i = if place < 8 {
            place
        } else if place < 12 {
            place + 1
        } else if place < 16 {
            place + 2
        } else if place < 20 {
            place + 3
        } else {
            place + 4
        };
        assert(hyphenated(a)[i] == hyphenated(b)[i]);
        assert(hyphenated(a)[i] == digit_at(a, place));
        assert(hyphenated(b)[i] == digit_at(b, place));
    }
    same_digits(a, b);
}

/// A written identifier is made of hexadecimal digits and hyphens.
pub proof fn written_form_is_plain(id: u128)
    ensures
        forall|i: int|
            0 <= i < 36 ==> {
                let c = #[trigger] hyphenated(id)[i];
                '0' <= c <= '9' || 'a' <= c <= 'f' || c == '-'
            },
{
    assert forall|place: int| 0 <= place < 32 implies {
        let c = #[trigger] digit_at(id, place);
        '0' <= c <= '9' || 'a' <= c <= 'f'
    } by {
        let shift = (124 - 4 * place) as u128;
        assert((id >> shift) & 0xf < 16) by (bit_vector);
    }
}

/// A text that stands for an identifier stands for no other, and is read as
/// that one.
pub proof fn written_form_is_read_back(id: u128, text: Seq<char>)
    requires
        written_as(id, text),
    ensures
        identifier_of(text) == Some(id),
{
    reveal_strlit("{");
    reveal_strlit("}");
    reveal_strlit("urn:uuid:");
    let lowered = text.map_values(|c: char| ascii_lowered(c));
    let read = choose|n: u128| written_as(n, text);
    assert(written_as(read, text));
    if lowered.len() == 32 {
        assert forall|i: int| 0 <= i < 32 implies #[trigger] digit_at(id, i) == digit_at(
            read,
            i,
        ) by {
            assert(unhyphenated(id)[i] == unhyphenated(read)[i]);
        }
        same_digits(id, read);
    } else {
        let start: int = if lowered.len() == 36 {
            0
        } else if lowered.len() == 38 {
            1
        } else {
            9
        };
        assert(lowered.subrange(start, start + 36) =~= hyphenated(id));
        assert(lowered.subrange(start, start + 36) =~= hyphenated(read));
        written_form_is_unique(id, read);
    }
}

/// A text whose length is none of those of the written forms stands for no
/// identifier.
pub proof fn other_lengths_stand_for_nothing(text: Seq<char>)
    requires
        text.len() != 32,
        text.len() != 36,
        text.len() != 38,
        text.len() != 45,
    ensures
        identifier_of(text) is None,
{
    reveal_strlit("{");
    reveal_strlit("}");
    reveal_strlit("urn:uuid:");
    assert forall|id: u128| !written_as(id, text) by {
        assert(text.map_values(|c: char| ascii_lowered(c)).len() == text.len());
    }
}

/// The hyphenated form of an identifier is read as that identifier.
pub proof fn hyphenated_form_is_read_back(id: u128)
    ensures
        identifier_of(hyphenated(id)) == Some(id),
{
    let text = hyphenated(id);
    written_form_is_plain(id);
    assert(text.map_values(|c: char| ascii_lowered(c)) =~= text) by {
        assert forall|i: int| 0 <= i < text.len() implies ascii_lowered(
            #[trigger] text[i],
        ) == text[i] by {
            assert('0' <= hyphenated(id)[i] <= '9' || 'a' <= hyphenated(id)[i] <= 'f' || hyphenated(
                id,
            )[i] == '-');
        }
    }
    written_form_is_read_back(id, text);
}

} // verus!
