use vstd::prelude::*;
use vstd::string::StringExecFns;

verus! {

/// The lower-case hexadecimal digit of a value below sixteen.
pub open spec fn hex_digit(value: u128) -> char {
    if value == 0 {
        '0'
    } else if value == 1 {
        '1'
    } else if value == 2 {
        '2'
    } else if value == 3 {
        '3'
    } else if value == 4 {
        '4'
    } else if value == 5 {
        '5'
    } else if value == 6 {
        '6'
    } else if value == 7 {
        '7'
    } else if value == 8 {
        '8'
    } else if value == 9 {
        '9'
    } else if value == 10 {
        'a'
    } else if value == 11 {
        'b'
    } else if value == 12 {
        'c'
    } else if value == 13 {
        'd'
    } else if value == 14 {
        'e'
    } else {
        'f'
    }
}

/// The hexadecimal digit of `id` that is `shift` bits above the lowest one.
pub open spec fn digit_above(id: u128, shift: u32) -> u128 {
    (id >> shift) & 0xf
}

/// True for the four positions of a UUID's text that hold a hyphen.
pub open spec fn is_hyphen(position: int) -> bool {
    position == 8 || position == 13 || position == 18 || position == 23
}

/// How many bits the digit at a position of a UUID's text stands above the lowest digit
/// of the identifier: the first position holds the most significant digit, and hyphens
/// take a position but no digit.
pub open spec fn shift_at(position: int) -> u32 {
    if position < 8 {
        (4 * (31 - position)) as u32
    } else if position < 13 {
        (4 * (32 - position)) as u32
    } else if position < 18 {
        (4 * (33 - position)) as u32
    } else if position < 23 {
        (4 * (34 - position)) as u32
    } else {
        (4 * (35 - position)) as u32
    }
}

/// The text of the UUID whose 128-bit value is `id`: 32 lower-case hexadecimal digits,
/// the most significant first, in groups of 8, 4, 4, 4 and 12 with a hyphen between two
/// groups.
pub open spec fn hyphenated(id: u128) -> Seq<char> {
    Seq::new(
        36,
        |position: int|
            if is_hyphen(position) {
                '-'
            } else {
                hex_digit(digit_above(id, shift_at(position)))
            },
    )
}

/// The text of one hexadecimal digit.
fn hex_digit_text(value: u128) -> (text: &'static str)
    requires
        value < 16,
    ensures
        text@ == seq![hex_digit(value)],
{
    proof {
        reveal_strlit("0");
        reveal_strlit("1");
        reveal_strlit("2");
        reveal_strlit("3");
        reveal_strlit("4");
        reveal_strlit("5");
        reveal_strlit("6");
        reveal_strlit("7");
        reveal_strlit("8");
        reveal_strlit("9");
        reveal_strlit("a");
        reveal_strlit("b");
        reveal_strlit("c");
        reveal_strlit("d");
        reveal_strlit("e");
        reveal_strlit("f");
    }
    let text = if value == 0 {
        "0"
    } else if value == 1 {
        "1"
    } else if value == 2 {
        "2"
    } else if value == 3 {
        "3"
    } else if value == 4 {
        "4"
    } else if value == 5 {
        "5"
    } else if value == 6 {
        "6"
    } else if value == 7 {
        "7"
    } else if value == 8 {
        "8"
    } else if value == 9 {
        "9"
    } else if value == 10 {
        "a"
    } else if value == 11 {
        "b"
    } else if value == 12 {
        "c"
    } else if value == 13 {
        "d"
    } else if value == 14 {
        "e"
    } else {
        "f"
    };
    assert(text@ =~= seq![hex_digit(value)]);
    text
}

/// Writes an identifier as the text of its UUID.
pub fn uuid_text(id: u128) -> (text: String)
    ensures
        text@ == hyphenated(id),
{
    let mut text = String::new();
    let mut position: u32 = 0;
    while position < 36
        invariant
            position <= 36,
            text@ == hyphenated(id).subrange(0, position as int),
        decreases 36 - position,
    {
        if position == 8 || position == 13 || position == 18 || position == 23 {
            proof {
                reveal_strlit("-");
            }
            text.append("-");
        } else {
            let shift: u32 = if position < 8 {
                4 * (31 - position)
            } else if position < 13 {
                4 * (32 - position)
            } else if position < 18 {
                4 * (33 - position)
            } else if position < 23 {
                4 * (34 - position)
            } else {
                4 * (35 - position)
            };
            let digit: u128 = (id >> shift) & 0xf;
            assert(digit < 16) by (bit_vector)
                requires
                    digit == (id >> shift) & 0xf,
            ;
            text.append(hex_digit_text(digit));
        }
        assert(text@ =~= hyphenated(id).subrange(0, position + 1));
        position = position + 1;
    }
    assert(text@ =~= hyphenated(id));
    text
}

/// The identifier that `uuid` reads from a text: the 128-bit value of the UUID, or `None`
/// where the text is no UUID in any of the forms that it accepts.
pub uninterp spec fn uuid_value(text: Seq<char>) -> Option<u128>;

/// True when `id` is what a text has to read as if the text is the one that is written
/// for a UUID: the identifier of that UUID.
pub open spec fn reads_back(text: Seq<char>, id: Option<u128>) -> bool {
    forall|written: u128| text == #[trigger] hyphenated(written) ==> id == Some(written)
}

/// `uuid::Uuid::parse_str`, and `as_u128` on what it gives. A text of 36 characters with
/// hyphens after 8, 13, 18 and 23 of them and hexadecimal digits elsewhere is read as the
/// UUID with these digits, the most significant first: so the text that is written for a
/// UUID reads back as that UUID.
#[verifier::external_body]
pub(crate) fn parse_uuid(text: &str) -> (id: Option<u128>)
    ensures
        id == uuid_value(text@),
        reads_back(text@, id),
{
    uuid::Uuid::parse_str(text).ok().map(|parsed| parsed.as_u128())
}

} // verus!
