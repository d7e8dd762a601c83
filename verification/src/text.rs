//! Text: decimal numerals, the debug form of values, and lists of lines.

use vstd::prelude::*;

verus! {

/// The character of a decimal digit.
pub open spec fn digit(d: nat) -> char
    recommends
        d < 10,
{
    (('0' as int) + d) as char
}

/// The decimal numeral of `n`, without leading zeros.
pub open spec fn decimal(n: nat) -> Seq<char>
    decreases n,
{
    if n < 10 {
        seq![digit(n)]
    } else {
        decimal(n / 10).push(digit(n % 10))
    }
}

/// The number that a numeral stands for, read digit by digit.
pub open spec fn numeral_value(s: Seq<char>) -> int
    decreases s.len(),
{
    if s.len() == 0 {
        0
    } else {
        10 * numeral_value(s.drop_last()) + (s.last() as int - '0' as int)
    }
}

/// A decimal numeral reads back as the number that it was written for.
pub proof fn law_decimal_reads_back(n: nat)
    ensures
        numeral_value(decimal(n)) == n,
    decreases n,
{
    reveal_with_fuel(numeral_value, 2);
    if n >= 10 {
        law_decimal_reads_back(n / 10);
        assert(decimal(n).drop_last() =~= decimal(n / 10));
    }
}

/// A numeral is made of the digits from zero to nine, at least one, and the first is a
/// zero only where it is the number zero.
pub proof fn law_decimal_is_a_plain_numeral(n: nat)
    ensures
        decimal(n).len() > 0,
        forall|i: int| 0 <= i < decimal(n).len() ==> '0' <= #[trigger] decimal(n)[i] <= '9',
        decimal(n)[0] == '0' <==> n == 0,
        n == 0 ==> decimal(n).len() == 1,
    decreases n,
{
    if n >= 10 {
        law_decimal_is_a_plain_numeral(n / 10);
        assert(decimal(n)[0] == decimal(n / 10)[0]);
        assert forall|i: int| 0 <= i < decimal(n).len() implies '0' <= #[trigger] decimal(n)[i]
            <= '9' by {
            if i < decimal(n).len() - 1 {
                assert(decimal(n)[i] == decimal(n / 10)[i]);
            }
        }
    }
}

/// Two numbers with the same numeral are the same number.
pub proof fn law_decimal_tells_numbers_apart(a: nat, b: nat)
    requires
        decimal(a) == decimal(b),
    ensures
        a == b,
{
    law_decimal_reads_back(a);
    law_decimal_reads_back(b);
}

/// The text of one digit.
fn digit_text(d: u8) -> (text: &'static str)
    requires
        d < 10,
    ensures
        text@ == seq![digit(d as nat)],
{
    proof {
        reveal_strlit("0");
        reveal_strlit("1");
        reveal_strlit("2");
        reveal_strlit("3");
        reveal_strlit("4");
        reveal_strlit("5");
        reveal_strlit("6");
        reveal_strlit("7");
        reveal_strlit("8");
        reveal_strlit("9");
    }
    let text = match d {
        0 => "0",
        1 => "1",
        2 => "2",
        3 => "3",
        4 => "4",
        5 => "5",
        6 => "6",
        7 => "7",
        8 => "8",
        _ => "9",
    };
    assert(text@ =~= seq![digit(d as nat)]);
    text
}

/// Writes `n` in decimal.
pub fn decimal_text(n: u128) -> (text: String)
    ensures
        text@ == decimal(n as nat),
    decreases n,
{
    if n < 10 {
        digit_text(n as u8).to_string()
    } else {
        let text = decimal_text(n / 10).concat(digit_text((n % 10) as u8));
        assert(text@ =~= decimal(n as nat));
        text
    }
}

/// What `{:?}` prints for a string slice that holds `s`.
pub uninterp spec fn debug_text(s: Seq<char>) -> Seq<char>;

/// `format!("{:?}", s)` of the standard library, for a string slice. The contract
/// claims only that the text is a function of the characters of `s`.
#[verifier::external_body]
fn quoted(s: &str) -> (text: String)
    ensures
        text@ == debug_text(s@),
{
    format!("{:?}", s)
}

/// The view of an optional string.
pub open spec fn optional_text(value: Option<String>) -> Option<Seq<char>> {
    match value {
        Some(text) => Some(text@),
        None => None,
    }
}

/// The debug form of an optional string: `None`, or the quoted string in `Some(..)`.
pub open spec fn debug_optional(value: Option<Seq<char>>) -> Seq<char> {
    match value {
        Some(text) => "Some("@ + debug_text(text) + ")"@,
        None => "None"@,
    }
}

/// The debug form of an optional string.
pub fn debug_optional_text(value: &Option<String>) -> (text: String)
    ensures
        text@ == debug_optional(optional_text(*value)),
        *value is None ==> text@ == "None"@,
        *value matches Some(held) ==> text@ == "Some("@ + debug_text(held@) + ")"@,
{
    match value {
        Some(text) => "Some(".to_string().concat(quoted(text.as_str()).as_str()).concat(")"),
        None => "None".to_string(),
    }
}

/// The view of an optional string keeps what there is: it holds a text exactly where the
/// string is there, and the characters are the string's.
pub proof fn law_optional_text_keeps_the_text(value: Option<String>)
    ensures
        optional_text(value) is Some <==> value is Some,
        value matches Some(text) ==> optional_text(value)->0 == text@,
{
}

/// The debug form tells a missing string from any that is there, and shows the latter
/// between the same brackets, whatever it holds.
pub proof fn law_debug_form_shows_the_text(text: Seq<char>)
    ensures
        ({
            let shown = debug_optional(Some(text));
            &&& shown.len() == debug_text(text).len() + 6
            &&& shown.take(5) == "Some("@
            &&& shown.subrange(5, shown.len() - 1) == debug_text(text)
            &&& shown.last() == ')'
            &&& debug_optional(None) == "None"@
            &&& shown != debug_optional(None)
        }),
{
    reveal_strlit("Some(");
    reveal_strlit(")");
    reveal_strlit("None");
    let shown = debug_optional(Some(text));
    assert(shown.take(5) =~= "Some("@);
    assert(shown.subrange(5, shown.len() - 1) =~= debug_text(text));
    assert(shown[0] == 'S');
    assert("None"@[0] == 'N');
}

/// The views of a list of strings.
pub open spec fn texts(lines: Seq<String>) -> Seq<Seq<char>> {
    lines.map_values(|line: String| line@)
}

/// The views of a list of strings are those of its members, one for one and in order.
pub proof fn law_texts_keep_the_lines(lines: Seq<String>, i: int)
    requires
        0 <= i < lines.len(),
    ensures
        texts(lines).len() == lines.len(),
        texts(lines)[i] == lines[i]@,
{
}

/// An empty list of lines.
pub fn no_lines() -> (lines: Vec<String>)
    ensures
        texts(lines@) == Seq::<Seq<char>>::empty(),
        lines@.len() == 0,
{
    let lines: Vec<String> = Vec::new();
    assert(texts(lines@) =~= Seq::<Seq<char>>::empty());
    lines
}

/// The lines with one more at the end.
pub fn and_line(mut lines: Vec<String>, line: String) -> (longer: Vec<String>)
    ensures
        texts(longer@) == texts(lines@).push(line@),
        longer@ == lines@.push(line),
{
    let ghost before = lines@;
    lines.push(line);
    assert(texts(lines@) =~= texts(before).push(line@));
    lines
}

} // verus!
