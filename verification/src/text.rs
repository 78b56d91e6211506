//! Text for people: numbers in decimal, bytes in hexadecimal, lines without their endings.
use bitcoin::hex::FromHex;
use vstd::prelude::*;
use vstd::string::*;

verus! {

/// The decimal digits of a number, without leading zeros.
pub open spec fn decimal_text(n: nat) -> Seq<char>
    decreases n,
{
    if n < 10 {
        seq![digit_char(n)]
    } else {
        decimal_text(n / 10).push(digit_char(n % 10))
    }
}

/// The lower-case digit for a value below sixteen.
pub open spec fn digit_char(d: nat) -> char {
    if d < 10 {
        ('0' as nat + d) as char
    } else {
        ('a' as nat + (d - 10)) as char
    }
}

/// Two lower-case hexadecimal digits for each byte, the high one first.
pub open spec fn hex_text(bytes: Seq<u8>) -> Seq<char> {
    Seq::new(
        2 * bytes.len(),
        |i: int|
            if i % 2 == 0 {
                digit_char(bytes[i / 2] as nat / 16)
            } else {
                digit_char(bytes[i / 2] as nat % 16)
            },
    )
}

/// The value of a hexadecimal digit of either case.
pub open spec fn digit_value(c: char) -> Option<nat> {
    if '0' <= c <= '9' {
        Some((c as nat - '0' as nat) as nat)
    } else if 'a' <= c <= 'f' {
        Some((c as nat - 'a' as nat + 10) as nat)
    } else if 'A' <= c <= 'F' {
        Some((c as nat - 'A' as nat + 10) as nat)
    } else {
        None
    }
}

/// Whether text is pairs of hexadecimal digits and nothing else.
pub open spec fn is_hex(text: Seq<char>) -> bool {
    text.len() % 2 == 0 && forall|i: int|
        0 <= i < text.len() ==> (#[trigger] digit_value(text[i])) is Some
}

/// The bytes that pairs of hexadecimal digits spell.
pub open spec fn hex_bytes(text: Seq<char>) -> Seq<u8> {
    Seq::new(
        text.len() / 2,
        |i: int|
            (digit_value(text[2 * i])->0 * 16 + digit_value(text[2 * i + 1])->0) as u8,
    )
}

/// Calls `from_hex` of the `hex-conservative` crate, which takes pairs of hexadecimal digits of
/// either case and refuses all else.
#[verifier::external_body]
fn decode_hex(text: &str) -> (res: Option<Vec<u8>>)
    ensures
        res is Some <==> is_hex(text@),
        res matches Some(bytes) ==> bytes@ == hex_bytes(text@),
{
    Vec::<u8>::from_hex(text).ok()
}

/// Reads bytes from hexadecimal text.
pub fn parse_hex(text: &str) -> (res: Option<Vec<u8>>)
    ensures
        res is Some <==> is_hex(text@),
        res matches Some(bytes) ==> bytes@ == hex_bytes(text@),
{
    decode_hex(text)
}

fn digit(d: u8) -> (res: &'static str)
    requires
        d < 16,
    ensures
        res@ == seq![digit_char(d as nat)],
{
    proof {
        reveal_strlit("0");
        reveal_strlit("1");
        reveal_strlit("2");
        reveal_strlit("3");
        reveal_strlit("4");
        reveal_strlit("5");
        reveal_strlit("6");
        reveal_strlit("7");
        reveal_strlit("8");
        reveal_strlit("9");
        reveal_strlit("a");
        reveal_strlit("b");
        reveal_strlit("c");
        reveal_strlit("d");
        reveal_strlit("e");
        reveal_strlit("f");
    }
    let res = match d {
        0 => "0",
        1 => "1",
        2 => "2",
        3 => "3",
        4 => "4",
        5 => "5",
        6 => "6",
        7 => "7",
        8 => "8",
        9 => "9",
        10 => "a",
        11 => "b",
        12 => "c",
        13 => "d",
        14 => "e",
        _ => "f",
    };
    assert(res@ =~= seq![digit_char(d as nat)]);
    res
}

/// Writes a number in decimal.
pub fn decimal(n: u64) -> (res: String)
    ensures
        res@ == decimal_text(n as nat),
    decreases n,
{
    if n < 10 {
        String::from_str(digit(n as u8))
    } else {
        let mut text = decimal(n / 10);
        text.append(digit((n % 10) as u8));
        assert(text@ =~= decimal_text(n as nat));
        text
    }
}

/// Writes bytes in lower-case hexadecimal.
pub fn to_hex(bytes: &[u8]) -> (res: String)
    ensures
        res@ == hex_text(bytes@),
{
    let mut text = String::new();
    let mut i: usize = 0;
    while i < bytes.len()
        invariant
            i <= bytes.len(),
            text@ == hex_text(bytes@.take(i as int)),
        decreases bytes.len() - i,
    {
        let byte = bytes[i];
        text.append(digit(byte / 16));
        text.append(digit(byte % 16));
        i += 1;
        assert(text@ =~= hex_text(bytes@.take(i as int)));
    }
    assert(bytes@.take(i as int) =~= bytes@);
    text
}

/// Bytes written in hexadecimal are read back as they were.
pub proof fn hex_reads_back(bytes: Seq<u8>)
    ensures
        is_hex(hex_text(bytes)),
        hex_bytes(hex_text(bytes)) == bytes,
{
    let text = hex_text(bytes);
    assert forall|d: nat| d < 16 implies #[trigger] digit_value(digit_char(d)) == Some(d) by {}
    assert forall|i: int| 0 <= i < text.len() implies (#[trigger] digit_value(text[i])) is Some by {
        let high = bytes[i / 2] as nat / 16;
        let low = bytes[i / 2] as nat % 16;
        assert(digit_value(digit_char(high)) == Some(high));
        assert(digit_value(digit_char(low)) == Some(low));
    }
    assert forall|i: int| 0 <= i < bytes.len() implies #[trigger] hex_bytes(text)[i] == bytes[i] by {
        let high = bytes[i] as nat / 16;
        let low = bytes[i] as nat % 16;
        assert(text[2 * i] == digit_char(high));
        assert(text[2 * i + 1] == digit_char(low));
        assert(digit_value(digit_char(high)) == Some(high));
        assert(digit_value(digit_char(low)) == Some(low));
    }
    assert(hex_bytes(text) =~= bytes);
}

/// One text after the other.
pub fn joined(first: &str, second: &str) -> (res: String)
    ensures
        res@ == first@ + second@,
{
    let mut text = first.to_owned();
    text.append(second);
    text
}

/// A line without the line ending that it may have: a newline, or a carriage return and one.
pub open spec fn without_line_ending(line: Seq<char>) -> Seq<char> {
    let n = line.len();
    if n >= 2 && line[n - 2] == '\r' && line[n - 1] == '\n' {
        line.take(n - 2)
    } else if n >= 1 && line[n - 1] == '\n' {
        line.take(n - 1)
    } else {
        line
    }
}

/// Takes one line ending off.
pub fn strip_line_ending(line: &str) -> (res: &str)
    ensures
        res@ == without_line_ending(line@),
{
    let n: usize = line.unicode_len();
    if n >= 1 && line.get_char(n - 1) == '\n' {
        if n >= 2 && line.get_char(n - 2) == '\r' {
            return line.substring_char(0, n - 2);
        }
        return line.substring_char(0, n - 1);
    }
    line
}

/// The number that decimal digits spell.
pub open spec fn decimal_value(text: Seq<char>) -> nat
    decreases text.len(),
{
    if text.len() == 0 {
        0
    } else {
        (10 * decimal_value(text.drop_last()) + (text.last() as nat - '0' as nat)) as nat
    }
}

/// A number written in decimal is digits that spell it, without a zero in front.
pub proof fn decimal_reads_back(n: nat)
    ensures
        decimal_value(decimal_text(n)) == n,
        decimal_text(n).len() > 0,
        forall|i: int| 0 <= i < decimal_text(n).len() ==> '0' <= #[trigger] decimal_text(n)[i] <= '9',
        decimal_text(n)[0] == '0' ==> n == 0,
    decreases n,
{
    let text = decimal_text(n);
    if n < 10 {
        reveal_with_fuel(decimal_value, 2);
        assert(text.drop_last() =~= seq![]);
    } else {
        decimal_reads_back(n / 10);
        assert(text.drop_last() =~= decimal_text(n / 10));
        assert forall|i: int| 0 <= i < text.len() implies '0' <= #[trigger] text[i] <= '9' by {
            if i < text.len() - 1 {
                assert(text[i] == decimal_text(n / 10)[i]);
            }
        }
        assert(text[0] == decimal_text(n / 10)[0]);
    }
}

/// Each byte is written as two digits, lower-case, the high one first.
pub proof fn hex_digits_spell_bytes(bytes: Seq<u8>)
    ensures
        hex_text(bytes).len() == 2 * bytes.len(),
        forall|i: int|
            0 <= i < bytes.len() ==> {
                let high = #[trigger] hex_text(bytes)[2 * i];
                let low = hex_text(bytes)[2 * i + 1];
                &&& '0' <= high <= '9' || 'a' <= high <= 'f'
                &&& '0' <= low <= '9' || 'a' <= low <= 'f'
                &&& bytes[i] == 16 * (if high <= '9' {
                    high as int - '0' as int
                } else {
                    high as int - 'a' as int + 10
                }) + (if low <= '9' {
                    low as int - '0' as int
                } else {
                    low as int - 'a' as int + 10
                })
            },
{
    let text = hex_text(bytes);
    assert forall|i: int| 0 <= i < bytes.len() implies text[2 * i] == digit_char(
        bytes[i] as nat / 16,
    ) && text[2 * i + 1] == digit_char(bytes[i] as nat % 16) by {
        assert((2 * i) / 2 == i);
        assert((2 * i + 1) / 2 == i);
    }
}

/// Digits of either case are read, the high one first, and nothing else is.
pub proof fn hex_is_read_digit_by_digit(text: Seq<char>, high: char, low: char)
    ensures
        is_hex(text.push(high).push(low)) <==> is_hex(text) && digit_value(high) is Some
            && digit_value(low) is Some,
        is_hex(text.push(high)) ==> text.len() % 2 == 1,
        is_hex(text) && digit_value(high) is Some && digit_value(low) is Some ==> hex_bytes(
            text.push(high).push(low),
        ) == hex_bytes(text).push((16 * digit_value(high)->0 + digit_value(low)->0) as u8),
        digit_value(high) is Some <==> ('0' <= high <= '9' || 'a' <= high <= 'f' || 'A' <= high
            <= 'F'),
        '0' <= high <= '9' ==> digit_value(high)->0 == high as int - '0' as int,
        'a' <= high <= 'f' ==> digit_value(high)->0 == high as int - 'a' as int + 10,
        'A' <= high <= 'F' ==> digit_value(high)->0 == high as int - 'A' as int + 10,
{
    let longer = text.push(high).push(low);
    assert(forall|i: int| 0 <= i < text.len() ==> longer[i] == text[i]);
    assert(longer[text.len() as int] == high);
    assert(longer[text.len() as int + 1] == low);
    if is_hex(longer) {
        assert(digit_value(longer[text.len() as int]) is Some);
        assert(digit_value(longer[text.len() as int + 1]) is Some);
        assert forall|i: int| 0 <= i < text.len() implies (#[trigger] digit_value(text[i])) is Some by {
            assert(digit_value(longer[i]) is Some);
        }
    }
    if is_hex(text) && digit_value(high) is Some && digit_value(low) is Some {
        assert forall|i: int| 0 <= i < longer.len() implies (#[trigger] digit_value(
            longer[i],
        )) is Some by {
            if i < text.len() {
                assert(digit_value(text[i]) is Some);
            }
        }
        assert(hex_bytes(longer) =~= hex_bytes(text).push(
            (16 * digit_value(high)->0 + digit_value(low)->0) as u8,
        ));
    }
}

/// One line ending comes off: a newline, with the carriage return before it if there is one. A
/// line without a newline stays as it is.
pub proof fn line_endings_come_off(line: Seq<char>)
    ensures
        without_line_ending(line + seq!['\r', '\n']) == line,
        line.len() > 0 && line.last() == '\r' || without_line_ending(line + seq!['\n']) == line,
        line.len() > 0 && line.last() == '\n' || without_line_ending(line) == line,
{
    let both = line + seq!['\r', '\n'];
    assert(both.take(both.len() - 2) =~= line);
    let one = line + seq!['\n'];
    assert(one.take(one.len() - 1) =~= line);
    if line.len() > 0 {
        assert(one[one.len() - 2] == line.last());
    }
}

/// Reading what was written gives the bytes back, and one text after the other is both.
pub proof fn written_bytes_are_read(
    bytes: &[u8],
    written: String,
    text: &str,
    read: Option<Vec<u8>>,
    first: &str,
    second: &str,
    both: String,
)
    ensures
        call_ensures(to_hex, (bytes,), written) && text@ == written@ && call_ensures(
            parse_hex,
            (text,),
            read,
        ) ==> (read matches Some(back) && back@ == bytes@),
        call_ensures(joined, (first, second), both) ==> both@.len() == first@.len() + second@.len()
            && both@.take(first@.len() as int) == first@ && both@.skip(first@.len() as int)
            == second@,
{
    hex_reads_back(bytes@);
    assert((first@ + second@).take(first@.len() as int) =~= first@);
    assert((first@ + second@).skip(first@.len() as int) =~= second@);
}

} // verus!
