//! The little of text handling the rest of the crate is made of: trimming,
//! splitting, and reading and writing numbers.
use vstd::prelude::*;
use vstd::string::*;

verus! {

/// `String::push` appends the character to the end of the text and changes
/// nothing else.
pub assume_specification[ String::push ](text: &mut String, c: char)
    ensures
        final(text)@ == old(text)@.push(c),
;

/// Whether a character is white space, in Unicode's `White_Space` sense.
pub open spec fn white_space(c: char) -> bool {
    ||| '\u{9}' <= c <= '\u{d}'
    ||| c == '\u{20}'
    ||| c == '\u{85}'
    ||| c == '\u{a0}'
    ||| c == '\u{1680}'
    ||| '\u{2000}' <= c <= '\u{200a}'
    ||| c == '\u{2028}'
    ||| c == '\u{2029}'
    ||| c == '\u{202f}'
    ||| c == '\u{205f}'
    ||| c == '\u{3000}'
}

/// The text without the white space at its end.
pub open spec fn trimmed_end(s: Seq<char>) -> Seq<char>
    decreases s.len(),
{
    if s.len() > 0 && white_space(s.last()) {
        trimmed_end(s.drop_last())
    } else {
        s
    }
}

/// The text without the white space at its start.
pub open spec fn trimmed_start(s: Seq<char>) -> Seq<char>
    decreases s.len(),
{
    if s.len() > 0 && white_space(s.first()) {
        trimmed_start(s.drop_first())
    } else {
        s
    }
}

/// The text without the white space at either end.
pub open spec fn trimmed(s: Seq<char>) -> Seq<char> {
    trimmed_end(trimmed_start(s))
}

/// Whether a character is white space.
pub fn is_white_space(c: char) -> (r: bool)
    ensures
        r == white_space(c),
{
    ('\u{9}' <= c && c <= '\u{d}') || c == '\u{20}' || c == '\u{85}' || c == '\u{a0}' || c
        == '\u{1680}' || ('\u{2000}' <= c && c <= '\u{200a}') || c == '\u{2028}' || c == '\u{2029}'
        || c == '\u{202f}' || c == '\u{205f}' || c == '\u{3000}'
}

/// The characters of a text, one by one.
pub fn characters(s: &str) -> (r: Vec<char>)
    ensures
        r@ == s@,
{
    let mut out: Vec<char> = Vec::new();
    for c in it: s.chars()
        invariant
            out@ == it.seq().take(it.index()),
            it.seq() == s@,
    {
        out.push(c);
    }
    out
}

/// Removes the white space at the end of a text.
pub fn trim_end(s: &str) -> (r: String)
    ensures
        r@ == trimmed_end(s@),
{
    let chars = characters(s);
    let mut end: usize = chars.len();
    proof {
        assert(s@.take(end as int) =~= s@);
    }
    while end > 0 && is_white_space(chars[end - 1])
        invariant
            end <= chars@.len(),
            chars@ == s@,
            trimmed_end(s@.take(end as int)) == trimmed_end(s@),
        decreases end,
    {
        proof {
            assert(s@.take(end as int).drop_last() =~= s@.take(end - 1));
        }
        end = end - 1;
    }
    proof {
        assert(s@.take(end as int) =~= s@.subrange(0, end as int));
    }
    s.substring_char(0, end).to_owned()
}

/// Removes the white space at both ends of a text.
pub fn trim(s: &str) -> (r: String)
    ensures
        r@ == trimmed(s@),
{
    let chars = characters(s);
    let mut start: usize = 0;
    proof {
        assert(s@.skip(0) =~= s@);
    }
    while start < chars.len() && is_white_space(chars[start])
        invariant
            start <= chars@.len(),
            chars@ == s@,
            trimmed_start(s@.skip(start as int)) == trimmed_start(s@),
        decreases chars@.len() - start,
    {
        proof {
            assert(s@.skip(start as int).drop_first() =~= s@.skip(start + 1));
        }
        start = start + 1;
    }
    let end: usize = chars.len();
    proof {
        assert(s@.skip(start as int) =~= s@.subrange(start as int, end as int));
    }
    trim_end(s.substring_char(start, end))
}

/// The character that writes a digit below ten.
pub open spec fn digit(d: int) -> char {
    if d == 0 {
        '0'
    } else if d == 1 {
        '1'
    } else if d == 2 {
        '2'
    } else if d == 3 {
        '3'
    } else if d == 4 {
        '4'
    } else if d == 5 {
        '5'
    } else if d == 6 {
        '6'
    } else if d == 7 {
        '7'
    } else if d == 8 {
        '8'
    } else {
        '9'
    }
}

/// A number in decimal, without leading zeros.
pub open spec fn decimal(n: nat) -> Seq<char>
    decreases n,
{
    if n < 10 {
        seq![digit(n as int)]
    } else {
        decimal(n / 10).push(digit((n % 10) as int))
    }
}

/// The number that a run of decimal digits writes, and nothing for text that is
/// empty or holds anything else.
pub open spec fn digits_value(s: Seq<char>) -> Option<nat>
    decreases s.len(),
{
    if s.len() == 0 || !('0' <= s.last() <= '9') {
        None
    } else if s.len() == 1 {
        Some((s.last() as u32 - '0' as u32) as nat)
    } else {
        match digits_value(s.drop_last()) {
            Some(high) => Some(high * 10 + (s.last() as u32 - '0' as u32) as nat),
            None => None,
        }
    }
}

/// The number that a text writes: digits, with or without a plus sign before
/// them.
pub open spec fn number_value(s: Seq<char>) -> Option<nat> {
    if s.len() > 0 && s.first() == '+' {
        digits_value(s.drop_first())
    } else {
        digits_value(s)
    }
}

/// The number that a text writes, where it is no larger than `max`.
pub open spec fn bounded_value(s: Seq<char>, max: nat) -> Option<nat> {
    match number_value(s) {
        Some(n) if n <= max => Some(n),
        _ => None,
    }
}

/// The character that writes a digit below ten.
fn digit_character(d: u64) -> (r: char)
    requires
        d < 10,
    ensures
        r == digit(d as int),
{
    match d {
        0 => '0',
        1 => '1',
        2 => '2',
        3 => '3',
        4 => '4',
        5 => '5',
        6 => '6',
        7 => '7',
        8 => '8',
        _ => '9',
    }
}

/// Writes a number in decimal.
pub fn write_decimal(n: u64) -> (r: String)
    ensures
        r@ == decimal(n as nat),
    decreases n,
{
    if n < 10 {
        let mut out = String::new();
        out.push(digit_character(n));
        proof {
            assert(out@ =~= seq![digit(n as int)]);
        }
        out
    } else {
        let mut out = write_decimal(n / 10);
        out.push(digit_character(n % 10));
        out
    }
}

/// The lower-case hexadecimal digit for a value below sixteen.
pub open spec fn lower_hex(d: int) -> char {
    if d < 10 {
        (0x30 + d) as u8 as char
    } else {
        (0x57 + d) as u8 as char
    }
}

/// A number in hexadecimal, in lower case and without leading zeros.
pub open spec fn hexadecimal(n: nat) -> Seq<char>
    decreases n,
{
    if n < 16 {
        seq![lower_hex(n as int)]
    } else {
        hexadecimal(n / 16).push(lower_hex((n % 16) as int))
    }
}

/// Writes one lower-case hexadecimal digit.
pub fn push_hex_digit(out: &mut String, d: u8)
    requires
        d < 16,
    ensures
        final(out)@ == old(out)@.push(lower_hex(d as int)),
{
    if d < 10 {
        out.push((0x30 + d) as char);
    } else {
        out.push((0x57 + d) as char);
    }
}

/// Writes a number in hexadecimal.
pub fn write_hexadecimal(n: u32) -> (r: String)
    ensures
        r@ == hexadecimal(n as nat),
    decreases n,
{
    if n < 16 {
        let mut out = String::new();
        push_hex_digit(&mut out, n as u8);
        proof {
            assert(out@ =~= seq![lower_hex(n as int)]);
        }
        out
    } else {
        let mut out = write_hexadecimal(n / 16);
        push_hex_digit(&mut out, (n % 16) as u8);
        out
    }
}

/// Reading what was written gives the number back.
pub proof fn written_numbers_read_back(n: nat)
    ensures
        number_value(decimal(n)) == Some(n),
    decreases n,
{
    written_digits_read_back(n);
}

/// A written number is a run of digits that is worth it.
pub proof fn written_digits_read_back(n: nat)
    ensures
        digits_value(decimal(n)) == Some(n),
        decimal(n).len() > 0,
        decimal(n).first() != '+',
    decreases n,
{
    if n >= 10 {
        written_digits_read_back(n / 10);
        assert(decimal(n).drop_last() =~= decimal(n / 10));
        assert(decimal(n).first() == decimal(n / 10).first());
    }
}

/// The digits of a longer run are worth at least as much as those it starts
/// with.
proof fn longer_runs_are_worth_more(s: Seq<char>, k: int)
    requires
        1 <= k <= s.len(),
        digits_value(s) is Some,
    ensures
        digits_value(s.take(k)) is Some,
        digits_value(s.take(k))->0 <= digits_value(s)->0,
    decreases s.len(),
{
    if k == s.len() {
        assert(s.take(k) =~= s);
    } else {
        longer_runs_are_worth_more(s.drop_last(), k);
        assert(s.drop_last().take(k) =~= s.take(k));
    }
}

/// A run of digits holds nothing but digits.
proof fn runs_hold_digits(s: Seq<char>, k: int)
    requires
        0 <= k < s.len(),
        digits_value(s) is Some,
    ensures
        '0' <= s[k] <= '9',
    decreases s.len(),
{
    if k + 1 < s.len() {
        runs_hold_digits(s.drop_last(), k);
    }
}

/// Reads the digits of `chars` from `from` on, giving up where the number would
/// pass `max`.
fn read_digits(chars: &Vec<char>, from: usize, max: u64) -> (r: Option<u64>)
    requires
        from <= chars@.len(),
    ensures
        match r {
            Some(n) => digits_value(chars@.skip(from as int)) == Some(n as nat) && n <= max,
            None => digits_value(chars@.skip(from as int)) matches Some(n) ==> n > max,
        },
{
    let ghost run = chars@.skip(from as int);
    if from == chars.len() {
        return None;
    }
    let mut total: u64 = 0;
    let mut index: usize = from;
    while index < chars.len()
        invariant
            from <= index <= chars@.len(),
            from < chars@.len(),
            run == chars@.skip(from as int),
            index > from ==> digits_value(run.take(index - from)) == Some(total as nat),
            index == from ==> total == 0,
            total <= max,
        decreases chars@.len() - index,
    {
        let c = chars[index];
        proof {
            assert(run[index - from] == c);
            assert(run.take(index + 1 - from).drop_last() =~= run.take(index - from));
            assert(run.take(index + 1 - from).last() == c);
        }
        if c < '0' || '9' < c {
            proof {
                if digits_value(run) is Some {
                    runs_hold_digits(run, index - from);
                }
            }
            return None;
        }
        let value: u64 = (c as u32 - '0' as u32) as u64;
        proof {
            assert(digits_value(run.take(index + 1 - from)) == Some((total * 10 + value) as nat));
            if digits_value(run) is Some {
                longer_runs_are_worth_more(run, index + 1 - from);
            }
        }
        if total > max / 10 || value > max - total * 10 {
            return None;
        }
        total = total * 10 + value;
        index = index + 1;
    }
    proof {
        assert(run.take(index - from) =~= run);
    }
    Some(total)
}

/// Reads a number no larger than `max`: decimal digits, with or without a plus
/// sign before them.
pub fn read_number(s: &str, max: u64) -> (r: Option<u64>)
    ensures
        match r {
            Some(n) => bounded_value(s@, max as nat) == Some(n as nat),
            None => bounded_value(s@, max as nat) is None,
        },
{
    let chars = characters(s);
    if chars.len() > 0 && chars[0] == '+' {
        proof {
            assert(chars@.skip(1) =~= s@.drop_first());
        }
        read_digits(&chars, 1, max)
    } else {
        proof {
            assert(chars@.skip(0) =~= s@);
        }
        read_digits(&chars, 0, max)
    }
}

/// Where a character first stands in a text, and the text's length if it does
/// not stand there.
pub open spec fn first_index(s: Seq<char>, c: char) -> int
    decreases s.len(),
{
    if s.len() == 0 || s.first() == c {
        0
    } else {
        1 + first_index(s.drop_first(), c)
    }
}

/// The text before and after the first `c`, if there is one.
pub open spec fn split_first(s: Seq<char>, c: char) -> Option<(Seq<char>, Seq<char>)> {
    let at = first_index(s, c);
    if at < s.len() {
        Some((s.take(at), s.skip(at + 1)))
    } else {
        None
    }
}

/// What `first_index` finds is the first `c`, or the end where there is none.
pub proof fn first_index_is_first(s: Seq<char>, c: char)
    ensures
        0 <= first_index(s, c) <= s.len(),
        first_index(s, c) < s.len() ==> s[first_index(s, c)] == c,
        forall|i: int| 0 <= i < first_index(s, c) ==> s[i] != c,
    decreases s.len(),
{
    if s.len() > 0 && s.first() != c {
        first_index_is_first(s.drop_first(), c);
        assert forall|i: int| 0 <= i < first_index(s, c) implies s[i] != c by {
            if i > 0 {
                assert(s.drop_first()[i - 1] == s[i]);
            }
        }
    }
}

/// Splits a text at the first `c`.
pub fn split_once(s: &str, c: char) -> (r: Option<(String, String)>)
    ensures
        match r {
            Some((before, after)) => split_first(s@, c) == Some((before@, after@)),
            None => split_first(s@, c) is None,
        },
{
    let chars = characters(s);
    let mut at: usize = 0;
    proof {
        assert(s@.skip(0) =~= s@);
    }
    while at < chars.len() && chars[at] != c
        invariant
            at <= chars@.len(),
            chars@ == s@,
            first_index(s@, c) == at + first_index(s@.skip(at as int), c),
        decreases chars@.len() - at,
    {
        proof {
            assert(s@.skip(at as int).drop_first() =~= s@.skip(at + 1));
        }
        at = at + 1;
    }
    if at < chars.len() {
        let end: usize = chars.len();
        proof {
            assert(s@.take(at as int) =~= s@.subrange(0, at as int));
            assert(s@.skip(at + 1) =~= s@.subrange(at + 1, end as int));
        }
        Some((s.substring_char(0, at).to_owned(), s.substring_char(at + 1, end).to_owned()))
    } else {
        None
    }
}

/// What a hexadecimal digit of either case is worth, and less than nothing for
/// any other character.
pub open spec fn digit_value(c: char) -> int {
    if '0' <= c <= '9' {
        c as u32 - '0' as u32
    } else if 'A' <= c <= 'F' {
        c as u32 - 'A' as u32 + 10
    } else if 'a' <= c <= 'f' {
        c as u32 - 'a' as u32 + 10
    } else {
        -1
    }
}

/// What a run of hexadecimal digits is worth.
pub open spec fn run_value(s: Seq<char>) -> int
    decreases s.len(),
{
    if s.len() == 0 {
        0
    } else {
        run_value(s.drop_last()) * 16 + digit_value(s.last())
    }
}

/// A number written in hexadecimal reads back: it is made of digits in lower
/// case that are worth it, and starts with a zero only where it is one.
pub proof fn written_hexadecimal_reads_back(n: nat)
    ensures
        run_value(hexadecimal(n)) == n,
        hexadecimal(n).len() > 0,
        hexadecimal(n).first() == '0' <==> n == 0,
        forall|i: int|
            0 <= i < hexadecimal(n).len() ==> 0 <= digit_value(#[trigger] hexadecimal(n)[i])
                && !('A' <= hexadecimal(n)[i] <= 'F'),
    decreases n,
{
    reveal_with_fuel(run_value, 2);
    if n >= 16 {
        written_hexadecimal_reads_back(n / 16);
        let high = hexadecimal(n / 16);
        assert(hexadecimal(n).drop_last() =~= high);
        assert(hexadecimal(n).first() == high.first());
        assert forall|i: int| 0 <= i < hexadecimal(n).len() implies 0 <= digit_value(
            #[trigger] hexadecimal(n)[i],
        ) && !('A' <= hexadecimal(n)[i] <= 'F') by {
            if i < high.len() {
                assert(hexadecimal(n)[i] == high[i]);
            }
        }
    } else {
        assert(hexadecimal(n).drop_last() =~= Seq::<char>::empty());
    }
}

/// A number written in decimal is made of the ten digits, each worth its place
/// among them, and starts with a zero only where it is one.
pub proof fn written_numbers_are_decimal(n: nat, d: int)
    ensures
        0 <= d < 10 ==> digit(d) as u32 == 48 + d,
        decimal(n).len() > 0,
        decimal(n).first() == '0' <==> n == 0,
        decimal(n).last() as u32 == 48 + n % 10,
        n >= 10 ==> decimal(n).drop_last() == decimal(n / 10),
        n < 10 ==> decimal(n).len() == 1,
        forall|i: int| 0 <= i < decimal(n).len() ==> '0' <= #[trigger] decimal(n)[i] <= '9',
    decreases n,
{
    if n >= 10 {
        written_numbers_are_decimal(n / 10, d);
        let high = decimal(n / 10);
        assert(decimal(n).drop_last() =~= high);
        assert(decimal(n).first() == high.first());
        assert forall|i: int| 0 <= i < decimal(n).len() implies '0' <= #[trigger] decimal(n)[i]
            <= '9' by {
            if i < high.len() {
                assert(decimal(n)[i] == high[i]);
            }
        }
    }
}

/// A run of digits followed by one more is worth ten times as much and that
/// digit; anything but a digit in it, or nothing at all, makes it no number. A
/// plus sign before it changes nothing, but one alone is no number, nor is a
/// second one.
pub proof fn numbers_are_read_digit_by_digit(s: Seq<char>, c: char)
    ensures
        digits_value(Seq::empty()) is None,
        number_value(Seq::empty()) is None,
        number_value(seq!['+']) is None,
        number_value(seq!['+', '+'] + s) is None,
        '0' <= c <= '9' ==> digits_value(seq![c]) == Some((c as u32 - 48) as nat),
        s.len() > 0 && '0' <= c <= '9' ==> digits_value(s.push(c)) == match digits_value(s) {
            Some(n) => Some((n * 10 + (c as u32 - 48)) as nat),
            None => None,
        },
        !('0' <= c <= '9') ==> digits_value(s.push(c)) is None,
        number_value(seq!['+'] + s) == digits_value(s),
        s.len() > 0 && s[0] != '+' ==> number_value(s) == digits_value(s),
{
    assert(s.push(c).drop_last() =~= s);
    assert((seq!['+'] + s).drop_first() =~= s);
    assert(seq!['+'].drop_first() =~= Seq::<char>::empty());
    let twice = seq!['+', '+'] + s;
    assert(twice.drop_first() =~= seq!['+'] + s);
    if digits_value(twice.drop_first()) is Some {
        runs_hold_digits(twice.drop_first(), 0);
    }
}

/// A number is read where it is no larger than it may be, and only there.
pub proof fn numbers_are_read_up_to_a_bound(s: Seq<char>, max: nat)
    ensures
        bounded_value(s, max) matches Some(n) ==> n <= max && number_value(s) == Some(n),
        bounded_value(s, max) is None ==> (number_value(s) matches Some(n) ==> n > max),
{
}

/// The characters that are white space, one by one, by their code points.
pub open spec fn blank_codes() -> Seq<u32> {
    seq![
        9, 10, 11, 12, 13, 32, 133, 160, 5760, 8192, 8193, 8194, 8195, 8196, 8197, 8198, 8199, 8200,
        8201, 8202, 8232, 8233, 8239, 8287, 12288,
    ]
}

/// White space is what Unicode says it is: those twenty-five characters and no
/// others.
pub proof fn white_space_is_unicodes(c: char)
    ensures
        white_space(c) <==> blank_codes().contains(c as u32),
{
    let codes = blank_codes();
    let code = c as u32;
    if white_space(c) {
        let at: int = if code <= 13 {
            code - 9
        } else if code == 32 {
            5
        } else if code == 133 {
            6
        } else if code == 160 {
            7
        } else if code == 5760 {
            8
        } else if code <= 8202 {
            code - 8192 + 9
        } else if code == 8232 {
            20
        } else if code == 8233 {
            21
        } else if code == 8239 {
            22
        } else if code == 8287 {
            23
        } else {
            24
        };
        assert(codes[at] == code);
    }
}

/// Trimming takes white space off an end and nothing else: the text is what is
/// left with white space around it, and what is left neither starts nor ends
/// with any. Where the ends are to be kept, they are.
pub proof fn trimming_takes_white_space_off(s: Seq<char>) -> (cut: (int, int))
    ensures
        0 <= cut.0 <= cut.1 <= s.len(),
        trimmed(s) == s.subrange(cut.0, cut.1),
        forall|i: int| 0 <= i < cut.0 ==> blank_codes().contains(#[trigger] s[i] as u32),
        forall|i: int| cut.1 <= i < s.len() ==> blank_codes().contains(#[trigger] s[i] as u32),
        cut.0 < cut.1 ==> !blank_codes().contains(s[cut.0] as u32) && !blank_codes().contains(
            s[cut.1 - 1] as u32,
        ),
{
    let start = trimming_the_start(s);
    let left = s.skip(start);
    let end = trimming_the_end(left);
    assert(trimmed(s) =~= s.subrange(start, start + end));
    assert forall|i: int| start + end <= i < s.len() implies blank_codes().contains(
        #[trigger] s[i] as u32,
    ) by {
        assert(left[i - start] == s[i]);
    }
    if end > 0 {
        assert(left[0] == s[start]);
        assert(left[end - 1] == s[start + end - 1]);
    }
    (start, start + end)
}

/// Trimming the end takes the white space there off, and nothing else.
pub proof fn trimming_the_end(s: Seq<char>) -> (end: int)
    ensures
        0 <= end <= s.len(),
        trimmed_end(s) == s.take(end),
        forall|i: int| end <= i < s.len() ==> blank_codes().contains(#[trigger] s[i] as u32),
        end > 0 ==> !blank_codes().contains(s[end - 1] as u32),
    decreases s.len(),
{
    if s.len() == 0 {
        assert(s.take(0) =~= s);
        0
    } else {
        white_space_is_unicodes(s.last());
        if white_space(s.last()) {
            let end = trimming_the_end(s.drop_last());
            assert(s.drop_last().take(end) =~= s.take(end));
            assert forall|i: int| end <= i < s.len() implies blank_codes().contains(
                #[trigger] s[i] as u32,
            ) by {
                if i < s.len() - 1 {
                    assert(s.drop_last()[i] == s[i]);
                }
            }
            end
        } else {
            assert(s.take(s.len() as int) =~= s);
            s.len() as int
        }
    }
}

/// Trimming the start takes the white space there off, and nothing else.
pub proof fn trimming_the_start(s: Seq<char>) -> (start: int)
    ensures
        0 <= start <= s.len(),
        trimmed_start(s) == s.skip(start),
        forall|i: int| 0 <= i < start ==> blank_codes().contains(#[trigger] s[i] as u32),
        start < s.len() ==> !blank_codes().contains(s[start] as u32),
    decreases s.len(),
{
    if s.len() == 0 {
        assert(s.skip(0) =~= s);
        0
    } else {
        white_space_is_unicodes(s.first());
        if white_space(s.first()) {
            let start = trimming_the_start(s.drop_first());
            assert(s.drop_first().skip(start) =~= s.skip(start + 1));
            assert forall|i: int| 0 <= i < start + 1 implies blank_codes().contains(
                #[trigger] s[i] as u32,
            ) by {
                if i > 0 {
                    assert(s.drop_first()[i - 1] == s[i]);
                }
            }
            if start + 1 < s.len() {
                assert(s.drop_first()[start] == s[start + 1]);
            }
            start + 1
        } else {
            assert(s.skip(0) =~= s);
            0
        }
    }
}

/// A text is split at the first `c` and nowhere else: put together again round
/// it, the two parts are the text, and the first of them has none.
pub proof fn texts_are_split_at_the_first(before: Seq<char>, c: char, after: Seq<char>)
    requires
        forall|i: int| 0 <= i < before.len() ==> before[i] != c,
    ensures
        split_first(before + seq![c] + after, c) == Some((before, after)),
        split_first(before, c) is None,
{
    let whole = before + seq![c] + after;
    first_index_is_first(whole, c);
    first_index_is_first(before, c);
    let at = first_index(whole, c);
    assert(whole[before.len() as int] == c);
    if at < before.len() {
        assert(whole[at] == before[at]);
    }
    assert(at == before.len());
    assert(whole.take(at) =~= before);
    assert(whole.skip(at + 1) =~= after);
}

} // verus!
