//! Turning a track's address into one that can be requested.
use vstd::prelude::*;
use vstd::string::*;
use vstd::utf8::*;

use crate::text::characters;

verus! {

/// Whether a byte is an ASCII letter or digit.
pub open spec fn alphanumeric(b: u8) -> bool {
    ||| 0x30 <= b <= 0x39
    ||| 0x41 <= b <= 0x5a
    ||| 0x61 <= b <= 0x7a
}

/// Whether a byte is a hexadecimal digit, of either case.
pub open spec fn hexadecimal(b: u8) -> bool {
    ||| 0x30 <= b <= 0x39
    ||| 0x41 <= b <= 0x46
    ||| 0x61 <= b <= 0x66
}

/// Whether a byte is one of ``-._~!$&'()*+,;=:@/?#``: the marks a path may
/// carry, and the delimiters that separate it from a query.
pub open spec fn mark(b: u8) -> bool {
    ||| b == 0x21
    ||| 0x23 <= b <= 0x24
    ||| 0x26 <= b <= 0x2f
    ||| 0x3a <= b <= 0x3b
    ||| b == 0x3d
    ||| 0x3f <= b <= 0x40
    ||| b == 0x5f
    ||| b == 0x7e
}

/// Whether a byte stands for itself in a path.
pub open spec fn literal(b: u8) -> bool {
    alphanumeric(b) || mark(b)
}

/// The percent sign.
pub const PERCENT: u8 = 0x25;

/// Whether the bytes start with an escape: a percent sign and two hexadecimal
/// digits.
pub open spec fn starts_with_escape(bytes: Seq<u8>) -> bool {
    bytes.len() >= 3 && bytes[0] == PERCENT && hexadecimal(bytes[1]) && hexadecimal(bytes[2])
}

/// The upper-case hexadecimal digit for a value below sixteen.
pub open spec fn hex_digit(d: int) -> u8 {
    if d < 10 {
        (0x30 + d) as u8
    } else {
        (0x37 + d) as u8
    }
}

/// The escape that stands for one byte.
pub open spec fn escape_of(b: u8) -> Seq<u8> {
    seq![PERCENT, hex_digit(b as int / 16), hex_digit(b as int % 16)]
}

/// A path with everything it may not carry literally escaped. An escape that is
/// there already passes through whole; a percent sign that introduces none is
/// escaped itself.
pub open spec fn escaped(bytes: Seq<u8>) -> Seq<u8>
    decreases bytes.len(),
{
    if bytes.len() == 0 {
        bytes
    } else if starts_with_escape(bytes) {
        bytes.take(3) + escaped(bytes.skip(3))
    } else if literal(bytes[0]) {
        bytes.take(1) + escaped(bytes.skip(1))
    } else {
        escape_of(bytes[0]) + escaped(bytes.skip(1))
    }
}

/// Whether a path is made of literal bytes and escapes alone.
pub open spec fn requestable(bytes: Seq<u8>) -> bool
    decreases bytes.len(),
{
    if bytes.len() == 0 {
        true
    } else if starts_with_escape(bytes) {
        requestable(bytes.skip(3))
    } else {
        literal(bytes[0]) && requestable(bytes.skip(1))
    }
}

/// The text that ASCII bytes write.
pub open spec fn ascii_text(bytes: Seq<u8>) -> Seq<char> {
    bytes.map_values(|b: u8| b as char)
}

/// Whether a byte is an ASCII letter or digit.
fn is_alphanumeric(b: u8) -> (r: bool)
    ensures
        r == alphanumeric(b),
{
    (0x30 <= b && b <= 0x39) || (0x41 <= b && b <= 0x5a) || (0x61 <= b && b <= 0x7a)
}

/// Whether a byte is a hexadecimal digit.
fn is_hexadecimal(b: u8) -> (r: bool)
    ensures
        r == hexadecimal(b),
{
    (0x30 <= b && b <= 0x39) || (0x41 <= b && b <= 0x46) || (0x61 <= b && b <= 0x66)
}

/// Whether a byte is one of the marks a path may carry.
fn is_mark(b: u8) -> (r: bool)
    ensures
        r == mark(b),
{
    b == 0x21 || (0x23 <= b && b <= 0x24) || (0x26 <= b && b <= 0x2f) || (0x3a <= b && b <= 0x3b)
        || b == 0x3d || (0x3f <= b && b <= 0x40) || b == 0x5f || b == 0x7e
}

/// The upper-case hexadecimal digit for a value below sixteen.
fn hex_digit_byte(d: u8) -> (r: u8)
    requires
        d < 16,
    ensures
        r == hex_digit(d as int),
{
    if d < 10 {
        0x30 + d
    } else {
        0x37 + d
    }
}

/// What escaping leaves is ASCII.
proof fn escaped_is_ascii(bytes: Seq<u8>)
    ensures
        forall|i: int| 0 <= i < escaped(bytes).len() ==> #[trigger] escaped(bytes)[i] < 0x80,
    decreases bytes.len(),
{
    if bytes.len() == 0 {
    } else if starts_with_escape(bytes) {
        escaped_is_ascii(bytes.skip(3));
        let rest = escaped(bytes.skip(3));
        assert forall|i: int| 0 <= i < escaped(bytes).len() implies #[trigger] escaped(bytes)[i]
            < 0x80 by {
            if i >= 3 {
                assert(escaped(bytes)[i] == rest[i - 3]);
            }
        }
    } else {
        escaped_is_ascii(bytes.skip(1));
        let rest = escaped(bytes.skip(1));
        let head = if literal(bytes[0]) {
            bytes.take(1)
        } else {
            escape_of(bytes[0])
        };
        assert forall|i: int| 0 <= i < escaped(bytes).len() implies #[trigger] escaped(bytes)[i]
            < 0x80 by {
            if i >= head.len() {
                assert(escaped(bytes)[i] == rest[i - head.len()]);
            }
        }
    }
}

/// Escaping leaves a path that is made of literal bytes and escapes alone.
pub proof fn escaped_paths_are_requestable(bytes: Seq<u8>)
    ensures
        requestable(escaped(bytes)),
    decreases bytes.len(),
{
    if bytes.len() == 0 {
    } else if starts_with_escape(bytes) {
        escaped_paths_are_requestable(bytes.skip(3));
        assert(escaped(bytes).skip(3) =~= escaped(bytes.skip(3)));
        assert(starts_with_escape(escaped(bytes)));
    } else if literal(bytes[0]) {
        escaped_paths_are_requestable(bytes.skip(1));
        assert(escaped(bytes).skip(1) =~= escaped(bytes.skip(1)));
    } else {
        escaped_paths_are_requestable(bytes.skip(1));
        assert(escaped(bytes).skip(3) =~= escaped(bytes.skip(1)));
        assert(starts_with_escape(escaped(bytes)));
    }
}

/// A path that is requestable already is left alone, so an escape is never
/// escaped again.
pub proof fn requestable_paths_are_left_alone(bytes: Seq<u8>)
    requires
        requestable(bytes),
    ensures
        escaped(bytes) == bytes,
    decreases bytes.len(),
{
    if bytes.len() == 0 {
    } else if starts_with_escape(bytes) {
        requestable_paths_are_left_alone(bytes.skip(3));
        assert(bytes.take(3) + bytes.skip(3) =~= bytes);
    } else {
        requestable_paths_are_left_alone(bytes.skip(1));
        assert(bytes.take(1) + bytes.skip(1) =~= bytes);
    }
}

/// Escaping a path a second time changes nothing.
pub proof fn escaping_settles(bytes: Seq<u8>)
    ensures
        escaped(escaped(bytes)) == escaped(bytes),
{
    escaped_paths_are_requestable(bytes);
    requestable_paths_are_left_alone(escaped(bytes));
}

/// The text of an escaped path is stored as the bytes it was made of.
proof fn escaped_text_is_its_bytes(bytes: Seq<u8>)
    ensures
        encode_utf8(ascii_text(escaped(bytes))) == escaped(bytes),
{
    escaped_is_ascii(bytes);
    let text = ascii_text(escaped(bytes));
    is_ascii_chars_encode_utf8(text);
    assert(encode_utf8(text) =~= escaped(bytes));
}

/// Percent-encodes what a path may not carry literally, passing existing
/// escapes through untouched.
pub fn escape_path(path: &str) -> (r: String)
    ensures
        r@ == ascii_text(escaped(encode_utf8(path@))),
{
    let bytes = path.as_bytes();
    let mut out = String::new();
    let mut index: usize = 0;
    proof {
        assert(bytes@.skip(0) =~= bytes@);
        assert(out@ + ascii_text(escaped(bytes@)) =~= ascii_text(escaped(bytes@)));
    }
    while index < bytes.len()
        invariant
            index <= bytes@.len(),
            bytes@ == encode_utf8(path@),
            out@ + ascii_text(escaped(bytes@.skip(index as int))) == ascii_text(
                escaped(encode_utf8(path@)),
            ),
        decreases bytes@.len() - index,
    {
        let byte: u8 = bytes[index];
        let ghost before = out@;
        let ghost rest = bytes@.skip(index as int);
        if byte == PERCENT && bytes.len() - index >= 3 && is_hexadecimal(bytes[index + 1])
            && is_hexadecimal(bytes[index + 2]) {
            out.push(byte as char);
            out.push(bytes[index + 1] as char);
            out.push(bytes[index + 2] as char);
            proof {
                assert(rest.skip(3) =~= bytes@.skip(index + 3));
                let next = ascii_text(escaped(rest.skip(3)));
                assert(before + ascii_text(rest.take(3) + escaped(rest.skip(3))) =~= out@ + next);
            }
            index = index + 3;
        } else if is_alphanumeric(byte) || is_mark(byte) {
            out.push(byte as char);
            proof {
                assert(rest.skip(1) =~= bytes@.skip(index + 1));
                let next = ascii_text(escaped(rest.skip(1)));
                assert(before + ascii_text(rest.take(1) + escaped(rest.skip(1))) =~= out@ + next);
            }
            index = index + 1;
        } else {
            out.push(PERCENT as char);
            out.push(hex_digit_byte(byte / 16) as char);
            out.push(hex_digit_byte(byte % 16) as char);
            proof {
                assert(rest.skip(1) =~= bytes@.skip(index + 1));
                let next = ascii_text(escaped(rest.skip(1)));
                assert(before + ascii_text(escape_of(byte) + escaped(rest.skip(1))) =~= out@
                    + next);
            }
            index = index + 1;
        }
    }
    proof {
        assert(bytes@.skip(index as int) =~= Seq::<u8>::empty());
        assert(out@ + ascii_text(Seq::<u8>::empty()) =~= out@);
    }
    out
}

/// Whether `pattern` stands in `s` at `at`.
pub open spec fn occurs(s: Seq<char>, pattern: Seq<char>, at: int) -> bool {
    0 <= at && at + pattern.len() <= s.len() && s.subrange(at, at + pattern.len()) == pattern
}

/// Where `pattern` first stands in `s` at or after `from`.
pub open spec fn find(s: Seq<char>, pattern: Seq<char>, from: int) -> Option<int>
    decreases s.len() + 1 - from,
{
    if from < 0 || from + pattern.len() > s.len() {
        None
    } else if occurs(s, pattern, from) {
        Some(from)
    } else {
        find(s, pattern, from + 1)
    }
}

/// What separates a scheme from an authority.
pub open spec fn scheme_mark() -> Seq<char> {
    seq![':', '/', '/']
}

/// What starts an address that leaves its scheme out.
pub open spec fn relative_mark() -> Seq<char> {
    seq!['/', '/']
}

/// The scheme such an address is given.
pub open spec fn secure_scheme() -> Seq<char> {
    seq!['h', 't', 't', 'p', 's', ':', '/', '/']
}

/// The address with a scheme: a protocol-relative one is requested over https.
pub open spec fn with_scheme(url: Seq<char>) -> Seq<char> {
    if occurs(url, relative_mark(), 0) {
        secure_scheme() + url.skip(2)
    } else {
        url
    }
}

/// Where an address's path starts: at the first slash after the authority.
pub open spec fn path_start(url: Seq<char>) -> Option<int> {
    match find(url, scheme_mark(), 0) {
        Some(scheme) => find(url, seq!['/'], scheme + 3),
        None => None,
    }
}

/// The address that is requested for the one a release gives.
pub open spec fn absolute(url: Seq<char>) -> Seq<char> {
    let whole = with_scheme(url);
    match path_start(whole) {
        Some(split) => whole.take(split) + ascii_text(escaped(encode_utf8(whole.skip(split)))),
        None => whole,
    }
}

/// `find` finds the first place, and nothing only where there is none.
proof fn find_is_first(s: Seq<char>, pattern: Seq<char>, from: int)
    requires
        0 <= from,
    ensures
        match find(s, pattern, from) {
            Some(at) => from <= at && occurs(s, pattern, at) && forall|j: int|
                from <= j < at ==> !occurs(s, pattern, j),
            None => forall|j: int| from <= j ==> !occurs(s, pattern, j),
        },
    decreases s.len() + 1 - from,
{
    if from + pattern.len() <= s.len() && !occurs(s, pattern, from) {
        find_is_first(s, pattern, from + 1);
    }
}

/// The first place at or after `from` where `pattern` stands is the one `find`
/// finds.
proof fn first_is_found(s: Seq<char>, pattern: Seq<char>, from: int, at: int)
    requires
        0 <= from <= at,
        occurs(s, pattern, at),
        forall|j: int| from <= j < at ==> !occurs(s, pattern, j),
    ensures
        find(s, pattern, from) == Some(at),
{
    find_is_first(s, pattern, from);
}

/// Whether `pattern` stands in `chars` at `at`.
fn stands_at(chars: &Vec<char>, pattern: &[char], at: usize) -> (r: bool)
    requires
        at <= chars@.len(),
    ensures
        r == occurs(chars@, pattern@, at as int),
{
    if pattern.len() > chars.len() - at {
        return false;
    }
    let mut k: usize = 0;
    let total: usize = chars.len();
    while k < pattern.len()
        invariant
            k <= pattern@.len(),
            total == chars@.len(),
            at + pattern@.len() <= chars@.len(),
            forall|j: int| 0 <= j < k ==> chars@[at + j] == pattern@[j],
        decreases pattern@.len() - k,
    {
        if chars[at + k] != pattern[k] {
            proof {
                assert(chars@.subrange(at as int, at + pattern@.len())[k as int] != pattern@[k
                    as int]);
            }
            return false;
        }
        k = k + 1;
    }
    proof {
        assert(chars@.subrange(at as int, at + pattern@.len()) =~= pattern@);
    }
    true
}

/// Finds the first place at or after `from` where `pattern` stands.
fn find_pattern(chars: &Vec<char>, pattern: &[char], from: usize) -> (r: Option<usize>)
    requires
        from <= chars@.len(),
        pattern@.len() > 0,
    ensures
        match r {
            Some(at) => find(chars@, pattern@, from as int) == Some(at as int),
            None => find(chars@, pattern@, from as int) is None,
        },
{
    let mut at: usize = from;
    while at < chars.len()
        invariant
            from <= at <= chars@.len(),
            pattern@.len() > 0,
            find(chars@, pattern@, at as int) == find(chars@, pattern@, from as int),
        decreases chars@.len() - at,
    {
        if stands_at(chars, pattern, at) {
            return Some(at);
        }
        proof {
            find_is_first(chars@, pattern@, at as int);
            find_is_first(chars@, pattern@, at + 1);
        }
        at = at + 1;
    }
    None
}

/// Fills in the scheme of a protocol-relative address.
fn add_scheme(url: &str) -> (r: String)
    ensures
        r@ == with_scheme(url@),
{
    let given = characters(url);
    let mark: [char; 2] = ['/', '/'];
    let mut whole = String::new();
    proof {
        assert(mark@ =~= relative_mark());
    }
    if stands_at(&given, &mark, 0) {
        let end: usize = given.len();
        whole.append("https://");
        whole.append(url.substring_char(2, end));
        proof {
            reveal_strlit("https://");
            assert("https://"@ =~= secure_scheme());
            assert(url@.subrange(2, url@.len() as int) =~= url@.skip(2));
            assert(whole@ =~= secure_scheme() + url@.skip(2));
        }
    } else {
        whole.append(url);
        proof {
            assert(whole@ =~= url@);
        }
    }
    whole
}

/// Finds where an address's path starts.
fn find_path(url: &str) -> (r: Option<usize>)
    ensures
        match r {
            Some(at) => path_start(url@) == Some(at as int) && at <= url@.len(),
            None => path_start(url@) is None,
        },
{
    let chars = characters(url);
    let mark: [char; 3] = [':', '/', '/'];
    let slash: [char; 1] = ['/'];
    proof {
        assert(mark@ =~= scheme_mark());
        assert(slash@ =~= seq!['/']);
        find_is_first(chars@, scheme_mark(), 0);
    }
    match find_pattern(&chars, &mark, 0) {
        Some(scheme) => {
            proof {
                find_is_first(chars@, seq!['/'], scheme + 3);
                assert(scheme + 3 <= chars.len());
            }
            find_pattern(&chars, &slash, scheme + 3)
        },
        None => None,
    }
}

/// Turns a track's address into one that can be requested.
///
/// Addresses come in three shapes: protocol-relative, absolute and already
/// percent-encoded, and protocol-relative with the file name left raw. The
/// scheme is filled in, and what follows the authority is escaped; a scheme and
/// a host have rules of their own and arrive well-formed.
pub fn absolute_url(url: &str) -> (r: String)
    ensures
        r@ == absolute(url@),
{
    let whole = add_scheme(url);
    match find_path(whole.as_str()) {
        Some(split) => {
            let end: usize = whole.as_str().unicode_len();
            let mut out = String::new();
            out.append(whole.as_str().substring_char(0, split));
            let path = whole.as_str().substring_char(split, end);
            out.append(escape_path(path).as_str());
            proof {
                assert(whole@.subrange(0, split as int) =~= whole@.take(split as int));
                assert(whole@.subrange(split as int, end as int) =~= whole@.skip(split as int));
                assert(out@ =~= absolute(url@));
            }
            out
        },
        None => whole,
    }
}

/// Where an address has a path, the path starts with a slash, and nothing
/// before it is touched.
proof fn absolute_keeps_its_head(url: Seq<char>, split: int)
    requires
        path_start(with_scheme(url)) == Some(split),
    ensures
        3 <= split < with_scheme(url).len(),
        absolute(url).take(split) == with_scheme(url).take(split),
        path_start(absolute(url)) == Some(split),
        with_scheme(absolute(url)) == absolute(url),
{
    let whole = with_scheme(url);
    let tail = escaped(encode_utf8(whole.skip(split)));
    let result = absolute(url);
    let slash = seq!['/'];
    find_is_first(whole, scheme_mark(), 0);
    let scheme = find(whole, scheme_mark(), 0)->0;
    find_is_first(whole, slash, scheme + 3);
    assert(whole.subrange(split, split + 1)[0] == '/');
    assert(whole[split] == '/');
    assert(result == whole.take(split) + ascii_text(tail));
    assert(result.take(split) =~= whole.take(split));
    // The path starts with a slash, which stands for itself.
    let path = whole.skip(split);
    assert(path[0] == '/');
    assert(0x2fu32 & 0x7f == 0x2f) by (bit_vector);
    assert(encode_scalar(0x2f)[0] == 0x2f);
    assert(encode_utf8(path) =~= encode_scalar(0x2f) + encode_utf8(path.drop_first()));
    assert(encode_utf8(path)[0] == 0x2f);
    assert(tail[0] == 0x2f);
    assert(result[split] == '/');
    // Patterns that end at or before the path stand where they stood.
    assert forall|pattern: Seq<char>, j: int|
        0 <= j && j + pattern.len() <= split implies #[trigger] occurs(whole, pattern, j) == occurs(
        result,
        pattern,
        j,
    ) by {
        assert(whole.subrange(j, j + pattern.len()) =~= result.subrange(j, j + pattern.len()));
    }
    assert(occurs(result, scheme_mark(), scheme));
    assert forall|j: int| 0 <= j < scheme implies !occurs(result, scheme_mark(), j) by {
        assert(!occurs(whole, scheme_mark(), j));
    }
    first_is_found(result, scheme_mark(), 0, scheme);
    assert(result.subrange(split, split + 1) =~= slash);
    assert(occurs(result, slash, split));
    assert forall|j: int| scheme + 3 <= j < split implies !occurs(result, slash, j) by {
        assert(!occurs(whole, slash, j));
    }
    first_is_found(result, slash, scheme + 3, split);
    // Nor does the result start as a protocol-relative address does.
    assert(!occurs(whole, relative_mark(), 0)) by {
        if occurs(url, relative_mark(), 0) {
            assert(whole[0] == 'h');
            if occurs(whole, relative_mark(), 0) {
                assert(whole.subrange(0, 2)[0] == '/');
            }
        }
    }
    assert(occurs(whole, relative_mark(), 0) == occurs(result, relative_mark(), 0));
}

/// An address is only ever fixed once: asking for the absolute form of one that
/// is absolute already gives it back.
pub proof fn absolute_settles(url: Seq<char>)
    ensures
        absolute(absolute(url)) == absolute(url),
{
    let whole = with_scheme(url);
    match path_start(whole) {
        Some(split) => {
            absolute_keeps_its_head(url, split);
            let bytes = encode_utf8(whole.skip(split));
            assert(absolute(url).skip(split) =~= ascii_text(escaped(bytes)));
            escaped_text_is_its_bytes(bytes);
            escaping_settles(bytes);
            assert(absolute(absolute(url)) =~= absolute(url));
        },
        None => {
            assert(!occurs(whole, relative_mark(), 0)) by {
                if occurs(url, relative_mark(), 0) {
                    assert(whole[0] == 'h');
                    if occurs(whole, relative_mark(), 0) {
                        assert(whole.subrange(0, 2)[0] == '/');
                    }
                }
            }
        },
    }
}

/// The path of an absolute address can be requested, and the scheme and host
/// before it are the ones that were given.
pub proof fn absolute_paths_are_requestable(url: Seq<char>, split: int)
    requires
        path_start(with_scheme(url)) == Some(split),
    ensures
        absolute(url).take(split) == with_scheme(url).take(split),
        requestable(encode_utf8(absolute(url).skip(split))),
        is_ascii_chars(absolute(url).skip(split)),
{
    absolute_keeps_its_head(url, split);
    let bytes = encode_utf8(with_scheme(url).skip(split));
    assert(absolute(url).skip(split) =~= ascii_text(escaped(bytes)));
    escaped_text_is_its_bytes(bytes);
    escaped_paths_are_requestable(bytes);
    escaped_is_ascii(bytes);
}

/// What a hexadecimal digit of either case is worth, and less than nothing for
/// any other byte.
pub open spec fn nibble(b: u8) -> int {
    if 0x30 <= b <= 0x39 {
        b - 0x30
    } else if 0x41 <= b <= 0x46 {
        b - 0x41 + 10
    } else if 0x61 <= b <= 0x66 {
        b - 0x61 + 10
    } else {
        -1
    }
}

/// What a path stands for, as whoever serves it reads it: a percent sign and two
/// hexadecimal digits stand for the byte they are worth, and every other byte
/// for itself.
pub open spec fn decoded(bytes: Seq<u8>) -> Seq<u8>
    decreases bytes.len(),
{
    if bytes.len() == 0 {
        bytes
    } else if bytes.len() >= 3 && bytes[0] == 0x25 && nibble(bytes[1]) >= 0 && nibble(bytes[2])
        >= 0 {
        seq![(nibble(bytes[1]) * 16 + nibble(bytes[2])) as u8] + decoded(bytes.skip(3))
    } else {
        seq![bytes[0]] + decoded(bytes.skip(1))
    }
}

/// Escaping keeps the meaning of a path: it stands for the same bytes before and
/// after.
pub proof fn escaping_keeps_the_meaning(bytes: Seq<u8>)
    ensures
        decoded(escaped(bytes)) == decoded(bytes),
    decreases bytes.len(),
{
    if bytes.len() == 0 {
    } else if starts_with_escape(bytes) {
        escaping_keeps_the_meaning(bytes.skip(3));
        let out = escaped(bytes);
        assert(out.skip(3) =~= escaped(bytes.skip(3)));
        assert(out[0] == bytes[0] && out[1] == bytes[1] && out[2] == bytes[2]);
    } else if literal(bytes[0]) {
        escaping_keeps_the_meaning(bytes.skip(1));
        let out = escaped(bytes);
        assert(out.skip(1) =~= escaped(bytes.skip(1)));
        assert(out[0] == bytes[0]);
    } else {
        escaping_keeps_the_meaning(bytes.skip(1));
        let out = escaped(bytes);
        let high = bytes[0] as int / 16;
        let low = bytes[0] as int % 16;
        assert(out.skip(3) =~= escaped(bytes.skip(1)));
        assert(out[0] == 0x25 && out[1] == hex_digit(high) && out[2] == hex_digit(low));
        assert(nibble(hex_digit(high)) == high && nibble(hex_digit(low)) == low);
        assert(high * 16 + low == bytes[0]);
        assert(!(bytes.len() >= 3 && bytes[0] == 0x25 && nibble(bytes[1]) >= 0 && nibble(bytes[2])
            >= 0));
    }
}

/// A path's text stands for the same bytes once it is escaped, and is made of
/// ASCII then.
pub proof fn an_escaped_text_keeps_its_meaning(path: Seq<char>)
    ensures
        ({
            let text = ascii_text(escaped(encode_utf8(path)));
            &&& decoded(encode_utf8(text)) == decoded(encode_utf8(path))
            &&& is_ascii_chars(text)
        }),
{
    let bytes = encode_utf8(path);
    escaping_keeps_the_meaning(bytes);
    escaped_text_is_its_bytes(bytes);
    escaped_is_ascii(bytes);
}

/// An escape that is there already comes through whole, whatever the case of its
/// digits. A percent sign that introduces none is escaped itself.
pub proof fn escapes_come_through_whole(high: u8, low: u8, rest: Seq<u8>)
    ensures
        nibble(high) >= 0 && nibble(low) >= 0 ==> escaped(seq![0x25u8, high, low] + rest) == seq![
            0x25u8,
            high,
            low,
        ] + escaped(rest),
        !(nibble(high) >= 0 && nibble(low) >= 0) ==> escaped(seq![0x25u8, high, low] + rest)
            == seq![0x25u8, 0x32, 0x35] + escaped(seq![high, low] + rest),
{
    let whole = seq![0x25u8, high, low] + rest;
    assert(whole.skip(3) =~= rest);
    assert(whole.take(3) =~= seq![0x25u8, high, low]);
    assert(whole.skip(1) =~= seq![high, low] + rest);
    assert(escape_of(0x25) =~= seq![0x25u8, 0x32, 0x35]);
}

/// The marks a path keeps, one by one: ``-._~!$&'()*+,;=:@/?#``.
pub open spec fn kept_marks() -> Seq<u8> {
    seq![
        0x2d, 0x2e, 0x5f, 0x7e, 0x21, 0x24, 0x26, 0x27, 0x28, 0x29, 0x2a, 0x2b, 0x2c, 0x3b, 0x3d,
        0x3a, 0x40, 0x2f, 0x3f, 0x23,
    ]
}

/// Whether a byte is a letter, a digit or one of those marks.
pub open spec fn kept(b: u8) -> bool {
    48 <= b <= 57 || 65 <= b <= 90 || 97 <= b <= 122 || kept_marks().contains(b)
}

/// Letters, digits and those marks stand for themselves in a path, and no other
/// byte does.
pub proof fn only_kept_bytes_are_literal(b: u8)
    ensures
        literal(b) <==> kept(b),
{
    let marks = kept_marks();
    if mark(b) {
        let at: int = if b == 0x21 {
            4
        } else if b == 0x23 {
            19
        } else if b == 0x24 {
            5
        } else if b <= 0x2c {
            b - 0x26 + 6
        } else if b == 0x2d {
            0
        } else if b == 0x2e {
            1
        } else if b == 0x2f {
            17
        } else if b == 0x3a {
            15
        } else if b == 0x3b {
            13
        } else if b == 0x3d {
            14
        } else if b == 0x3f {
            18
        } else if b == 0x40 {
            16
        } else if b == 0x5f {
            2
        } else {
            3
        };
        assert(marks[at] == b);
    }
}

/// A byte that a path keeps is left alone wherever it stands, so that slashes
/// and the delimiters of a query go on meaning what they mean. One that it does
/// not keep becomes a percent sign and two digits in upper case that are worth
/// it, unless it introduces an escape.
pub proof fn bytes_are_kept_or_escaped(b: u8, rest: Seq<u8>)
    ensures
        kept(b) ==> escaped(seq![b] + rest) == seq![b] + escaped(rest),
        !kept(b) && b != 0x25 ==> {
            let out = escaped(seq![b] + rest);
            &&& out.len() == 3 + escaped(rest).len()
            &&& out.skip(3) == escaped(rest)
            &&& out[0] == 0x25
            &&& out[1] <= 0x46 && out[2] <= 0x46
            &&& nibble(out[1]) >= 0 && nibble(out[2]) >= 0
            &&& nibble(out[1]) * 16 + nibble(out[2]) == b
        },
{
    only_kept_bytes_are_literal(b);
    let whole = seq![b] + rest;
    assert(whole.skip(1) =~= rest);
    assert(whole.take(1) =~= seq![b]);
    assert(whole[0] == b);
    assert(kept(b) ==> b != 0x25) by {
        only_kept_bytes_are_literal(b);
    }
    let out = escaped(whole);
    if !kept(b) && b != 0x25 {
        assert(out == escape_of(b) + escaped(rest));
        assert(out.skip(3) =~= escaped(rest));
    }
}

/// What is requested for an address with a scheme: everything before the path is
/// the scheme and the host as they were given, and only the path is escaped.
pub proof fn only_the_path_is_escaped(scheme: Seq<char>, host: Seq<char>, path: Seq<char>)
    requires
        forall|i: int| 0 <= i < scheme.len() ==> scheme[i] != ':' && scheme[i] != '/',
        forall|i: int| 0 <= i < host.len() ==> host[i] != '/',
        path.len() > 0 ==> path[0] == '/',
    ensures
        absolute(scheme + seq![':', '/', '/'] + host + path) == scheme + seq![':', '/', '/'] + host
            + ascii_text(escaped(encode_utf8(path))),
{
    let url = scheme + seq![':', '/', '/'] + host + path;
    let head = scheme + seq![':', '/', '/'] + host;
    let slash = seq!['/'];
    let start = scheme.len() as int;
    let split = start + 3 + host.len();
    assert(url.subrange(start, start + 3) =~= scheme_mark());
    assert forall|j: int| 0 <= j < start implies !occurs(url, scheme_mark(), j) by {
        if occurs(url, scheme_mark(), j) {
            assert(url.subrange(j, j + 3)[0] == url[j]);
            assert(url[j] == scheme[j]);
        }
    }
    first_is_found(url, scheme_mark(), 0, start);
    assert(!occurs(url, relative_mark(), 0)) by {
        if occurs(url, relative_mark(), 0) {
            assert(url.subrange(0, 2)[0] == url[0]);
            if start > 0 {
                assert(url[0] == scheme[0]);
            }
        }
    }
    assert forall|j: int| start + 3 <= j < split implies !occurs(url, slash, j) by {
        if occurs(url, slash, j) {
            assert(url.subrange(j, j + 1)[0] == url[j]);
            assert(url[j] == host[j - start - 3]);
        }
    }
    assert(encode_utf8(Seq::<char>::empty()) =~= Seq::<u8>::empty());
    if path.len() > 0 {
        assert(url[split] == path[0]);
        assert(url.subrange(split, split + 1) =~= slash);
        first_is_found(url, slash, start + 3, split);
        assert(url.take(split) =~= head);
        assert(url.skip(split) =~= path);
    } else {
        find_is_first(url, slash, start + 3);
        if find(url, slash, start + 3) is Some {
            assert(occurs(url, slash, find(url, slash, start + 3)->0));
        }
        assert(path =~= Seq::<char>::empty());
        assert(url =~= head);
        assert(head + ascii_text(escaped(encode_utf8(path))) =~= head);
    }
}

/// An address that leaves its scheme out is requested over https, and is
/// otherwise treated like the one that says so.
pub proof fn a_missing_scheme_is_https(host: Seq<char>, path: Seq<char>)
    requires
        forall|i: int| 0 <= i < host.len() ==> host[i] != '/',
        path.len() > 0 ==> path[0] == '/',
    ensures
        absolute(seq!['/', '/'] + host + path) == seq![
            'h', 't', 't', 'p', 's', ':', '/', '/',
        ] + host + ascii_text(escaped(encode_utf8(path))),
{
    let https = seq!['h', 't', 't', 'p', 's'];
    let given = seq!['/', '/'] + host + path;
    let whole = https + seq![':', '/', '/'] + host + path;
    only_the_path_is_escaped(https, host, path);
    assert(given.subrange(0, 2) =~= relative_mark());
    assert(with_scheme(given) =~= whole);
    assert(!occurs(whole, relative_mark(), 0)) by {
        if occurs(whole, relative_mark(), 0) {
            assert(whole.subrange(0, 2)[0] == 'h');
        }
    }
    assert(https + seq![':', '/', '/'] =~= seq!['h', 't', 't', 'p', 's', ':', '/', '/']);
    assert(absolute(given) == absolute(whole));
}

/// A text that is no address, neither with a scheme nor without one, is left
/// alone.
pub proof fn what_is_no_address_is_left_alone(url: Seq<char>)
    requires
        forall|i: int|
            0 <= i && i + 2 < url.len() ==> !(#[trigger] url[i] == ':' && url[i + 1] == '/' && url[i
                + 2] == '/'),
        !(url.len() >= 2 && url[0] == '/' && url[1] == '/'),
    ensures
        absolute(url) == url,
{
    find_is_first(url, scheme_mark(), 0);
    if find(url, scheme_mark(), 0) is Some {
        let at = find(url, scheme_mark(), 0)->0;
        let found = url.subrange(at, at + 3);
        assert(found[0] == url[at] && found[1] == url[at + 1] && found[2] == url[at + 2]);
    }
    if occurs(url, relative_mark(), 0) {
        let found = url.subrange(0, 2);
        assert(found[0] == url[0] && found[1] == url[1]);
    }
}

} // verus!
