use vstd::prelude::*;
use crate::types::OracleError;

verus! {

/// Unicode `White_Space`, the set that `char::is_whitespace` tests.
pub open spec fn is_white_space(c: char) -> bool {
    ('\u{9}' <= c && c <= '\u{d}') || c == ' ' || c == '\u{85}' || c == '\u{a0}'
        || c == '\u{1680}' || ('\u{2000}' <= c && c <= '\u{200a}') || c == '\u{2028}'
        || c == '\u{2029}' || c == '\u{202f}' || c == '\u{205f}' || c == '\u{3000}'
}

pub open spec fn trim_start_seq(s: Seq<char>) -> Seq<char>
    decreases s.len(),
{
    if s.len() > 0 && is_white_space(s[0]) {
        trim_start_seq(s.drop_first())
    } else {
        s
    }
}

pub open spec fn trim_end_seq(s: Seq<char>) -> Seq<char>
    decreases s.len(),
{
    if s.len() > 0 && is_white_space(s.last()) {
        trim_end_seq(s.drop_last())
    } else {
        s
    }
}

/// `s` without its leading and trailing white space.
pub open spec fn trim_seq(s: Seq<char>) -> Seq<char> {
    trim_end_seq(trim_start_seq(s))
}

/// `s` without one leading `0x` or `0X`.
pub open spec fn strip_hex_prefix(s: Seq<char>) -> Seq<char> {
    if s.len() >= 2 && s[0] == '0' && (s[1] == 'x' || s[1] == 'X') {
        s.subrange(2, s.len() as int)
    } else {
        s
    }
}

pub open spec fn is_hex_char(c: char) -> bool {
    ('0' <= c && c <= '9') || ('a' <= c && c <= 'f') || ('A' <= c && c <= 'F')
}

pub open spec fn is_lower_hex_char(c: char) -> bool {
    ('0' <= c && c <= '9') || ('a' <= c && c <= 'f')
}

pub open spec fn all_hex(s: Seq<char>) -> bool {
    forall|i: int| 0 <= i < s.len() ==> is_hex_char(#[trigger] s[i])
}

/// A normalised digest: non-empty, of even length, all of `[0-9a-f]`.
pub open spec fn is_normalized_digest(s: Seq<char>) -> bool {
    &&& s.len() > 0
    &&& s.len() % 2 == 0
    &&& forall|i: int| 0 <= i < s.len() ==> is_lower_hex_char(#[trigger] s[i])
}

/// The ASCII lower case of `c`; any other character is kept.
pub open spec fn ascii_lower(c: char) -> char {
    if 'A' <= c && c <= 'Z' {
        ((c as u32) + 32) as char
    } else {
        c
    }
}

pub open spec fn lower_seq(s: Seq<char>) -> Seq<char> {
    s.map_values(|c: char| ascii_lower(c))
}

/// The digest that `s` stands for, or `None` where `s` is no valid hex digest.
pub open spec fn normalize_spec(s: Seq<char>) -> Option<Seq<char>> {
    let body = strip_hex_prefix(trim_seq(s));
    if body.len() > 0 && body.len() % 2 == 0 && all_hex(body) {
        Some(lower_seq(body))
    } else {
        None
    }
}

/// The lower-case hex digit of a value below 16.
pub open spec fn hex_digit_char(d: nat) -> char {
    if d < 10 {
        (48 + d) as char
    } else {
        (87 + d) as char
    }
}

/// The value of a hex digit of either case.
pub open spec fn hex_value(c: char) -> nat {
    if '0' <= c && c <= '9' {
        (c as u32 - 48) as nat
    } else if 'a' <= c && c <= 'f' {
        (c as u32 - 87) as nat
    } else {
        (c as u32 - 55) as nat
    }
}

pub proof fn lemma_hex_char_lower(c: char)
    requires
        is_hex_char(c),
    ensures
        hex_value(c) < 16,
        ascii_lower(c) == hex_digit_char(hex_value(c)),
        is_lower_hex_char(ascii_lower(c)),
        !is_white_space(c),
{
}

/// The one-character string of the hex digit of `d`.
pub fn hex_digit_str(d: u8) -> (r: &'static str)
    requires
        d < 16,
    ensures
        r@ == seq![hex_digit_char(d as nat)],
{
    let digits: &'static str = "0123456789abcdef";
    proof {
        reveal_strlit("0123456789abcdef");
        assert(digits@.len() == 16);
        assert(vstd::string::is_ascii(digits));
    }
    let r = digits.substring_ascii(d as usize, d as usize + 1);
    proof {
        reveal_strlit("0123456789abcdef");
        assert(r@ =~= seq![hex_digit_char(d as nat)]);
    }
    r
}

fn is_white_space_char(c: char) -> (r: bool)
    ensures
        r == is_white_space(c),
{
    ('\u{9}' <= c && c <= '\u{d}') || c == ' ' || c == '\u{85}' || c == '\u{a0}' || c == '\u{1680}'
        || ('\u{2000}' <= c && c <= '\u{200a}') || c == '\u{2028}' || c == '\u{2029}' || c
        == '\u{202f}' || c == '\u{205f}' || c == '\u{3000}'
}

/// `s` without its leading and trailing white space.
fn trim_str(s: &str) -> (r: &str)
    ensures
        r@ == trim_seq(s@),
{
    let n = s.unicode_len();
    let mut i: usize = 0;
    assert(s@.subrange(0, n as int) =~= s@);
    while i < n && is_white_space_char(s.get_char(i))
        invariant
            i <= n,
            n == s@.len(),
            trim_start_seq(s@.subrange(i as int, n as int)) == trim_start_seq(s@),
        decreases n - i,
    {
        assert(s@.subrange(i as int, n as int).drop_first() =~= s@.subrange(i + 1, n as int));
        i = i + 1;
    }
    let mut j: usize = n;
    while j > i && is_white_space_char(s.get_char(j - 1))
        invariant
            i <= j <= n,
            n == s@.len(),
            trim_start_seq(s@) == s@.subrange(i as int, n as int),
            trim_end_seq(s@.subrange(i as int, j as int)) == trim_seq(s@),
        decreases j - i,
    {
        assert(s@.subrange(i as int, j as int).drop_last() =~= s@.subrange(i as int, j - 1));
        j = j - 1;
    }
    s.substring_char(i, j)
}

fn is_hex_byte(b: u8) -> (r: bool)
    ensures
        r == ((48 <= b && b <= 57) || (97 <= b && b <= 102) || (65 <= b && b <= 70)),
{
    (48 <= b && b <= 57) || (97 <= b && b <= 102) || (65 <= b && b <= 70)
}

fn hex_byte_value(b: u8) -> (r: u8)
    requires
        (48 <= b && b <= 57) || (97 <= b && b <= 102) || (65 <= b && b <= 70),
    ensures
        r as nat == hex_value(b as char),
{
    if b <= 57 {
        b - 48
    } else if b >= 97 {
        b - 87
    } else {
        b - 55
    }
}

/// The message of the error for a digest that is not accepted.
pub open spec fn invalid_input_message(input: Seq<char>) -> Seq<char> {
    if strip_hex_prefix(trim_seq(input)).len() == 0 {
        "expected_sha256 is required"@
    } else {
        "expected_sha256 must be valid hex, got "@ + input
    }
}

fn invalid_hex(input: &str) -> (e: OracleError)
    ensures
        e is InvalidInput,
        e->InvalidInput_0@ == "expected_sha256 must be valid hex, got "@ + input@,
{
    OracleError::InvalidInput(String::from_str("expected_sha256 must be valid hex, got ").concat(input))
}

/// Canonicalises a caller's hex digest: surrounding white space and one
/// leading `0x`/`0X` are removed, what is left must be a non-empty, even run
/// of hex digits, and is returned in lower case.
pub fn normalize_hex(input: &str) -> (r: Result<String, OracleError>)
    ensures
        r is Ok <==> normalize_spec(input@) is Some,
        r is Ok ==> r->Ok_0@ == normalize_spec(input@)->Some_0,
        r is Ok ==> is_normalized_digest(r->Ok_0@),
        r is Err ==> r->Err_0 is InvalidInput && r->Err_0->InvalidInput_0@ == invalid_input_message(
            input@,
        ),
{
    let t = trim_str(input);
    if !t.is_ascii() {
        proof {
            let body = strip_hex_prefix(t@);
            let k: int = choose|k: int| 0 <= k < t@.len() && !('\0' <= #[trigger] t@[k] <= '\u{7f}');
            if body.len() > 0 && all_hex(body) {
                if body.len() == t@.len() {
                    assert(body[k] == t@[k]);
                } else if k >= 2 {
                    assert(body[k - 2] == t@[k]);
                }
            }
        }
        return Err(invalid_hex(input));
    }
    proof {
        vstd::utf8::is_ascii_chars_encode_utf8(t@);
    }
    let n = t.unicode_len();
    assert(n == t@.len());
    let mut start: usize = 0;
    if n >= 2 {
        let b0 = t.get_ascii(0);
        let b1 = t.get_ascii(1);
        assert(t@[0] as u32 <= 127 && t@[1] as u32 <= 127);
        assert(t@[0] == '0' <==> b0 == 48);
        assert(t@[1] == 'x' <==> b1 == 120);
        assert(t@[1] == 'X' <==> b1 == 88);
        if b0 == 48 && (b1 == 120 || b1 == 88) {
            start = 2;
        }
    }
    let ghost body = strip_hex_prefix(t@);
    assert(body =~= t@.subrange(start as int, n as int));
    if start == n {
        return Err(OracleError::InvalidInput(String::from_str("expected_sha256 is required")));
    }
    if (n - start) % 2 != 0 {
        return Err(invalid_hex(input));
    }
    let mut out = String::new();
    let mut i: usize = start;
    while i < n
        invariant
            start <= i <= n,
            n == t@.len(),
            vstd::string::is_ascii(t),
            body =~= t@.subrange(start as int, n as int),
            body == strip_hex_prefix(trim_seq(input@)),
            body.len() > 0 && body.len() % 2 == 0,
            forall|j: int| start <= j < i ==> is_hex_char(#[trigger] t@[j]),
            out@ =~= lower_seq(t@.subrange(start as int, i as int)),
        decreases n - i,
    {
        let b = t.get_ascii(i);
        assert(t@[i as int] as u32 <= 127);
        assert(t@[i as int] == b as char);
        if !is_hex_byte(b) {
            assert(body[i - start] == t@[i as int]);
            assert(!is_hex_char(body[i - start]));
            return Err(invalid_hex(input));
        }
        proof {
            lemma_hex_char_lower(t@[i as int]);
        }
        out.append(hex_digit_str(hex_byte_value(b)));
        assert(t@.subrange(start as int, i + 1) =~= t@.subrange(start as int, i as int).push(t@[i as int]));
        i = i + 1;
    }
    assert(all_hex(body));
    proof {
        lemma_normalize_idempotent(input@);
    }
    Ok(out)
}


pub proof fn lemma_trim_keeps(s: Seq<char>)
    requires
        s.len() > 0 ==> !is_white_space(s[0]) && !is_white_space(s.last()),
    ensures
        trim_seq(s) == s,
{
    assert(trim_start_seq(s) == s);
    assert(trim_end_seq(s) == s);
}

/// Normalising a normalised digest gives it back unchanged.
pub proof fn lemma_normalize_idempotent(x: Seq<char>)
    requires
        normalize_spec(x) is Some,
    ensures
        normalize_spec(normalize_spec(x)->Some_0) == normalize_spec(x),
        is_normalized_digest(normalize_spec(x)->Some_0),
{
    let body = strip_hex_prefix(trim_seq(x));
    let n = lower_seq(body);
    assert forall|i: int| 0 <= i < n.len() implies is_lower_hex_char(#[trigger] n[i]) && ascii_lower(
        n[i],
    ) == n[i] by {
        lemma_hex_char_lower(body[i]);
    }
    lemma_trim_keeps(n);
    assert(strip_hex_prefix(n) == n);
    assert(all_hex(n));
    assert(lower_seq(n) =~= n);
}

/// A leading `0x` (or `0X`) before a run of hex digits does not change
/// the normalised digest.
pub proof fn lemma_prefix_invariant(h: Seq<char>, x: char)
    requires
        all_hex(h),
        x == 'x' || x == 'X',
    ensures
        normalize_spec(seq!['0', x] + h) == normalize_spec(h),
{
    let p = seq!['0', x] + h;
    if h.len() > 0 {
        lemma_hex_char_lower(h[0]);
        lemma_hex_char_lower(h.last());
        assert(p.last() == h.last());
    }
    lemma_trim_keeps(p);
    lemma_trim_keeps(h);
    assert(strip_hex_prefix(p) =~= h);
    if h.len() >= 2 {
        lemma_hex_char_lower(h[1]);
    }
    assert(strip_hex_prefix(h) == h);
}

} // verus!
