//! Character-level helpers shared by the whole crate: ASCII case folding,
//! the two wire casings of the upstream service (PascalCase probe keys and
//! snake_case query values), and decimal rendering of integers.
use vstd::prelude::*;

verus! {

pub open spec fn is_ascii_upper(c: char) -> bool {
    'A' <= c && c <= 'Z'
}

pub open spec fn is_ascii_lower(c: char) -> bool {
    'a' <= c && c <= 'z'
}

pub open spec fn is_ascii_letter(c: char) -> bool {
    is_ascii_upper(c) || is_ascii_lower(c)
}

/// Characters that separate words in a wire token.
pub open spec fn is_word_sep(c: char) -> bool {
    c == '_' || c == '-' || c == ' '
}

pub open spec fn upper_of(c: char) -> char {
    if is_ascii_lower(c) {
        (((c as u8) - 32) as char)
    } else {
        c
    }
}

pub open spec fn lower_of(c: char) -> char {
    if is_ascii_upper(c) {
        (((c as u8) + 32) as char)
    } else {
        c
    }
}

fn to_upper_char(c: char) -> (r: char)
    ensures
        r == upper_of(c),
{
    if 'a' <= c && c <= 'z' {
        (((c as u8) - 32) as char)
    } else {
        c
    }
}

fn to_lower_char(c: char) -> (r: char)
    ensures
        r == lower_of(c),
{
    if 'A' <= c && c <= 'Z' {
        (((c as u8) + 32) as char)
    } else {
        c
    }
}

/// Relies on String::push: appends exactly one character at the end.
#[verifier::external_body]
pub fn push_char(s: &mut String, c: char)
    ensures
        final(s)@ == old(s)@ + seq![c],
{
    s.push(c);
}

/// Whether two string slices hold the same characters.
pub fn str_eq(a: &str, b: &str) -> (r: bool)
    ensures
        r == (a@ == b@),
{
    let la = a.unicode_len();
    let lb = b.unicode_len();
    if la != lb {
        return false;
    }
    let mut i: usize = 0;
    while i < la
        invariant
            i <= la,
            la == a@.len(),
            lb == b@.len(),
            la == lb,
            forall|j: int| 0 <= j < i ==> a@[j] == b@[j],
        decreases la - i,
    {
        if a.get_char(i) != b.get_char(i) {
            return false;
        }
        i = i + 1;
    }
    proof {
        assert(a@ =~= b@);
    }
    true
}

/// One step of `normalize_spec`: the token is consumed from the front;
/// `boundary` records whether the next letter starts a new word.
pub open spec fn normalized_from(s: Seq<char>, boundary: bool) -> Seq<char>
    decreases s.len(),
{
    if s.len() == 0 {
        Seq::empty()
    } else {
        let c = s[0];
        let rest = s.subrange(1, s.len() as int);
        if is_word_sep(c) {
            normalized_from(rest, true)
        } else if is_ascii_upper(c) {
            seq![c] + normalized_from(rest, false)
        } else if boundary {
            seq![upper_of(c)] + normalized_from(rest, false)
        } else {
            seq![c] + normalized_from(rest, false)
        }
    }
}

/// The canonical probe key of a wire token: words are cut at separators and
/// at lower-to-upper boundaries, each word is capitalized, and the separators
/// are dropped, so `chambers_of_xeric`, `chambersOfXeric` and
/// `ChambersOfXeric` all map to `ChambersOfXeric`.
pub open spec fn normalize_spec(s: Seq<char>) -> Seq<char> {
    normalized_from(s, true)
}

/// One step of `snake_spec`; `first` is true while no character was emitted.
pub open spec fn snake_from(s: Seq<char>, first: bool) -> Seq<char>
    decreases s.len(),
{
    if s.len() == 0 {
        Seq::empty()
    } else {
        let c = s[0];
        let rest = s.subrange(1, s.len() as int);
        if is_ascii_upper(c) {
            (if first {
                seq![lower_of(c)]
            } else {
                seq!['_', lower_of(c)]
            }) + snake_from(rest, false)
        } else {
            seq![c] + snake_from(rest, false)
        }
    }
}

/// The snake_case rendering of a PascalCase token: every uppercase letter is
/// lowered, and all but the first open a new `_`-separated word.
pub open spec fn snake_spec(s: Seq<char>) -> Seq<char> {
    snake_from(s, true)
}

proof fn lemma_normalized_from_cons(c: char, t: Seq<char>, boundary: bool)
    ensures
        is_word_sep(c) ==> normalized_from(seq![c] + t, boundary) == normalized_from(t, true),
        !is_word_sep(c) && is_ascii_upper(c) ==> normalized_from(seq![c] + t, boundary) == seq![c]
            + normalized_from(t, false),
        !is_word_sep(c) && !is_ascii_upper(c) && boundary ==> normalized_from(seq![c] + t, boundary)
            == seq![upper_of(c)] + normalized_from(t, false),
        !is_word_sep(c) && !is_ascii_upper(c) && !boundary ==> normalized_from(
            seq![c] + t,
            boundary,
        ) == seq![c] + normalized_from(t, false),
{
    let u = seq![c] + t;
    assert(u[0] == c);
    assert(u.subrange(1, u.len() as int) =~= t);
}

proof fn lemma_snake_from_cons(c: char, t: Seq<char>, first: bool)
    ensures
        is_ascii_upper(c) && first ==> snake_from(seq![c] + t, first) == seq![lower_of(c)]
            + snake_from(t, false),
        is_ascii_upper(c) && !first ==> snake_from(seq![c] + t, first) == seq!['_', lower_of(c)]
            + snake_from(t, false),
        !is_ascii_upper(c) ==> snake_from(seq![c] + t, first) == seq![c] + snake_from(t, false),
{
    let u = seq![c] + t;
    assert(u[0] == c);
    assert(u.subrange(1, u.len() as int) =~= t);
}

proof fn lemma_norm_snake_from(s: Seq<char>, boundary: bool)
    requires
        forall|i: int| 0 <= i < s.len() ==> is_ascii_letter(#[trigger] s[i]),
        s.len() > 0 && is_ascii_lower(s[0]) ==> !boundary,
    ensures
        normalized_from(snake_from(s, false), boundary) == s,
    decreases s.len(),
{
    if s.len() == 0 {
    } else {
        let c = s[0];
        let rest = s.subrange(1, s.len() as int);
        assert(forall|i: int| 0 <= i < rest.len() ==> is_ascii_letter(#[trigger] rest[i]));
        assert(s =~= seq![c] + rest);
        lemma_snake_from_cons(c, rest, false);
        if is_ascii_upper(c) {
            let l = lower_of(c);
            assert(is_ascii_lower(l));
            assert(upper_of(l) == c);
            // snake_from(s, false) == seq!['_', l] + snake_from(rest, false)
            let tail = snake_from(rest, false);
            assert(seq!['_', l] + tail =~= seq!['_'] + (seq![l] + tail));
            lemma_normalized_from_cons('_', seq![l] + tail, boundary);
            lemma_normalized_from_cons(l, tail, true);
            lemma_norm_snake_from(rest, false);
        } else {
            assert(is_ascii_lower(c));
            assert(!boundary);
            let tail = snake_from(rest, false);
            lemma_normalized_from_cons(c, tail, false);
            lemma_norm_snake_from(rest, false);
        }
    }
}

/// A canonical vocabulary name: a nonempty run of ASCII letters that starts
/// with an uppercase letter.
pub open spec fn pascal_token(s: Seq<char>) -> bool {
    s.len() > 0 && is_ascii_upper(s[0]) && (forall|i: int|
        0 <= i < s.len() ==> is_ascii_letter(#[trigger] s[i]))
}

proof fn lemma_normalized_from_letters_identity(s: Seq<char>)
    requires
        forall|i: int| 0 <= i < s.len() ==> is_ascii_letter(#[trigger] s[i]),
    ensures
        normalized_from(s, false) == s,
    decreases s.len(),
{
    if s.len() == 0 {
    } else {
        let c = s[0];
        let rest = s.subrange(1, s.len() as int);
        assert(forall|i: int| 0 <= i < rest.len() ==> is_ascii_letter(#[trigger] rest[i]));
        assert(s =~= seq![c] + rest);
        lemma_normalized_from_cons(c, rest, false);
        lemma_normalized_from_letters_identity(rest);
    }
}

/// Normalization leaves a canonical name unchanged: the PascalCase casing is
/// itself among the accepted spellings of every name.
pub proof fn lemma_normalize_pascal_identity(s: Seq<char>)
    requires
        pascal_token(s),
    ensures
        normalize_spec(s) == s,
{
    let c = s[0];
    let rest = s.subrange(1, s.len() as int);
    assert(forall|i: int| 0 <= i < rest.len() ==> is_ascii_letter(#[trigger] rest[i]));
    assert(s =~= seq![c] + rest);
    lemma_normalized_from_cons(c, rest, true);
    lemma_normalized_from_letters_identity(rest);
}

/// Rendering a canonical name in snake_case and normalizing the result gives
/// the name back: the two wire casings are inverse on the vocabulary tables.
pub proof fn lemma_snake_normalize_roundtrip(s: Seq<char>)
    requires
        pascal_token(s),
    ensures
        normalize_spec(snake_spec(s)) == s,
{
    let c = s[0];
    let rest = s.subrange(1, s.len() as int);
    assert(s =~= seq![c] + rest);
    lemma_snake_from_cons(c, rest, true);
    let l = lower_of(c);
    assert(is_ascii_lower(l));
    assert(upper_of(l) == c);
    let tail = snake_from(rest, false);
    lemma_normalized_from_cons(l, tail, true);
    lemma_norm_snake_from(rest, false);
}

/// The canonical probe key of a wire token, as `normalize_spec` describes it.
pub fn normalize_token(s: &str) -> (r: String)
    ensures
        r@ == normalize_spec(s@),
{
    let len = s.unicode_len();
    let mut out = String::new();
    let mut boundary = true;
    let mut i: usize = 0;
    proof {
        assert(s@.subrange(0, len as int) =~= s@);
        assert(out@ + normalized_from(s@, true) =~= normalized_from(s@, true));
    }
    while i < len
        invariant
            i <= len,
            len == s@.len(),
            out@ + normalized_from(s@.subrange(i as int, len as int), boundary) == normalize_spec(
                s@,
            ),
        decreases len - i,
    {
        let c = s.get_char(i);
        let ghost pre = s@.subrange(i as int, len as int);
        let ghost post = s@.subrange(i as int + 1, len as int);
        proof {
            assert(pre =~= seq![c] + post);
        }
        if c == '_' || c == '-' || c == ' ' {
            proof {
                lemma_normalized_from_cons(c, post, boundary);
            }
            boundary = true;
        } else if 'A' <= c && c <= 'Z' {
            proof {
                lemma_normalized_from_cons(c, post, boundary);
            }
            push_char(&mut out, c);
            boundary = false;
        } else if boundary {
            proof {
                lemma_normalized_from_cons(c, post, boundary);
            }
            push_char(&mut out, to_upper_char(c));
            boundary = false;
        } else {
            proof {
                lemma_normalized_from_cons(c, post, boundary);
            }
            push_char(&mut out, c);
            boundary = false;
        }
        i = i + 1;
    }
    proof {
        assert(s@.subrange(i as int, len as int) =~= Seq::<char>::empty());
    }
    out
}

/// The snake_case rendering of a token, as `snake_spec` describes it.
pub fn to_snake_token(s: &str) -> (r: String)
    ensures
        r@ == snake_spec(s@),
{
    let len = s.unicode_len();
    let mut out = String::new();
    let mut first = true;
    let mut i: usize = 0;
    proof {
        assert(s@.subrange(0, len as int) =~= s@);
        assert(out@ + snake_from(s@, true) =~= snake_from(s@, true));
    }
    while i < len
        invariant
            i <= len,
            len == s@.len(),
            out@ + snake_from(s@.subrange(i as int, len as int), first) == snake_spec(s@),
        decreases len - i,
    {
        let c = s.get_char(i);
        let ghost pre = s@.subrange(i as int, len as int);
        let ghost post = s@.subrange(i as int + 1, len as int);
        proof {
            assert(pre =~= seq![c] + post);
            lemma_snake_from_cons(c, post, first);
        }
        if 'A' <= c && c <= 'Z' {
            if !first {
                push_char(&mut out, '_');
            }
            push_char(&mut out, to_lower_char(c));
        } else {
            push_char(&mut out, c);
        }
        first = false;
        i = i + 1;
    }
    proof {
        assert(s@.subrange(i as int, len as int) =~= Seq::<char>::empty());
    }
    out
}

/// The decimal digit character for one value below ten.
pub open spec fn dec_digit(n: int) -> char {
    (((48 + n) as u8) as char)
}

/// The decimal rendering of a nonnegative number, most significant digit
/// first, with no leading zero except for the number zero itself.
pub open spec fn dec_digits(n: nat) -> Seq<char>
    decreases n,
{
    if n < 10 {
        seq![dec_digit(n as int)]
    } else {
        dec_digits(n / 10).push(dec_digit((n % 10) as int))
    }
}

/// The decimal rendering of a signed number.
pub open spec fn dec_int(n: int) -> Seq<char> {
    if n < 0 {
        seq!['-'] + dec_digits((-n) as nat)
    } else {
        dec_digits(n as nat)
    }
}

fn digit_char(d: u64) -> (r: char)
    requires
        d < 10,
    ensures
        r == dec_digit(d as int),
{
    ((48 + d as u8) as char)
}

fn push_u64_digits(n: u64, out: &mut String)
    ensures
        final(out)@ == old(out)@ + dec_digits(n as nat),
    decreases n,
{
    if n < 10 {
        push_char(out, digit_char(n));
    } else {
        push_u64_digits(n / 10, out);
        push_char(out, digit_char(n % 10));
    }
}

/// The decimal rendering of a number, left-padded with zeros to at least
/// two digits.
pub open spec fn pad2(n: nat) -> Seq<char> {
    if n < 10 {
        seq!['0'] + dec_digits(n)
    } else {
        dec_digits(n)
    }
}

/// The decimal rendering of a number, left-padded with zeros to at least
/// four digits.
pub open spec fn pad4(n: nat) -> Seq<char> {
    if n < 10 {
        seq!['0', '0', '0'] + dec_digits(n)
    } else if n < 100 {
        seq!['0', '0'] + dec_digits(n)
    } else if n < 1000 {
        seq!['0'] + dec_digits(n)
    } else {
        dec_digits(n)
    }
}

pub fn push_pad2(out: &mut String, n: u32)
    ensures
        final(out)@ == old(out)@ + pad2(n as nat),
{
    if n < 10 {
        push_char(out, '0');
    }
    push_u64_digits(n as u64, out);
}

pub fn push_pad4(out: &mut String, n: u32)
    ensures
        final(out)@ == old(out)@ + pad4(n as nat),
{
    if n < 1000 {
        push_char(out, '0');
    }
    if n < 100 {
        push_char(out, '0');
    }
    if n < 10 {
        push_char(out, '0');
    }
    push_u64_digits(n as u64, out);
}

pub fn u64_to_string(n: u64) -> (r: String)
    ensures
        r@ == dec_digits(n as nat),
{
    let mut out = String::new();
    push_u64_digits(n, &mut out);
    out
}

pub fn i64_to_string(n: i64) -> (r: String)
    ensures
        r@ == dec_int(n as int),
{
    if n >= 0 {
        u64_to_string(n as u64)
    } else {
        let m: u64 = (-(n as i128)) as u64;
        let mut out = String::new();
        push_char(&mut out, '-');
        push_u64_digits(m, &mut out);
        out
    }
}

pub fn i32_to_string(n: i32) -> (r: String)
    ensures
        r@ == dec_int(n as int),
{
    i64_to_string(n as i64)
}

} // verus!
