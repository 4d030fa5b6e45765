//! Character-level text helpers shared by the rest of the library.
use vstd::prelude::*;

verus! {

/// Appends one character to a `String` (std `String::push`).
/// Claimed: the new text is the old text followed by `c`.
#[verifier::external_body]
pub(crate) fn push_char(s: &mut String, c: char)
    ensures
        final(s)@ == old(s)@.push(c),
{
    s.push(c)
}

/// The characters of `s`, in order.
pub fn chars_of(s: &str) -> (v: Vec<char>)
    ensures
        v@ == s@,
{
    let n = s.unicode_len();
    let mut v: Vec<char> = Vec::new();
    let mut i: usize = 0;
    while i < n
        invariant
            n == s@.len(),
            i <= n,
            v@ == s@.take(i as int),
        decreases n - i,
    {
        v.push(s.get_char(i));
        i += 1;
        assert(v@ =~= s@.take(i as int));
    }
    assert(v@ =~= s@);
    v
}

/// A `String` holding exactly the given characters.
pub fn string_from_chars(cs: &[char]) -> (r: String)
    ensures
        r@ == cs@,
{
    let mut r = String::new();
    let mut i: usize = 0;
    while i < cs.len()
        invariant
            i <= cs@.len(),
            r@ == cs@.take(i as int),
        decreases cs@.len() - i,
    {
        push_char(&mut r, cs[i]);
        i += 1;
        assert(r@ =~= cs@.take(i as int));
    }
    assert(r@ =~= cs@);
    r
}

/// Appends all characters of `cs` to `out`.
pub fn push_chars(out: &mut String, cs: &[char])
    ensures
        final(out)@ == old(out)@ + cs@,
{
    let mut i: usize = 0;
    while i < cs.len()
        invariant
            i <= cs@.len(),
            out@ == old(out)@ + cs@.take(i as int),
        decreases cs@.len() - i,
    {
        push_char(out, cs[i]);
        i += 1;
        assert(out@ =~= old(out)@ + cs@.take(i as int));
    }
    assert(cs@.take(cs@.len() as int) =~= cs@);
}

/// Appends all characters of `s` to `out`.
pub fn push_str(out: &mut String, s: &str)
    ensures
        final(out)@ == old(out)@ + s@,
{
    let cs = chars_of(s);
    push_chars(out, cs.as_slice());
}

/// Character-by-character equality of two texts.
pub fn text_eq(a: &str, b: &str) -> (r: bool)
    ensures
        r == (a@ == b@),
{
    let x = chars_of(a);
    let y = chars_of(b);
    if x.len() != y.len() {
        return false;
    }
    let mut i: usize = 0;
    while i < x.len()
        invariant
            x@ == a@,
            y@ == b@,
            x@.len() == y@.len(),
            i <= x@.len(),
            forall|k: int| 0 <= k < i ==> x@[k] == y@[k],
        decreases x@.len() - i,
    {
        if x[i] != y[i] {
            return false;
        }
        i += 1;
    }
    assert(x@ =~= y@);
    true
}

/// The decimal digit character for `d` in `0..10`.
pub open spec fn digit_char(d: int) -> char {
    (48 + d) as char
}

/// Decimal rendering of a natural number, most significant digit first.
pub open spec fn decimal_nat(n: nat) -> Seq<char>
    decreases n,
{
    if n < 10 {
        seq![digit_char(n as int)]
    } else {
        decimal_nat(n / 10).push(digit_char((n % 10) as int))
    }
}

/// Decimal rendering of an integer, as `Display` writes it: a `-` before the
/// digits of a negative number.
pub open spec fn decimal_int(n: int) -> Seq<char> {
    if n < 0 {
        seq!['-'] + decimal_nat((-n) as nat)
    } else {
        decimal_nat(n as nat)
    }
}

fn digit(d: u64) -> (c: char)
    requires
        d < 10,
    ensures
        c == digit_char(d as int),
{
    let b: u8 = 48u8 + (d as u8);
    b as char
}

/// Appends the decimal digits of `n` to `out`.
pub fn push_decimal_u64(out: &mut String, n: u64)
    ensures
        final(out)@ == old(out)@ + decimal_nat(n as nat),
    decreases n,
{
    if n >= 10 {
        push_decimal_u64(out, n / 10);
    }
    push_char(out, digit(n % 10));
    assert(final(out)@ =~= old(out)@ + decimal_nat(n as nat));
}

/// Appends the decimal rendering of `n` to `out`.
pub fn push_decimal_i64(out: &mut String, n: i64)
    ensures
        final(out)@ == old(out)@ + decimal_int(n as int),
{
    if n < 0 {
        push_char(out, '-');
        let m: i128 = 0i128 - (n as i128);
        push_decimal_u64(out, m as u64);
        assert(final(out)@ =~= old(out)@ + decimal_int(n as int));
    } else {
        push_decimal_u64(out, n as u64);
    }
}


/// An ASCII decimal digit.
pub open spec fn is_digit(c: char) -> bool {
    '0' <= c && c <= '9'
}

/// Every character is an ASCII decimal digit.
pub open spec fn all_digits(s: Seq<char>) -> bool {
    forall|i: int| 0 <= i < s.len() ==> is_digit(#[trigger] s[i])
}

/// The number written by a run of decimal digits.
pub open spec fn digits_value(s: Seq<char>) -> int
    decreases s.len(),
{
    if s.len() == 0 {
        0
    } else {
        digits_value(s.drop_last()) * 10 + (s.last() as int - 48)
    }
}

/// Whether the text starts with a sign character.
pub open spec fn has_sign(s: Seq<char>) -> bool {
    s.len() > 0 && (s[0] == '-' || s[0] == '+')
}

/// The text after an optional leading sign.
pub open spec fn unsigned_part(s: Seq<char>) -> Seq<char> {
    if has_sign(s) { s.drop_first() } else { s }
}

/// The value that the text denotes when its digits are read in decimal.
pub open spec fn signed_value(s: Seq<char>) -> int {
    if s.len() > 0 && s[0] == '-' {
        -digits_value(unsigned_part(s))
    } else {
        digits_value(unsigned_part(s))
    }
}

/// What `str::parse::<i32>` gives: an optional `+` or `-`, then at least one
/// decimal digit and nothing else, with the value in range.
pub open spec fn parse_i32_spec(s: Seq<char>) -> Option<i32> {
    if unsigned_part(s).len() > 0 && all_digits(unsigned_part(s)) && i32::MIN <= signed_value(s)
        && signed_value(s) <= i32::MAX {
        Some(signed_value(s) as i32)
    } else {
        None
    }
}

proof fn lemma_digits_value_nonneg(s: Seq<char>)
    requires
        all_digits(s),
    ensures
        digits_value(s) >= 0,
    decreases s.len(),
{
    if s.len() > 0 {
        assert(is_digit(s[s.len() - 1]));
        lemma_digits_value_nonneg(s.drop_last());
    }
}

proof fn lemma_digits_value_prefix(s: Seq<char>, i: int)
    requires
        all_digits(s),
        0 <= i <= s.len(),
    ensures
        digits_value(s.take(i)) <= digits_value(s),
    decreases s.len(),
{
    if i < s.len() {
        assert(is_digit(s[s.len() - 1]));
        assert(all_digits(s.drop_last()));
        lemma_digits_value_nonneg(s.drop_last());
        assert(s.drop_last().take(i) =~= s.take(i));
        lemma_digits_value_prefix(s.drop_last(), i);
    } else {
        assert(s.take(i) =~= s);
    }
}

/// Parses a decimal `i32` exactly as `str::parse::<i32>` accepts it.
pub fn parse_i32(cs: &[char]) -> (r: Option<i32>)
    ensures
        r == parse_i32_spec(cs@),
{
    let n = cs.len();
    let mut start: usize = 0;
    let mut negative = false;
    if n > 0 && (cs[0] == '-' || cs[0] == '+') {
        start = 1;
        negative = cs[0] == '-';
    }
    let ghost body = cs@.skip(start as int);
    if start >= n {
        proof {
            assert(body.len() == 0);
            if start == 0 { assert(body =~= cs@); } else { assert(body =~= cs@.drop_first()); }
        }
        return None;
    }
    let mut acc: i64 = 0;
    let mut i: usize = start;
    while i < n
        invariant
            n == cs@.len(),
            start <= i <= n,
            start == (if has_sign(cs@) { 1usize } else { 0usize }),
            negative == (n > 0 && cs@[0] == '-'),
            body == cs@.skip(start as int),
            0 <= acc <= 2147483648,
            all_digits(cs@.subrange(start as int, i as int)),
            acc == digits_value(cs@.subrange(start as int, i as int)),
        decreases n - i,
    {
        let c = cs[i];
        if !('0' <= c && c <= '9') {
            proof {
                if start == 0 { assert(body =~= cs@); } else { assert(body =~= cs@.drop_first()); }
                assert(body == unsigned_part(cs@));
                assert(body[i - start] == c);
                assert(!is_digit(body[i - start]));
                assert(!all_digits(body));
            }
            return None;
        }
        let d: i64 = (c as u32 - 48) as i64;
        let ghost prev = cs@.subrange(start as int, i as int);
        let ghost next = cs@.subrange(start as int, i + 1);
        assert(next.drop_last() =~= prev);
        acc = acc * 10 + d;
        i += 1;
        assert(all_digits(next));
        if acc > 2147483648 {
            proof {
                if start == 0 { assert(body =~= cs@); } else { assert(body =~= cs@.drop_first()); }
                assert(body == unsigned_part(cs@));
                if all_digits(body) {
                    assert(body.take(i - start) =~= next);
                    lemma_digits_value_prefix(body, i - start);
                    assert(digits_value(body) > 2147483648);
                }
            }
            return None;
        }
    }
    proof {
        assert(cs@.subrange(start as int, n as int) =~= body);
        if start == 0 { assert(body =~= cs@); } else { assert(body =~= cs@.drop_first()); }
        assert(body == unsigned_part(cs@));
    }
    if negative {
        Some((0i64 - acc) as i32)
    } else if acc > 2147483647 {
        None
    } else {
        Some(acc as i32)
    }
}


/// The decimal rendering of a natural number is a non-empty run of digits
/// that reads back as the number.
pub proof fn lemma_decimal_nat(n: nat)
    ensures
        decimal_nat(n).len() > 0,
        all_digits(decimal_nat(n)),
        digits_value(decimal_nat(n)) == n,
    decreases n,
{
    if n >= 10 {
        lemma_decimal_nat(n / 10);
        let s = decimal_nat(n);
        assert(s.drop_last() =~= decimal_nat(n / 10));
        assert(s.last() as int == 48 + n % 10);
        assert((n / 10) * 10 + n % 10 == n);
        assert(digits_value(s) == digits_value(s.drop_last()) * 10 + (s.last() as int - 48));
        assert(digits_value(s.drop_last()) == n / 10);
        assert forall|i: int| 0 <= i < s.len() implies is_digit(#[trigger] s[i]) by {
            if i < s.len() - 1 {
                assert(s[i] == decimal_nat(n / 10)[i]);
            }
        }
    } else {
        assert(decimal_nat(n).drop_last() =~= Seq::<char>::empty());
        assert(decimal_nat(n).last() as int == 48 + n);
        assert(digits_value(decimal_nat(n)) == digits_value(decimal_nat(n).drop_last()) * 10 + (decimal_nat(n).last() as int - 48));
        assert(digits_value(Seq::<char>::empty()) == 0);
    }
}

/// Reading back the decimal rendering of an `i32` gives the same number.
pub proof fn lemma_parse_decimal_i32(n: i32)
    ensures
        parse_i32_spec(decimal_int(n as int)) == Some(n),
{
    if n < 0 {
        let m = (-(n as int)) as nat;
        lemma_decimal_nat(m);
        let s = decimal_int(n as int);
        assert(s.drop_first() =~= decimal_nat(m));
        assert(has_sign(s));
        assert(unsigned_part(s) == decimal_nat(m));
    } else {
        lemma_decimal_nat(n as nat);
        let s = decimal_int(n as int);
        assert(is_digit(s[0]));
        assert(!has_sign(s));
    }
}

/// How `str::split` with a single-character pattern cuts a text: the pieces
/// between the separators, always at least one (an empty text gives one
/// empty piece).
pub open spec fn split_char(s: Seq<char>, sep: char) -> Seq<Seq<char>>
    decreases s.len(),
{
    if s.len() == 0 {
        seq![Seq::<char>::empty()]
    } else if s[0] == sep {
        seq![Seq::<char>::empty()] + split_char(s.drop_first(), sep)
    } else {
        let rest = split_char(s.drop_first(), sep);
        rest.update(0, seq![s[0]] + rest[0])
    }
}

/// Puts `prefix` in front of the first piece.
pub open spec fn prepend_first(prefix: Seq<char>, pieces: Seq<Seq<char>>) -> Seq<Seq<char>> {
    pieces.update(0, prefix + pieces[0])
}

pub proof fn lemma_split_nonempty(s: Seq<char>, sep: char)
    ensures
        split_char(s, sep).len() >= 1,
    decreases s.len(),
{
    if s.len() > 0 {
        lemma_split_nonempty(s.drop_first(), sep);
    }
}

/// Cuts `cs` at every `sep`, as `str::split(sep)` does.
pub fn split_chars(cs: &[char], sep: char) -> (r: Vec<Vec<char>>)
    ensures
        r@.len() == split_char(cs@, sep).len(),
        forall|k: int| 0 <= k < r@.len() ==> (#[trigger] r@[k])@ == split_char(cs@, sep)[k],
{
    let n = cs.len();
    let mut done: Vec<Vec<char>> = Vec::new();
    let mut cur: Vec<char> = Vec::new();
    let mut i: usize = 0;
    proof {
        lemma_split_nonempty(cs@, sep);
        assert(cs@.skip(0) =~= cs@);
        assert(prepend_first(Seq::<char>::empty(), split_char(cs@, sep)) =~= split_char(cs@, sep)) by {
            assert(Seq::<char>::empty() + split_char(cs@, sep)[0] =~= split_char(cs@, sep)[0]);
        }
    }
    while i < n
        invariant
            n == cs@.len(),
            i <= n,
            split_char(cs@, sep) =~= done@.map_values(|v: Vec<char>| v@) + prepend_first(
                cur@,
                split_char(cs@.skip(i as int), sep),
            ),
        decreases n - i,
    {
        let ghost rest = cs@.skip(i as int);
        let ghost tail = cs@.skip(i + 1);
        assert(rest.drop_first() =~= tail);
        proof {
            lemma_split_nonempty(tail, sep);
        }
        let c = cs[i];
        if c == sep {
            let ghost old_done = done@.map_values(|v: Vec<char>| v@);
            let piece = cur;
            done.push(piece);
            cur = Vec::new();
            proof {
                assert(done@.map_values(|v: Vec<char>| v@) =~= old_done.push(piece@));
                assert(prepend_first(piece@, split_char(rest, sep)) =~= seq![piece@] + split_char(tail, sep)) by {
                    assert(piece@ + Seq::<char>::empty() =~= piece@);
                }
                assert(prepend_first(cur@, split_char(tail, sep)) =~= split_char(tail, sep)) by {
                    assert(Seq::<char>::empty() + split_char(tail, sep)[0] =~= split_char(tail, sep)[0]);
                }
            }
        } else {
            let ghost old_cur = cur@;
            cur.push(c);
            proof {
                assert(old_cur + (seq![c] + split_char(tail, sep)[0]) =~= cur@ + split_char(tail, sep)[0]);
                assert(prepend_first(old_cur, split_char(rest, sep)) =~= prepend_first(cur@, split_char(tail, sep)));
            }
        }
        i += 1;
    }
    let ghost before = done@.map_values(|v: Vec<char>| v@);
    proof {
        assert(cs@.skip(n as int) =~= Seq::<char>::empty());
        assert(prepend_first(cur@, split_char(Seq::<char>::empty(), sep)) =~= seq![cur@]) by {
            assert(cur@ + Seq::<char>::empty() =~= cur@);
        }
    }
    let last = cur;
    done.push(last);
    proof {
        assert(done@.map_values(|v: Vec<char>| v@) =~= before.push(last@));
        assert forall|k: int| 0 <= k < done@.len() implies (#[trigger] done@[k])@ == split_char(cs@, sep)[k] by {
            assert(done@.map_values(|v: Vec<char>| v@)[k] == done@[k]@);
        }
    }
    done
}


/// Drops every leading character that satisfies `p`.
pub open spec fn trim_start_by(s: Seq<char>, p: spec_fn(char) -> bool) -> Seq<char>
    decreases s.len(),
{
    if s.len() > 0 && p(s[0]) {
        trim_start_by(s.drop_first(), p)
    } else {
        s
    }
}

/// Drops every trailing character that satisfies `p`.
pub open spec fn trim_end_by(s: Seq<char>, p: spec_fn(char) -> bool) -> Seq<char>
    decreases s.len(),
{
    if s.len() > 0 && p(s.last()) {
        trim_end_by(s.drop_last(), p)
    } else {
        s
    }
}

/// `str::trim_matches` with the pattern `p`: both ends stripped.
pub open spec fn trim_by(s: Seq<char>, p: spec_fn(char) -> bool) -> Seq<char> {
    trim_end_by(trim_start_by(s, p), p)
}

/// The Unicode `White_Space` property, which `char::is_whitespace` tests.
pub open spec fn is_white_space(c: char) -> bool {
    ||| '\u{9}' <= c && c <= '\u{d}'
    ||| c == ' '
    ||| c == '\u{85}'
    ||| c == '\u{a0}'
    ||| c == '\u{1680}'
    ||| '\u{2000}' <= c && c <= '\u{200a}'
    ||| c == '\u{2028}'
    ||| c == '\u{2029}'
    ||| c == '\u{202f}'
    ||| c == '\u{205f}'
    ||| c == '\u{3000}'
}

/// The predicate that `str::trim` strips by.
pub open spec fn white_space_pred() -> spec_fn(char) -> bool {
    |c: char| is_white_space(c)
}

/// The predicate that matches one given character.
pub open spec fn char_pred(x: char) -> spec_fn(char) -> bool {
    |c: char| c == x
}

/// `str::trim`: leading and trailing white space removed.
pub open spec fn trim_spec(s: Seq<char>) -> Seq<char> {
    trim_by(s, white_space_pred())
}

proof fn lemma_trim_start_skip(s: Seq<char>, p: spec_fn(char) -> bool, a: int)
    requires
        0 <= a <= s.len(),
        forall|i: int| 0 <= i < a ==> p(#[trigger] s[i]),
        a == s.len() || !p(s[a]),
    ensures
        trim_start_by(s, p) == s.skip(a),
    decreases a,
{
    if a == 0 {
        assert(s.skip(0) =~= s);
    } else {
        assert(p(s[0]));
        let t = s.drop_first();
        assert forall|i: int| 0 <= i < a - 1 implies p(#[trigger] t[i]) by {
            assert(t[i] == s[i + 1]);
        }
        lemma_trim_start_skip(t, p, a - 1);
        assert(t.skip(a - 1) =~= s.skip(a));
    }
}

proof fn lemma_trim_end_take(s: Seq<char>, p: spec_fn(char) -> bool, b: int)
    requires
        0 <= b <= s.len(),
        forall|i: int| b <= i < s.len() ==> p(#[trigger] s[i]),
        b == 0 || !p(s[b - 1]),
    ensures
        trim_end_by(s, p) == s.take(b),
    decreases s.len() - b,
{
    if b == s.len() {
        assert(s.take(b) =~= s);
    } else {
        assert(p(s.last()));
        let t = s.drop_last();
        assert forall|i: int| b <= i < t.len() implies p(#[trigger] t[i]) by {
            assert(t[i] == s[i]);
        }
        lemma_trim_end_take(t, p, b);
        assert(t.take(b) =~= s.take(b));
    }
}

/// The bounds of `trim_by(cs, p)` inside `cs`, where `f` decides `p`.
fn trim_bounds<F: Fn(char) -> bool>(cs: &[char], f: F, Ghost(p): Ghost<spec_fn(char) -> bool>) -> (r: (usize, usize))
    requires
        forall|c: char| f.requires((c,)),
        forall|c: char, b: bool| f.ensures((c,), b) ==> b == p(c),
    ensures
        r.0 <= r.1 <= cs@.len(),
        cs@.subrange(r.0 as int, r.1 as int) == trim_by(cs@, p),
{
    let n = cs.len();
    let mut a: usize = 0;
    while a < n && f(cs[a])
        invariant
            n == cs@.len(),
            a <= n,
            forall|c: char| f.requires((c,)),
            forall|c: char, b: bool| f.ensures((c,), b) ==> b == p(c),
            forall|i: int| 0 <= i < a ==> p(#[trigger] cs@[i]),
        decreases n - a,
    {
        a += 1;
    }
    proof {
        lemma_trim_start_skip(cs@, p, a as int);
    }
    let ghost t = cs@.skip(a as int);
    let mut b: usize = n;
    while b > a && f(cs[b - 1])
        invariant
            n == cs@.len(),
            a <= b <= n,
            t == cs@.skip(a as int),
            forall|c: char| f.requires((c,)),
            forall|c: char, b: bool| f.ensures((c,), b) ==> b == p(c),
            forall|i: int| b <= i < n ==> p(#[trigger] cs@[i]),
        decreases b,
    {
        b -= 1;
    }
    proof {
        assert forall|i: int| b - a <= i < t.len() implies p(#[trigger] t[i]) by {
            assert(t[i] == cs@[i + a]);
        }
        if b > a {
            assert(t[b - a - 1] == cs@[b - 1]);
        }
        lemma_trim_end_take(t, p, b - a);
        assert(t.take(b - a) =~= cs@.subrange(a as int, b as int));
    }
    (a, b)
}

/// Whether `c` is white space in the sense of `char::is_whitespace`.
pub fn is_white_space_char(c: char) -> (r: bool)
    ensures
        r == is_white_space(c),
{
    ('\u{9}' <= c && c <= '\u{d}') || c == ' ' || c == '\u{85}' || c == '\u{a0}' || c == '\u{1680}'
        || ('\u{2000}' <= c && c <= '\u{200a}') || c == '\u{2028}' || c == '\u{2029}' || c
        == '\u{202f}' || c == '\u{205f}' || c == '\u{3000}'
}

/// `str::trim`: the text without leading and trailing white space.
pub fn trim_white_space(s: &str) -> (r: String)
    ensures
        r@ == trim_spec(s@),
{
    let cs = chars_of(s);
    let f = |c: char| -> (b: bool)
        ensures
            b == is_white_space(c),
        { is_white_space_char(c) };
    let (a, b) = trim_bounds(cs.as_slice(), f, Ghost(white_space_pred()));
    string_from_chars(slice_subrange(cs.as_slice(), a, b))
}

/// `str::trim_matches(x)`: the characters without leading and trailing `x`.
pub fn trim_char(cs: &[char], x: char) -> (r: Vec<char>)
    ensures
        r@ == trim_by(cs@, char_pred(x)),
{
    let f = |c: char| -> (b: bool)
        ensures
            b == (c == x),
        { c == x };
    let (a, b) = trim_bounds(cs, f, Ghost(char_pred(x)));
    vstd::slice::slice_to_vec(slice_subrange(cs, a, b))
}

/// A sub-slice of `cs`.
pub fn slice_subrange(cs: &[char], a: usize, b: usize) -> (r: &[char])
    requires
        a <= b <= cs@.len(),
    ensures
        r@ == cs@.subrange(a as int, b as int),
{
    vstd::slice::slice_subrange(cs, a, b)
}

/// `s` holds no `c`.
pub open spec fn lacks(s: Seq<char>, c: char) -> bool {
    forall|i: int| 0 <= i < s.len() ==> s[i] != c
}

/// Cutting a text that starts with a piece free of `sep` puts that piece in
/// front of the first cut.
pub proof fn lemma_split_after_plain(x: Seq<char>, z: Seq<char>, sep: char)
    requires
        lacks(x, sep),
    ensures
        split_char(x + z, sep) == prepend_first(x, split_char(z, sep)),
    decreases x.len(),
{
    lemma_split_nonempty(z, sep);
    if x.len() == 0 {
        assert(x + z =~= z);
        assert(Seq::<char>::empty() + split_char(z, sep)[0] =~= split_char(z, sep)[0]);
        assert(prepend_first(x, split_char(z, sep)) =~= split_char(z, sep));
    } else {
        let y = x.drop_first();
        assert(lacks(y, sep)) by {
            assert forall|i: int| 0 <= i < y.len() implies y[i] != sep by {
                assert(y[i] == x[i + 1]);
            }
        }
        lemma_split_after_plain(y, z, sep);
        assert((x + z).drop_first() =~= y + z);
        assert(x[0] != sep);
        assert((x + z)[0] == x[0]);
        lemma_split_nonempty(y + z, sep);
        assert(seq![x[0]] + (y + split_char(z, sep)[0]) =~= x + split_char(z, sep)[0]);
        assert(split_char(x + z, sep) =~= prepend_first(x, split_char(z, sep)));
    }
}

} // verus!
