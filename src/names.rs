//! Output file names: a safe, bounded stem derived from free text, and the
//! name under which one batch item of one repetition is saved.
use vstd::prelude::*;

verus! {

/// Relies on `String::push`: appends one character at the end.
pub assume_specification[ String::push ](s: &mut String, ch: char)
    ensures
        final(s)@ == old(s)@.push(ch),
;

/// Length of the stem taken from a text for its output file names.
pub const NAME_STEM_LEN: usize = 20;

/// Characters that a stem keeps as they are.
pub open spec fn is_kept(c: char) -> bool {
    ||| ('a' <= c && c <= 'z')
    ||| ('A' <= c && c <= 'Z')
    ||| ('0' <= c && c <= '9')
    ||| c == '-'
    ||| c == '_'
}

/// Characters that separate words; a run of them becomes one space.
pub open spec fn is_blank(c: char) -> bool {
    c == ' ' || c == '\t' || c == '\n' || c == '\r' || c == '\x0C'
}

/// The text read left to right: kept characters stay, a run of blanks that
/// follows a kept character becomes one space, everything else is dropped.
pub open spec fn cleaned(s: Seq<char>) -> Seq<char>
    decreases s.len(),
{
    if s.len() == 0 {
        Seq::empty()
    } else {
        let p = cleaned(s.drop_last());
        let c = s.last();
        if is_kept(c) {
            p.push(c)
        } else if is_blank(c) && p.len() > 0 && p.last() != ' ' {
            p.push(' ')
        } else {
            p
        }
    }
}

pub open spec fn without_trailing_space(s: Seq<char>) -> Seq<char> {
    if s.len() > 0 && s.last() == ' ' {
        s.drop_last()
    } else {
        s
    }
}

/// The stem of `s`: cleaned, cut to `max_len` characters, without a trailing
/// space, and `_` where nothing is left.
pub open spec fn sanitized(s: Seq<char>, max_len: nat) -> Seq<char> {
    let c = cleaned(s);
    let cut = if c.len() <= max_len {
        c
    } else {
        c.take(max_len as int)
    };
    let t = without_trailing_space(cut);
    if t.len() == 0 {
        seq!['_']
    } else {
        t
    }
}

/// Only kept characters and single inner spaces, none at the start.
pub open spec fn is_clean(s: Seq<char>) -> bool {
    &&& forall|i: int| 0 <= i < s.len() ==> is_kept(#[trigger] s[i]) || s[i] == ' '
    &&& s.len() > 0 ==> s[0] != ' '
    &&& forall|i: int| 0 < i < s.len() && #[trigger] s[i] == ' ' ==> s[i - 1] != ' '
}

proof fn lemma_cleaned_is_clean(s: Seq<char>)
    ensures
        is_clean(cleaned(s)),
    decreases s.len(),
{
    if s.len() > 0 {
        lemma_cleaned_is_clean(s.drop_last());
        let p = cleaned(s.drop_last());
        let c = s.last();
        if is_kept(c) {
            assert(is_clean(p.push(c))) by {
                assert forall|i: int| 0 <= i < p.len() implies p.push(c)[i] == p[i] by {}
            }
        } else if is_blank(c) && p.len() > 0 && p.last() != ' ' {
            assert(is_clean(p.push(' '))) by {
                assert forall|i: int| 0 <= i < p.len() implies p.push(' ')[i] == p[i] by {}
            }
        }
    }
}

proof fn lemma_clean_is_fixed(s: Seq<char>)
    requires
        is_clean(s),
    ensures
        cleaned(s) == s,
    decreases s.len(),
{
    if s.len() > 0 {
        let p = s.drop_last();
        assert(is_clean(p)) by {
            assert forall|i: int| 0 <= i < p.len() implies p[i] == s[i] by {}
        }
        lemma_clean_is_fixed(p);
        assert(p.push(s.last()) =~= s);
        if s.last() == ' ' {
            assert(s[s.len() - 1] == ' ');
            assert(s.len() >= 2);
            assert(p.last() == s[s.len() - 2]);
        }
    }
}

proof fn lemma_cut_is_clean(s: Seq<char>, k: int)
    requires
        is_clean(s),
        0 <= k <= s.len(),
    ensures
        is_clean(s.take(k)),
        is_clean(without_trailing_space(s.take(k))),
{
    let t = s.take(k);
    assert forall|i: int| 0 <= i < t.len() implies t[i] == s[i] by {}
    let u = without_trailing_space(t);
    assert forall|i: int| 0 <= i < u.len() implies u[i] == s[i] by {}
}

/// A stem is its own stem: sanitizing twice with one bound gives what
/// sanitizing once gave.
pub proof fn lemma_sanitize_idempotent(s: Seq<char>, max_len: nat)
    ensures
        sanitized(sanitized(s, max_len), max_len) == sanitized(s, max_len),
{
    let c = cleaned(s);
    lemma_cleaned_is_clean(s);
    let k = if c.len() <= max_len {
        c.len() as int
    } else {
        max_len as int
    };
    lemma_cut_is_clean(c, k);
    assert(c.take(c.len() as int) =~= c);
    let r = sanitized(s, max_len);
    if without_trailing_space(c.take(k)).len() == 0 {
        assert(is_clean(seq!['_']));
        lemma_clean_is_fixed(seq!['_']);
        assert(seq!['_'].take(0).len() == 0);
    } else {
        lemma_clean_is_fixed(r);
        assert(r.len() <= max_len);
        if r.len() > 0 && r.last() == ' ' {
            assert(r.len() >= 2);
            assert(c.take(k)[r.len() as int] == ' ');
        }
    }
}

fn is_kept_char(c: char) -> (r: bool)
    ensures
        r == is_kept(c),
{
    ('a' <= c && c <= 'z') || ('A' <= c && c <= 'Z') || ('0' <= c && c <= '9') || c == '-'
        || c == '_'
}

fn is_blank_char(c: char) -> (r: bool)
    ensures
        r == is_blank(c),
{
    c == ' ' || c == '\t' || c == '\n' || c == '\r' || c == '\x0C'
}

/// A file-system-safe stem of `text`, at most `max_len` characters long
/// (one, `_`, where the text has nothing usable or the bound is zero).
pub fn sanitize_filename(text: &str, max_len: usize) -> (r: String)
    ensures
        r@ == sanitized(text@, max_len as nat),
        r@.len() >= 1,
        r@.len() <= max_len || r@ == seq!['_'],
        is_clean(r@),
{
    let n = text.unicode_len();
    let mut kept: Vec<char> = Vec::new();
    let mut i: usize = 0;
    while i < n
        invariant
            n == text@.len(),
            i <= n,
            kept@ == cleaned(text@.take(i as int)),
        decreases n - i,
    {
        let c = text.get_char(i);
        assert(text@.take(i + 1).drop_last() =~= text@.take(i as int));
        if is_kept_char(c) {
            kept.push(c);
        } else if is_blank_char(c) && kept.len() > 0 && kept[kept.len() - 1] != ' ' {
            kept.push(' ');
        }
        i += 1;
    }
    assert(text@.take(n as int) =~= text@);
    let ghost c = kept@;
    proof {
        lemma_cleaned_is_clean(text@);
    }
    let mut k: usize = if kept.len() <= max_len {
        kept.len()
    } else {
        max_len
    };
    assert(c.take(c.len() as int) =~= c);
    proof {
        lemma_cut_is_clean(c, k as int);
    }
    if k > 0 && kept[k - 1] == ' ' {
        k = k - 1;
    }
    let mut r = String::new();
    let mut j: usize = 0;
    while j < k
        invariant
            j <= k,
            k <= kept@.len(),
            kept@ == c,
            r@ == c.take(j as int),
        decreases k - j,
    {
        assert(c.take(j + 1) =~= c.take(j as int).push(c[j as int]));
        r.push(kept[j]);
        j += 1;
    }
    let ghost cut = if c.len() <= max_len {
        c
    } else {
        c.take(max_len as int)
    };
    assert(r@ =~= without_trailing_space(cut));
    if k == 0 {
        r.push('_');
        assert(r@ =~= seq!['_']);
        assert(is_clean(seq!['_']));
    }
    r
}

/// The decimal digit `d`, for `d` below ten.
pub open spec fn digit_char(d: nat) -> char {
    if d == 0 {
        '0'
    } else if d == 1 {
        '1'
    } else if d == 2 {
        '2'
    } else if d == 3 {
        '3'
    } else if d == 4 {
        '4'
    } else if d == 5 {
        '5'
    } else if d == 6 {
        '6'
    } else if d == 7 {
        '7'
    } else if d == 8 {
        '8'
    } else {
        '9'
    }
}

/// `n` written in base ten, without leading zeros.
pub open spec fn decimal(n: nat) -> Seq<char>
    decreases n,
{
    if n < 10 {
        seq![digit_char(n)]
    } else {
        decimal(n / 10).push(digit_char(n % 10))
    }
}

fn digit(d: u128) -> (c: char)
    requires
        d < 10,
    ensures
        c == digit_char(d as nat),
{
    if d == 0 {
        '0'
    } else if d == 1 {
        '1'
    } else if d == 2 {
        '2'
    } else if d == 3 {
        '3'
    } else if d == 4 {
        '4'
    } else if d == 5 {
        '5'
    } else if d == 6 {
        '6'
    } else if d == 7 {
        '7'
    } else if d == 8 {
        '8'
    } else {
        '9'
    }
}

fn push_decimal(s: &mut String, n: u128)
    ensures
        final(s)@ == old(s)@ + decimal(n as nat),
    decreases n,
{
    if n >= 10 {
        push_decimal(s, n / 10);
    }
    s.push(digit(n % 10));
    assert(s@ =~= old(s)@ + decimal(n as nat));
}

/// The name of the file that holds batch item `text` of the repetition
/// numbered `repetition` from zero: `<stem>_<repetition + 1>.wav`.
pub open spec fn output_name(text: Seq<char>, repetition: nat) -> Seq<char> {
    sanitized(text, NAME_STEM_LEN as nat) + seq!['_'] + decimal(repetition + 1) + seq![
        '.',
        'w',
        'a',
        'v',
    ]
}

pub fn output_file_name(text: &str, repetition: usize) -> (r: String)
    ensures
        r@ == output_name(text@, repetition as nat),
{
    let mut r = sanitize_filename(text, NAME_STEM_LEN);
    r.push('_');
    push_decimal(&mut r, repetition as u128 + 1);
    r.push('.');
    r.push('w');
    r.push('a');
    r.push('v');
    assert(r@ =~= output_name(text@, repetition as nat));
    r
}

} // verus!
