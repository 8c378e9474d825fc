//! Text normalization and small string helpers.
//!
//! The normalizer collapses every run of whitespace (newlines, carriage
//! returns, form feeds, tabs, and the other Unicode whitespace characters
//! included) into a single plain space and trims the ends: the result is
//! the words of the input joined by single spaces.

use vstd::prelude::*;
use vstd::string::StrSliceExecFns;

verus! {

/// The Unicode whitespace characters (the `White_Space` property), the
/// set that text is split on when its words are collected.
pub open spec fn is_ws(c: char) -> bool {
    ||| c == ' '
    ||| c == '\t'
    ||| c == '\n'
    ||| c == '\u{0B}'
    ||| c == '\u{0C}'
    ||| c == '\r'
    ||| c == '\u{85}'
    ||| c == '\u{A0}'
    ||| c == '\u{1680}'
    ||| c == '\u{2000}'
    ||| c == '\u{2001}'
    ||| c == '\u{2002}'
    ||| c == '\u{2003}'
    ||| c == '\u{2004}'
    ||| c == '\u{2005}'
    ||| c == '\u{2006}'
    ||| c == '\u{2007}'
    ||| c == '\u{2008}'
    ||| c == '\u{2009}'
    ||| c == '\u{200A}'
    ||| c == '\u{2028}'
    ||| c == '\u{2029}'
    ||| c == '\u{202F}'
    ||| c == '\u{205F}'
    ||| c == '\u{3000}'
}

/// Whether `c` is whitespace, by the set `is_ws` describes.
pub fn is_space_char(c: char) -> (r: bool)
    ensures
        r == is_ws(c),
{
    match c {
        ' ' | '\t' | '\n' | '\u{0B}' | '\u{0C}' | '\r' | '\u{85}' | '\u{A0}' | '\u{1680}'
        | '\u{2000}' | '\u{2001}' | '\u{2002}' | '\u{2003}' | '\u{2004}' | '\u{2005}'
        | '\u{2006}' | '\u{2007}' | '\u{2008}' | '\u{2009}' | '\u{200A}' | '\u{2028}'
        | '\u{2029}' | '\u{202F}' | '\u{205F}' | '\u{3000}' => true,
        _ => false,
    }
}

/// Whether `s` holds at least one word character (one that is not whitespace).
pub open spec fn has_word(s: Seq<char>) -> bool {
    exists|i: int| 0 <= i < s.len() && !is_ws(#[trigger] s[i])
}

/// The normal form of `s`: its words joined by single spaces, with no
/// leading or trailing whitespace. Defined character by character from the
/// left, together with `normalized_after_word`, which continues once a
/// word character has been emitted.
pub open spec fn normalized(s: Seq<char>) -> Seq<char>
    decreases s.len(), 0int,
{
    if s.len() == 0 {
        Seq::empty()
    } else if is_ws(s[0]) {
        normalized(s.drop_first())
    } else {
        seq![s[0]] + normalized_after_word(s.drop_first())
    }
}

/// Continuation of `normalized` for the text that follows an emitted word
/// character: a further word character continues the word; whitespace
/// becomes one separating space if another word follows, and nothing if
/// only whitespace remains.
pub open spec fn normalized_after_word(s: Seq<char>) -> Seq<char>
    decreases s.len(), 1int,
{
    if s.len() == 0 {
        Seq::empty()
    } else if !is_ws(s[0]) {
        seq![s[0]] + normalized_after_word(s.drop_first())
    } else if has_word(s) {
        seq![' '] + normalized(s)
    } else {
        Seq::empty()
    }
}

/// Every whitespace character in `t` is a plain space, no two spaces are
/// adjacent, and `t` does not end with a space.
pub open spec fn space_separated(t: Seq<char>) -> bool {
    &&& forall|i: int| 0 <= i < t.len() && is_ws(#[trigger] t[i]) ==> t[i] == ' '
    &&& forall|i: int| 0 <= i && i + 1 < t.len() ==> !((#[trigger] t[i]) == ' ' && t[i + 1] == ' ')
    &&& (t.len() > 0 ==> t[t.len() - 1] != ' ')
}

/// The invariant of normalized text: space-separated words, and no leading
/// space either. In particular such text holds no newline, carriage
/// return or form feed, and no run of two or more spaces.
pub open spec fn is_normalized(t: Seq<char>) -> bool {
    space_separated(t) && (t.len() > 0 ==> t[0] != ' ')
}

proof fn lemma_ws_step(s: Seq<char>)
    requires
        s.len() > 0,
        is_ws(s[0]),
    ensures
        normalized(s) == normalized(s.drop_first()),
        has_word(s) == has_word(s.drop_first()),
{
    if has_word(s) {
        let i = choose|i: int| 0 <= i < s.len() && !is_ws(s[i]);
        assert(i != 0);
        assert(!is_ws(s.drop_first()[i - 1]));
    }
    if has_word(s.drop_first()) {
        let i = choose|i: int| 0 <= i < s.drop_first().len() && !is_ws(s.drop_first()[i]);
        assert(!is_ws(s[i + 1]));
    }
}

proof fn lemma_space_separated_drop(t: Seq<char>)
    requires
        space_separated(t),
        t.len() > 0,
    ensures
        space_separated(t.drop_first()),
{
    let d = t.drop_first();
    assert forall|i: int| 0 <= i < d.len() && is_ws(#[trigger] d[i]) implies d[i] == ' ' by {
        assert(d[i] == t[i + 1]);
    }
    assert forall|i: int| 0 <= i && i + 1 < d.len() implies !((#[trigger] d[i]) == ' ' && d[i + 1]
        == ' ') by {
        assert(d[i] == t[i + 1]);
        assert(d[i + 1] == t[i + 2]);
    }
    if d.len() > 0 {
        assert(d[d.len() - 1] == t[t.len() - 1]);
    }
}

proof fn lemma_normalized_of_wordful(s: Seq<char>)
    requires
        has_word(s),
    ensures
        normalized(s).len() > 0,
        !is_ws(normalized(s)[0]),
    decreases s.len(),
{
    let i = choose|i: int| 0 <= i < s.len() && !is_ws(s[i]);
    assert(s.len() > 0);
    if is_ws(s[0]) {
        lemma_ws_step(s);
        lemma_normalized_of_wordful(s.drop_first());
    } else {
        assert(normalized(s)[0] == s[0]);
    }
}

proof fn lemma_after_word_wf(s: Seq<char>)
    ensures
        space_separated(normalized_after_word(s)),
    decreases s.len(), 1int,
{
    let t = normalized_after_word(s);
    if s.len() == 0 {
    } else if !is_ws(s[0]) {
        lemma_after_word_wf(s.drop_first());
        let u = normalized_after_word(s.drop_first());
        assert forall|i: int| 0 <= i < t.len() && is_ws(#[trigger] t[i]) implies t[i] == ' ' by {
            if i > 0 {
                assert(t[i] == u[i - 1]);
            }
        }
        assert forall|i: int| 0 <= i && i + 1 < t.len() implies !((#[trigger] t[i]) == ' ' && t[i
            + 1] == ' ') by {
            if i == 0 {
                assert(t[0] == s[0]);
            } else {
                assert(t[i] == u[i - 1]);
                assert(t[i + 1] == u[i]);
            }
        }
        if t.len() > 1 {
            assert(t[t.len() - 1] == u[u.len() - 1]);
        } else {
            assert(t[0] == s[0]);
        }
    } else if has_word(s) {
        lemma_normalized_wf(s);
        lemma_normalized_of_wordful(s);
        let u = normalized(s);
        assert forall|i: int| 0 <= i < t.len() && is_ws(#[trigger] t[i]) implies t[i] == ' ' by {
            if i > 0 {
                assert(t[i] == u[i - 1]);
            }
        }
        assert forall|i: int| 0 <= i && i + 1 < t.len() implies !((#[trigger] t[i]) == ' ' && t[i
            + 1] == ' ') by {
            if i == 0 {
                assert(t[1] == u[0]);
            } else {
                assert(t[i] == u[i - 1]);
                assert(t[i + 1] == u[i]);
            }
        }
        assert(t[t.len() - 1] == u[u.len() - 1]);
    } else {
    }
}

/// Law: the normalizer always yields text in normal form — only single
/// plain spaces, never at either end.
pub proof fn lemma_normalized_wf(s: Seq<char>)
    ensures
        is_normalized(normalized(s)),
    decreases s.len(), 0int,
{
    let t = normalized(s);
    if s.len() == 0 {
    } else if is_ws(s[0]) {
        lemma_normalized_wf(s.drop_first());
    } else {
        lemma_after_word_wf(s.drop_first());
        let u = normalized_after_word(s.drop_first());
        assert(t[0] == s[0]);
        assert forall|i: int| 0 <= i < t.len() && is_ws(#[trigger] t[i]) implies t[i] == ' ' by {
            if i > 0 {
                assert(t[i] == u[i - 1]);
            }
        }
        assert forall|i: int| 0 <= i && i + 1 < t.len() implies !((#[trigger] t[i]) == ' ' && t[i
            + 1] == ' ') by {
            if i == 0 {
            } else {
                assert(t[i] == u[i - 1]);
                assert(t[i + 1] == u[i]);
            }
        }
        if t.len() > 1 {
            assert(t[t.len() - 1] == u[u.len() - 1]);
        }
    }
}

proof fn lemma_after_word_fixed(t: Seq<char>)
    requires
        space_separated(t),
    ensures
        normalized_after_word(t) == t,
    decreases t.len(), 1int,
{
    if t.len() == 0 {
        assert(normalized_after_word(t) =~= t);
    } else if !is_ws(t[0]) {
        lemma_space_separated_drop(t);
        lemma_after_word_fixed(t.drop_first());
        assert(seq![t[0]] + t.drop_first() =~= t);
    } else {
        assert(t[0] == ' ');
        assert(t[t.len() - 1] != ' ');
        assert(t.len() >= 2);
        assert(t[1] != ' ');
        assert(!is_ws(t[1]));
        assert(has_word(t)) by {
            assert(!is_ws(t[1]));
        }
        let d = t.drop_first();
        lemma_space_separated_drop(t);
        assert(d[0] == t[1]);
        lemma_normalized_fixed(d);
        lemma_ws_step(t);
        assert(seq![' '] + d =~= t);
    }
}

proof fn lemma_normalized_fixed(t: Seq<char>)
    requires
        is_normalized(t),
    ensures
        normalized(t) == t,
    decreases t.len(), 0int,
{
    if t.len() == 0 {
        assert(normalized(t) =~= t);
    } else {
        assert(!is_ws(t[0]));
        lemma_space_separated_drop(t);
        lemma_after_word_fixed(t.drop_first());
        assert(seq![t[0]] + t.drop_first() =~= t);
    }
}

/// Law: normalization is idempotent — normalizing already-normalized text
/// returns it unchanged.
pub proof fn lemma_normalized_idempotent(s: Seq<char>)
    ensures
        normalized(normalized(s)) == normalized(s),
{
    lemma_normalized_wf(s);
    lemma_normalized_fixed(normalized(s));
}

/// Normalize `text`: collapse every whitespace run (newlines, carriage
/// returns and form feeds included) into a single space and trim the ends.
pub fn clean_description(text: &str) -> (r: String)
    ensures
        r@ == normalized(text@),
{
    let n = text.unicode_len();
    let mut out = String::new();
    let mut started = false;
    let mut pending = false;
    let mut i: usize = 0;
    proof {
        assert(text@.skip(0) =~= text@);
    }
    while i < n
        invariant
            i <= n,
            n as nat == text@.len(),
            pending ==> started,
            !started ==> out@ == Seq::<char>::empty() && normalized(text@) == normalized(
                text@.skip(i as int),
            ),
            started && !pending ==> normalized(text@) == out@ + normalized_after_word(
                text@.skip(i as int),
            ),
            started && pending ==> normalized(text@) == out@ + (if has_word(
                text@.skip(i as int),
            ) {
                seq![' '] + normalized(text@.skip(i as int))
            } else {
                Seq::<char>::empty()
            }),
        decreases n - i,
    {
        let ghost q = text@.skip(i as int);
        let ghost q1 = text@.skip(i as int + 1);
        proof {
            assert(q.len() > 0);
            assert(q[0] == text@[i as int]);
            assert(q.drop_first() =~= q1);
        }
        let c = text.get_char(i);
        if is_space_char(c) {
            proof {
                lemma_ws_step(q);
            }
            if started {
                pending = true;
            }
        } else {
            if pending {
                push_char(&mut out, ' ');
                pending = false;
                proof {
                    assert(has_word(q)) by {
                        assert(!is_ws(q[0]));
                    }
                    assert(normalized(q) == seq![q[0]] + normalized_after_word(q1));
                }
            } else {
                proof {
                    if started {
                        assert(normalized_after_word(q) == seq![q[0]] + normalized_after_word(q1));
                    } else {
                        assert(normalized(q) == seq![q[0]] + normalized_after_word(q1));
                    }
                }
            }
            push_char(&mut out, c);
            started = true;
        }
        i = i + 1;
        proof {
            if started && !pending {
                assert(normalized(text@) == out@ + normalized_after_word(q1)) by {
                    lemma_seq_concat_assoc();
                }
            }
        }
    }
    proof {
        assert(text@.skip(n as int) =~= Seq::<char>::empty());
        if started && pending {
            assert(!has_word(Seq::<char>::empty()));
        }
        assert(out@ + Seq::<char>::empty() =~= out@);
        assert(Seq::<char>::empty() + Seq::<char>::empty() =~= Seq::<char>::empty());
    }
    out
}

proof fn lemma_seq_concat_assoc()
    ensures
        forall|a: Seq<char>, b: Seq<char>, c: Seq<char>| #[trigger] ((a + b) + c) =~= a + (b + c),
{
}

/// Whether two strings hold the same characters.
pub fn str_eq(a: &str, b: &str) -> (r: bool)
    ensures
        r == (a@ == b@),
{
    let n = a.unicode_len();
    let m = b.unicode_len();
    if n != m {
        return false;
    }
    let mut i: usize = 0;
    while i < n
        invariant
            i <= n,
            n as nat == a@.len(),
            n as nat == b@.len(),
            forall|j: int| 0 <= j < i ==> a@[j] == b@[j],
        decreases n - i,
    {
        if a.get_char(i) != b.get_char(i) {
            return false;
        }
        i = i + 1;
    }
    proof {
        assert(a@ =~= b@);
    }
    true
}

/// Relies on `String::push`: appends the given character to the end of
/// the string.
#[verifier::external_body]
pub(crate) fn push_char(s: &mut String, c: char)
    ensures
        final(s)@ == old(s)@ + seq![c],
{
    s.push(c);
}

/// The character of the decimal digit `d`.
pub open spec fn digit_char(d: int) -> char {
    if d == 0 {
        '0'
    } else if d == 1 {
        '1'
    } else if d == 2 {
        '2'
    } else if d == 3 {
        '3'
    } else if d == 4 {
        '4'
    } else if d == 5 {
        '5'
    } else if d == 6 {
        '6'
    } else if d == 7 {
        '7'
    } else if d == 8 {
        '8'
    } else {
        '9'
    }
}

/// The decimal digits of `n`, most significant first.
pub open spec fn decimal(n: int) -> Seq<char>
    recommends
        n >= 0,
    decreases n,
{
    if n < 10 {
        seq![digit_char(n)]
    } else {
        decimal(n / 10).push(digit_char(n % 10))
    }
}

fn digit_of(n: u16) -> (c: char)
    requires
        n < 10,
    ensures
        c == digit_char(n as int),
{
    if n == 0 {
        '0'
    } else if n == 1 {
        '1'
    } else if n == 2 {
        '2'
    } else if n == 3 {
        '3'
    } else if n == 4 {
        '4'
    } else if n == 5 {
        '5'
    } else if n == 6 {
        '6'
    } else if n == 7 {
        '7'
    } else if n == 8 {
        '8'
    } else {
        '9'
    }
}

/// Append the decimal digits of `n` to `out`.
pub fn push_u16(out: &mut String, n: u16)
    ensures
        final(out)@ == old(out)@ + decimal(n as int),
    decreases n,
{
    if n < 10 {
        push_char(out, digit_of(n));
    } else {
        push_u16(out, n / 10);
        push_char(out, digit_of(n % 10));
        proof {
            assert((old(out)@ + decimal(n as int / 10)) + seq![digit_char(n as int % 10)] =~= old(
                out,
            )@ + decimal(n as int / 10).push(digit_char(n as int % 10)));
        }
    }
}

/// What `str::to_lowercase` returns of a string: a function of its
/// characters alone.
pub uninterp spec fn lower_of(s: Seq<char>) -> Seq<char>;

/// Relies on `str::to_lowercase`: the lowercase equivalent of the string,
/// depending on its characters alone; an empty string stays empty.
#[verifier::external_body]
pub(crate) fn to_lowercase(s: &str) -> (r: String)
    ensures
        r@ == lower_of(s@),
        s@.len() == 0 ==> r@.len() == 0,
{
    s.to_lowercase()
}

} // verus!
