//! Character-level text utilities: the two quoting contexts that the
//! statement builder nests (single-quoted SQL string literals and
//! double-quoted array elements), each with an escape function specified
//! exactly and a proof that unescaping recovers the original text.

use vstd::prelude::*;

verus! {

/// How one character is rendered inside a single-quoted SQL string literal:
/// a quote is doubled, everything else passes through.
pub open spec fn sq_escaped_char(c: char) -> Seq<char> {
    if c == '\'' {
        seq!['\'', '\'']
    } else {
        seq![c]
    }
}

/// A whole text rendered inside a single-quoted SQL string literal.
pub open spec fn sq_escaped(s: Seq<char>) -> Seq<char>
    decreases s.len(),
{
    if s.len() == 0 {
        Seq::empty()
    } else {
        sq_escaped_char(s[0]) + sq_escaped(s.skip(1))
    }
}

/// Reading a single-quoted literal's body back: a doubled quote is one
/// quote, everything else stands for itself.
pub open spec fn sq_unescaped(s: Seq<char>) -> Seq<char>
    decreases s.len(),
{
    if s.len() == 0 {
        Seq::empty()
    } else if s.len() >= 2 && s[0] == '\'' && s[1] == '\'' {
        seq!['\''] + sq_unescaped(s.skip(2))
    } else {
        seq![s[0]] + sq_unescaped(s.skip(1))
    }
}

/// How one character is rendered inside a double-quoted array element:
/// a backslash or a double quote gets a backslash in front.
pub open spec fn dq_escaped_char(c: char) -> Seq<char> {
    if c == '\\' || c == '"' {
        seq!['\\', c]
    } else {
        seq![c]
    }
}

/// A whole text rendered inside a double-quoted array element.
pub open spec fn dq_escaped(s: Seq<char>) -> Seq<char>
    decreases s.len(),
{
    if s.len() == 0 {
        Seq::empty()
    } else {
        dq_escaped_char(s[0]) + dq_escaped(s.skip(1))
    }
}

/// Reading a double-quoted element's body back: a backslash makes the next
/// character literal.
pub open spec fn dq_unescaped(s: Seq<char>) -> Seq<char>
    decreases s.len(),
{
    if s.len() == 0 {
        Seq::empty()
    } else if s.len() >= 2 && s[0] == '\\' {
        seq![s[1]] + dq_unescaped(s.skip(2))
    } else {
        seq![s[0]] + dq_unescaped(s.skip(1))
    }
}

/// Escaping distributes over concatenation.
pub proof fn lemma_sq_escaped_app(a: Seq<char>, b: Seq<char>)
    ensures
        sq_escaped(a + b) == sq_escaped(a) + sq_escaped(b),
    decreases a.len(),
{
    if a.len() == 0 {
        assert(a + b =~= b);
        assert(sq_escaped(a) + sq_escaped(b) =~= sq_escaped(b));
    } else {
        assert((a + b).skip(1) =~= a.skip(1) + b);
        lemma_sq_escaped_app(a.skip(1), b);
        assert(sq_escaped(a + b) =~= sq_escaped(a) + sq_escaped(b));
    }
}

/// Escaping distributes over concatenation.
pub proof fn lemma_dq_escaped_app(a: Seq<char>, b: Seq<char>)
    ensures
        dq_escaped(a + b) == dq_escaped(a) + dq_escaped(b),
    decreases a.len(),
{
    if a.len() == 0 {
        assert(a + b =~= b);
        assert(dq_escaped(a) + dq_escaped(b) =~= dq_escaped(b));
    } else {
        assert((a + b).skip(1) =~= a.skip(1) + b);
        lemma_dq_escaped_app(a.skip(1), b);
        assert(dq_escaped(a + b) =~= dq_escaped(a) + dq_escaped(b));
    }
}

/// Round trip for the single-quote context: whatever text a value holds,
/// escaping it and parsing the fragment back yields the value unchanged.
pub proof fn lemma_sq_round_trip(s: Seq<char>)
    ensures
        sq_unescaped(sq_escaped(s)) == s,
    decreases s.len(),
{
    if s.len() == 0 {
    } else {
        lemma_sq_round_trip(s.skip(1));
        let e = sq_escaped(s);
        if s[0] == '\'' {
            assert(e =~= seq!['\'', '\''] + sq_escaped(s.skip(1)));
            assert(e.skip(2) =~= sq_escaped(s.skip(1)));
            assert(seq!['\''] + s.skip(1) =~= s);
        } else {
            assert(e =~= seq![s[0]] + sq_escaped(s.skip(1)));
            assert(e.skip(1) =~= sq_escaped(s.skip(1)));
            assert(seq![s[0]] + s.skip(1) =~= s);
        }
    }
}

/// Round trip for the double-quote context.
pub proof fn lemma_dq_round_trip(s: Seq<char>)
    ensures
        dq_unescaped(dq_escaped(s)) == s,
    decreases s.len(),
{
    if s.len() == 0 {
    } else {
        lemma_dq_round_trip(s.skip(1));
        let e = dq_escaped(s);
        if s[0] == '\\' || s[0] == '"' {
            assert(e =~= seq!['\\', s[0]] + dq_escaped(s.skip(1)));
            assert(e.skip(2) =~= dq_escaped(s.skip(1)));
            assert(seq![s[0]] + s.skip(1) =~= s);
        } else {
            assert(e =~= seq![s[0]] + dq_escaped(s.skip(1)));
            assert(e.skip(1) =~= dq_escaped(s.skip(1)));
            assert(seq![s[0]] + s.skip(1) =~= s);
        }
    }
}

/// Fragments joined by a separator.
pub open spec fn joined(sep: Seq<char>, parts: Seq<Seq<char>>) -> Seq<char>
    decreases parts.len(),
{
    if parts.len() == 0 {
        Seq::empty()
    } else if parts.len() == 1 {
        parts[0]
    } else {
        parts[0] + sep + joined(sep, parts.skip(1))
    }
}

/// Appending one more fragment extends the joined text by a separator
/// (unless it is the first fragment) and the fragment.
pub proof fn lemma_joined_push(sep: Seq<char>, parts: Seq<Seq<char>>, x: Seq<char>)
    ensures
        parts.len() == 0 ==> joined(sep, parts.push(x)) == x,
        parts.len() > 0 ==> joined(sep, parts.push(x)) == joined(sep, parts) + sep + x,
    decreases parts.len(),
{
    let p = parts.push(x);
    if parts.len() == 0 {
        assert(p.len() == 1);
        assert(p[0] == x);
    } else if parts.len() == 1 {
        assert(p.len() == 2);
        assert(p.skip(1) =~= seq![x]);
        assert(joined(sep, p.skip(1)) == x);
        assert(joined(sep, parts) == parts[0]);
        assert(joined(sep, p) == p[0] + sep + joined(sep, p.skip(1)));
        assert(p[0] == parts[0]);
    } else {
        lemma_joined_push(sep, parts.skip(1), x);
        assert(p.skip(1) =~= parts.skip(1).push(x));
        assert(joined(sep, p) == p[0] + sep + joined(sep, p.skip(1)));
        assert(joined(sep, parts) == parts[0] + sep + joined(sep, parts.skip(1)));
        assert(p[0] == parts[0]);
        assert(joined(sep, p) =~= joined(sep, parts) + sep + x);
    }
}

/// Relies on String::push: appends exactly the given character to the end.
#[verifier::external_body]
pub(crate) fn push_char(s: &mut String, c: char)
    ensures
        final(s)@ == old(s)@ + seq![c],
{
    s.push(c)
}

/// Taking one more character of the input extends the escaped output by
/// that character's rendering.
proof fn lemma_sq_escaped_snoc(s: Seq<char>, i: int)
    requires
        0 <= i < s.len(),
    ensures
        sq_escaped(s.take(i + 1)) == sq_escaped(s.take(i)) + sq_escaped_char(s[i]),
{
    assert(s.take(i + 1) =~= s.take(i) + seq![s[i]]);
    lemma_sq_escaped_app(s.take(i), seq![s[i]]);
    let one = seq![s[i]];
    assert(one.skip(1) =~= Seq::<char>::empty());
    assert(sq_escaped(Seq::<char>::empty()) == Seq::<char>::empty());
    assert(sq_escaped(one) == sq_escaped_char(one[0]) + sq_escaped(one.skip(1)));
    assert(sq_escaped(one) =~= sq_escaped_char(s[i]));
}

proof fn lemma_dq_escaped_snoc(s: Seq<char>, i: int)
    requires
        0 <= i < s.len(),
    ensures
        dq_escaped(s.take(i + 1)) == dq_escaped(s.take(i)) + dq_escaped_char(s[i]),
{
    assert(s.take(i + 1) =~= s.take(i) + seq![s[i]]);
    lemma_dq_escaped_app(s.take(i), seq![s[i]]);
    let one = seq![s[i]];
    assert(one.skip(1) =~= Seq::<char>::empty());
    assert(dq_escaped(Seq::<char>::empty()) == Seq::<char>::empty());
    assert(dq_escaped(one) == dq_escaped_char(one[0]) + dq_escaped(one.skip(1)));
    assert(dq_escaped(one) =~= dq_escaped_char(s[i]));
}

/// Escapes a text for interpolation into a single-quoted SQL string
/// literal: every embedded quote is doubled.
pub fn escape_single_quotes(s: &str) -> (r: String)
    ensures
        r@ == sq_escaped(s@),
{
    let n = s.unicode_len();
    let mut out = String::new();
    let mut i: usize = 0;
    while i < n
        invariant
            n == s@.len(),
            i <= n,
            out@ == sq_escaped(s@.take(i as int)),
        decreases n - i,
    {
        let c = s.get_char(i);
        if c == '\'' {
            push_char(&mut out, '\'');
            push_char(&mut out, '\'');
        } else {
            push_char(&mut out, c);
        }
        proof {
            lemma_sq_escaped_snoc(s@, i as int);
            assert(out@ =~= sq_escaped(s@.take(i as int)) + sq_escaped_char(c));
        }
        i = i + 1;
    }
    proof {
        assert(s@.take(n as int) =~= s@);
    }
    out
}

/// Escapes a text for interpolation into a double-quoted array element:
/// every embedded backslash or double quote gets a backslash in front.
pub fn escape_double_quotes(s: &str) -> (r: String)
    ensures
        r@ == dq_escaped(s@),
{
    let n = s.unicode_len();
    let mut out = String::new();
    let mut i: usize = 0;
    while i < n
        invariant
            n == s@.len(),
            i <= n,
            out@ == dq_escaped(s@.take(i as int)),
        decreases n - i,
    {
        let c = s.get_char(i);
        if c == '\\' || c == '"' {
            push_char(&mut out, '\\');
            push_char(&mut out, c);
        } else {
            push_char(&mut out, c);
        }
        proof {
            lemma_dq_escaped_snoc(s@, i as int);
            assert(out@ =~= dq_escaped(s@.take(i as int)) + dq_escaped_char(c));
        }
        i = i + 1;
    }
    proof {
        assert(s@.take(n as int) =~= s@);
    }
    out
}

/// Character-by-character string equality, proved against the views.
pub fn str_eq(a: &str, b: &str) -> (r: bool)
    ensures
        r == (a@ == b@),
{
    let na = a.unicode_len();
    let nb = b.unicode_len();
    if na != nb {
        proof {
            assert(a@ != b@);
        }
        return false;
    }
    let mut i: usize = 0;
    while i < na
        invariant
            na == a@.len(),
            na == b@.len(),
            i <= na,
            forall|j: int| 0 <= j < i ==> a@[j] == b@[j],
        decreases na - i,
    {
        if a.get_char(i) != b.get_char(i) {
            proof {
                assert(a@ != b@);
            }
            return false;
        }
        i = i + 1;
    }
    proof {
        assert(a@ =~= b@);
    }
    true
}

} // verus!
