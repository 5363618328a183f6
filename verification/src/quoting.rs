use vstd::prelude::*;
use crate::text::push_char;

verus! {

/// What one character `c` becomes inside a literal quoted by `q`: the quote
/// character is written twice, every other character once.
pub open spec fn doubled_char(c: char, q: char) -> Seq<char> {
    if c == q {
        seq![q, q]
    } else {
        seq![c]
    }
}

/// `s` written as the body of a literal quoted by `q` (as PowerShell reads
/// `'...'` and cmd reads `"..."`): each `q` in `s` is doubled.
pub open spec fn doubled(s: Seq<char>, q: char) -> Seq<char>
    decreases s.len(),
{
    if s.len() == 0 {
        Seq::<char>::empty()
    } else {
        doubled_char(s[0], q) + doubled(s.drop_first(), q)
    }
}

/// How the shell reads the body `t` of a literal quoted by `q`: a doubled `q`
/// stands for one `q`; a `q` standing alone would end the literal there, so the
/// body is not read whole (`None`).
pub open spec fn undoubled(t: Seq<char>, q: char) -> Option<Seq<char>>
    decreases t.len(),
{
    if t.len() == 0 {
        Some(Seq::<char>::empty())
    } else if t[0] == q {
        if t.len() >= 2 && t[1] == q {
            match undoubled(t.subrange(2, t.len() as int), q) {
                Some(r) => Some(seq![q] + r),
                None => None,
            }
        } else {
            None
        }
    } else {
        match undoubled(t.drop_first(), q) {
            Some(r) => Some(seq![t[0]] + r),
            None => None,
        }
    }
}

proof fn doubled_push(s: Seq<char>, c: char, q: char)
    ensures
        doubled(s.push(c), q) == doubled(s, q) + doubled_char(c, q),
    decreases s.len(),
{
    if s.len() == 0 {
        assert(s.push(c).drop_first() =~= Seq::<char>::empty());
        assert(s.push(c)[0] == c);
        assert(doubled(Seq::<char>::empty(), q) =~= Seq::<char>::empty());
        assert(doubled(s.push(c), q) =~= doubled_char(c, q) + Seq::<char>::empty());
        assert(doubled(s, q) =~= Seq::<char>::empty());
    } else {
        doubled_push(s.drop_first(), c, q);
        assert(s.push(c).drop_first() =~= s.drop_first().push(c));
        assert(doubled(s.push(c), q) =~= doubled(s, q) + doubled_char(c, q));
    }
}

/// A text quoted with `doubled` is read back by the shell as exactly that
/// text: no character of it can end the literal early.
pub proof fn doubled_reads_back(s: Seq<char>, q: char)
    ensures
        undoubled(doubled(s, q), q) == Some(s),
    decreases s.len(),
{
    if s.len() > 0 {
        doubled_reads_back(s.drop_first(), q);
        let t = doubled(s, q);
        let rest = doubled(s.drop_first(), q);
        if s[0] == q {
            assert(t.subrange(2, t.len() as int) =~= rest);
            assert(seq![q] + s.drop_first() =~= s);
        } else {
            assert(t.drop_first() =~= rest);
            assert(seq![s[0]] + s.drop_first() =~= s);
        }
    }
}

/// Doubling works character by character: doubling a joined text doubles each
/// part; the quote character becomes two quotes and every other character
/// stays itself.
pub proof fn doubling_is_charwise(a: Seq<char>, b: Seq<char>, c: char, q: char)
    ensures
        doubled(a + b, q) == doubled(a, q) + doubled(b, q),
        doubled(seq![q], q) == seq![q, q],
        c != q ==> doubled(seq![c], q) == seq![c],
        doubled(Seq::<char>::empty(), q) == Seq::<char>::empty(),
    decreases a.len(),
{
    assert(seq![q].drop_first() =~= Seq::<char>::empty());
    assert(seq![c].drop_first() =~= Seq::<char>::empty());
    assert(doubled(Seq::<char>::empty(), q) =~= Seq::<char>::empty());
    assert(seq![q][0] == q);
    assert(seq![c][0] == c);
    assert(doubled(seq![q], q) =~= seq![q, q] + Seq::<char>::empty());
    assert(doubled(seq![c], q) =~= doubled_char(c, q) + Seq::<char>::empty());
    if a.len() == 0 {
        assert(a + b =~= b);
        assert(doubled(a, q) + doubled(b, q) =~= doubled(b, q));
    } else {
        doubling_is_charwise(a.drop_first(), b, c, q);
        assert((a + b).drop_first() =~= a.drop_first() + b);
        assert((a + b)[0] == a[0]);
        assert(doubled(a + b, q) =~= doubled(a, q) + doubled(b, q));
    }
}

/// `s` with every `q` doubled, as `s.replace(q, qq)` writes it.
pub fn double_quotes(s: &str, q: char) -> (res: String)
    ensures
        res@ == doubled(s@, q),
{
    broadcast use vstd::string::group_string_axioms;

    let mut out = String::new();
    for c in it: s.chars()
        invariant
            it.seq() == s@,
            out@ == doubled(s@.take(it.index() as int), q),
    {
        proof {
            doubled_push(s@.take(it.index() as int), c, q);
            assert(s@.take(it.index() + 1) =~= s@.take(it.index() as int).push(c));
        }
        if c == q {
            push_char(&mut out, q);
            push_char(&mut out, q);
        } else {
            push_char(&mut out, c);
        }
    }
    assert(s@.take(s@.len() as int) =~= s@);
    out
}

} // verus!
