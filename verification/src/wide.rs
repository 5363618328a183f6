use vstd::prelude::*;

verus! {

/// The UTF-16 code units of one character: itself below U+10000, else a
/// surrogate pair.
pub open spec fn utf16_char(c: char) -> Seq<u16> {
    let v = c as u32;
    if v < 0x10000 {
        seq![v as u16]
    } else {
        seq![(0xD800 + (v - 0x10000) / 0x400) as u16, (0xDC00 + (v - 0x10000) % 0x400) as u16]
    }
}

/// The UTF-16 encoding of a string.
pub open spec fn utf16(s: Seq<char>) -> Seq<u16>
    decreases s.len(),
{
    if s.len() == 0 {
        Seq::<u16>::empty()
    } else {
        utf16_char(s[0]) + utf16(s.drop_first())
    }
}

/// How a reader of UTF-16 (such as the Windows message box) reads the units `t`
/// back into characters; `None` where a surrogate stands unpaired.
pub open spec fn utf16_decode(t: Seq<u16>) -> Option<Seq<char>>
    decreases t.len(),
{
    if t.len() == 0 {
        Some(Seq::<char>::empty())
    } else if 0xD800 <= t[0] < 0xDC00 {
        if t.len() >= 2 && 0xDC00 <= t[1] < 0xE000 {
            let c = (0x10000 + (t[0] - 0xD800) * 0x400 + (t[1] - 0xDC00)) as char;
            match utf16_decode(t.subrange(2, t.len() as int)) {
                Some(r) => Some(seq![c] + r),
                None => None,
            }
        } else {
            None
        }
    } else if 0xDC00 <= t[0] < 0xE000 {
        None
    } else {
        match utf16_decode(t.drop_first()) {
            Some(r) => Some(seq![t[0] as char] + r),
            None => None,
        }
    }
}

proof fn utf16_push(s: Seq<char>, c: char)
    ensures
        utf16(s.push(c)) == utf16(s) + utf16_char(c),
    decreases s.len(),
{
    if s.len() == 0 {
        assert(s.push(c).drop_first() =~= Seq::<char>::empty());
        assert(s.push(c)[0] == c);
        assert(utf16(Seq::<char>::empty()) =~= Seq::<u16>::empty());
        assert(utf16(s.push(c)) =~= utf16_char(c) + Seq::<u16>::empty());
        assert(utf16(s) =~= Seq::<u16>::empty());
    } else {
        utf16_push(s.drop_first(), c);
        assert(s.push(c).drop_first() =~= s.drop_first().push(c));
        assert(utf16(s.push(c)) =~= utf16(s) + utf16_char(c));
    }
}

/// Every string encoded by `utf16` is read back whole and unchanged.
pub proof fn utf16_reads_back(s: Seq<char>)
    ensures
        utf16_decode(utf16(s)) == Some(s),
    decreases s.len(),
{
    if s.len() > 0 {
        utf16_reads_back(s.drop_first());
        let c = s[0];
        let v = c as u32;
        let t = utf16(s);
        let rest = utf16(s.drop_first());
        vstd::utf8::char_is_scalar(c);
        vstd::utf8::char_u32_cast(c, v);
        assert(0 <= v <= 0xD7FF || 0xE000 <= v <= 0x10FFFF);
        if v < 0x10000 {
            assert(t[0] == v);
            assert(t.drop_first() =~= rest);
            assert(t[0] as char == c);
        } else {
            let hi = 0xD800 + (v - 0x10000) / 0x400;
            let lo = 0xDC00 + (v - 0x10000) % 0x400;
            assert(0 <= (v - 0x10000) / 0x400 < 0x400);
            assert(t[0] == hi);
            assert(t[1] == lo);
            assert(t.subrange(2, t.len() as int) =~= rest);
            assert((v - 0x10000) == ((v - 0x10000) / 0x400) * 0x400 + (v - 0x10000) % 0x400);
            assert(0x10000 + (t[0] - 0xD800) * 0x400 + (t[1] - 0xDC00) == v);
        }
        assert(seq![c] + s.drop_first() =~= s);
    }
}

/// UTF-16 works character by character: encoding a joined text encodes each
/// part; a character below U+10000 is the one unit of its own value, and any
/// other is a high surrogate (D800 to DBFF) then a low surrogate (DC00 to
/// DFFF) that together carry its value.
pub proof fn utf16_is_standard(a: Seq<char>, b: Seq<char>, c: char)
    ensures
        utf16(a + b) == utf16(a) + utf16(b),
        utf16(seq![c]) == utf16_char(c),
        (c as u32) < 0x10000 ==> utf16_char(c) == seq![(c as u32) as u16],
        (c as u32) >= 0x10000 ==> {
            let u = utf16_char(c);
            &&& u.len() == 2
            &&& 0xD800 <= u[0] < 0xDC00
            &&& 0xDC00 <= u[1] < 0xE000
            &&& 0x10000 + (u[0] - 0xD800) * 0x400 + (u[1] - 0xDC00) == c as u32
        },
    decreases a.len(),
{
    vstd::utf8::char_is_scalar(c);
    assert(seq![c].drop_first() =~= Seq::<char>::empty());
    assert(utf16(Seq::<char>::empty()) =~= Seq::<u16>::empty());
    assert(seq![c][0] == c);
    assert(utf16(seq![c]) =~= utf16_char(c) + Seq::<u16>::empty());
    let v = c as u32;
    if v >= 0x10000 {
        assert(0 <= (v - 0x10000) / 0x400 < 0x400);
        assert((v - 0x10000) == ((v - 0x10000) / 0x400) * 0x400 + (v - 0x10000) % 0x400);
    }
    if a.len() == 0 {
        assert(a + b =~= b);
        assert(utf16(a) + utf16(b) =~= utf16(b));
    } else {
        utf16_is_standard(a.drop_first(), b, c);
        assert((a + b).drop_first() =~= a.drop_first() + b);
        assert((a + b)[0] == a[0]);
        assert(utf16(a + b) =~= utf16(a) + utf16(b));
    }
}

/// `s` as the NUL-terminated UTF-16 text that Windows calls take.
pub fn wide(s: &str) -> (res: Vec<u16>)
    ensures
        res@ == utf16(s@).push(0u16),
{
    broadcast use vstd::string::group_string_axioms;

    let mut out: Vec<u16> = Vec::new();
    for c in it: s.chars()
        invariant
            it.seq() == s@,
            out@ == utf16(s@.take(it.index() as int)),
    {
        proof {
            utf16_push(s@.take(it.index() as int), c);
            assert(s@.take(it.index() + 1) =~= s@.take(it.index() as int).push(c));
        }
        let v: u32 = c as u32;
        proof {
            vstd::utf8::char_is_scalar(c);
        }
        if v < 0x10000 {
            out.push(v as u16);
        } else {
            let w: u32 = v - 0x10000;
            out.push((0xD800 + w / 0x400) as u16);
            out.push((0xDC00 + w % 0x400) as u16);
        }
        assert(out@ =~= utf16(s@.take(it.index() as int)) + utf16_char(c));
    }
    assert(s@.take(s@.len() as int) =~= s@);
    out.push(0u16);
    out
}

} // verus!
