use vstd::prelude::*;

verus! {

/// The pieces of `s` between occurrences of `sep`, as `str::split` yields
/// them: `n` separators give `n + 1` pieces, some of them possibly empty.
pub open spec fn split_spec(s: Seq<char>, sep: char) -> Seq<Seq<char>>
    decreases s.len(),
{
    if s.len() == 0 {
        seq![Seq::empty()]
    } else {
        let prev = split_spec(s.drop_last(), sep);
        if s.last() == sep {
            prev.push(Seq::empty())
        } else {
            prev.update(prev.len() - 1, prev.last().push(s.last()))
        }
    }
}

proof fn lemma_split_nonempty(s: Seq<char>, sep: char)
    ensures
        split_spec(s, sep).len() >= 1,
    decreases s.len(),
{
    if s.len() > 0 {
        lemma_split_nonempty(s.drop_last(), sep);
    }
}

/// Splits `s` at every occurrence of `sep`.
pub fn split_fields(s: &str, sep: char) -> (r: Vec<Vec<char>>)
    ensures
        r.deep_view() == split_spec(s@, sep),
{
    let n = s.unicode_len();
    let mut fields: Vec<Vec<char>> = Vec::new();
    let mut cur: Vec<char> = Vec::new();
    let mut i: usize = 0;
    while i < n
        invariant
            n == s@.len(),
            i <= n,
            fields.deep_view().push(cur@) == split_spec(s@.take(i as int), sep),
        decreases n - i,
    {
        let c = s.get_char(i);
        let ghost before = fields.deep_view();
        let ghost t = s@.take(i as int + 1);
        assert(t.drop_last() =~= s@.take(i as int));
        assert(t.last() == c);
        proof {
            lemma_split_nonempty(s@.take(i as int), sep);
        }
        if c == sep {
            let done = cur;
            assert(done.deep_view() =~= done@);
            fields.push(done);
            cur = Vec::new();
            assert(fields.deep_view() =~= before.push(done@));
            assert(fields.deep_view().push(cur@) =~= split_spec(t, sep));
        } else {
            cur.push(c);
            assert(fields.deep_view().push(cur@) =~= split_spec(t, sep));
        }
        i = i + 1;
    }
    assert(s@.take(n as int) =~= s@);
    let ghost before = fields.deep_view();
    let last = cur;
    assert(last.deep_view() =~= last@);
    fields.push(last);
    assert(fields.deep_view() =~= before.push(last@));
    fields
}

pub open spec fn is_digit(c: char) -> bool {
    '0' <= c && c <= '9'
}

/// A non-empty run of ASCII decimal digits.
pub open spec fn is_digits(s: Seq<char>) -> bool {
    s.len() > 0 && forall|i: int| 0 <= i < s.len() ==> is_digit(#[trigger] s[i])
}

/// The number that a run of decimal digits spells, most significant first.
pub open spec fn digits_value(s: Seq<char>) -> int
    decreases s.len(),
{
    if s.len() == 0 {
        0
    } else {
        digits_value(s.drop_last()) * 10 + (s.last() as int - '0' as int)
    }
}

proof fn lemma_digits_nonnegative(s: Seq<char>)
    requires
        forall|i: int| 0 <= i < s.len() ==> is_digit(#[trigger] s[i]),
    ensures
        digits_value(s) >= 0,
    decreases s.len(),
{
    if s.len() > 0 {
        lemma_digits_nonnegative(s.drop_last());
    }
}

/// The value of an optional `+` followed by decimal digits, if `s` is one.
pub open spec fn unsigned_value(s: Seq<char>) -> Option<int> {
    let d = if s.len() > 0 && s[0] == '+' {
        s.drop_first()
    } else {
        s
    };
    if is_digits(d) {
        Some(digits_value(d))
    } else {
        None
    }
}

/// The value of an optional `+` or `-` followed by decimal digits, if `s` is
/// one.
pub open spec fn signed_value(s: Seq<char>) -> Option<int> {
    if s.len() > 0 && s[0] == '-' {
        if is_digits(s.drop_first()) {
            Some(-digits_value(s.drop_first()))
        } else {
            None
        }
    } else {
        unsigned_value(s)
    }
}

/// What parsing `s` as a `u32` gives: its value when it is one and fits.
pub open spec fn u32_of(s: Seq<char>) -> Option<u32> {
    match unsigned_value(s) {
        Some(v) => if v <= u32::MAX {
            Some(v as u32)
        } else {
            None
        },
        None => None,
    }
}

/// What parsing `s` as an `i32` gives: its value when it is one and fits.
pub open spec fn i32_of(s: Seq<char>) -> Option<i32> {
    match signed_value(s) {
        Some(v) => if i32::MIN <= v && v <= i32::MAX {
            Some(v as i32)
        } else {
            None
        },
        None => None,
    }
}

/// Reads the decimal digits of `s` from `start` to the end, provided there is
/// at least one, all are digits, and their value is at most `cap`.
fn digits_at_most(s: &Vec<char>, start: usize, cap: u64) -> (r: Option<u64>)
    requires
        start <= s@.len(),
        cap <= 0x1_0000_0000,
    ensures
        ({
            let d = s@.subrange(start as int, s@.len() as int);
            r == if is_digits(d) && digits_value(d) <= cap {
                Some(digits_value(d) as u64)
            } else {
                None
            }
        }),
{
    let ghost d = s@.subrange(start as int, s@.len() as int);
    if start == s.len() {
        return None;
    }
    let mut acc: u64 = 0;
    let mut over = false;
    let mut i: usize = start;
    while i < s.len()
        invariant
            d == s@.subrange(start as int, s@.len() as int),
            start <= i <= s@.len(),
            start < s@.len(),
            cap <= 0x1_0000_0000,
            forall|j: int| 0 <= j < i - start ==> is_digit(#[trigger] d[j]),
            !over ==> acc == digits_value(d.take(i - start)) && acc <= cap,
            over ==> digits_value(d.take(i - start)) > cap,
        decreases s@.len() - i,
    {
        let c = s[i];
        let ghost t = d.take(i - start + 1);
        assert(t.drop_last() =~= d.take(i - start));
        assert(t.last() == c);
        if !(c >= '0' && c <= '9') {
            assert(!is_digit(d[i - start]));
            return None;
        }
        if !over {
            let v: u64 = acc * 10 + (c as u32 - '0' as u32) as u64;
            if v > cap {
                over = true;
            } else {
                acc = v;
            }
        }
        i = i + 1;
    }
    assert(d.take(i - start) =~= d);
    if over {
        None
    } else {
        Some(acc)
    }
}

/// Parses `s` as `u32::from_str` does: an optional `+`, then decimal digits
/// whose value fits in 32 bits.
pub fn parse_u32(s: &Vec<char>) -> (r: Option<u32>)
    ensures
        r == u32_of(s@),
{
    let start: usize = if s.len() > 0 && s[0] == '+' {
        1
    } else {
        0
    };
    assert(s@.subrange(start as int, s@.len() as int) =~= if s@.len() > 0 && s@[0] == '+' {
        s@.drop_first()
    } else {
        s@
    });
    proof {
        let d = s@.subrange(start as int, s@.len() as int);
        if is_digits(d) {
            lemma_digits_nonnegative(d);
        }
    }
    match digits_at_most(s, start, 0xffff_ffff) {
        Some(v) => Some(v as u32),
        None => None,
    }
}

/// Parses `s` as `i32::from_str` does: an optional `+` or `-`, then decimal
/// digits whose signed value fits in 32 bits.
pub fn parse_i32(s: &Vec<char>) -> (r: Option<i32>)
    ensures
        r == i32_of(s@),
{
    if s.len() > 0 && s[0] == '-' {
        assert(s@.subrange(1, s@.len() as int) =~= s@.drop_first());
        proof {
            if is_digits(s@.drop_first()) {
                lemma_digits_nonnegative(s@.drop_first());
            }
        }
        match digits_at_most(s, 1, 0x8000_0000) {
            Some(v) => Some((0 - (v as i64)) as i32),
            None => None,
        }
    } else {
        let start: usize = if s.len() > 0 && s[0] == '+' {
            1
        } else {
            0
        };
        assert(s@.subrange(start as int, s@.len() as int) =~= if s@.len() > 0 && s@[0] == '+' {
            s@.drop_first()
        } else {
            s@
        });
        proof {
            let d = s@.subrange(start as int, s@.len() as int);
            if is_digits(d) {
                lemma_digits_nonnegative(d);
            }
        }
        match digits_at_most(s, start, 0x7fff_ffff) {
            Some(v) => Some(v as i32),
            None => None,
        }
    }
}

} // verus!
