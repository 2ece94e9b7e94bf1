use vstd::prelude::*;

use crate::error::NetError;

verus! {

broadcast use vstd::seq_lib::group_to_multiset_ensures;

/// Whether `c` is white space in the Unicode sense, as `char::is_whitespace`
/// has it.
pub open spec fn is_space(c: char) -> bool {
    ||| c == '\t' || c == '\n' || c == '\u{0B}' || c == '\u{0C}' || c == '\r' || c == ' '
    ||| c == '\u{85}' || c == '\u{A0}' || c == '\u{1680}'
    ||| ('\u{2000}' <= c && c <= '\u{200A}')
    ||| c == '\u{2028}' || c == '\u{2029}' || c == '\u{202F}' || c == '\u{205F}' || c == '\u{3000}'
}

fn space(c: char) -> (r: bool)
    ensures
        r == is_space(c),
{
    c == '\t' || c == '\n' || c == '\u{0B}' || c == '\u{0C}' || c == '\r' || c == ' ' || c
        == '\u{85}' || c == '\u{A0}' || c == '\u{1680}' || ('\u{2000}' <= c && c <= '\u{200A}')
        || c == '\u{2028}' || c == '\u{2029}' || c == '\u{202F}' || c == '\u{205F}' || c
        == '\u{3000}'
}

pub open spec fn is_digit(c: char) -> bool {
    '0' <= c && c <= '9'
}

/// The value of a digit character.
pub open spec fn digit_value(c: char) -> int {
    (c as u32) as int - ('0' as u32) as int
}

/// The number that a run of decimal digits spells.
pub open spec fn digits_value(d: Seq<char>) -> int
    decreases d.len(),
{
    if d.len() == 0 {
        0
    } else {
        digits_value(d.drop_last()) * 10 + digit_value(d.last())
    }
}

pub open spec fn all_digits(d: Seq<char>) -> bool {
    forall|j: int| 0 <= j < d.len() ==> is_digit(#[trigger] d[j])
}

/// The digits of an unsigned number: a leading plus sign is allowed when
/// something follows it.
pub open spec fn unsigned_digits(t: Seq<char>) -> Seq<char> {
    if t.len() > 1 && t[0] == '+' {
        t.drop_first()
    } else {
        t
    }
}

/// The unsigned number that `t` spells, as `usize::from_str` reads it.
pub open spec fn parse_usize(t: Seq<char>) -> Option<usize> {
    let d = unsigned_digits(t);
    if d.len() > 0 && all_digits(d) && digits_value(d) <= usize::MAX {
        Some(digits_value(d) as usize)
    } else {
        None
    }
}

proof fn lemma_digits_monotone(d: Seq<char>, j: int)
    requires
        all_digits(d),
        0 <= j <= d.len(),
    ensures
        0 <= digits_value(d.take(j)) <= digits_value(d),
    decreases d.len(),
{
    if d.len() > 0 {
        assert(all_digits(d.drop_last()));
        if j == d.len() {
            assert(d.take(j) =~= d);
            lemma_digits_monotone(d.drop_last(), 0);
            assert(d.take(0) =~= d.drop_last().take(0));
        } else {
            lemma_digits_monotone(d.drop_last(), j);
            lemma_digits_monotone(d.drop_last(), d.len() - 1);
            assert(d.drop_last().take(j) =~= d.take(j));
            assert(d.drop_last().take(d.len() - 1) =~= d.drop_last());
        }
        assert(is_digit(d.last()));
    } else {
        assert(d.take(j) =~= d);
    }
}

/// Reads the unsigned number spelled by `chars[lo..hi]`.
fn read_usize(chars: &Vec<char>, lo: usize, hi: usize) -> (r: Option<usize>)
    requires
        lo <= hi <= chars@.len(),
    ensures
        r == parse_usize(chars@.subrange(lo as int, hi as int)),
{
    let ghost t = chars@.subrange(lo as int, hi as int);
    let start = if hi - lo > 1 && chars[lo] == '+' {
        lo + 1
    } else {
        lo
    };
    let ghost d = chars@.subrange(start as int, hi as int);
    assert(d =~= unsigned_digits(t));
    if start == hi {
        return None;
    }
    let mut value: usize = 0;
    let mut i: usize = start;
    let mut overflow = false;
    while i < hi
        invariant
            start <= i <= hi <= chars@.len(),
            d == chars@.subrange(start as int, hi as int),
            d == unsigned_digits(chars@.subrange(lo as int, hi as int)),
            d.len() > 0,
            all_digits(d.take(i - start)),
            !overflow ==> value == digits_value(d.take(i - start)),
            overflow ==> digits_value(d.take(i - start)) > usize::MAX,
        decreases hi - i,
    {
        let c = chars[i];
        assert(d[i - start] == c);
        if !('0' <= c && c <= '9') {
            assert(!is_digit(d[i - start]));
            assert(!all_digits(d));
            return None;
        }
        let ghost prefix = d.take(i - start + 1);
        assert(prefix.drop_last() =~= d.take(i - start));
        assert(prefix.last() == c);
        assert(all_digits(prefix));
        let dig = (c as u32 - '0' as u32) as usize;
        proof {
            lemma_digits_monotone(d.take(i - start), 0);
        }
        if !overflow {
            match value.checked_mul(10) {
                Some(v10) => match v10.checked_add(dig) {
                    Some(v) => {
                        value = v;
                    },
                    None => {
                        overflow = true;
                    },
                },
                None => {
                    overflow = true;
                },
            }
        }
        i = i + 1;
    }
    assert(d.take(i - start) =~= d);
    if overflow {
        None
    } else {
        Some(value)
    }
}

/// `s` without its leading white space.
pub open spec fn trim_start(s: Seq<char>) -> Seq<char>
    decreases s.len(),
{
    if s.len() > 0 && is_space(s[0]) {
        trim_start(s.drop_first())
    } else {
        s
    }
}

/// `s` without its trailing white space.
pub open spec fn trim_end(s: Seq<char>) -> Seq<char>
    decreases s.len(),
{
    if s.len() > 0 && is_space(s.last()) {
        trim_end(s.drop_last())
    } else {
        s
    }
}

/// `s` without leading and trailing white space, as `str::trim` has it.
pub open spec fn trim(s: Seq<char>) -> Seq<char> {
    trim_end(trim_start(s))
}

/// `k` is the index of the first dash in `t`.
pub open spec fn first_dash(t: Seq<char>, k: int) -> bool {
    &&& 0 <= k < t.len()
    &&& t[k] == '-'
    &&& forall|j: int| 0 <= j < k ==> t[j] != '-'
}

/// The CPUs from `a` to `b`, both included; none when `a > b`.
pub open spec fn cpu_range(a: usize, b: usize) -> Seq<usize> {
    Seq::new(
        if a <= b {
            (b - a + 1) as nat
        } else {
            0
        },
        |i: int| (a + i) as usize,
    )
}

/// The CPUs one comma-separated item names: nothing for an empty item, a
/// range for `start-end`, a single CPU otherwise; `None` when a number does
/// not read.
pub open spec fn parse_piece(p: Seq<char>) -> Option<Seq<usize>> {
    let t = trim(p);
    if t.len() == 0 {
        Some(seq![])
    } else if exists|k: int| first_dash(t, k) {
        let k = choose|k: int| first_dash(t, k);
        match (parse_usize(t.take(k)), parse_usize(t.skip(k + 1))) {
            (Some(a), Some(b)) => Some(cpu_range(a, b)),
            _ => None,
        }
    } else {
        match parse_usize(t) {
            Some(v) => Some(seq![v]),
            None => None,
        }
    }
}

/// The items of `s` between commas, as `str::split(',')` has them.
pub open spec fn split_commas(s: Seq<char>) -> Seq<Seq<char>>
    decreases s.len(),
{
    if s.len() == 0 {
        seq![seq![]]
    } else {
        let init = split_commas(s.drop_last());
        if s.last() == ',' {
            init.push(seq![])
        } else {
            init.update(init.len() - 1, init.last().push(s.last()))
        }
    }
}

/// The CPUs that the items name, in order; `None` when one does not read.
pub open spec fn parse_pieces(ps: Seq<Seq<char>>) -> Option<Seq<usize>>
    decreases ps.len(),
{
    if ps.len() == 0 {
        Some(seq![])
    } else {
        match (parse_pieces(ps.drop_last()), parse_piece(ps.last())) {
            (Some(a), Some(b)) => Some(a + b),
            _ => None,
        }
    }
}

/// The CPUs that a CPU list in the Linux format (`0-3,8-11`) names, in the
/// order it names them.
pub open spec fn cpu_list_values(s: Seq<char>) -> Option<Seq<usize>> {
    parse_pieces(split_commas(s))
}

pub open spec fn sorted(s: Seq<usize>) -> bool {
    forall|i: int, j: int| 0 <= i < j < s.len() ==> s[i] <= s[j]
}

fn trim_bounds(chars: &Vec<char>, lo: usize, hi: usize) -> (r: (usize, usize))
    requires
        lo <= hi <= chars@.len(),
    ensures
        lo <= r.0 <= r.1 <= hi,
        chars@.subrange(r.0 as int, r.1 as int) == trim(chars@.subrange(lo as int, hi as int)),
{
    let mut a = lo;
    while a < hi && space(chars[a])
        invariant
            lo <= a <= hi <= chars@.len(),
            trim_start(chars@.subrange(lo as int, hi as int)) == trim_start(
                chars@.subrange(a as int, hi as int),
            ),
        decreases hi - a,
    {
        assert(chars@.subrange(a as int, hi as int).drop_first() =~= chars@.subrange(
            a + 1,
            hi as int,
        ));
        a = a + 1;
    }
    assert(trim_start(chars@.subrange(a as int, hi as int)) == chars@.subrange(a as int, hi as int));
    let mut b = hi;
    while b > a && space(chars[b - 1])
        invariant
            lo <= a <= b <= hi <= chars@.len(),
            trim_end(chars@.subrange(a as int, hi as int)) == trim_end(
                chars@.subrange(a as int, b as int),
            ),
        decreases b - a,
    {
        assert(chars@.subrange(a as int, b as int).drop_last() =~= chars@.subrange(
            a as int,
            b - 1,
        ));
        b = b - 1;
    }
    (a, b)
}

fn find_dash(chars: &Vec<char>, a: usize, b: usize) -> (r: Option<usize>)
    requires
        a <= b <= chars@.len(),
    ensures
        match r {
            Some(k) => a <= k < b && first_dash(chars@.subrange(a as int, b as int), k - a),
            None => forall|j: int| a <= j < b ==> chars@[j] != '-',
        },
{
    let mut k = a;
    while k < b
        invariant
            a <= k <= b <= chars@.len(),
            forall|j: int| a <= j < k ==> chars@[j] != '-',
        decreases b - k,
    {
        if chars[k] == '-' {
            return Some(k);
        }
        k = k + 1;
    }
    None
}

fn push_range(out: &mut Vec<usize>, a: usize, b: usize)
    ensures
        final(out)@ == old(out)@ + cpu_range(a, b),
{
    if a > b {
        assert(final(out)@ =~= old(out)@ + cpu_range(a, b));
        return;
    }
    let mut c = a;
    while c < b
        invariant
            a <= c <= b,
            out@ == old(out)@ + Seq::new((c - a) as nat, |i: int| (a + i) as usize),
        decreases b - c,
    {
        out.push(c);
        c = c + 1;
        assert(out@ =~= old(out)@ + Seq::new((c - a) as nat, |i: int| (a + i) as usize));
    }
    out.push(b);
    assert(out@ =~= old(out)@ + cpu_range(a, b));
}

/// Appends the CPUs named by the item `chars[lo..hi]` to `out`, and says
/// whether the item reads.
fn parse_piece_into(chars: &Vec<char>, lo: usize, hi: usize, out: &mut Vec<usize>) -> (r: bool)
    requires
        lo <= hi <= chars@.len(),
    ensures
        match parse_piece(chars@.subrange(lo as int, hi as int)) {
            Some(v) => r && final(out)@ == old(out)@ + v,
            None => !r,
        },
{
    let (a, b) = trim_bounds(chars, lo, hi);
    let ghost t = chars@.subrange(a as int, b as int);
    if a == b {
        assert(final(out)@ =~= old(out)@ + seq![]);
        return true;
    }
    match find_dash(chars, a, b) {
        Some(k) => {
            let ghost kk = k - a;
            assert forall|k2: int| first_dash(t, k2) implies k2 == kk by {
                if k2 < kk {
                    assert(t[k2] == '-');
                } else if k2 > kk {
                    assert(t[kk] == '-');
                }
            }
            assert(t.take(kk) =~= chars@.subrange(a as int, k as int));
            assert(t.skip(kk + 1) =~= chars@.subrange(k + 1, b as int));
            let x = read_usize(chars, a, k);
            let y = read_usize(chars, k + 1, b);
            match (x, y) {
                (Some(x), Some(y)) => {
                    push_range(out, x, y);
                    true
                },
                _ => false,
            }
        },
        None => {
            assert forall|k2: int| !first_dash(t, k2) by {
                if 0 <= k2 < t.len() {
                    assert(t[k2] == chars@[a + k2]);
                }
            }
            match read_usize(chars, a, b) {
                Some(v) => {
                    out.push(v);
                    assert(final(out)@ =~= old(out)@ + seq![v]);
                    true
                },
                None => false,
            }
        },
    }
}

/// The characters of a string.
fn chars_of(s: &str) -> (r: Vec<char>)
    ensures
        r@ == s@,
{
    let n = s.unicode_len();
    let mut r: Vec<char> = Vec::new();
    let mut i: usize = 0;
    while i < n
        invariant
            i <= n == s@.len(),
            r@ == s@.take(i as int),
        decreases n - i,
    {
        r.push(s.get_char(i));
        i = i + 1;
        assert(r@ =~= s@.take(i as int));
    }
    assert(s@.take(n as int) =~= s@);
    r
}

/// The values of `v` in ascending order.
fn sort_cpus(v: &Vec<usize>) -> (r: Vec<usize>)
    ensures
        sorted(r@),
        r@.to_multiset() == v@.to_multiset(),
{
    let mut out: Vec<usize> = Vec::new();
    let mut i: usize = 0;
    while i < v.len()
        invariant
            i <= v@.len(),
            sorted(out@),
            out@.to_multiset() == v@.take(i as int).to_multiset(),
        decreases v@.len() - i,
    {
        let x = v[i];
        let mut pos: usize = 0;
        while pos < out.len() && out[pos] <= x
            invariant
                pos <= out@.len(),
                forall|j: int| 0 <= j < pos ==> out@[j] <= x,
            decreases out@.len() - pos,
        {
            pos = pos + 1;
        }
        let ghost before = out@;
        out.insert(pos, x);
        assert(out@ == before.insert(pos as int, x));
        assert(sorted(out@)) by {
            assert forall|a: int, b: int| 0 <= a < b < out@.len() implies out@[a] <= out@[b] by {
                if b < pos {
                } else if a < pos && b == pos {
                } else if a < pos {
                    assert(before[a] <= x);
                    assert(x < before[pos as int] || pos == before.len());
                } else if a == pos {
                    assert(x < before[pos as int]);
                } else {
                }
            }
        }
        assert(v@.take(i + 1) =~= v@.take(i as int).push(x));
        i = i + 1;
    }
    assert(v@.take(i as int) =~= v@);
    out
}

/// Parses a CPU list in the Linux format (`0-3,8-11`): comma-separated
/// items, each a CPU number or an inclusive range, white space around items
/// ignored, empty items skipped. The CPUs come back in ascending order; an
/// item whose numbers do not read makes the whole list invalid.
pub fn parse_cpu_list(cpu_list: &str) -> (r: Result<Vec<usize>, NetError>)
    ensures
        match cpu_list_values(cpu_list@) {
            Some(v) => r matches Ok(out) && sorted(out@) && out@.to_multiset() == v.to_multiset(),
            None => r == Err::<Vec<usize>, NetError>(NetError::InvalidData),
        },
{
    let chars = chars_of(cpu_list);
    let n = chars.len();
    let mut cpus: Vec<usize> = Vec::new();
    let mut failed = false;
    let mut start: usize = 0;
    let mut i: usize = 0;
    let ghost mut done: Seq<Seq<char>> = seq![];
    assert(chars@.take(0) =~= Seq::<char>::empty());
    assert(split_commas(chars@.take(0)) =~= done.push(chars@.subrange(0, 0)));
    while i < n
        invariant
            start <= i <= n == chars@.len(),
            split_commas(chars@.take(i as int)) == done.push(chars@.subrange(start as int, i as int)),
            !failed ==> parse_pieces(done) == Some(cpus@),
            failed ==> parse_pieces(done) is None,
        decreases n - i,
    {
        let ghost piece = chars@.subrange(start as int, i as int);
        assert(chars@.take(i + 1).drop_last() =~= chars@.take(i as int));
        assert(chars@.take(i + 1).last() == chars@[i as int]);
        if chars[i] == ',' {
            if !failed {
                let ghost before = cpus@;
                let ok = parse_piece_into(&chars, start, i, &mut cpus);
                assert(done.push(piece).drop_last() =~= done);
                if !ok {
                    failed = true;
                } else {
                    assert(parse_pieces(done.push(piece)) == Some(cpus@));
                }
            } else {
                assert(done.push(piece).drop_last() =~= done);
            }
            proof {
                done = done.push(piece);
            }
            start = i + 1;
            assert(chars@.subrange(start as int, i + 1) =~= Seq::<char>::empty());
            assert(split_commas(chars@.take(i + 1)) == split_commas(chars@.take(i as int)).push(
                seq![],
            ));
            assert(split_commas(chars@.take(i + 1)) =~= done.push(chars@.subrange(
                start as int,
                i + 1,
            )));
        } else {
            let ghost init = split_commas(chars@.take(i as int));
            assert(piece.push(chars@[i as int]) =~= chars@.subrange(start as int, i + 1));
            assert(split_commas(chars@.take(i + 1)) == init.update(
                init.len() - 1,
                init.last().push(chars@[i as int]),
            ));
            assert(split_commas(chars@.take(i + 1)) =~= done.push(chars@.subrange(
                start as int,
                i + 1,
            )));
        }
        i = i + 1;
    }
    assert(chars@.take(n as int) =~= chars@);
    let ghost last = chars@.subrange(start as int, n as int);
    assert(done.push(last).drop_last() =~= done);
    if failed {
        return Err(NetError::InvalidData);
    }
    if !parse_piece_into(&chars, start, n, &mut cpus) {
        return Err(NetError::InvalidData);
    }
    Ok(sort_cpus(&cpus))
}

/// Whether every CPU of `cpus` is below `limit`.
pub open spec fn all_below(cpus: Seq<usize>, limit: usize) -> bool {
    forall|i: int| 0 <= i < cpus.len() ==> #[trigger] cpus[i] < limit
}

/// Checks a CPU number against the number of CPUs an affinity set can name.
pub fn check_cpu(cpu: usize, limit: usize) -> (r: Result<(), NetError>)
    ensures
        r == if cpu < limit {
            Ok::<(), NetError>(())
        } else {
            Err(NetError::InvalidInput)
        },
{
    if cpu < limit {
        Ok(())
    } else {
        Err(NetError::InvalidInput)
    }
}

/// Checks a list of CPUs to pin to: it must not be empty, and every CPU must
/// be below `limit`.
pub fn check_cpus(cpus: &[usize], limit: usize) -> (r: Result<(), NetError>)
    ensures
        r == if cpus@.len() > 0 && all_below(cpus@, limit) {
            Ok::<(), NetError>(())
        } else {
            Err(NetError::InvalidInput)
        },
{
    if cpus.len() == 0 {
        return Err(NetError::InvalidInput);
    }
    let mut i: usize = 0;
    while i < cpus.len()
        invariant
            i <= cpus@.len(),
            all_below(cpus@.take(i as int), limit),
        decreases cpus@.len() - i,
    {
        if cpus[i] >= limit {
            assert(!all_below(cpus@, limit));
            return Err(NetError::InvalidInput);
        }
        i = i + 1;
        assert(all_below(cpus@.take(i as int), limit)) by {
            assert forall|j: int| 0 <= j < i implies #[trigger] cpus@.take(i as int)[j] < limit by {
                if j < i - 1 {
                    assert(cpus@.take(i as int)[j] == cpus@.take(i - 1)[j]);
                }
            }
        }
    }
    assert(cpus@.take(i as int) =~= cpus@);
    Ok(())
}

/// Number of CPUs a 64-bit affinity mask can name.
pub const MASK_CPUS: usize = 64;

/// The affinity mask with one bit set for each CPU of `cpus`.
pub open spec fn mask_of(cpus: Seq<usize>) -> u64
    decreases cpus.len(),
{
    if cpus.len() == 0 {
        0
    } else {
        mask_of(cpus.drop_last()) | (1u64 << (cpus.last() as u64))
    }
}

/// The 64-bit affinity mask for a list of CPUs, each of which must be below
/// 64.
pub fn affinity_mask(cpus: &[usize]) -> (r: Result<u64, NetError>)
    ensures
        r == if all_below(cpus@, MASK_CPUS) {
            Ok::<u64, NetError>(mask_of(cpus@))
        } else {
            Err(NetError::InvalidInput)
        },
{
    let mut mask: u64 = 0;
    let mut i: usize = 0;
    while i < cpus.len()
        invariant
            i <= cpus@.len(),
            all_below(cpus@.take(i as int), MASK_CPUS),
            mask == mask_of(cpus@.take(i as int)),
        decreases cpus@.len() - i,
    {
        let cpu = cpus[i];
        if cpu >= MASK_CPUS {
            assert(!all_below(cpus@, MASK_CPUS));
            return Err(NetError::InvalidInput);
        }
        assert(cpus@.take(i + 1).drop_last() =~= cpus@.take(i as int));
        mask = mask | (1u64 << (cpu as u64));
        i = i + 1;
        assert(all_below(cpus@.take(i as int), MASK_CPUS)) by {
            assert forall|j: int| 0 <= j < i implies #[trigger] cpus@.take(i as int)[j] < MASK_CPUS by {
                if j < i - 1 {
                    assert(cpus@.take(i as int)[j] == cpus@.take(i - 1)[j]);
                }
            }
        }
    }
    assert(cpus@.take(i as int) =~= cpus@);
    Ok(mask)
}

} // verus!
