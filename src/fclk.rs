//! The GPU memory clock levels that the kernel lists (`0: 400Mhz *` per
//! line), the level that a requested clock maps to, and the text that
//! enables the levels up to it.
use vstd::prelude::*;
use crate::text::{decimal, push_decimal};

verus! {

/// White space as Unicode defines it.
pub open spec fn is_space(c: char) -> bool {
    ('\u{9}' <= c && c <= '\u{d}') || c == ' ' || c == '\u{85}' || c == '\u{a0}' || c == '\u{1680}'
        || ('\u{2000}' <= c && c <= '\u{200a}') || c == '\u{2028}' || c == '\u{2029}' || c
        == '\u{202f}' || c == '\u{205f}' || c == '\u{3000}'
}

pub open spec fn is_ascii_digit(c: char) -> bool {
    '0' <= c && c <= '9'
}

/// Index of the first `c` in `s[lo..]`, or the length of `s`.
pub open spec fn find_from(s: Seq<char>, lo: int, c: char) -> int
    decreases s.len() - lo,
{
    if lo >= s.len() {
        s.len() as int
    } else if s[lo] == c {
        lo
    } else {
        find_from(s, lo + 1, c)
    }
}

/// Index of the first non-digit in `s[lo..hi]`, or `hi`.
pub open spec fn non_digit_from(s: Seq<char>, lo: int, hi: int) -> int
    decreases hi - lo,
{
    if lo >= hi {
        hi
    } else if !is_ascii_digit(s[lo]) {
        lo
    } else {
        non_digit_from(s, lo + 1, hi)
    }
}

/// Start of `s[lo..hi]` with leading white space skipped.
pub open spec fn skip_space(s: Seq<char>, lo: int, hi: int) -> int
    decreases hi - lo,
{
    if lo >= hi {
        hi
    } else if is_space(s[lo]) {
        skip_space(s, lo + 1, hi)
    } else {
        lo
    }
}

/// End of `s[lo..hi]` with trailing white space dropped.
pub open spec fn drop_space(s: Seq<char>, lo: int, hi: int) -> int
    decreases hi - lo,
{
    if hi <= lo {
        lo
    } else if is_space(s[hi - 1]) {
        drop_space(s, lo, hi - 1)
    } else {
        hi
    }
}

/// The number the digits `s[lo..hi]` denote.
pub open spec fn value_of(s: Seq<char>, lo: int, hi: int) -> nat
    decreases hi - lo,
{
    if hi <= lo {
        0
    } else {
        value_of(s, lo, hi - 1) * 10 + (s[hi - 1] as nat - '0' as nat) as nat
    }
}

pub open spec fn all_digits(s: Seq<char>, lo: int, hi: int) -> bool {
    forall|i: int| lo <= i < hi ==> #[trigger] is_ascii_digit(s[i])
}

/// `s[lo..hi]` read as an unsigned number: an optional `+`, then at least
/// one digit, with a value that fits.
pub open spec fn parse_number(s: Seq<char>, lo: int, hi: int) -> Option<nat> {
    let start = if lo < hi && s[lo] == '+' { lo + 1 } else { lo };
    if start < hi && all_digits(s, start, hi) && value_of(s, start, hi) <= usize::MAX {
        Some(value_of(s, start, hi))
    } else {
        None
    }
}

/// One line `s[lo..hi]`: the level before the first `:`, and the clock:
/// the digits that open the trimmed rest, which must go on with a non-digit.
pub open spec fn parse_level(s: Seq<char>, lo: int, hi: int) -> Option<(nat, nat)> {
    let colon = find_from(s.subrange(0, hi), lo, ':');
    if colon >= hi {
        None
    } else {
        match parse_number(s, lo, colon) {
            None => None,
            Some(level) => {
                let a = skip_space(s, colon + 1, hi);
                let b = drop_space(s, a, hi);
                let j = non_digit_from(s, a, b);
                if j >= b {
                    None
                } else {
                    match parse_number(s, a, j) {
                        None => None,
                        Some(mhz) => Some((level, mhz)),
                    }
                }
            },
        }
    }
}

/// The levels listed from `lo` on: one per line that reads as a level, up
/// to the first empty line.
pub open spec fn levels_from(s: Seq<char>, lo: int) -> Seq<(nat, nat)>
    decreases s.len() - lo,
{
    if lo < 0 || lo > s.len() {
        Seq::empty()
    } else {
        let nl = find_from(s, lo, '\n');
        if nl <= lo {
            Seq::empty()
        } else {
            let here = match parse_level(s, lo, nl) {
                Some(p) => seq![p],
                None => Seq::empty(),
            };
            if nl >= s.len() {
                here
            } else {
                here + levels_from(s, nl + 1)
            }
        }
    }
}

/// The characters of a text.
fn chars_of(t: &str) -> (r: Vec<char>)
    ensures
        r@ == t@,
{
    let n = t.unicode_len();
    let mut r: Vec<char> = Vec::new();
    let mut i: usize = 0;
    while i < n
        invariant
            n == t@.len(),
            i <= n,
            r@ =~= t@.subrange(0, i as int),
        decreases n - i,
    {
        r.push(t.get_char(i));
        i = i + 1;
    }
    assert(r@ =~= t@);
    r
}

fn find(s: &Vec<char>, lo: usize, hi: usize, c: char) -> (r: usize)
    requires
        lo <= hi <= s@.len(),
    ensures
        r == find_from(s@.subrange(0, hi as int), lo as int, c),
        lo <= r <= hi,
{
    let ghost t = s@.subrange(0, hi as int);
    let mut i = lo;
    while i < hi && s[i] != c
        invariant
            lo <= i <= hi,
            hi <= s@.len(),
            t == s@.subrange(0, hi as int),
            find_from(t, lo as int, c) == find_from(t, i as int, c),
        decreases hi - i,
    {
        i = i + 1;
    }
    i
}

fn first_non_digit(s: &Vec<char>, lo: usize, hi: usize) -> (r: usize)
    requires
        lo <= hi <= s@.len(),
    ensures
        r == non_digit_from(s@, lo as int, hi as int),
        lo <= r <= hi,
        all_digits(s@, lo as int, r as int),
        r < hi ==> !is_ascii_digit(s@[r as int]),
{
    let mut i = lo;
    while i < hi && '0' <= s[i] && s[i] <= '9'
        invariant
            lo <= i <= hi,
            hi <= s@.len(),
            non_digit_from(s@, lo as int, hi as int) == non_digit_from(s@, i as int, hi as int),
            all_digits(s@, lo as int, i as int),
        decreases hi - i,
    {
        i = i + 1;
    }
    i
}

fn skip_spaces(s: &Vec<char>, lo: usize, hi: usize) -> (r: usize)
    requires
        lo <= hi <= s@.len(),
    ensures
        r == skip_space(s@, lo as int, hi as int),
        lo <= r <= hi,
{
    let mut i = lo;
    while i < hi && is_space_char(s[i])
        invariant
            lo <= i <= hi,
            hi <= s@.len(),
            skip_space(s@, lo as int, hi as int) == skip_space(s@, i as int, hi as int),
        decreases hi - i,
    {
        i = i + 1;
    }
    i
}

fn drop_spaces(s: &Vec<char>, lo: usize, hi: usize) -> (r: usize)
    requires
        lo <= hi <= s@.len(),
    ensures
        r == drop_space(s@, lo as int, hi as int),
        lo <= r <= hi,
{
    let mut j = hi;
    while j > lo && is_space_char(s[j - 1])
        invariant
            lo <= j <= hi,
            hi <= s@.len(),
            drop_space(s@, lo as int, hi as int) == drop_space(s@, lo as int, j as int),
        decreases j - lo,
    {
        j = j - 1;
    }
    j
}

fn is_space_char(c: char) -> (r: bool)
    ensures
        r == is_space(c),
{
    ('\u{9}' <= c && c <= '\u{d}') || c == ' ' || c == '\u{85}' || c == '\u{a0}' || c == '\u{1680}'
        || ('\u{2000}' <= c && c <= '\u{200a}') || c == '\u{2028}' || c == '\u{2029}' || c
        == '\u{202f}' || c == '\u{205f}' || c == '\u{3000}'
}

proof fn lemma_value_grows(s: Seq<char>, lo: int, k: int, hi: int)
    requires
        lo <= k <= hi,
        all_digits(s, lo, hi),
    ensures
        value_of(s, lo, k) <= value_of(s, lo, hi),
    decreases hi - k,
{
    if k < hi {
        lemma_value_grows(s, lo, k, hi - 1);
    }
}

fn number(s: &Vec<char>, lo: usize, hi: usize) -> (r: Option<usize>)
    requires
        lo <= hi <= s@.len(),
    ensures
        match parse_number(s@, lo as int, hi as int) {
            Some(v) => r matches Some(x) && x == v,
            None => r is None,
        },
{
    let start = if lo < hi && s[lo] == '+' {
        lo + 1
    } else {
        lo
    };
    if start >= hi {
        return None;
    }
    let end = first_non_digit(s, start, hi);
    if end < hi {
        assert(!is_ascii_digit(s@[end as int]));
        return None;
    }
    let mut value: usize = 0;
    let mut i = start;
    while i < hi
        invariant
            start as int == (if lo < hi && s@[lo as int] == '+' { lo + 1 } else { lo as int }),
            lo <= hi,
            start < hi,
            start <= i <= hi,
            hi <= s@.len(),
            all_digits(s@, start as int, hi as int),
            value == value_of(s@, start as int, i as int),
        decreases hi - i,
    {
        assert(is_ascii_digit(s@[i as int]));
        let d = (s[i] as u32 - '0' as u32) as usize;
        if value > (usize::MAX - d) / 10 {
            proof {
                assert(value_of(s@, start as int, i + 1) > usize::MAX) by (nonlinear_arith)
                    requires
                        value > (usize::MAX - d) / 10,
                        value_of(s@, start as int, i + 1) == value * 10 + d,
                        d <= 9,
                ;
                lemma_value_grows(s@, start as int, i + 1, hi as int);
            }
            return None;
        }
        value = value * 10 + d;
        i = i + 1;
    }
    Some(value)
}

fn level(s: &Vec<char>, lo: usize, hi: usize) -> (r: Option<(usize, usize)>)
    requires
        lo <= hi <= s@.len(),
    ensures
        match parse_level(s@, lo as int, hi as int) {
            Some(p) => r matches Some(q) && q.0 == p.0 && q.1 == p.1,
            None => r is None,
        },
{
    let colon = find(s, lo, hi, ':');
    if colon >= hi {
        return None;
    }
    match number(s, lo, colon) {
        None => None,
        Some(lv) => {
            let a = skip_spaces(s, colon + 1, hi);
            let b = drop_spaces(s, a, hi);
            let j = first_non_digit(s, a, b);
            if j >= b {
                return None;
            }
            match number(s, a, j) {
                None => None,
                Some(mhz) => Some((lv, mhz)),
            }
        },
    }
}

/// The memory clock levels the kernel lists, as (level, MHz), up to the
/// first empty line; lines that do not read as a level are left out.
pub fn parse_pp_dpm_fclk(text: &str) -> (r: Vec<(usize, usize)>)
    ensures
        r@.len() == levels_from(text@, 0).len(),
        forall|i: int|
            0 <= i < r@.len() ==> (#[trigger] r@[i]).0 == levels_from(text@, 0)[i].0 && r@[i].1
                == levels_from(text@, 0)[i].1,
{
    let s = chars_of(text);
    let n = s.len();
    let mut out: Vec<(usize, usize)> = Vec::new();
    let mut lo: usize = 0;
    let ghost mut acc: Seq<(nat, nat)> = Seq::empty();
    proof {
        assert(s@.subrange(0, n as int) =~= s@);
        assert(acc + levels_from(s@, 0) =~= levels_from(s@, 0));
    }
    loop
        invariant_except_break
            levels_from(s@, 0) == acc + levels_from(s@, lo as int),
        invariant
            n == s@.len(),
            s@ == text@,
            s@.subrange(0, n as int) == s@,
            lo <= n,
            out@.len() == acc.len(),
            forall|i: int| 0 <= i < out@.len() ==> (#[trigger] out@[i]).0 == acc[i].0 && out@[i].1 == acc[i].1,
        ensures
            out@.len() == acc.len(),
            forall|i: int| 0 <= i < out@.len() ==> (#[trigger] out@[i]).0 == acc[i].0 && out@[i].1 == acc[i].1,
            levels_from(s@, 0) == acc,
        decreases n - lo,
    {
        let nl = find(&s, lo, n, '\n');
        if nl == lo {
            proof {
                assert(levels_from(s@, lo as int) =~= Seq::<(nat, nat)>::empty());
                assert(acc + Seq::<(nat, nat)>::empty() =~= acc);
            }
            break;
        }
        let ghost here: Seq<(nat, nat)> = match parse_level(s@, lo as int, nl as int) {
            Some(p) => seq![p],
            None => Seq::empty(),
        };
        let ghost old_acc = acc;
        match level(&s, lo, nl) {
            Some(p) => out.push(p),
            None => {},
        }
        proof {
            acc = acc + here;
            assert forall|i: int| 0 <= i < out@.len() implies (#[trigger] out@[i]).0 == acc[i].0
                && out@[i].1 == acc[i].1 by {
                if i < old_acc.len() {
                    assert(acc[i] == old_acc[i]);
                }
            }
        }
        if nl >= n {
            proof {
                assert(levels_from(s@, lo as int) == here);
                assert(old_acc + here =~= acc);
            }
            break;
        }
        proof {
            assert(levels_from(s@, lo as int) == here + levels_from(s@, nl + 1));
            assert(old_acc + (here + levels_from(s@, nl + 1)) =~= acc + levels_from(s@, nl + 1));
        }
        lo = nl + 1;
    }
    out
}

/// The level a requested memory clock maps to, from position `i` on: the
/// level of an exact match, else the level before the first faster one (the
/// first level where none is slower), else the last level.
pub open spec fn quantize_from(options: Seq<(usize, usize)>, clock: u64, i: int) -> usize
    decreases options.len() - i,
{
    if i < 0 || i >= options.len() {
        options.last().0
    } else if options[i].1 as int == clock as int {
        options[i].0
    } else if options[i].1 as int > clock as int {
        if i == 0 {
            options[0].0
        } else {
            options[i - 1].0
        }
    } else {
        quantize_from(options, clock, i + 1)
    }
}

/// The memory clock level to enable for `clock` MHz, given the levels the
/// kernel lists.
pub fn quantize_memory_clock(options: &Vec<(usize, usize)>, clock: u64) -> (r: usize)
    requires
        options@.len() > 0,
    ensures
        r == quantize_from(options@, clock, 0),
{
    let n = options.len();
    let mut i: usize = 0;
    while i < n
        invariant
            n == options@.len(),
            n > 0,
            i <= n,
            quantize_from(options@, clock, 0) == quantize_from(options@, clock, i as int),
        decreases n - i,
    {
        let speed = options[i].1 as u64;
        if speed == clock {
            return options[i].0;
        } else if speed > clock {
            if i == 0 {
                return options[0].0;
            } else {
                return options[i - 1].0;
            }
        }
        i = i + 1;
    }
    options[n - 1].0
}

/// The levels `0 1 ... max` separated by spaces.
pub open spec fn level_list(max: nat) -> Seq<char>
    decreases max,
{
    if max == 0 {
        "0"@
    } else {
        level_list((max - 1) as nat) + " "@ + decimal(max)
    }
}

/// The text that enables memory clock levels up to `max`.
pub fn build_memory_clock_payload(max: usize) -> (r: String)
    ensures
        r@ == level_list(max as nat) + "\n"@,
{
    let mut s = String::from_str("0");
    proof {
        reveal_strlit("0");
        assert(s@ == level_list(0));
    }
    let mut k: usize = 0;
    while k < max
        invariant
            k <= max,
            s@ == level_list(k as nat),
        decreases max - k,
    {
        let ghost before = s@;
        s.append(" ");
        push_decimal(&mut s, (k + 1) as u128);
        proof {
            assert(s@ =~= before + " "@ + decimal((k + 1) as nat));
            assert(level_list((k + 1) as nat) == level_list(k as nat) + " "@ + decimal((k + 1) as nat));
        }
        k = k + 1;
    }
    s.append("\n");
    s
}

/// The level to enable for `clock` MHz: from the levels the kernel lists
/// (`listing`, where it could be read and names at least one level), else
/// level 1 where the clock is not at its maximum and level 0 where it is.
pub open spec fn memory_level(listing: Option<Seq<char>>, clock: u64, maxed: bool) -> nat {
    match listing {
        Some(t) => if levels_from(t, 0).len() > 0 {
            quantize_levels(levels_from(t, 0), clock, 0)
        } else {
            if maxed { 0 } else { 1 }
        },
        None => if maxed { 0 } else { 1 },
    }
}

/// `quantize_from` over parsed levels.
pub open spec fn quantize_levels(options: Seq<(nat, nat)>, clock: u64, i: int) -> nat
    decreases options.len() - i,
{
    if i < 0 || i >= options.len() {
        options.last().0
    } else if options[i].1 == clock as nat {
        options[i].0
    } else if options[i].1 > clock as nat {
        if i == 0 {
            options[0].0
        } else {
            options[i - 1].0
        }
    } else {
        quantize_levels(options, clock, i + 1)
    }
}

proof fn lemma_quantize_same(a: Seq<(usize, usize)>, b: Seq<(nat, nat)>, clock: u64, i: int)
    requires
        a.len() == b.len(),
        a.len() > 0,
        forall|k: int| 0 <= k < a.len() ==> (#[trigger] a[k]).0 == b[k].0 && a[k].1 == b[k].1,
    ensures
        quantize_from(a, clock, i) == quantize_levels(b, clock, i),
    decreases a.len() - i,
{
    if 0 <= i < a.len() && a[i].1 as int != clock as int && a[i].1 as int <= clock as int {
        lemma_quantize_same(a, b, clock, i + 1);
    }
}

/// The text to write to enable the memory clock levels for `clock` MHz.
pub fn memory_clock_payload(listing: Option<&str>, clock: u64, maxed: bool) -> (r: String)
    ensures
        r@ == level_list(memory_level(
            match listing {
                Some(t) => Some(t@),
                None => None,
            },
            clock,
            maxed,
        )) + "\n"@,
{
    let fallback: usize = if maxed {
        0
    } else {
        1
    };
    match listing {
        Some(t) => {
            let options = parse_pp_dpm_fclk(t);
            if options.len() > 0 {
                let level = quantize_memory_clock(&options, clock);
                proof {
                    lemma_quantize_same(options@, levels_from(t@, 0), clock, 0);
                }
                build_memory_clock_payload(level)
            } else {
                build_memory_clock_payload(fallback)
            }
        },
        None => build_memory_clock_payload(fallback),
    }
}

} // verus!
