use vstd::prelude::*;

use crate::path::{after_last, extension, file_name, find_after_last, find_name_start, strip_end};
use crate::text::chars_of;

verus! {

/// `1024` to the power `i`.
pub open spec fn pow1024(i: nat) -> nat
    decreases i,
{
    if i == 0 {
        1
    } else {
        1024 * pow1024((i - 1) as nat)
    }
}

/// How many times 1024 divides into `q` before less than 1024 is left: the
/// index of the unit a size of `q` bytes is shown in.
pub open spec fn scale_of(q: nat) -> nat
    decreases q,
{
    if q < 1024 {
        0
    } else {
        1 + scale_of(q / 1024)
    }
}

/// The character of the decimal digit `d`.
pub open spec fn digit_char(d: nat) -> char {
    ((48 + d) as u8) as char
}

/// The decimal digits of `n`, without leading zeros.
pub open spec fn decimal(n: nat) -> Seq<char>
    decreases n,
{
    if n < 10 {
        seq![digit_char(n)]
    } else {
        decimal(n / 10).push(digit_char(n % 10))
    }
}

/// The name of the binary unit of index `i`: B, KiB, MiB, GiB, TiB, PiB, EiB.
pub open spec fn unit_name(i: nat) -> Seq<char> {
    if i == 0 {
        seq!['B']
    } else {
        let letter = if i == 1 {
            'K'
        } else if i == 2 {
            'M'
        } else if i == 3 {
            'G'
        } else if i == 4 {
            'T'
        } else if i == 5 {
            'P'
        } else {
            'E'
        };
        seq![letter, 'i', 'B']
    }
}

/// A size of `sz` bytes for people: divided by the largest power of 1024 not
/// above it, rounded to thousandths, then shown with two decimals (halves go up
/// at each rounding), a space and the unit, as in `1.50 KiB`.
pub open spec fn humanized(sz: nat) -> Seq<char> {
    let i = scale_of(sz);
    let d = pow1024(i);
    let thousandths = (2000 * sz + d) / (2 * d);
    let hundredths = (thousandths + 5) / 10;
    decimal(hundredths / 100) + seq!['.', digit_char((hundredths % 100) / 10), digit_char(
        hundredths % 10,
    ), ' '] + unit_name(i)
}

/// `e` equals the upper-case ASCII word `u` once its ASCII letters are upper-cased.
pub open spec fn upper_eq(e: Seq<char>, u: Seq<char>) -> bool {
    &&& e.len() == u.len()
    &&& forall|i: int| 0 <= i < e.len() ==> e[i] == u[i] || e[i] as u32 == u[i] as u32 + 32
}

/// The extensions of the image files that can be shown, in upper case.
pub open spec fn accepted_extensions() -> Seq<Seq<char>> {
    seq![seq!['P', 'N', 'G'], seq!['J', 'P', 'G'], seq!['J', 'P', 'E', 'G'], seq!['G', 'I', 'F']]
}

/// Whether the path names an image file that can be shown: its extension is
/// one of the accepted ones, whatever the case of its letters.
pub open spec fn is_accepted(p: Seq<char>) -> bool {
    match extension(p) {
        Some(e) => exists|j: int| 0 <= j < 4 && upper_eq(e, #[trigger] accepted_extensions()[j]),
        None => false,
    }
}

/// Whether `e[start..n]` equals the upper-case ASCII word `u` once upper-cased.
fn matches_upper(e: &Vec<char>, start: usize, n: usize, u: &Vec<char>) -> (r: bool)
    requires
        start <= n <= e@.len(),
    ensures
        r == upper_eq(e@.subrange(start as int, n as int), u@),
{
    if n - start != u.len() {
        return false;
    }
    let mut i: usize = 0;
    while i < u.len()
        invariant
            n <= e@.len(),
            start + u@.len() == n,
            i <= u@.len(),
            forall|j: int|
                0 <= j < i ==> e@[start + j] == u@[j] || e@[start + j] as u32 == u@[j] as u32 + 32,
        decreases u@.len() - i,
    {
        assert(start + i < n);
        let c = e[start + i];
        let v = u[i];
        if !(c == v || c as u32 as u64 == v as u32 as u64 + 32) {
            return false;
        }
        i = i + 1;
    }
    true
}

/// Whether `path` names an image file that can be shown (PNG, JPG, JPEG or GIF,
/// in any case).
pub fn is_accepted_image_type(path: &str) -> (r: bool)
    ensures
        r == is_accepted(path@),
{
    let cs = chars_of(path);
    assert(cs@.subrange(0, cs@.len() as int) =~= path@);
    let e = strip_end(&cs, cs.len());
    let n = find_name_start(&cs, e);
    let k = find_after_last(&cs, n, e, '.', '.');
    let ghost name = file_name(path@);
    assert(name =~= cs@.subrange(n as int, e as int));
    assert(after_last(name, '.', '.') == k - n);
    if k - n <= 1 {
        return false;
    }
    assert(cs@.subrange(k as int, e as int) =~= name.subrange((k - n) as int, name.len() as int));
    assert(extension(path@) == Some(cs@.subrange(k as int, e as int)));
    let words: Vec<Vec<char>> = vec![
        vec!['P', 'N', 'G'],
        vec!['J', 'P', 'G'],
        vec!['J', 'P', 'E', 'G'],
        vec!['G', 'I', 'F'],
    ];
    assert(words@.map_values(|w: Vec<char>| w@) =~= accepted_extensions());
    let mut j: usize = 0;
    while j < words.len()
        invariant
            j <= words@.len() == 4,
            words@.map_values(|w: Vec<char>| w@) =~= accepted_extensions(),
            k <= e <= cs@.len(),
            extension(path@) == Some(cs@.subrange(k as int, e as int)),
            forall|m: int|
                0 <= m < j ==> !upper_eq(
                    cs@.subrange(k as int, e as int),
                    #[trigger] accepted_extensions()[m],
                ),
        decreases words@.len() - j,
    {
        assert(words@[j as int]@ == accepted_extensions()[j as int]);
        if matches_upper(&cs, k, e, &words[j]) {
            assert(upper_eq(cs@.subrange(k as int, e as int), accepted_extensions()[j as int]));
            return true;
        }
        j = j + 1;
    }
    false
}

proof fn lemma_scale_bound(q: nat, k: nat)
    requires
        q < pow1024(k + 1),
    ensures
        scale_of(q) <= k,
    decreases q,
{
    if q >= 1024 {
        let p = pow1024(k);
        assert(k > 0) by {
            if k == 0 {
                assert(pow1024(1) == 1024);
            }
        }
        assert(q / 1024 < p) by (nonlinear_arith)
            requires
                q < 1024 * p,
        ;
        lemma_scale_bound(q / 1024, (k - 1) as nat);
    }
}

fn push_decimal(s: &mut String, n: u128)
    ensures
        final(s)@ == old(s)@ + decimal(n as nat),
    decreases n,
{
    if n >= 10 {
        push_decimal(s, n / 10);
    }
    s.push(((48 + (n % 10)) as u8) as char);
    assert(final(s)@ =~= old(s)@ + decimal(n as nat));
}

/// Formats a byte count for display, as `humanized` states.
pub fn humanize_size(sz: usize) -> (r: String)
    ensures
        r@ == humanized(sz as nat),
{
    let n: u128 = sz as u128;
    let mut i: usize = 0;
    let mut d: u128 = 1;
    let mut q: u128 = n;
    proof {
        reveal_with_fuel(pow1024, 8);
        assert(pow1024(7) > 0xffff_ffff_ffff_ffff);
        lemma_scale_bound(sz as nat, 6);
    }
    while q >= 1024
        invariant
            d as nat == pow1024(i as nat),
            q as nat == n as nat / (d as nat),
            d >= 1,
            d * q <= n,
            n <= 0xffff_ffff_ffff_ffff,
            scale_of(n as nat) == i + scale_of(q as nat),
            scale_of(n as nat) <= 6,
        decreases q,
    {
        proof {
            vstd::arithmetic::div_mod::lemma_div_denominator(n as int, d as int, 1024);
            assert(d * 1024 <= d * q) by (nonlinear_arith)
                requires
                    q >= 1024,
                    d >= 1,
            ;
            assert((d * 1024) * (q / 1024) <= d * q) by (nonlinear_arith)
                requires
                    d >= 1,
            ;
        }
        q = q / 1024;
        d = d * 1024;
        i = i + 1;
    }
    let thousandths: u128 = (2000 * n + d) / (2 * d);
    let hundredths: u128 = (thousandths + 5) / 10;
    let mut r = String::new();
    push_decimal(&mut r, hundredths / 100);
    r.push('.');
    r.push(((48 + (hundredths % 100) / 10) as u8) as char);
    r.push(((48 + hundredths % 10) as u8) as char);
    r.push(' ');
    if i == 0 {
        r.push('B');
    } else {
        let letter = if i == 1 {
            'K'
        } else if i == 2 {
            'M'
        } else if i == 3 {
            'G'
        } else if i == 4 {
            'T'
        } else if i == 5 {
            'P'
        } else {
            'E'
        };
        r.push(letter);
        r.push('i');
        r.push('B');
    }
    assert(r@ =~= humanized(sz as nat));
    r
}

} // verus!
