//! Short texts shown in the interface: shortened paths, file sizes and durations.

use vstd::prelude::*;
use vstd::string::StringExecFns;
use crate::text::{
    byte_prefix, chars_in_bytes, chars_of, decimal, is_boundary, lemma_prefix_fits,
    lemma_suffix_after_boundary, lemma_utf8_len_concat, push_char_range, push_decimal, utf8_len,
    utf8_length,
};

verus! {

/// `path` shortened to about `max_len` bytes when it is longer: its first
/// `max_len / 2 - 2` bytes, `...`, and its last `max_len / 2 - 2` bytes.
pub open spec fn truncated_path(path: Seq<char>, max_len: nat) -> Seq<char> {
    let len = utf8_len(path);
    if len <= max_len {
        path
    } else {
        let head = (max_len / 2 - 2) as nat;
        let tail_start = (len - max_len / 2 + 2) as nat;
        path.take(chars_in_bytes(path, head) as int) + "..."@ + path.skip(
            chars_in_bytes(path, tail_start) as int,
        )
    }
}

/// Whether `path` can be shortened to `max_len`: it is short enough, or `max_len`
/// is at least 4 and both cut points fall on character boundaries.
pub open spec fn can_truncate(path: Seq<char>, max_len: nat) -> bool {
    let len = utf8_len(path);
    len > max_len ==> {
        &&& max_len >= 4
        &&& is_boundary(path, (max_len / 2 - 2) as nat)
        &&& is_boundary(path, (len - max_len / 2 + 2) as nat)
    }
}

/// `path` shortened for display (`truncated_path`).
pub fn truncate_path(path: &str, max_len: usize) -> (r: String)
    requires
        can_truncate(path@, max_len as nat),
    ensures
        r@ == truncated_path(path@, max_len as nat),
{
    let v = chars_of(path);
    let len = utf8_length(&v);
    if len <= max_len as u128 {
        return path.to_string();
    }
    let half = (max_len / 2) as u128;
    let (head, _) = byte_prefix(&v, half - 2);
    let (tail, _) = byte_prefix(&v, len - half + 2);
    let mut r = String::new();
    push_char_range(&mut r, &v, 0, head);
    r.append("...");
    push_char_range(&mut r, &v, tail, v.len());
    assert(v@.subrange(0, head as int) =~= v@.take(head as int));
    assert(v@.subrange(tail as int, v.len() as int) =~= v@.skip(tail as int));
    assert(r@ =~= truncated_path(path@, max_len as nat));
    r
}

/// 2 to the power `e`.
pub open spec fn pow2(e: nat) -> nat
    decreases e,
{
    if e == 0 {
        1
    } else {
        2 * pow2((e - 1) as nat)
    }
}


/// `num / den` rounded to the nearest integer, ties to the even one.
pub open spec fn round_half_even(num: nat, den: nat) -> nat {
    let q = num / den;
    let r = num % den;
    if 2 * r > den || (2 * r == den && q % 2 == 1) {
        q + 1
    } else {
        q
    }
}

/// The smallest power of two, from `unit` up, by which `n` is divided to leave a
/// quotient below 2^53.
pub open spec fn rounding_unit(n: nat, unit: nat) -> nat
    decreases n - unit,
{
    if unit == 0 {
        1
    } else if n / unit < 9007199254740992 {
        unit
    } else {
        proof {
            assert(2 * unit <= n) by (nonlinear_arith)
                requires
                    n / unit >= 9007199254740992,
                    unit > 0,
            ;
        }
        rounding_unit(n, 2 * unit)
    }
}

/// The integer a double-precision float holds after conversion from `n`: `n` rounded
/// to 53 significant bits, ties to even.
pub open spec fn to_double(n: nat) -> nat {
    let unit = rounding_unit(n, 1);
    round_half_even(n, unit) * unit
}

/// A file size in the largest unit (GB, MB, KB of 1024) it reaches: gigabytes with
/// one decimal, megabytes and kilobytes whole, bytes as they are. The value is the
/// size as a double divided by the unit, rounded half to even as the decimal
/// formatting of std does.
pub open spec fn file_size_text(bytes: nat) -> Seq<char> {
    let x = to_double(bytes);
    if bytes >= pow2(30) {
        let tenths = round_half_even(10 * x, pow2(30));
        decimal(tenths / 10) + "."@ + decimal(tenths % 10) + " GB"@
    } else if bytes >= pow2(20) {
        decimal(round_half_even(x, pow2(20))) + " MB"@
    } else if bytes >= pow2(10) {
        decimal(round_half_even(x, pow2(10))) + " KB"@
    } else {
        decimal(bytes) + " B"@
    }
}

proof fn lemma_pow2_values()
    ensures
        pow2(10) == 1024,
        pow2(20) == 1048576,
        pow2(30) == 1073741824,
{
    reveal_with_fuel(pow2, 31);
}

fn round_half_even_u128(num: u128, den: u128) -> (r: u128)
    requires
        den > 0,
        num / den < u128::MAX,
    ensures
        r == round_half_even(num as nat, den as nat),
{
    let q = num / den;
    let rem = num % den;
    if rem > den - rem || (rem == den - rem && q % 2 == 1) {
        q + 1
    } else {
        q
    }
}

/// The value of `n` as a double, held exactly.
fn double_value(n: u64) -> (r: u128)
    ensures
        r == to_double(n as nat),
        r <= 2 * n + 2,
{
    let mut unit: u128 = 1;
    let ghost n_nat = n as nat;
    while (n as u128) / unit >= 9007199254740992
        invariant
            1 <= unit <= n as u128 + 1,
            n_nat == n as nat,
            rounding_unit(n_nat, 1) == rounding_unit(n_nat, unit as nat),
        decreases n as u128 - unit,
    {
        assert(2 * unit <= n as u128) by (nonlinear_arith)
            requires
                (n as u128) / unit >= 9007199254740992,
                unit >= 1,
        ;
        assert((n as u128) / unit == n_nat / (unit as nat));
        assert(rounding_unit(n_nat, unit as nat) == rounding_unit(n_nat, 2 * (unit as nat)));
        unit = unit * 2;
    }
    let q = round_half_even_u128(n as u128, unit);
    assert(q <= n as u128 / unit + 1);
    assert(q * unit <= 2 * n + 2) by (nonlinear_arith)
        requires
            q <= n as u128 / unit + 1,
            1 <= unit <= n as u128 + 1,
    ;
    q * unit
}

/// A file size for display (`file_size_text`): `1.5 GB`, `12 MB`, `300 KB`, `512 B`.
pub fn format_file_size(bytes: u64) -> (r: String)
    ensures
        r@ == file_size_text(bytes as nat),
{
    proof {
        lemma_pow2_values();
    }
    let x = double_value(bytes);
    let mut r = String::new();
    if bytes >= 1073741824 {
        let tenths = round_half_even_u128(10 * x, 1073741824);
        assert(tenths <= (10 * x) / 1073741824 + 1);
        assert((10 * x) / 1073741824 <= 10 * x);
        push_decimal(&mut r, (tenths / 10) as u64);
        r.append(".");
        push_decimal(&mut r, (tenths % 10) as u64);
        r.append(" GB");
    } else if bytes >= 1048576 {
        let m = round_half_even_u128(x, 1048576);
        assert(m <= x / 1048576 + 1);
        push_decimal(&mut r, m as u64);
        r.append(" MB");
    } else if bytes >= 1024 {
        let k = round_half_even_u128(x, 1024);
        assert(k <= x / 1024 + 1);
        push_decimal(&mut r, k as u64);
        r.append(" KB");
    } else {
        push_decimal(&mut r, bytes);
        r.append(" B");
    }
    assert(r@ =~= file_size_text(bytes as nat));
    r
}

/// A duration in seconds for display: `<m>m <s>s` from a minute on, `<s>s` below.
pub open spec fn duration_text(seconds: nat) -> Seq<char> {
    if seconds / 60 > 0 {
        decimal(seconds / 60) + "m "@ + decimal(seconds % 60) + "s"@
    } else {
        decimal(seconds % 60) + "s"@
    }
}

/// A duration for display (`duration_text`).
pub fn format_duration(seconds: u64) -> (r: String)
    ensures
        r@ == duration_text(seconds as nat),
{
    let mins = seconds / 60;
    let secs = seconds % 60;
    let mut r = String::new();
    if mins > 0 {
        push_decimal(&mut r, mins);
        r.append("m ");
    }
    push_decimal(&mut r, secs);
    r.append("s");
    assert(r@ =~= duration_text(seconds as nat));
    r
}

/// A shortened path fits in `max_len` bytes of UTF-8.
pub proof fn lemma_truncated_path_fits(path: Seq<char>, max_len: nat)
    requires
        can_truncate(path, max_len),
    ensures
        utf8_len(truncated_path(path, max_len)) <= max_len,
{
    let len = utf8_len(path);
    if len > max_len {
        let head = (max_len / 2 - 2) as nat;
        let tail_start = (len - max_len / 2 + 2) as nat;
        let a = path.take(chars_in_bytes(path, head) as int);
        let c = path.skip(chars_in_bytes(path, tail_start) as int);
        lemma_prefix_fits(path, head);
        lemma_suffix_after_boundary(path, tail_start);
        reveal_strlit("...");
        assert(utf8_len("..."@) == 3) by {
            reveal_with_fuel(utf8_len, 4);
        }
        lemma_utf8_len_concat(a, "..."@);
        lemma_utf8_len_concat(a + "..."@, c);
    }
}

} // verus!
