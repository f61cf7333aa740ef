//! The capacity report: byte counts as a person reads them, the share in
//! use, and the device that the mount table names.

use crate::number::{decimal, decimal_of, digit};
use crate::protocol::FsStats;
use crate::text::{
    align_left, align_right, aligned_left, aligned_right, append_chars, chars_of, lines, lines_of,
    same_chars, string_of, views, words, words_of,
};
use vstd::prelude::*;

verus! {

/// The quotient of `num` by `den` as the nearest whole number; of two that
/// are equally near, the even one.
pub open spec fn round_half_even(num: nat, den: nat) -> nat
    recommends
        den > 0,
{
    let q = num / den;
    let r = num % den;
    if 2 * r > den || (2 * r == den && q % 2 == 1) {
        q + 1
    } else {
        q
    }
}

/// The distance between one whole number that a double-precision float can
/// hold and the next, at the size of `n`: 1 below 2^53, and twice as much
/// with each doubling from there.
pub open spec fn spacing(n: nat) -> nat
    decreases n,
{
    if n < 0x20_0000_0000_0000 {
        1
    } else {
        2 * spacing(n / 2)
    }
}

/// The whole number that a double-precision float holds after `n` has been
/// converted to it.
pub open spec fn nearest_double(n: nat) -> nat {
    round_half_even(n, spacing(n)) * spacing(n)
}

/// The quotient of `num` by `den`, rounded.
pub fn rounded_quotient(num: u128, den: u128) -> (q: u128)
    requires
        den > 0,
        num / den < u128::MAX,
        den <= u128::MAX / 2,
    ensures
        q == round_half_even(num as nat, den as nat),
{
    let q = num / den;
    let r = num % den;
    if 2 * r > den || (2 * r == den && q % 2 == 1) {
        q + 1
    } else {
        q
    }
}

/// Rounds `n` as a conversion to a double-precision float does.
pub fn to_nearest_double(n: u128) -> (m: u128)
    requires
        n < 0x4000_0000_0000_0000_0000_0000_0000_0000,
    ensures
        m == nearest_double(n as nat),
        m <= 2 * n,
        n >= 1 ==> m >= 1,
{
    let mut unit: u128 = 1;
    let mut x: u128 = n;
    while x >= 0x20_0000_0000_0000
        invariant
            unit >= 1,
            unit * x <= n,
            unit > 1 ==> x >= 0x10_0000_0000_0000,
            spacing(n as nat) == unit * spacing(x as nat),
        decreases x,
    {
        proof {
            let x2 = x / 2;
            assert(unit * 2 * x2 <= unit * x) by (nonlinear_arith)
                requires
                    2 * x2 <= x,
                    unit >= 1,
            ;
            assert(unit * (2 * spacing(x2 as nat)) == (unit * 2) * spacing(x2 as nat))
                by (nonlinear_arith);
            assert(unit * 2 <= unit * x) by (nonlinear_arith)
                requires
                    x >= 2,
                    unit >= 1,
            ;
        }
        x = x / 2;
        unit = unit * 2;
    }
    assert(spacing(n as nat) == unit) by (nonlinear_arith)
        requires
            spacing(n as nat) == unit * spacing(x as nat),
            spacing(x as nat) == 1,
    ;
    assert(unit <= n || unit == 1) by (nonlinear_arith)
        requires
            unit * x <= n,
            unit >= 1,
            unit > 1 ==> x >= 0x10_0000_0000_0000,
    ;
    let q = rounded_quotient(n, unit);
    proof {
        assert((n / unit) * unit <= n) by (nonlinear_arith)
            requires
                unit > 0,
        ;
        assert(q * unit <= n + unit) by (nonlinear_arith)
            requires
                q <= n / unit + 1,
                (n / unit) * unit <= n,
        ;
        if n >= 1 {
            assert(n / unit >= 1) by (nonlinear_arith)
                requires
                    1 <= unit <= n,
            ;
            assert(q * unit >= 1) by (nonlinear_arith)
                requires
                    q >= 1,
                    unit >= 1,
            ;
        }
    }
    q * unit
}

/// The number of bytes that one unit stands for: 1024 to the power `k`.
pub open spec fn unit_scale(k: nat) -> nat {
    if k == 0 {
        1
    } else if k == 1 {
        0x400
    } else if k == 2 {
        0x10_0000
    } else if k == 3 {
        0x4000_0000
    } else if k == 4 {
        0x100_0000_0000
    } else {
        0x4_0000_0000_0000
    }
}

/// The letter of a unit: bytes, then kibi-, mebi-, gibi-, tebi- and
/// pebibytes.
pub open spec fn unit_letter(k: nat) -> char {
    if k == 0 {
        'B'
    } else if k == 1 {
        'K'
    } else if k == 2 {
        'M'
    } else if k == 3 {
        'G'
    } else if k == 4 {
        'T'
    } else {
        'P'
    }
}

/// The largest unit that `m` bytes fill at least once.
pub open spec fn unit_index(m: nat) -> nat {
    if m < unit_scale(1) {
        0
    } else if m < unit_scale(2) {
        1
    } else if m < unit_scale(3) {
        2
    } else if m < unit_scale(4) {
        3
    } else if m < unit_scale(5) {
        4
    } else {
        5
    }
}

/// A byte count as a person reads it, computed as in double-precision
/// arithmetic: the count in its largest unit, with one decimal where that is
/// less than ten units and with none otherwise, rounded half to even, then
/// the unit's letter. A count below 1024 is written in full.
pub open spec fn human_size(bytes: nat) -> Seq<char> {
    let m = nearest_double(bytes);
    let k = unit_index(m);
    if k == 0 {
        decimal(m).push('B')
    } else if m < 10 * unit_scale(k) {
        let tenths = round_half_even(10 * m, unit_scale(k));
        decimal(tenths / 10).push('.').push(digit(tenths % 10)).push(unit_letter(k))
    } else {
        decimal(round_half_even(m, unit_scale(k))).push(unit_letter(k))
    }
}

/// Writes a byte count as a person reads it.
pub fn human_size_of(bytes: u64) -> (out: Vec<char>)
    ensures
        out@ == human_size(bytes as nat),
{
    let m = to_nearest_double(bytes as u128);
    let (k, scale, letter): (u8, u128, char) = if m < 0x400 {
        (0, 1, 'B')
    } else if m < 0x10_0000 {
        (1, 0x400, 'K')
    } else if m < 0x4000_0000 {
        (2, 0x10_0000, 'M')
    } else if m < 0x100_0000_0000 {
        (3, 0x4000_0000, 'G')
    } else if m < 0x4_0000_0000_0000 {
        (4, 0x100_0000_0000, 'T')
    } else {
        (5, 0x4_0000_0000_0000, 'P')
    };
    assert(k == unit_index(m as nat) && scale == unit_scale(k as nat) && letter == unit_letter(
        k as nat,
    ));
    if k == 0 {
        let mut out = decimal_of(m as u64);
        out.push('B');
        out
    } else if m < 10 * scale {
        let tenths = rounded_quotient(10 * m, scale);
        assert(tenths <= 100) by (nonlinear_arith)
            requires
                tenths <= (10 * m) / (scale as int) + 1,
                m < 10 * scale,
                scale > 0,
        ;
        let mut out = decimal_of((tenths / 10) as u64);
        out.push('.');
        out.push((48 + (tenths % 10) as u8) as char);
        out.push(letter);
        out
    } else {
        let whole = rounded_quotient(m, scale);
        assert(whole <= m) by (nonlinear_arith)
            requires
                whole <= m / scale + 1,
                scale >= 2,
                m >= scale,
        ;
        let mut out = decimal_of(whole as u64);
        out.push(letter);
        out
    }
}

/// A byte count as a person reads it: `1.5K`, `12G`, `512B`.
pub fn format_bytes_human(bytes: u64) -> (text: String)
    ensures
        text@ == human_size(bytes as nat),
{
    string_of(&human_size_of(bytes))
}

/// `p` and `s`, each doubled until `p` is 2^52 times `q` or more.
pub open spec fn scaled_up(p: nat, q: nat, s: nat) -> (nat, nat)
    decreases
        (if p >= q * 0x10_0000_0000_0000 {
            0
        } else {
            q * 0x10_0000_0000_0000 - p
        }),
{
    if p == 0 || p >= q * 0x10_0000_0000_0000 {
        (p, s)
    } else {
        scaled_up(2 * p, q, 2 * s)
    }
}

/// The share of `used` in `total` in percent, cut to a whole number and
/// computed as in double-precision arithmetic: both counts converted, the
/// quotient rounded to a double, its hundredfold rounded to a double, and
/// what stands behind the point dropped. No more than 255.
pub open spec fn percent_used(used: nat, total: nat) -> nat {
    let q = nearest_double(total);
    let (p, s) = scaled_up(nearest_double(used), q, 1);
    let mantissa = round_half_even(p, q);
    let percent = nearest_double(100 * mantissa) / s;
    if total == 0 {
        0
    } else if percent > 255 {
        255
    } else {
        percent
    }
}

/// The share of `used` in `total` in percent.
pub fn percent_of(used: u64, total: u64) -> (percent: u8)
    ensures
        percent == percent_used(used as nat, total as nat),
{
    if total == 0 {
        return 0;
    }
    let q = to_nearest_double(total as u128);
    let start = to_nearest_double(used as u128);
    let bound: u128 = q * 0x10_0000_0000_0000;
    let mut p: u128 = start;
    let mut s: u128 = 1;
    while p != 0 && p < bound
        invariant
            bound == q * 0x10_0000_0000_0000,
            1 <= q <= 0x2_0000_0000_0000_0000,
            scaled_up(start as nat, q as nat, 1) == scaled_up(p as nat, q as nat, s as nat),
            p <= 0x2_0000_0000_0000_0000 || p < 2 * bound,
            1 <= s,
            p == 0 || s <= p,
        decreases
            (if p >= bound {
                0
            } else {
                bound - p
            }),
    {
        p = 2 * p;
        s = 2 * s;
    }
    let mantissa = rounded_quotient(p, q);
    assert(mantissa <= p + 1) by (nonlinear_arith)
        requires
            mantissa <= p / q + 1,
            q >= 1,
    ;
    let hundredfold = to_nearest_double(100 * mantissa);
    let percent = hundredfold / s;
    if percent > 255 {
        255
    } else {
        percent as u8
    }
}

/// Whether a line of the mount table is that of the filesystem mounted at
/// `mount_point`: its second word is that path.
pub open spec fn mounted_at(line: Seq<char>, mount_point: Seq<char>) -> bool {
    words(line).len() >= 2 && words(line)[1] == mount_point
}

/// The first word of the first of `lines` that is mounted at `mount_point`.
pub open spec fn first_source(lines: Seq<Seq<char>>, mount_point: Seq<char>) -> Option<
    Seq<char>,
>
    decreases lines.len(),
{
    if lines.len() == 0 {
        None
    } else if mounted_at(lines[0], mount_point) {
        Some(words(lines[0])[0])
    } else {
        first_source(lines.drop_first(), mount_point)
    }
}

/// The device that the mount table names for `mount_point`: the first word
/// of the first line whose second word is that path.
pub open spec fn mount_source(mounts: Seq<char>, mount_point: Seq<char>) -> Option<Seq<char>> {
    first_source(lines(mounts), mount_point)
}

/// The device that the mount table `mounts` names for `mount_point`.
pub fn get_device_for_mount(mounts: &str, mount_point: &str) -> (device: Option<String>)
    ensures
        device.deep_view() == mount_source(mounts@, mount_point@),
{
    let wanted = chars_of(mount_point);
    let table = lines_of(&chars_of(mounts));
    let ghost all = views(table@);
    let mut i: usize = 0;
    assert(all.skip(0) =~= all);
    while i < table.len()
        invariant
            i <= table.len(),
            all == views(table@),
            all == lines(mounts@),
            wanted@ == mount_point@,
            first_source(all, mount_point@) == first_source(all.skip(i as int), mount_point@),
        decreases table.len() - i,
    {
        let mut fields = words_of(&table[i]);
        proof {
            assert(all.skip(i as int).drop_first() =~= all.skip(i + 1));
        }
        if fields.len() >= 2 {
            if same_chars(&fields[1], &wanted) {
                return Some(string_of(&fields[0]));
            }
        }
        i += 1;
    }
    None
}

/// The heading of a capacity report.
pub open spec fn report_heading() -> Seq<char> {
    "Filesystem      Size  Used Avail Use% Mounted on\n"@
}

/// The capacity report on the filesystem mounted at `mount_point` that lives
/// on `device`: a heading, then the device, the size, what is used, what is
/// available, the share in use and the mount point, in columns. `None` where
/// the figures do not describe a filesystem: a size that is no number of 64
/// bits, or more free space than there is space.
pub open spec fn capacity_report(
    stats: FsStats,
    device: Seq<char>,
    mount_point: Seq<char>,
) -> Option<Seq<char>> {
    let total = stats.blocks * stats.fragment_size;
    let free = stats.blocks_free * stats.fragment_size;
    let available = stats.blocks_available * stats.fragment_size;
    if total > u64::MAX || available > u64::MAX || free > total {
        None
    } else {
        let used = (total - free) as nat;
        Some(
            report_heading() + align_left(device, 15) + seq![' '] + align_right(
                human_size(total as nat),
                4,
            ) + seq![' ', ' '] + align_right(human_size(used), 4) + seq![' '] + align_right(
                human_size(available as nat),
                5,
            ) + seq![' '] + align_right(decimal(percent_used(used, total as nat)), 3) + seq![
                '%',
                ' ',
            ] + mount_point,
        )
    }
}

/// Whether capacity figures describe a filesystem, so that a report can be
/// written from them.
pub open spec fn usable(stats: FsStats) -> bool {
    capacity_report(stats, Seq::empty(), Seq::empty()) is Some
}

/// Whether capacity figures describe a filesystem.
pub fn figures_usable(stats: &FsStats) -> (b: bool)
    ensures
        b == usable(*stats),
{
    match (
        stats.blocks.checked_mul(stats.fragment_size),
        stats.blocks_free.checked_mul(stats.fragment_size),
        stats.blocks_available.checked_mul(stats.fragment_size),
    ) {
        (Some(total), Some(free), Some(_)) => free <= total,
        (Some(total), None, Some(_)) => {
            false
        },
        _ => false,
    }
}

/// Writes the capacity report on the filesystem mounted at `mount_point`
/// that lives on `device`.
pub fn get_filesystem_info_native(stats: &FsStats, device: &str, mount_point: &str) -> (report:
    Option<String>)
    ensures
        report.deep_view() == capacity_report(*stats, device@, mount_point@),
{
    if !figures_usable(stats) {
        return None;
    }
    let total: u64 = stats.blocks * stats.fragment_size;
    let free: u64 = stats.blocks_free * stats.fragment_size;
    let available: u64 = stats.blocks_available * stats.fragment_size;
    let used: u64 = total - free;
    let mut out = chars_of("Filesystem      Size  Used Avail Use% Mounted on\n");
    append_chars(&mut out, &aligned_left(&chars_of(device), 15));
    out.push(' ');
    append_chars(&mut out, &aligned_right(&human_size_of(total), 4));
    out.push(' ');
    out.push(' ');
    append_chars(&mut out, &aligned_right(&human_size_of(used), 4));
    out.push(' ');
    append_chars(&mut out, &aligned_right(&human_size_of(available), 5));
    out.push(' ');
    append_chars(&mut out, &aligned_right(&decimal_of(percent_of(used, total) as u64), 3));
    out.push('%');
    out.push(' ');
    append_chars(&mut out, &chars_of(mount_point));
    Some(string_of(&out))
}

} // verus!
