//! Integer PCM arithmetic: channel down-mixing and sample-rate reduction.
use vstd::prelude::*;

verus! {

/// The sum of `s[a..b]`.
pub open spec fn window_sum(s: Seq<i16>, a: int, b: int) -> int
    decreases b - a,
{
    if b <= a {
        0
    } else {
        window_sum(s, a, b - 1) + s[b - 1] as int
    }
}

/// Integer division rounding toward zero, as Rust's `/` does on signed integers.
pub open spec fn trunc_div(x: int, d: int) -> int {
    if x >= 0 {
        x / d
    } else {
        -((-x) / d)
    }
}

/// `a / b` rounded up, for `a >= 0` and `b > 0`.
pub open spec fn ceil_div(a: int, b: int) -> int {
    (a + b - 1) / b
}

/// The mono sample of frame `k`: the sum of the frame's samples divided by the
/// channel count (also for a last, incomplete frame), rounded toward zero.
pub open spec fn mono_sample(s: Seq<i16>, channels: int, k: int) -> i16 {
    let a = k * channels;
    let b = if a + channels <= s.len() { a + channels } else { s.len() as int };
    trunc_div(window_sum(s, a, b), channels) as i16
}

/// Interleaved samples mixed down to one channel, one sample per (possibly
/// incomplete) frame.
pub open spec fn mixed_to_mono(s: Seq<i16>, channels: int) -> Seq<i16> {
    Seq::new(ceil_div(s.len() as int, channels) as nat, |k: int| mono_sample(s, channels, k))
}

/// The number of samples `downsample` produces.
pub open spec fn resampled_len(n: int, from: int, to: int) -> int {
    if from == to {
        n
    } else if to == 0 || n == 0 {
        0
    } else {
        ceil_div(n * to, from)
    }
}

/// The first input sample that output sample `i` averages.
pub open spec fn resample_start(i: int, from: int, to: int) -> int {
    (i * from) / to
}

/// One past the last input sample that output sample `i` averages: a window of
/// `ceil(from / to)` samples, cut at the end of the input.
pub open spec fn resample_end(n: int, i: int, from: int, to: int) -> int {
    let e = resample_start(i, from, to) + ceil_div(from, to);
    if e <= n {
        e
    } else {
        n
    }
}

/// Output sample `i`: the mean of its window, rounded toward zero.
pub open spec fn resampled_sample(s: Seq<i16>, i: int, from: int, to: int) -> i16 {
    let a = resample_start(i, from, to);
    let b = resample_end(s.len() as int, i, from, to);
    trunc_div(window_sum(s, a, b), b - a) as i16
}

/// Samples converted from `from` Hz to `to` Hz by averaging windows of the input.
pub open spec fn resampled(s: Seq<i16>, from: int, to: int) -> Seq<i16> {
    if from == to {
        s
    } else {
        Seq::new(
            resampled_len(s.len() as int, from, to) as nat,
            |i: int| resampled_sample(s, i, from, to),
        )
    }
}

pub proof fn lemma_window_sum_bounds(s: Seq<i16>, a: int, b: int)
    requires
        a <= b,
    ensures
        (b - a) * -32768 <= window_sum(s, a, b) <= (b - a) * 32767,
    decreases b - a,
{
    if b > a {
        lemma_window_sum_bounds(s, a, b - 1);
    }
}

pub proof fn lemma_trunc_div_fits_i16(x: int, d: int, count: int)
    requires
        0 < count <= d,
        count * -32768 <= x <= count * 32767,
    ensures
        -32768 <= trunc_div(x, d) <= 32767,
        trunc_div(x, d) as i16 == trunc_div(x, d),
{
    assert(-32768 <= trunc_div(x, d) <= 32767) by (nonlinear_arith)
        requires
            0 < count <= d,
            count * -32768 <= x <= count * 32767,
            trunc_div(x, d) == (if x >= 0 {
                x / d
            } else {
                -((-x) / d)
            }),
    ;
}

/// Sums `s[a..b]` and divides by `d`, rounding toward zero.
fn window_mean(s: &[i16], a: usize, b: usize, d: u64) -> (r: i16)
    requires
        a < b <= s@.len(),
        b - a <= d,
        d <= 0x1_0000_0000,
    ensures
        r as int == trunc_div(window_sum(s@, a as int, b as int), d as int),
{
    let mut sum: i64 = 0;
    let mut j = a;
    while j < b
        invariant
            a <= j <= b <= s@.len(),
            b - a <= 0x1_0000_0000,
            sum == window_sum(s@, a as int, j as int),
            (j - a) * -32768 <= sum <= (j - a) * 32767,
        decreases b - j,
    {
        sum = sum + s[j] as i64;
        j = j + 1;
    }
    proof {
        lemma_window_sum_bounds(s@, a as int, b as int);
        lemma_trunc_div_fits_i16(sum as int, d as int, (b - a) as int);
    }
    let di = d as i64;
    let q: i64 = if sum >= 0 {
        sum / di
    } else {
        -((-sum) / di)
    };
    q as i16
}

pub proof fn lemma_ceil_div(n: int, c: int, k: int)
    requires
        n >= 0,
        c > 0,
        k >= 0,
    ensures
        k < ceil_div(n, c) <==> k * c < n,
        ceil_div(n, c) >= 0,
{
    assert(k < (n + c - 1) / c <==> k * c < n) by (nonlinear_arith)
        requires
            n >= 0,
            c > 0,
            k >= 0,
    ;
    assert((n + c - 1) / c >= 0) by (nonlinear_arith)
        requires
            n >= 0,
            c > 0,
    ;
}

/// Mixing a single channel down to mono leaves the samples unchanged.
pub proof fn lemma_mono_of_one_channel(s: Seq<i16>)
    ensures
        mixed_to_mono(s, 1) == s,
{
    reveal_with_fuel(window_sum, 2);
    assert(ceil_div(s.len() as int, 1) == s.len()) by (nonlinear_arith);
    assert forall|m: int| 0 <= m < s.len() implies mixed_to_mono(s, 1)[m] == s[m] by {
        assert(m * 1 == m);
        assert(window_sum(s, m, m + 1) == s[m]);
    }
    assert(mixed_to_mono(s, 1) =~= s);
}

/// Mixes interleaved samples down to one channel. A trailing incomplete frame
/// still yields a sample, its sum divided by the full channel count.
pub fn mix_to_mono(pcm: &[i16], capture_channels: u16) -> (r: Vec<i16>)
    requires
        capture_channels > 0,
    ensures
        r@ == mixed_to_mono(pcm@, capture_channels as int),
        capture_channels == 1 ==> r@ == pcm@,
{
    if capture_channels == 1 {
        proof {
            lemma_mono_of_one_channel(pcm@);
        }
        return vstd::slice::slice_to_vec(pcm);
    }
    let c = capture_channels as usize;
    let n = pcm.len();
    assert(n / c < usize::MAX) by (nonlinear_arith)
        requires
            c >= 2,
            n <= usize::MAX,
    ;
    let total = n / c + if n % c == 0 {
        0
    } else {
        1
    };
    assert(total == ceil_div(n as int, c as int)) by (nonlinear_arith)
        requires
            c > 0,
            total == n / c + if n % c == 0 {
                0int
            } else {
                1int
            },
    ;
    let mut out: Vec<i16> = Vec::new();
    let mut start: usize = 0;
    let mut k: usize = 0;
    while k < total
        invariant
            c == capture_channels as usize,
            c > 0,
            n == pcm@.len(),
            total == ceil_div(n as int, c as int),
            k <= total,
            k < total ==> start == k * c,
            out@.len() == k,
            forall|m: int| 0 <= m < k ==> #[trigger] out@[m] == mono_sample(pcm@, c as int, m),
        decreases total - k,
    {
        proof {
            lemma_ceil_div(n as int, c as int, k as int);
        }
        let end = if n - start >= c {
            start + c
        } else {
            n
        };
        let v = window_mean(pcm, start, end, c as u64);
        out.push(v);
        k = k + 1;
        if k < total {
            proof {
                lemma_ceil_div(n as int, c as int, k as int);
                assert(k * c == start + c) by (nonlinear_arith)
                    requires
                        start == (k - 1) * c,
                ;
            }
            start = start + c;
        }
    }
    assert(out@ =~= mixed_to_mono(pcm@, c as int));
    out
}

/// Converts samples from `from_rate` Hz to `to_rate` Hz. Output sample `i` is
/// the mean of the `ceil(from_rate / to_rate)` input samples that start at
/// `floor(i * from_rate / to_rate)`, and there are `ceil(len * to_rate / from_rate)`
/// of them.
pub fn downsample(samples: &[i16], from_rate: u32, to_rate: u32) -> (r: Vec<i16>)
    requires
        from_rate > 0 || to_rate == 0 || samples@.len() == 0,
        resampled_len(samples@.len() as int, from_rate as int, to_rate as int) <= usize::MAX,
    ensures
        r@ == resampled(samples@, from_rate as int, to_rate as int),
{
    if from_rate == to_rate {
        return vstd::slice::slice_to_vec(samples);
    }
    let n = samples.len();
    if to_rate == 0 || n == 0 {
        let empty: Vec<i16> = Vec::new();
        assert(empty@ =~= resampled(samples@, from_rate as int, to_rate as int));
        return empty;
    }
    let from = from_rate as u128;
    let to = to_rate as u128;
    assert(n * to <= 0x1_0000_0000_0000_0000 * 0x1_0000_0000) by (nonlinear_arith)
        requires
            n <= 0x1_0000_0000_0000_0000,
            to < 0x1_0000_0000,
    ;
    let out_len = ((n as u128 * to + from - 1) / from) as usize;
    let window = (from + to - 1) / to;
    assert(1 <= window < 0x1_0000_0000) by (nonlinear_arith)
        requires
            window == (from + to - 1) / (to as int),
            0 < from < 0x1_0000_0000,
            0 < to,
    ;
    let mut out: Vec<i16> = Vec::new();
    let mut index: usize = 0;
    while index < out_len
        invariant
            n == samples@.len(),
            n > 0,
            from == from_rate as u128,
            to == to_rate as u128,
            0 < from_rate,
            0 < to_rate,
            from_rate != to_rate,
            out_len == ceil_div(n * to, from as int),
            window == ceil_div(from as int, to as int),
            1 <= window < 0x1_0000_0000,
            index <= out_len,
            out@.len() == index,
            forall|m: int|
                0 <= m < index ==> #[trigger] out@[m] == resampled_sample(
                    samples@,
                    m,
                    from as int,
                    to as int,
                ),
        decreases out_len - index,
    {
        proof {
            lemma_ceil_div(n * to, from as int, index as int);
            assert((index * from) / (to as int) < n) by (nonlinear_arith)
                requires
                    index * from < n * to,
                    to > 0,
            ;
        }
        assert(index * from <= 0x1_0000_0000_0000_0000 * 0x1_0000_0000) by (nonlinear_arith)
            requires
                index <= 0x1_0000_0000_0000_0000,
                from < 0x1_0000_0000,
        ;
        let start = ((index as u128 * from) / to) as usize;
        let end = if window >= (n - start) as u128 {
            n
        } else {
            start + window as usize
        };
        out.push(window_mean(samples, start, end, (end - start) as u64));
        index = index + 1;
    }
    assert(out@ =~= resampled(samples@, from_rate as int, to_rate as int));
    out
}

} // verus!

verus! {

/// Every sample lies in `[lo, hi]`.
pub open spec fn within(s: Seq<i16>, lo: int, hi: int) -> bool {
    forall|i: int| 0 <= i < s.len() ==> lo <= #[trigger] s[i] <= hi
}

pub proof fn lemma_window_sum_within(s: Seq<i16>, a: int, b: int, lo: int, hi: int)
    requires
        0 <= a <= b <= s.len(),
        within(s, lo, hi),
    ensures
        (b - a) * lo <= window_sum(s, a, b) <= (b - a) * hi,
    decreases b - a,
{
    if b > a {
        lemma_window_sum_within(s, a, b - 1, lo, hi);
        assert(lo <= s[b - 1] <= hi);
        assert((b - a) * lo == (b - 1 - a) * lo + lo) by (nonlinear_arith);
        assert((b - a) * hi == (b - 1 - a) * hi + hi) by (nonlinear_arith);
    } else {
        assert((b - a) * lo == 0 && (b - a) * hi == 0) by (nonlinear_arith)
            requires
                b == a,
        ;
    }
}

pub proof fn lemma_mean_within(x: int, count: int, lo: int, hi: int)
    requires
        count > 0,
        lo <= hi,
        count * lo <= x <= count * hi,
        -32768 <= lo,
        hi <= 32767,
    ensures
        lo <= trunc_div(x, count) <= hi,
{
    if x >= 0 {
        assert(lo <= x / count <= hi) by (nonlinear_arith)
            requires
                count > 0,
                x >= 0,
                count * lo <= x <= count * hi,
        ;
    } else {
        assert(lo <= -((-x) / count) <= hi) by (nonlinear_arith)
            requires
                count > 0,
                x < 0,
                count * lo <= x <= count * hi,
        ;
    }
}

/// Resampling never leaves the range of its input: when every input sample lies
/// in `[lo, hi]`, so does every output sample, each being the mean of a window.
pub proof fn law_resampling_stays_in_range(s: Seq<i16>, from: int, to: int, lo: int, hi: int)
    requires
        from > 0,
        to > 0,
        lo <= hi,
        within(s, lo, hi),
    ensures
        within(resampled(s, from, to), lo, hi),
{
    if from != to {
        assert forall|i: int| 0 <= i < resampled(s, from, to).len() implies lo <= #[trigger] resampled(
            s,
            from,
            to,
        )[i] <= hi by {
            let n = s.len() as int;
            let a = resample_start(i, from, to);
            let b = resample_end(n, i, from, to);
            lemma_ceil_div(n * to, from, i);
            assert(i * from < n * to);
            assert(0 <= (i * from) / to < n) by (nonlinear_arith)
                requires
                    i * from < n * to,
                    to > 0,
                    i >= 0,
                    from > 0,
            ;
            assert(ceil_div(from, to) >= 1) by (nonlinear_arith)
                requires
                    from > 0,
                    to > 0,
            ;
            assert(0 <= a < b <= n);
            lemma_window_sum_within(s, a, b, lo, hi);
            if s.len() > 0 {
                assert(-32768 <= s[0] <= 32767);
                assert(lo <= s[0] <= hi);
            }
            let lo2 = if lo < -32768 { -32768 } else { lo };
            let hi2 = if hi > 32767 { 32767 } else { hi };
            assert(within(s, lo2, hi2));
            lemma_window_sum_within(s, a, b, lo2, hi2);
            lemma_mean_within(window_sum(s, a, b), b - a, lo2, hi2);
        }
    }
}

/// Mixing channels that stay in `[lo, hi]` (a range that holds silence) gives
/// mono samples in `[lo, hi]`.
pub proof fn law_mixing_stays_in_range(s: Seq<i16>, channels: int, lo: int, hi: int)
    requires
        channels > 0,
        lo <= 0 <= hi,
        within(s, lo, hi),
    ensures
        within(mixed_to_mono(s, channels), lo, hi),
{
    assert forall|k: int| 0 <= k < mixed_to_mono(s, channels).len() implies lo <= #[trigger] mixed_to_mono(
        s,
        channels,
    )[k] <= hi by {
        let n = s.len() as int;
        lemma_ceil_div(n, channels, k);
        let a = k * channels;
        assert(a >= 0) by (nonlinear_arith)
            requires
                a == k * channels,
                k >= 0,
                channels > 0,
        ;
        let b = if a + channels <= n { a + channels } else { n };
        assert(0 <= a < b <= n);
        assert(-32768 <= s[a] <= 32767);
        let lo2 = if lo < -32768 { -32768 } else { lo };
        let hi2 = if hi > 32767 { 32767 } else { hi };
        assert(within(s, lo2, hi2));
        lemma_window_sum_within(s, a, b, lo2, hi2);
        assert(channels * lo2 <= (b - a) * lo2) by (nonlinear_arith)
            requires
                lo2 <= 0,
                0 < b - a <= channels,
        ;
        assert((b - a) * hi2 <= channels * hi2) by (nonlinear_arith)
            requires
                hi2 >= 0,
                0 < b - a <= channels,
        ;
        lemma_mean_within(window_sum(s, a, b), channels, lo2, hi2);
    }
}

} // verus!
