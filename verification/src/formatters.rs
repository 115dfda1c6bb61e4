//! Display formatting: track durations, thousands separators, shared path prefixes.
use vstd::prelude::*;
use crate::text::{chars_of, decimal, decimal_chars, digit_char, string_of};

verus! {

/// Two-digit, zero-padded rendering of a value below 100.
pub open spec fn two_digits(n: nat) -> Seq<char> {
    seq![digit_char(n / 10), digit_char(n % 10)]
}

/// Three-digit, zero-padded rendering of a value below 1000.
pub open spec fn three_digits(n: nat) -> Seq<char> {
    seq![digit_char(n / 100), digit_char((n / 10) % 10), digit_char(n % 10)]
}

/// `m:ss` for a duration in milliseconds (whole seconds, minutes unbounded).
pub open spec fn duration_text(ms: nat) -> Seq<char> {
    let secs = ms / 1000;
    decimal(secs / 60) + seq![':'] + two_digits(secs % 60)
}

/// Decimal rendering with a comma between every group of three digits.
pub open spec fn thousands_text(n: nat) -> Seq<char>
    decreases n,
{
    if n < 1000 {
        decimal(n)
    } else {
        thousands_text(n / 1000) + seq![','] + three_digits(n % 1000)
    }
}

/// `s` with every comma removed.
pub open spec fn without_commas(s: Seq<char>) -> Seq<char> {
    s.filter(|c: char| c != ',')
}

/// Formats a duration in milliseconds as `m:ss`; `None` stays `None`.
pub fn format_track_duration(duration_millis: Option<u32>) -> (res: Option<String>)
    ensures
        match duration_millis {
            None => res is None,
            Some(ms) => res matches Some(s) && s@ == duration_text(ms as nat),
        },
{
    match duration_millis {
        None => None,
        Some(ms) => {
            let d = ms / 1000;
            let mins = d / 60;
            let secs = d % 60;
            let mut v = decimal_chars(mins as u64);
            v.push(':');
            let tens = decimal_chars((secs / 10) as u64);
            let ones = decimal_chars((secs % 10) as u64);
            v.push(tens[0]);
            v.push(ones[0]);
            proof {
                assert(decimal((secs / 10) as nat) == seq![digit_char((secs / 10) as nat)]);
                assert(decimal((secs % 10) as nat) == seq![digit_char((secs % 10) as nat)]);
                assert(v@ =~= duration_text(ms as nat));
            }
            Some(string_of(&v))
        }
    }
}

/// Digits of `n` grouped by thousands.
fn thousands_chars(n: u32) -> (v: Vec<char>)
    ensures
        v@ == thousands_text(n as nat),
    decreases n,
{
    if n < 1000 {
        decimal_chars(n as u64)
    } else {
        let mut v = thousands_chars(n / 1000);
        let r = n % 1000;
        v.push(',');
        let a = decimal_chars((r / 100) as u64);
        let b = decimal_chars(((r / 10) % 10) as u64);
        let c = decimal_chars((r % 10) as u64);
        v.push(a[0]);
        v.push(b[0]);
        v.push(c[0]);
        proof {
            assert(decimal((r / 100) as nat) == seq![digit_char((r / 100) as nat)]);
            assert(decimal(((r / 10) % 10) as nat) == seq![digit_char(((r / 10) % 10) as nat)]);
            assert(decimal((r % 10) as nat) == seq![digit_char((r % 10) as nat)]);
            assert(v@ =~= thousands_text(n as nat));
        }
        v
    }
}

/// Digit characters are never commas.
proof fn lemma_decimal_has_no_commas(n: nat)
    ensures
        without_commas(decimal(n)) == decimal(n),
    decreases n,
{
    reveal_with_fuel(Seq::filter, 2);
    if n >= 10 {
        lemma_decimal_has_no_commas(n / 10);
        assert(decimal(n) == decimal(n / 10).push(digit_char(n % 10)));
        assert(decimal(n).drop_last() =~= decimal(n / 10));
    } else {
        assert(decimal(n).drop_last() =~= Seq::<char>::empty());
    }
}

/// Splitting off the last three digits of a number of four or more digits.
proof fn lemma_decimal_split_thousands(n: nat)
    requires
        n >= 1000,
    ensures
        decimal(n) == decimal(n / 1000) + three_digits(n % 1000),
{
    let q1 = n / 10;
    let q2 = q1 / 10;
    assert(q2 == n / 100) by {
        vstd::arithmetic::div_mod::lemma_div_denominator(n as int, 10, 10);
    }
    assert(q2 / 10 == n / 1000) by {
        vstd::arithmetic::div_mod::lemma_div_denominator(n as int, 100, 10);
    }
    assert(n % 10 == (n % 1000) % 10) by {
        vstd::arithmetic::div_mod::lemma_mod_mod(n as int, 10, 100);
    }
    assert(q1 % 10 == ((n % 1000) / 10) % 10) by (nonlinear_arith)
        requires q1 == n / 10, n >= 1000;
    assert(q2 % 10 == (n % 1000) / 100) by (nonlinear_arith)
        requires q2 == n / 100, n >= 1000;
    assert(decimal(n) == decimal(q1).push(digit_char(n % 10)));
    assert(decimal(q1) == decimal(q2).push(digit_char(q1 % 10)));
    assert(decimal(q2) == decimal(q2 / 10).push(digit_char(q2 % 10)));
    assert(decimal(n) =~= decimal(n / 1000) + three_digits(n % 1000));
}

/// Removing the commas from the grouped rendering gives the plain decimal rendering.
pub proof fn lemma_thousands_digits(n: nat)
    ensures
        without_commas(thousands_text(n)) == decimal(n),
    decreases n,
{
    if n < 1000 {
        lemma_decimal_has_no_commas(n);
    } else {
        lemma_thousands_digits(n / 1000);
        lemma_decimal_split_thousands(n);
        let left = thousands_text(n / 1000);
        let t = three_digits(n % 1000);
        let f = |c: char| c != ',';
        Seq::filter_distributes_over_add(left + seq![','], t, f);
        Seq::filter_distributes_over_add(left, seq![','], f);
        reveal_with_fuel(Seq::filter, 4);
        assert(seq![','].filter(f) =~= Seq::<char>::empty());
        assert(t.filter(f) =~= t) by {
            assert(t.drop_last().drop_last().drop_last() =~= Seq::<char>::empty());
            assert(t.drop_last().drop_last() =~= seq![t[0]]);
            assert(t.drop_last() =~= seq![t[0], t[1]]);
        }
        assert(thousands_text(n) == left + seq![','] + t);
        assert(without_commas(thousands_text(n)) =~= without_commas(left) + t);
    }
}

/// Formats `n` with comma thousands separators, e.g. `1234567` as `1,234,567`.
pub fn format_thou(n: u32) -> (res: String)
    ensures
        res@ == thousands_text(n as nat),
        without_commas(res@) == decimal(n as nat),
{
    proof {
        lemma_thousands_digits(n as nat);
    }
    let v = thousands_chars(n);
    string_of(&v)
}

/// The components of a path, as text.
pub open spec fn components_view(p: Seq<String>) -> Seq<Seq<char>> {
    p.map_values(|c: String| c@)
}

/// Every path in `paths` begins with the first `k` components of `first`.
pub open spec fn shares_prefix(paths: Seq<Vec<String>>, first: Seq<Seq<char>>, k: int) -> bool {
    0 <= k <= first.len() && forall|i: int|
        0 <= i < paths.len() ==> k <= (#[trigger] paths[i])@.len()
            && components_view(paths[i]@).take(k) == first.take(k)
}

/// Longest run of leading components that every path shares, as the
/// components of a path. With no paths, the empty path.
pub fn common_path_prefix(paths: &[Vec<String>]) -> (res: Vec<String>)
    ensures
        paths@.len() == 0 ==> res@.len() == 0,
        paths@.len() > 0 ==> {
            let first = components_view(paths@[0]@);
            let k = res@.len() as int;
            &&& components_view(res@) == first.take(k)
            &&& shares_prefix(paths@, first, k)
            &&& (k == first.len() || !shares_prefix(paths@, first, k + 1))
        },
{
    if paths.len() == 0 {
        return Vec::new();
    }
    let first = &paths[0];
    let ghost fv = components_view(first@);
    let mut common_len: usize = first.len();
    let mut i: usize = 1;
    assert(components_view(paths@[0]@).take(common_len as int) == fv.take(common_len as int));
    while i < paths.len()
        invariant
            1 <= i <= paths@.len(),
            first == paths@[0],
            fv == components_view(first@),
            common_len <= first@.len(),
            shares_prefix(paths@.take(i as int), fv, common_len as int),
            common_len == first@.len() || !shares_prefix(paths@.take(i as int), fv, common_len + 1),
        decreases paths@.len() - i,
    {
        let p = &paths[i];
        let mut n: usize = 0;
        while n < first.len() && n < p.len() && first[n] == p[n]
            invariant
                n <= first@.len(),
                n <= p@.len(),
                p == paths@[i as int],
                fv == components_view(first@),
                components_view(p@).take(n as int) == fv.take(n as int),
            decreases first@.len() - n,
        {
            assert(components_view(p@).take(n + 1) =~= components_view(p@).take(n as int).push(p@[n as int]@));
            assert(fv.take(n + 1) =~= fv.take(n as int).push(first@[n as int]@));
            n += 1;
        }
        let ghost old_len = common_len;
        if n < common_len {
            common_len = n;
        }
        proof {
            let pre = paths@.take(i as int);
            let post = paths@.take(i + 1);
            assert(post =~= pre.push(*p));
            // the new path shares exactly `n` components with the first
            assert(!shares_prefix(post, fv, n + 1)) by {
                if n < first@.len() && shares_prefix(post, fv, n + 1) {
                    assert(post[i as int] == *p);
                    assert(components_view(p@).take(n + 1)[n as int] == fv.take(n + 1)[n as int]);
                }
            }
            assert forall|j: int| 0 <= j < post.len() implies common_len <= (#[trigger] post[j])@.len()
                && components_view(post[j]@).take(common_len as int) == fv.take(common_len as int) by {
                if j < i {
                    assert(post[j] == pre[j]);
                    assert(components_view(pre[j]@).take(old_len as int).take(common_len as int)
                        =~= components_view(pre[j]@).take(common_len as int));
                    assert(fv.take(old_len as int).take(common_len as int) =~= fv.take(common_len as int));
                } else {
                    assert(post[j] == *p);
                    assert(components_view(p@).take(n as int).take(common_len as int)
                        =~= components_view(p@).take(common_len as int));
                    assert(fv.take(n as int).take(common_len as int) =~= fv.take(common_len as int));
                }
            }
            if common_len < first@.len() {
                if common_len == n {
                    assert(!shares_prefix(post, fv, common_len + 1));
                } else {
                    assert(!shares_prefix(pre, fv, common_len + 1));
                    assert(!shares_prefix(post, fv, common_len + 1)) by {
                        if shares_prefix(post, fv, common_len + 1) {
                            assert forall|j: int| 0 <= j < pre.len() implies common_len + 1 <= (#[trigger] pre[j])@.len()
                                && components_view(pre[j]@).take(common_len + 1) == fv.take(common_len + 1) by {
                                assert(pre[j] == post[j]);
                            }
                        }
                    }
                }
            }
        }
        i += 1;
    }
    assert(paths@.take(paths@.len() as int) =~= paths@);
    let mut res: Vec<String> = Vec::new();
    let mut k: usize = 0;
    while k < common_len
        invariant
            k <= common_len <= first@.len(),
            fv == components_view(first@),
            components_view(res@) == fv.take(k as int),
            res@.len() == k,
        decreases common_len - k,
    {
        let c = first[k].clone();
        res.push(c);
        assert(components_view(res@) =~= fv.take(k + 1));
        k += 1;
    }
    res
}

/// Human-readable decimal (SI) size text that `humansize::format_size` with
/// the `DECIMAL` options produces for a byte count.
pub uninterp spec fn spec_decimal_size(bytes: u64) -> Seq<char>;

/// Calls `humansize::format_size(bytes, humansize::DECIMAL)`. The result is
/// named by `spec_decimal_size`; the contract also states what the source shows
/// for counts below one kilobyte: the count itself, a space, and `B`. Larger
/// counts are scaled through floating point, which is not stated here.
#[verifier::external_body]
pub(crate) fn decimal_size(bytes: u64) -> (res: String)
    ensures
        res@ == spec_decimal_size(bytes),
        bytes < 1000 ==> res@ == decimal(bytes as nat) + " B"@,
{
    humansize::format_size(bytes, humansize::DECIMAL)
}

/// Table text of an optional file size: the human-readable size of the value
/// reinterpreted as unsigned, or `-` when unknown.
pub fn size_cell(size: Option<i64>) -> (res: String)
    ensures
        match size {
            Some(v) => res@ == spec_decimal_size(v as u64),
            None => res@ == "-"@,
        },
        (size matches Some(v) && 0 <= v < 1000) ==> res@ == decimal(size.unwrap() as nat) + " B"@,
{
    match size {
        Some(v) => decimal_size(v as u64),
        None => {
            let d = chars_of("-");
            string_of(&d)
        },
    }
}

/// Text of an aggregate size, negative totals shown as zero.
pub fn total_size_text(size: i64) -> (res: String)
    ensures
        res@ == spec_decimal_size(if size < 0 { 0u64 } else { size as u64 }),
        0 <= size < 1000 ==> res@ == decimal(size as nat) + " B"@,
        size < 0 ==> res@ == "0 B"@,
{
    proof {
        reveal_strlit("0 B");
        reveal_strlit(" B");
        assert(decimal(0) == seq!['0']);
    }
    let v: u64 = if size < 0 { 0 } else { size as u64 };
    decimal_size(v)
}

/// Table text of an optional duration: `m:ss`, or `-` when unknown.
pub fn duration_cell(duration_millis: Option<u32>) -> (res: String)
    ensures
        match duration_millis {
            Some(ms) => res@ == duration_text(ms as nat),
            None => res@ == "-"@,
        },
{
    match format_track_duration(duration_millis) {
        Some(s) => s,
        None => {
            let d = chars_of("-");
            string_of(&d)
        },
    }
}

} // verus!
