//! Ways to learn a monitored canister's cycles balance, and the pure
//! processing of what the host hands back.

use vstd::prelude::*;
use vstd::string::StringSliceAdditionalSpecFns;

use crate::ids::CanisterId;

verus! {

/// Whether a byte is ASCII whitespace: space, tab, newline, vertical tab,
/// form feed, or carriage return.
pub open spec fn is_ws(b: u8) -> bool {
    b == 32 || b == 9 || b == 10 || b == 11 || b == 12 || b == 13
}

/// The first position at or after `from` holding byte `b`, or the length.
pub open spec fn find_byte(s: Seq<u8>, b: u8, from: int) -> int
    decreases s.len() - from,
{
    if from < 0 || from >= s.len() {
        s.len() as int
    } else if s[from] == b {
        from
    } else {
        find_byte(s, b, from + 1)
    }
}

/// The last position holding byte `b`, or -1.
pub open spec fn rfind_byte(s: Seq<u8>, b: u8) -> int
    decreases s.len(),
{
    if s.len() == 0 {
        -1
    } else if s.last() == b {
        s.len() - 1
    } else {
        rfind_byte(s.drop_last(), b)
    }
}

/// The first position at or after `from` holding a non-whitespace byte, or
/// the length.
pub open spec fn ws_end(s: Seq<u8>, from: int) -> int
    decreases s.len() - from,
{
    if from < 0 || from >= s.len() {
        s.len() as int
    } else if is_ws(s[from]) {
        ws_end(s, from + 1)
    } else {
        from
    }
}

/// The first position at or after `from` holding a whitespace byte, or the
/// length.
pub open spec fn token_end(s: Seq<u8>, from: int) -> int
    decreases s.len() - from,
{
    if from < 0 || from >= s.len() {
        s.len() as int
    } else if is_ws(s[from]) {
        from
    } else {
        token_end(s, from + 1)
    }
}

/// The position after the last non-whitespace byte, or 0.
pub open spec fn rtrim_end(s: Seq<u8>) -> int
    decreases s.len(),
{
    if s.len() == 0 {
        0
    } else if is_ws(s.last()) {
        rtrim_end(s.drop_last())
    } else {
        s.len() as int
    }
}

/// A line with its ASCII-whitespace ends removed.
pub open spec fn spec_trim(s: Seq<u8>) -> Seq<u8> {
    if ws_end(s, 0) < rtrim_end(s) {
        s.subrange(ws_end(s, 0), rtrim_end(s))
    } else {
        Seq::empty()
    }
}

/// Whether `s` begins with `p`.
pub open spec fn starts_with(s: Seq<u8>, p: Seq<u8>) -> bool {
    p.len() <= s.len() && s.subrange(0, p.len() as int) == p
}

/// A line with a trailing carriage return removed, as line splitting does.
pub open spec fn strip_cr(s: Seq<u8>) -> Seq<u8> {
    if s.len() > 0 && s.last() == 13 {
        s.drop_last()
    } else {
        s
    }
}

/// A metric line with its labels removed: everything from the first `{` to
/// the last `}` goes, when they stand in that order; otherwise the line is
/// kept whole.
pub open spec fn spec_strip_labels(s: Seq<u8>) -> Seq<u8> {
    let a = find_byte(s, 123, 0);
    let b = rfind_byte(s, 125);
    if a < s.len() && 0 <= b && a <= b {
        s.take(a) + s.skip(b + 1)
    } else {
        s
    }
}

/// The second whitespace-separated token of a line, if the line has one.
pub open spec fn spec_second_token(s: Seq<u8>) -> Option<Seq<u8>> {
    let first_start = ws_end(s, 0);
    if first_start >= s.len() {
        None
    } else {
        let first_end = token_end(s, first_start);
        let second_start = ws_end(s, first_end);
        if second_start >= s.len() {
            None
        } else {
            Some(s.subrange(second_start, token_end(s, second_start)))
        }
    }
}

/// `find_byte` stays within the sequence bounds.
pub proof fn lemma_find_byte_bounds(s: Seq<u8>, b: u8, from: int)
    requires
        0 <= from <= s.len(),
    ensures
        from <= find_byte(s, b, from) <= s.len(),
    decreases s.len() - from,
{
    if from < s.len() && s[from] != b {
        lemma_find_byte_bounds(s, b, from + 1);
    }
}

/// A scan that saw no `b` up to `k`, with `k` at the end or on a `b`, found
/// the first occurrence.
pub proof fn lemma_find_byte_is(s: Seq<u8>, b: u8, from: int, k: int)
    requires
        0 <= from <= k <= s.len(),
        forall|j: int| from <= j < k ==> s[j] != b,
        k == s.len() || s[k] == b,
    ensures
        find_byte(s, b, from) == k,
    decreases k - from,
{
    if from < k {
        lemma_find_byte_is(s, b, from + 1, k);
    }
}

/// A backward scan that saw no `b` after `k`, with `k` on a `b`, found the
/// last occurrence.
pub proof fn lemma_rfind_byte_is(s: Seq<u8>, b: u8, k: int)
    requires
        0 <= k < s.len(),
        s[k] == b,
        forall|j: int| k < j < s.len() ==> s[j] != b,
    ensures
        rfind_byte(s, b) == k,
    decreases s.len(),
{
    if k < s.len() - 1 {
        lemma_rfind_byte_is(s.drop_last(), b, k);
    }
}

/// A sequence without `b` has no last occurrence of it.
pub proof fn lemma_rfind_byte_none(s: Seq<u8>, b: u8)
    requires
        forall|j: int| 0 <= j < s.len() ==> s[j] != b,
    ensures
        rfind_byte(s, b) == -1,
    decreases s.len(),
{
    if s.len() > 0 {
        lemma_rfind_byte_none(s.drop_last(), b);
    }
}

/// A scan that saw only whitespace up to `k`, with `k` at the end or on a
/// non-whitespace byte, found where the whitespace ends.
pub proof fn lemma_ws_end_is(s: Seq<u8>, from: int, k: int)
    requires
        0 <= from <= k <= s.len(),
        forall|j: int| from <= j < k ==> is_ws(#[trigger] s[j]),
        k == s.len() || !is_ws(s[k]),
    ensures
        ws_end(s, from) == k,
    decreases k - from,
{
    if from < k {
        lemma_ws_end_is(s, from + 1, k);
    }
}

/// A scan that saw no whitespace up to `k`, with `k` at the end or on a
/// whitespace byte, found where the token ends.
pub proof fn lemma_token_end_is(s: Seq<u8>, from: int, k: int)
    requires
        0 <= from <= k <= s.len(),
        forall|j: int| from <= j < k ==> !is_ws(#[trigger] s[j]),
        k == s.len() || is_ws(s[k]),
    ensures
        token_end(s, from) == k,
    decreases k - from,
{
    if from < k {
        lemma_token_end_is(s, from + 1, k);
    }
}

/// A backward scan that saw only whitespace after `k`, with `k` at the start
/// or preceded by a non-whitespace byte, found where trailing whitespace
/// starts.
pub proof fn lemma_rtrim_end_is(s: Seq<u8>, k: int)
    requires
        0 <= k <= s.len(),
        forall|j: int| k <= j < s.len() ==> is_ws(#[trigger] s[j]),
        k == 0 || !is_ws(s[k - 1]),
    ensures
        rtrim_end(s) == k,
    decreases s.len(),
{
    if k < s.len() {
        assert(s.drop_last() =~= s.take(s.len() - 1));
        lemma_rtrim_end_is(s.drop_last(), k);
    }
}

/// The first line of the body whose trimmed text begins with the metric
/// name; `None` when no line does.
pub open spec fn spec_metric_line(s: Seq<u8>, metric: Seq<u8>) -> Option<Seq<u8>>
    decreases s.len(),
    via spec_metric_line_decreases
{
    if s.len() == 0 {
        None
    } else {
        let nl = find_byte(s, 10, 0);
        let line = strip_cr(s.take(nl));
        if starts_with(spec_trim(line), metric) {
            Some(line)
        } else if nl >= s.len() {
            None
        } else {
            spec_metric_line(s.skip(nl + 1), metric)
        }
    }
}

#[via_fn]
proof fn spec_metric_line_decreases(s: Seq<u8>, metric: Seq<u8>) {
    if s.len() > 0 {
        lemma_find_byte_bounds(s, 10, 0);
    }
}

/// Whether `n` occurs as a contiguous run inside `h`.
pub open spec fn contains_seq(h: Seq<u8>, n: Seq<u8>) -> bool {
    exists|i: int| 0 <= i && i + n.len() <= h.len() && #[trigger] h.subrange(i, i + n.len()) == n
}

/// Whether `n` stands at position `i` of `h`.
fn matches_at(h: &[u8], i: usize, n: &[u8]) -> (r: bool)
    requires
        i + n@.len() <= h@.len(),
    ensures
        r == (h@.subrange(i as int, i + n@.len()) == n@),
{
    let hl = h.len();
    let mut k: usize = 0;
    while k < n.len()
        invariant
            k <= n@.len(),
            i + n@.len() <= h@.len(),
            hl == h@.len(),
            forall|y: int| 0 <= y < k ==> h@[i + y] == n@[y],
        decreases n@.len() - k,
    {
        if h[i + k] != n[k] {
            proof {
                if h@.subrange(i as int, i + n@.len()) == n@ {
                    assert(h@.subrange(i as int, i + n@.len())[k as int] == n@[k as int]);
                }
            }
            return false;
        }
        k += 1;
    }
    proof {
        assert(h@.subrange(i as int, i + n@.len()) =~= n@);
    }
    true
}

/// Looks for `n` as a contiguous run inside `h`.
pub fn contains_subslice(h: &[u8], n: &[u8]) -> (r: bool)
    ensures
        r == contains_seq(h@, n@),
{
    if n.len() > h.len() {
        return false;
    }
    if n.len() == 0 {
        proof {
            assert(h@.subrange(0, 0 + n@.len() as int) =~= n@);
        }
        return true;
    }
    let bound = h.len() - n.len();
    let mut i: usize = 0;
    while i <= bound
        invariant
            1 <= n@.len() <= h@.len(),
            bound == h@.len() - n@.len(),
            bound < usize::MAX,
            i <= bound + 1,
            forall|x: int| 0 <= x < i ==> #[trigger] h@.subrange(x, x + n@.len()) != n@,
        decreases bound + 1 - i,
    {
        if matches_at(h, i, n) {
            return true;
        }
        i += 1;
    }
    proof {
        if contains_seq(h@, n@) {
            let x = choose|x: int|
                0 <= x && x + n@.len() <= h@.len() && #[trigger] h@.subrange(x, x + n@.len())
                    == n@;
            assert(h@.subrange(x, x + n@.len()) == n@);
        }
    }
    false
}

/// Returns whether a byte is ASCII whitespace.
fn is_ws_byte(c: u8) -> (r: bool)
    ensures
        r == is_ws(c),
{
    c == 32 || c == 9 || c == 10 || c == 11 || c == 12 || c == 13
}

/// Copies a range of a byte slice into a fresh vector.
fn subrange_to_vec(b: &[u8], lo: usize, hi: usize) -> (r: Vec<u8>)
    requires
        lo <= hi <= b@.len(),
    ensures
        r@ == b@.subrange(lo as int, hi as int),
{
    let mut r: Vec<u8> = Vec::new();
    let mut i: usize = lo;
    while i < hi
        invariant
            lo <= i <= hi <= b@.len(),
            r@ == b@.subrange(lo as int, i as int),
        decreases hi - i,
    {
        r.push(b[i]);
        proof {
            assert(r@ =~= b@.subrange(lo as int, i as int + 1));
        }
        i += 1;
    }
    r
}

/// Returns whether the trimmed line within `b[lo..hi]` begins with the
/// metric name.
fn line_matches(b: &[u8], lo: usize, hi: usize, metric: &[u8]) -> (r: bool)
    requires
        lo <= hi <= b@.len(),
    ensures
        r == starts_with(spec_trim(b@.subrange(lo as int, hi as int)), metric@),
{
    let ghost line = b@.subrange(lo as int, hi as int);
    let mut t_lo: usize = lo;
    while t_lo < hi && is_ws_byte(b[t_lo])
        invariant
            lo <= t_lo <= hi <= b@.len(),
            forall|k: int| lo <= k < t_lo ==> is_ws(#[trigger] b@[k]),
        decreases hi - t_lo,
    {
        t_lo += 1;
    }
    proof {
        lemma_ws_end_is(line, 0, t_lo - lo);
    }
    if t_lo == hi {
        proof {
            lemma_rtrim_end_is_at_most(line);
            assert(spec_trim(line) =~= Seq::<u8>::empty());
            if metric@.len() == 0 {
                assert(spec_trim(line).subrange(0, 0) =~= metric@);
            }
        }
        return metric.len() == 0;
    }
    let mut t_hi: usize = hi;
    while is_ws_byte(b[t_hi - 1])
        invariant
            lo <= t_lo < t_hi <= hi <= b@.len(),
            !is_ws(b@[t_lo as int]),
            forall|k: int| t_hi <= k < hi ==> is_ws(#[trigger] b@[k]),
        decreases t_hi,
    {
        t_hi -= 1;
    }
    proof {
        lemma_rtrim_end_is(line, t_hi - lo);
        assert(spec_trim(line) =~= b@.subrange(t_lo as int, t_hi as int));
    }
    if metric.len() > t_hi - t_lo {
        return false;
    }
    let mut k: usize = 0;
    while k < metric.len()
        invariant
            k <= metric@.len(),
            metric@.len() <= t_hi - t_lo,
            lo <= t_lo <= t_hi <= b@.len(),
            line == b@.subrange(lo as int, hi as int),
            spec_trim(line) == b@.subrange(t_lo as int, t_hi as int),
            forall|y: int| 0 <= y < k ==> b@[t_lo + y] == metric@[y],
        decreases metric@.len() - k,
    {
        if b[t_lo + k] != metric[k] {
            proof {
                if starts_with(spec_trim(line), metric@) {
                    assert(spec_trim(line).subrange(0, metric@.len() as int)[k as int]
                        == metric@[k as int]);
                }
            }
            return false;
        }
        k += 1;
    }
    proof {
        assert(spec_trim(line).subrange(0, metric@.len() as int) =~= metric@);
    }
    true
}

/// The end of trailing whitespace never passes the length.
proof fn lemma_rtrim_end_is_at_most(s: Seq<u8>)
    ensures
        0 <= rtrim_end(s) <= s.len(),
    decreases s.len(),
{
    if s.len() > 0 && is_ws(s.last()) {
        lemma_rtrim_end_is_at_most(s.drop_last());
    }
}

/// Finds the first line whose trimmed text begins with the metric name, as
/// bounds into the body.
fn find_metric_line(b: &[u8], metric: &[u8]) -> (r: Option<(usize, usize)>)
    ensures
        match r {
            Some(bounds) => bounds.0 <= bounds.1 <= b@.len() && spec_metric_line(b@, metric@)
                == Some(b@.subrange(bounds.0 as int, bounds.1 as int)),
            None => spec_metric_line(b@, metric@) is None,
        },
{
    let mut pos: usize = 0;
    proof {
        assert(b@.skip(0) =~= b@);
    }
    loop
        invariant
            pos <= b@.len(),
            spec_metric_line(b@, metric@) == spec_metric_line(b@.skip(pos as int), metric@),
        decreases b@.len() - pos,
    {
        if pos == b.len() {
            proof {
                assert(b@.skip(pos as int) =~= Seq::<u8>::empty());
            }
            return None;
        }
        let mut j: usize = pos;
        while j < b.len() && b[j] != 10
            invariant
                pos <= j <= b@.len(),
                forall|k: int| pos <= k < j ==> b@[k] != 10,
            decreases b@.len() - j,
        {
            j += 1;
        }
        let ghost rest = b@.skip(pos as int);
        proof {
            assert(forall|k: int| 0 <= k < j - pos ==> rest[k] != 10);
            lemma_find_byte_is(rest, 10, 0, j - pos);
        }
        let line_end: usize = if j > pos && b[j - 1] == 13 {
            j - 1
        } else {
            j
        };
        proof {
            assert(rest.take(j - pos) =~= b@.subrange(pos as int, j as int));
            assert(strip_cr(rest.take(j - pos)) =~= b@.subrange(pos as int, line_end as int));
        }
        if line_matches(b, pos, line_end, metric) {
            return Some((pos, line_end));
        }
        if j == b.len() {
            return None;
        }
        proof {
            assert(rest.skip(j - pos + 1) =~= b@.skip(j + 1int));
        }
        pos = j + 1;
    }
}

/// Removes the labels of a metric line: everything from the first `{` to the
/// last `}` when they stand in that order.
fn strip_labels_vec(line: &Vec<u8>) -> (r: Vec<u8>)
    ensures
        r@ == spec_strip_labels(line@),
{
    let mut a: usize = 0;
    while a < line.len() && line[a] != 123
        invariant
            a <= line@.len(),
            forall|k: int| 0 <= k < a ==> line@[k] != 123,
        decreases line@.len() - a,
    {
        a += 1;
    }
    proof {
        lemma_find_byte_is(line@, 123, 0, a as int);
    }
    let mut close: usize = line.len();
    while close > 0 && line[close - 1] != 125
        invariant
            close <= line@.len(),
            forall|k: int| close <= k < line@.len() ==> line@[k] != 125,
        decreases close,
    {
        close -= 1;
    }
    if a < line.len() && close > 0 && a <= close - 1 {
        proof {
            lemma_rfind_byte_is(line@, 125, close - 1);
        }
        let mut r = subrange_to_vec(line.as_slice(), 0, a);
        let mut tail = subrange_to_vec(line.as_slice(), close, line.len());
        r.append(&mut tail);
        proof {
            assert(r@ =~= line@.take(a as int) + line@.skip(close as int));
        }
        r
    } else {
        proof {
            if close == 0 {
                lemma_rfind_byte_none(line@, 125);
            } else {
                lemma_rfind_byte_is(line@, 125, close - 1);
            }
        }
        crate::ids::clone_bytes(line)
    }
}

/// Finds the second whitespace-separated token of a line, as bounds.
fn second_token(v: &Vec<u8>) -> (r: Option<(usize, usize)>)
    ensures
        match r {
            Some(bounds) => bounds.0 <= bounds.1 <= v@.len() && spec_second_token(v@) == Some(
                v@.subrange(bounds.0 as int, bounds.1 as int),
            ),
            None => spec_second_token(v@) is None,
        },
{
    let mut first_start: usize = 0;
    while first_start < v.len() && is_ws_byte(v[first_start])
        invariant
            first_start <= v@.len(),
            forall|k: int| 0 <= k < first_start ==> is_ws(#[trigger] v@[k]),
        decreases v@.len() - first_start,
    {
        first_start += 1;
    }
    proof {
        lemma_ws_end_is(v@, 0, first_start as int);
    }
    if first_start == v.len() {
        return None;
    }
    let mut first_end: usize = first_start;
    while first_end < v.len() && !is_ws_byte(v[first_end])
        invariant
            first_start <= first_end <= v@.len(),
            forall|k: int| first_start <= k < first_end ==> !is_ws(#[trigger] v@[k]),
        decreases v@.len() - first_end,
    {
        first_end += 1;
    }
    proof {
        lemma_token_end_is(v@, first_start as int, first_end as int);
    }
    let mut second_start: usize = first_end;
    while second_start < v.len() && is_ws_byte(v[second_start])
        invariant
            first_end <= second_start <= v@.len(),
            forall|k: int| first_end <= k < second_start ==> is_ws(#[trigger] v@[k]),
        decreases v@.len() - second_start,
    {
        second_start += 1;
    }
    proof {
        lemma_ws_end_is(v@, first_end as int, second_start as int);
    }
    if second_start == v.len() {
        return None;
    }
    let mut second_end: usize = second_start;
    while second_end < v.len() && !is_ws_byte(v[second_end])
        invariant
            second_start <= second_end <= v@.len(),
            forall|k: int| second_start <= k < second_end ==> !is_ws(#[trigger] v@[k]),
        decreases v@.len() - second_end,
    {
        second_end += 1;
    }
    proof {
        lemma_token_end_is(v@, second_start as int, second_end as int);
    }
    Some((second_start, second_end))
}

/// The abstract value of a status-call balance fetcher: which canister is
/// asked, and by which method name.
pub ghost struct StatusFetcherView {
    pub canister: Seq<u8>,
    pub method: Seq<char>,
}

/// Fetches the canister cycles balance by calling the `canister_status`
/// method, by default on the management canister. Only suitable when the
/// funding canister may call that method on the target.
pub struct FetchCyclesBalanceFromCanisterStatus {
    /// The canister asked for the status: the management canister or a proxy.
    canister: CanisterId,
    /// The name of the status method.
    method: String,
}

impl View for FetchCyclesBalanceFromCanisterStatus {
    type V = StatusFetcherView;

    closed spec fn view(&self) -> StatusFetcherView {
        StatusFetcherView { canister: self.canister@, method: self.method@ }
    }
}

impl FetchCyclesBalanceFromCanisterStatus {
    /// Constructs the default status fetcher: the management canister's
    /// `canister_status` method.
    pub fn new() -> (r: Self)
        ensures
            r@.canister == Seq::<u8>::empty(),
            r@.method == "canister_status"@,
    {
        Self { canister: CanisterId::management_canister(), method: "canister_status".to_owned() }
    }

    /// Routes the status call through a proxy canister instead of the
    /// management canister.
    pub fn with_proxy(self, proxy: CanisterId) -> (r: Self)
        ensures
            r@.canister == proxy@,
            r@.method == self@.method,
    {
        Self { canister: proxy, ..self }
    }

    /// Changes the name of the status method called.
    pub fn with_method(self, method: String) -> (r: Self)
        ensures
            r@.canister == self@.canister,
            r@.method == method@,
    {
        Self { method, ..self }
    }

    /// Returns the canister asked for the status.
    pub fn canister(&self) -> (r: &CanisterId)
        ensures
            r@ == self@.canister,
    {
        &self.canister
    }

    /// Returns the name of the status method.
    pub fn method(&self) -> (r: &str)
        ensures
            r@ == self@.method,
    {
        self.method.as_str()
    }
}

impl Clone for FetchCyclesBalanceFromCanisterStatus {
    fn clone(&self) -> (r: Self)
        ensures
            r@ == self@,
    {
        Self { canister: self.canister.clone(), method: self.method.clone() }
    }
}

/// The abstract value of a metrics-scrape balance fetcher.
pub ghost struct MetricsFetcherView {
    pub path: Seq<char>,
    pub metric_name: Seq<char>,
}

/// Fetches the canister cycles balance from prometheus metrics the canister
/// exposes over an HTTP endpoint.
pub struct FetchCyclesBalanceFromPrometheusMetrics {
    /// The path to the prometheus metrics endpoint.
    path: String,
    /// The metric name for the canister cycles balance.
    metric_name: String,
}

impl View for FetchCyclesBalanceFromPrometheusMetrics {
    type V = MetricsFetcherView;

    closed spec fn view(&self) -> MetricsFetcherView {
        MetricsFetcherView { path: self.path@, metric_name: self.metric_name@ }
    }
}

impl FetchCyclesBalanceFromPrometheusMetrics {
    /// Constructs the default metrics fetcher: the `/metrics` path and the
    /// `canister_cycles` metric.
    pub fn default() -> (r: Self)
        ensures
            r@.path == "/metrics"@,
            r@.metric_name == "canister_cycles"@,
    {
        Self { path: "/metrics".to_owned(), metric_name: "canister_cycles".to_owned() }
    }

    /// Creates a new fetcher with the specified path and metric name.
    pub fn new(path: String, metric_name: String) -> (r: Self)
        ensures
            r@.path == path@,
            r@.metric_name == metric_name@,
    {
        Self { path, metric_name }
    }

    /// Sets the path to the prometheus metrics endpoint.
    pub fn with_path(self, path: String) -> (r: Self)
        ensures
            r@.path == path@,
            r@.metric_name == self@.metric_name,
    {
        Self { path, ..self }
    }

    /// Sets the metric name for the canister cycles balance.
    pub fn with_metric_name(self, metric_name: String) -> (r: Self)
        ensures
            r@.path == self@.path,
            r@.metric_name == metric_name@,
    {
        Self { metric_name, ..self }
    }

    /// Returns the path to the prometheus metrics endpoint.
    pub fn path(&self) -> (r: &str)
        ensures
            r@ == self@.path,
    {
        self.path.as_str()
    }

    /// Returns the metric name for the canister cycles balance.
    pub fn metric_name(&self) -> (r: &str)
        ensures
            r@ == self@.metric_name,
    {
        self.metric_name.as_str()
    }
}

impl Clone for FetchCyclesBalanceFromPrometheusMetrics {
    fn clone(&self) -> (r: Self)
        ensures
            r@ == self@,
    {
        Self { path: self.path.clone(), metric_name: self.metric_name.clone() }
    }
}

/// The abstract value of a balance fetcher.
pub ghost enum FetcherView {
    CanisterStatus(StatusFetcherView),
    PrometheusMetrics(MetricsFetcherView),
}

/// How a monitored canister's effective cycles balance is learned.
pub enum BalanceFetcher {
    /// Through a status call to the management canister or a proxy.
    CanisterStatus(FetchCyclesBalanceFromCanisterStatus),
    /// Through a scrape of the canister's prometheus metrics endpoint.
    PrometheusMetrics(FetchCyclesBalanceFromPrometheusMetrics),
}

impl View for BalanceFetcher {
    type V = FetcherView;

    open spec fn view(&self) -> FetcherView {
        match self {
            BalanceFetcher::CanisterStatus(f) => FetcherView::CanisterStatus(f@),
            BalanceFetcher::PrometheusMetrics(f) => FetcherView::PrometheusMetrics(f@),
        }
    }
}

impl Clone for BalanceFetcher {
    fn clone(&self) -> (r: Self)
        ensures
            r@ == self@,
    {
        match self {
            BalanceFetcher::CanisterStatus(f) => BalanceFetcher::CanisterStatus(f.clone()),
            BalanceFetcher::PrometheusMetrics(f) => BalanceFetcher::PrometheusMetrics(f.clone()),
        }
    }
}

/// Relies on std's `String::from_utf8`: it succeeds exactly on valid UTF-8
/// and decodes it.
#[verifier::external_body]
fn bytes_to_string(bytes: Vec<u8>) -> (r: Option<String>)
    ensures
        r is Some <==> vstd::utf8::valid_utf8(bytes@),
        r is Some ==> r->0@ == vstd::utf8::decode_utf8(bytes@),
{
    String::from_utf8(bytes).ok()
}

/// What extracting the metric from a response body yields: the first line
/// whose trimmed text begins with the metric name gives, after its labels are
/// stripped, a second token that is parsed as the cycles count; a missing
/// line or token is a metric-not-found error, and a token that does not read
/// as a number comes back in a conversion error.
pub open spec fn extract_outcome(
    r: Result<u128, crate::errors::Error>,
    body: Seq<u8>,
    metric_bytes: Seq<u8>,
    metric_chars: Seq<char>,
) -> bool {
    match spec_metric_line(body, metric_bytes) {
        None => r is Err && (r->Err_0 matches crate::errors::Error::CyclesBalanceMetricNotFound{
            metric_name: n,
        } && n@ == metric_chars),
        Some(line) => match spec_second_token(spec_strip_labels(line)) {
            None => r is Err && (r->Err_0
                matches crate::errors::Error::CyclesBalanceMetricNotFound{metric_name: n} && n@
                == metric_chars),
            Some(tok) => {
                &&& !vstd::utf8::valid_utf8(tok) ==> r is Err
                &&& vstd::utf8::valid_utf8(tok) ==> (match crate::utils::spec_parse_u128(tok) {
                    Some(v) => r is Ok && r->Ok_0 == v,
                    None => r is Err && (r->Err_0
                        matches crate::errors::Error::FailedCyclesConversion{cycles: c}
                        && vstd::utf8::encode_utf8(c@) == tok),
                })
            },
        },
    }
}

/// Extracts the canister cycles balance from the response body: the value
/// field of the first line carrying the metric, with labels stripped.
pub fn extract_cycles_from_http_response_body(body: &str, metric_name: &str) -> (r: Result<
    u128,
    crate::errors::Error,
>)
    ensures
        extract_outcome(r, body.spec_bytes(), metric_name.spec_bytes(), metric_name@),
{
    let b = body.as_bytes();
    let m = metric_name.as_bytes();
    match find_metric_line(b, m) {
        None => Err(
            crate::errors::Error::CyclesBalanceMetricNotFound {
                metric_name: metric_name.to_owned(),
            },
        ),
        Some(bounds) => {
            let line = subrange_to_vec(b, bounds.0, bounds.1);
            let parsed_line = strip_labels_vec(&line);
            match second_token(&parsed_line) {
                None => Err(
                    crate::errors::Error::CyclesBalanceMetricNotFound {
                        metric_name: metric_name.to_owned(),
                    },
                ),
                Some(tok_bounds) => {
                    let tok = subrange_to_vec(parsed_line.as_slice(), tok_bounds.0, tok_bounds.1);
                    let ghost tok_view = tok@;
                    match bytes_to_string(tok) {
                        None => Err(crate::errors::Error::MetricsResponseDeserializationFailed),
                        Some(tok_str) => {
                            proof {
                                vstd::utf8::decode_utf8_encode_utf8(tok_view);
                            }
                            crate::utils::cycles_str_to_u128(tok_str.as_str())
                        },
                    }
                },
            }
        },
    }
}

/// The cycles held back by the freezing threshold: a day's idle burn scaled
/// by the threshold seconds, with the multiplication saturating.
pub fn calc_freezing_balance(freezing_threshold: u128, idle_cycles_burned_per_day: u128) -> (r:
    u128)
    ensures
        r == crate::num::sat_mul_u128(idle_cycles_burned_per_day, freezing_threshold) / 86_400,
{
    crate::num::saturating_mul_u128(idle_cycles_burned_per_day, freezing_threshold) / 86_400
}

/// A reported amount clamped for the freezing computation: its value when it
/// fits 128 bits, and zero otherwise.
pub open spec fn nat_or_zero(n: candid::Nat) -> u128 {
    if crate::utils::nat_value(n) <= u128::MAX {
        crate::utils::nat_value(n) as u128
    } else {
        0
    }
}

/// The effective balance a status response reports: the raw cycles less the
/// freezing reserve, saturating at zero.
pub open spec fn spec_effective_balance(cycles: u128, freezing_threshold: u128, idle: u128) -> u128 {
    crate::num::sat_sub_u128(cycles, crate::num::sat_mul_u128(idle, freezing_threshold) / 86_400)
}

/// Computes the effective balance from the amounts a status response carries.
/// A cycles amount too large for 128 bits is a conversion error; an
/// out-of-range freezing threshold or idle burn counts as zero, as its failed
/// conversion does in the status fetch.
pub fn effective_balance_from_status(
    cycles: candid::Nat,
    freezing_threshold: candid::Nat,
    idle_cycles_burned_per_day: candid::Nat,
) -> (r: Result<u128, crate::errors::Error>)
    ensures
        crate::utils::nat_value(cycles) <= u128::MAX ==> r is Ok && r->Ok_0
            == spec_effective_balance(
            crate::utils::nat_value(cycles) as u128,
            nat_or_zero(freezing_threshold),
            nat_or_zero(idle_cycles_burned_per_day),
        ),
        crate::utils::nat_value(cycles) > u128::MAX ==> r is Err && (r->Err_0
            matches crate::errors::Error::FailedCyclesConversion{cycles: c} && c@
            == crate::utils::spec_nat_decimal(crate::utils::nat_value(cycles))),
{
    match crate::utils::cycles_nat_to_u128(cycles) {
        Ok(cycles_u128) => {
            let freezing = match crate::utils::cycles_nat_to_u128(freezing_threshold) {
                Ok(v) => v,
                Err(_) => 0,
            };
            let idle = match crate::utils::cycles_nat_to_u128(idle_cycles_burned_per_day) {
                Ok(v) => v,
                Err(_) => 0,
            };
            Ok(cycles_u128.saturating_sub(calc_freezing_balance(freezing, idle)))
        },
        Err(e) => Err(e),
    }
}

/// A name for what std's `str::to_lowercase` returns, encoded as UTF-8: a
/// function of the characters alone.
pub uninterp spec fn lower_bytes_of(s: Seq<char>) -> Seq<u8>;

/// Relies on std's `str::to_lowercase`, whose result depends on the
/// characters alone, and `String::into_bytes`, which hands out its UTF-8
/// encoding.
#[verifier::external_body]
fn lowercase_bytes(s: &str) -> (r: Vec<u8>)
    ensures
        r@ == lower_bytes_of(s@),
{
    s.to_lowercase().into_bytes()
}

/// Classifies a rejected status call: a canister that ran out of cycles is
/// reported as a zero balance, never as an error; everything else keeps its
/// rejection code and message.
pub fn classify_status_rejection(
    code: crate::errors::RejectionCode,
    message: String,
) -> (r: Result<u128, crate::errors::Error>)
    ensures
        (code is CanisterError && contains_seq(
            lower_bytes_of(message@),
            "out of cycles".spec_bytes(),
        )) ==> r is Ok && r->Ok_0 == 0,
        !(code is CanisterError && contains_seq(
            lower_bytes_of(message@),
            "out of cycles".spec_bytes(),
        )) ==> r is Err && (r->Err_0
            matches crate::errors::Error::GetCanisterCycleBalanceFailed{
            rejection_code: c,
            rejection_message: m,
        } && c == code && m@ == message@),
{
    let is_canister_error = match code {
        crate::errors::RejectionCode::CanisterError => true,
        _ => false,
    };
    if is_canister_error {
        let lowered = lowercase_bytes(message.as_str());
        if contains_subslice(lowered.as_slice(), "out of cycles".as_bytes()) {
            return Ok(0);
        }
    }
    Err(
        crate::errors::Error::GetCanisterCycleBalanceFailed {
            rejection_code: code,
            rejection_message: message,
        },
    )
}

/// Relies on std's string formatting: the diagnostic line for an unexpected
/// HTTP status, carrying the decimal status code and the body's text when it
/// is valid UTF-8.
#[verifier::external_body]
fn metrics_status_reason(status_code: u16, body: &Vec<u8>) -> (r: String)
    ensures
        r@ == "HTTP code unexpected "@ + crate::utils::spec_nat_decimal(status_code as nat) + ": "@
            + (if vstd::utf8::valid_utf8(body@) {
            vstd::utf8::decode_utf8(body@)
        } else {
            Seq::<char>::empty()
        }),
{
    format!(
        "HTTP code unexpected {}: {}",
        status_code,
        String::from_utf8(body.clone()).unwrap_or_default(),
    )
}

/// Turns the metrics endpoint's HTTP response into the reported cycles
/// balance: a non-200 status or an unreadable body is a dedicated error, and
/// a readable body goes through the metric extraction.
pub fn handle_metrics_response(
    status_code: u16,
    body: Vec<u8>,
    metric_name: &str,
) -> (r: Result<u128, crate::errors::Error>)
    ensures
        status_code != 200 ==> r is Err && (r->Err_0
            matches crate::errors::Error::MetricsHttpRequestFailed{code, reason}
            && code is CanisterError && reason@ == "HTTP code unexpected "@
            + crate::utils::spec_nat_decimal(status_code as nat) + ": "@ + (
            if vstd::utf8::valid_utf8(body@) {
                vstd::utf8::decode_utf8(body@)
            } else {
                Seq::<char>::empty()
            })),
        status_code == 200 && !vstd::utf8::valid_utf8(body@) ==> r is Err && r->Err_0
            is MetricsResponseDeserializationFailed,
        status_code == 200 && vstd::utf8::valid_utf8(body@) ==> extract_outcome(
            r,
            body@,
            vstd::utf8::encode_utf8(metric_name@),
            metric_name@,
        ),
{
    if status_code != 200 {
        let reason = metrics_status_reason(status_code, &body);
        return Err(
            crate::errors::Error::MetricsHttpRequestFailed {
                code: crate::errors::RejectionCode::CanisterError,
                reason,
            },
        );
    }
    let ghost body_view = body@;
    match bytes_to_string(body) {
        None => Err(crate::errors::Error::MetricsResponseDeserializationFailed),
        Some(text) => {
            proof {
                vstd::utf8::decode_utf8_encode_utf8(body_view);
            }
            extract_cycles_from_http_response_body(text.as_str(), metric_name)
        },
    }
}

} // verus!
