//! Snapshots of the overlay's text: their file names, which of them the
//! history shows and how, which are removed, and when a new one is written.
//!
//! A snapshot is a settings file named after the local time of its writing,
//! `YYYY-MM-DD_HH-MM-SS.json`. Only the snapshots of the current day are kept.

use vstd::prelude::*;
use vstd::multiset::Multiset;
use crate::clock::{clock_date, clock_time, lemma_clock_time_shape};
use crate::text::{chars_of, concatenate, is_prefix, is_suffix, push_char, starts_with, ends_with,
    string_from_chars, str_eq, str_less, seq_less, lemma_seq_less_order};

verus! {

/// The extension of snapshot files.
pub open spec fn json_ext() -> Seq<char> {
    seq!['.', 'j', 's', 'o', 'n']
}

fn json_ext_str() -> (s: &'static str)
    ensures
        s@ == json_ext(),
{
    proof {
        reveal_strlit(".json");
    }
    let s = ".json";
    assert(s@ =~= json_ext());
    s
}

pub open spec fn is_digit(c: char) -> bool {
    '0' <= c <= '9'
}

pub open spec fn all_digits(s: Seq<char>) -> bool {
    forall|i: int| 0 <= i < s.len() ==> is_digit(#[trigger] s[i])
}

/// A year as the date format writes it: four digits, or a sign followed by at
/// least four digits for years before 1 BCE or after 9999 CE.
pub open spec fn is_year_text(s: Seq<char>) -> bool {
    ||| s.len() == 4 && all_digits(s)
    ||| s.len() >= 5 && (s[0] == '+' || s[0] == '-') && all_digits(s.drop_first())
}

/// A local date written as `%Y-%m-%d`: a year, then `-`, two digits, `-`,
/// two digits.
pub open spec fn is_date_stamp(s: Seq<char>) -> bool {
    let n = s.len() as int;
    &&& n >= 10
    &&& is_year_text(s.subrange(0, n - 6))
    &&& s[n - 6] == '-'
    &&& is_digit(s[n - 5])
    &&& is_digit(s[n - 4])
    &&& s[n - 3] == '-'
    &&& is_digit(s[n - 2])
    &&& is_digit(s[n - 1])
}

/// A local time written as `%Y-%m-%d_%H-%M-%S`: a date, then `_`, two digits,
/// `-`, two digits, `-`, two digits.
pub open spec fn is_time_stamp(s: Seq<char>) -> bool {
    let n = s.len() as int;
    &&& n >= 19
    &&& is_date_stamp(s.subrange(0, n - 9))
    &&& s[n - 9] == '_'
    &&& is_digit(s[n - 8])
    &&& is_digit(s[n - 7])
    &&& s[n - 6] == '-'
    &&& is_digit(s[n - 5])
    &&& is_digit(s[n - 4])
    &&& s[n - 3] == '-'
    &&& is_digit(s[n - 2])
    &&& is_digit(s[n - 1])
}

/// The current local time formatted with `pattern`, one of `%Y-%m-%d` and
/// `%Y-%m-%d_%H-%M-%S` (chrono's `Local::now`, then `DateTime::format` and
/// `to_string`). The clock gives a different value on each call; every value
/// has the shape that chrono documents for these fields: the year zero-padded
/// to four digits (with a sign outside 0..=9999), month, day, hour, minute and
/// second zero-padded to two digits.
#[verifier::external_body]
fn local_time_text(pattern: &str) -> (s: String)
    requires
        pattern@ == "%Y-%m-%d"@ || pattern@ == "%Y-%m-%d_%H-%M-%S"@,
    ensures
        pattern@ == "%Y-%m-%d"@ ==> is_date_stamp(s@) && clock_date(s@),
        pattern@ == "%Y-%m-%d_%H-%M-%S"@ ==> is_time_stamp(s@) && clock_time(s@),
{
    chrono::Local::now().format(pattern).to_string()
}

/// The date part of a time stamp `%Y-%m-%d_%H-%M-%S`: all but its last nine
/// characters.
pub open spec fn date_part(t: Seq<char>) -> Seq<char> {
    t.subrange(0, t.len() - 9)
}

/// The current local date, `%Y-%m-%d`, as history file names begin with it: the
/// date part of a reading of the local clock.
pub fn current_day() -> (s: String)
    ensures
        is_date_stamp(s@),
        exists|t: Seq<char>| clock_time(t) && s@ == #[trigger] date_part(t),
{
    let stamp = local_time_text("%Y-%m-%d_%H-%M-%S");
    let v = chars_of(stamp.as_str());
    let head = slice_chars(&v, 0, v.len() - 9);
    let day = string_from_chars(&head);
    assert(day@ == date_part(stamp@));
    day
}

/// The name of the snapshot file written at time `stamp`.
pub fn snapshot_file_name(stamp: &str) -> (name: String)
    ensures
        name@ == stamp@ + json_ext(),
{
    concatenate(stamp, json_ext_str())
}

/// A file of the history directory belongs to the history of day `today` when
/// its name starts with that date and ends with `.json`.
pub open spec fn history_file_of(name: Seq<char>, today: Seq<char>) -> bool {
    is_prefix(today, name) && is_suffix(json_ext(), name)
}

/// Whether the file `name` is shown in the history of day `today`.
pub fn is_history_file(name: &str, today: &str) -> (r: bool)
    ensures
        r == history_file_of(name@, today@),
{
    starts_with(name, today) && ends_with(name, json_ext_str())
}

/// Whether the file `name` of the history directory is removed on day
/// `today`: every file whose name does not start with that date is.
pub fn is_stale_history_file(name: &str, today: &str) -> (r: bool)
    ensures
        r == !is_prefix(today@, name@),
{
    !starts_with(name, today)
}

/// `s` with every trailing `.json` removed, however many there are.
pub open spec fn trim_json(s: Seq<char>) -> Seq<char>
    decreases s.len(),
{
    if is_suffix(json_ext(), s) {
        trim_json(s.subrange(0, s.len() - 5))
    } else {
        s
    }
}

/// Index of the first `c` in `s` at or after `i`, or the length of `s` when
/// there is none.
pub open spec fn find_from(s: Seq<char>, c: char, i: int) -> int
    decreases s.len() - i,
{
    if i >= s.len() {
        s.len() as int
    } else if s[i] == c {
        i
    } else {
        find_from(s, c, i + 1)
    }
}

/// The first piece of `s` split at `c`: everything before the first `c`.
pub open spec fn first_piece(s: Seq<char>, c: char) -> Seq<char> {
    s.subrange(0, find_from(s, c, 0))
}

/// The second piece of `s` split at `c`, or the empty sequence when `s` holds
/// no `c`.
pub open spec fn second_piece(s: Seq<char>, c: char) -> Seq<char> {
    let k = find_from(s, c, 0);
    if k >= s.len() {
        Seq::empty()
    } else {
        let rest = s.subrange(k + 1, s.len() as int);
        first_piece(rest, c)
    }
}

/// `s` with every `-` replaced by `:`.
pub open spec fn dashes_to_colons(s: Seq<char>) -> Seq<char> {
    s.map_values(|ch: char| if ch == '-' { ':' } else { ch })
}

/// How the history shows the time of snapshot `name`: the name without its
/// `.json` ending is split at `_`; the date before the first `_` is followed by
/// a space and the part after it, its dashes turned into colons, so that
/// `2024-05-01_09-30-00.json` shows as `2024-05-01 09:30:00`.
pub open spec fn history_display(name: Seq<char>) -> Seq<char> {
    let ts = trim_json(name);
    first_piece(ts, '_') + seq![' '] + dashes_to_colons(second_piece(ts, '_'))
}

proof fn lemma_find_from_bounds(s: Seq<char>, c: char, i: int)
    requires
        0 <= i <= s.len(),
    ensures
        i <= find_from(s, c, i) <= s.len(),
        find_from(s, c, i) < s.len() ==> s[find_from(s, c, i)] == c,
        forall|j: int| i <= j < find_from(s, c, i) ==> s[j] != c,
    decreases s.len() - i,
{
    if i < s.len() && s[i] != c {
        lemma_find_from_bounds(s, c, i + 1);
    }
}

/// Index of the first `c` in `v` at or after `i`, or the length of `v`.
fn find_char(v: &Vec<char>, c: char, start: usize) -> (k: usize)
    requires
        start <= v@.len(),
    ensures
        k == find_from(v@, c, start as int),
{
    let mut i = start;
    while i < v.len() && v[i] != c
        invariant
            start <= i <= v@.len(),
            find_from(v@, c, start as int) == find_from(v@, c, i as int),
        decreases v@.len() - i,
    {
        i = i + 1;
    }
    i
}

fn slice_chars(v: &Vec<char>, from: usize, to: usize) -> (r: Vec<char>)
    requires
        from <= to <= v@.len(),
    ensures
        r@ == v@.subrange(from as int, to as int),
{
    let mut r: Vec<char> = Vec::new();
    let mut i = from;
    while i < to
        invariant
            from <= i <= to,
            to <= v@.len(),
            r@ == v@.subrange(from as int, i as int),
        decreases to - i,
    {
        r.push(v[i]);
        assert(v@.subrange(from as int, i + 1) =~= v@.subrange(from as int, i as int).push(v@[i as int]));
        i = i + 1;
    }
    r
}

/// Length of `v` once every trailing `.json` is removed.
fn trimmed_len(v: &Vec<char>) -> (m: usize)
    ensures
        m <= v@.len(),
        v@.subrange(0, m as int) == trim_json(v@),
{
    let ext: Vec<char> = chars_of(json_ext_str());
    let mut m = v.len();
    assert(v@.subrange(0, m as int) =~= v@);
    loop
        invariant
            m <= v@.len(),
            ext@ == json_ext(),
            trim_json(v@.subrange(0, m as int)) == trim_json(v@),
        decreases m,
    {
        let ghost cur = v@.subrange(0, m as int);
        if m < 5 {
            assert(!is_suffix(json_ext(), cur));
            return m;
        }
        let mut k: usize = 0;
        let mut same = true;
        while k < 5
            invariant
                m >= 5,
                m <= v@.len(),
                k <= 5,
                ext@ == json_ext(),
                same == (forall|j: int| 0 <= j < k ==> v@[m - 5 + j] == ext@[j]),
            decreases 5 - k,
        {
            if v[m - 5 + k] != ext[k] {
                same = false;
            }
            k = k + 1;
        }
        proof {
            if same {
                assert(cur.subrange(cur.len() - 5, cur.len() as int) =~= json_ext());
            } else {
                let j = choose|j: int| 0 <= j < 5 && v@[m - 5 + j] != ext@[j];
                assert(cur.subrange(cur.len() - 5, cur.len() as int)[j] != json_ext()[j]);
            }
            assert(is_suffix(json_ext(), cur) == same);
        }
        if !same {
            return m;
        }
        assert(cur.subrange(0, cur.len() - 5) =~= v@.subrange(0, m - 5));
        m = m - 5;
    }
}

/// The time that the history shows for snapshot file `name`.
pub fn history_display_text(name: &str) -> (s: String)
    ensures
        s@ == history_display(name@),
{
    let v = chars_of(name);
    let m = trimmed_len(&v);
    let ts = slice_chars(&v, 0, m);
    let k = find_char(&ts, '_', 0);
    proof {
        lemma_find_from_bounds(ts@, '_', 0);
    }
    let head = slice_chars(&ts, 0, k);
    let mut out = string_from_chars(&head);
    let ghost first = out@;
    push_char(&mut out, ' ');
    let ghost second: Seq<char> = if k >= ts@.len() {
        Seq::empty()
    } else {
        first_piece(ts@.subrange(k + 1, ts@.len() as int), '_')
    };
    if k < ts.len() {
        let rest = slice_chars(&ts, k + 1, ts.len());
        let k2 = find_char(&rest, '_', 0);
        proof {
            lemma_find_from_bounds(rest@, '_', 0);
        }
        let mut i: usize = 0;
        while i < k2
            invariant
                k2 <= rest@.len(),
                i <= k2,
                second == rest@.subrange(0, k2 as int),
                out@ == first + seq![' '] + dashes_to_colons(second.subrange(0, i as int)),
            decreases k2 - i,
        {
            let ch = rest[i];
            let shown = if ch == '-' { ':' } else { ch };
            push_char(&mut out, shown);
            assert(dashes_to_colons(second.subrange(0, i + 1)) =~= dashes_to_colons(
                second.subrange(0, i as int),
            ).push(shown));
            i = i + 1;
        }
        assert(second.subrange(0, k2 as int) =~= second);
    } else {
        assert(dashes_to_colons(second) =~= Seq::<char>::empty());
    }
    assert(first == first_piece(ts@, '_'));
    assert(second == second_piece(ts@, '_'));
    out
}


/// One snapshot as the history shows it.
pub struct HistoryEntry {
    /// The snapshot's file name.
    pub filename: String,
    /// The time of the snapshot, as `history_display` shows it.
    pub timestamp: String,
    /// The overlay text that the snapshot holds.
    pub text: String,
}

/// The history entry of snapshot file `name`, whose text is `text` when the
/// file could be read and parsed; the text is empty otherwise.
pub fn history_entry(name: String, text: Option<String>) -> (e: HistoryEntry)
    ensures
        e.filename@ == name@,
        e.timestamp@ == history_display(name@),
        e.text@ == (match text {
            Some(t) => t@,
            None => Seq::<char>::empty(),
        }),
{
    let timestamp = history_display_text(name.as_str());
    let text = match text {
        Some(t) => t,
        None => String::new(),
    };
    HistoryEntry { filename: name, timestamp, text }
}

/// The entries are ordered by file name from the newest snapshot to the oldest.
pub open spec fn newest_first(s: Seq<HistoryEntry>) -> bool {
    forall|i: int, j: int| 0 <= i < j < s.len() ==> !seq_less(#[trigger] s[i].filename@, #[trigger] s[j].filename@)
}

/// `r` lists the entries of `s`, entry `k` of `r` being entry `perm[k]` of
/// `s`, no entry of `s` twice, and entries with equal names in their order in
/// `s`.
pub open spec fn stable_arrangement(r: Seq<HistoryEntry>, s: Seq<HistoryEntry>, perm: Seq<int>) -> bool {
    &&& perm.len() == r.len()
    &&& forall|k: int| 0 <= k < r.len() ==> 0 <= #[trigger] perm[k] < s.len() && r[k] == s[perm[k]]
    &&& forall|i: int, j: int| #![trigger perm[i], perm[j]] 0 <= i < j < r.len() ==> perm[i] != perm[j]
    &&& forall|i: int, j: int|
        #![trigger perm[i], perm[j]]
        0 <= i < j < r.len() && r[i].filename@ == r[j].filename@ ==> perm[i] < perm[j]
}

/// Orders history entries from the newest snapshot to the oldest, by file
/// name; entries with equal names keep their order.
pub fn sort_newest_first(entries: Vec<HistoryEntry>) -> (r: Vec<HistoryEntry>)
    ensures
        newest_first(r@),
        r@.len() == entries@.len(),
        r@.to_multiset() == entries@.to_multiset(),
        exists|perm: Seq<int>| stable_arrangement(r@, entries@, perm),
{
    broadcast use vstd::seq_lib::group_to_multiset_ensures, vstd::multiset::group_multiset_axioms;

    let mut rest = entries;
    let mut res: Vec<HistoryEntry> = Vec::new();
    let ghost orig = rest@;
    let ghost mut perm: Seq<int> = Seq::empty();
    assert(res@.to_multiset() =~= Multiset::<HistoryEntry>::empty());
    assert(rest@ =~= orig.subrange(0, orig.len() as int));
    while rest.len() > 0
        invariant
            newest_first(res@),
            res@.to_multiset().add(rest@.to_multiset()) == orig.to_multiset(),
            res@.len() + rest@.len() == orig.len(),
            rest@ == orig.subrange(res@.len() as int, orig.len() as int),
            stable_arrangement(res@, orig, perm),
            forall|k: int| 0 <= k < perm.len() ==> #[trigger] perm[k] < res@.len(),
        decreases rest@.len(),
    {
        let ghost before = rest@;
        let ghost t = res@.len() as int;
        let e = rest.remove(0);
        proof {
            vstd::seq_lib::to_multiset_remove(before, 0);
            vstd::seq_lib::to_multiset_contains(before, e);
            assert(before.contains(e)) by {
                assert(before[0] == e);
            }
            assert(before.to_multiset() =~= rest@.to_multiset().insert(e));
            assert(e == orig[t]);
            assert(rest@ =~= orig.subrange(t + 1, orig.len() as int));
        }
        let mut p: usize = 0;
        while p < res.len() && !str_less(res[p].filename.as_str(), e.filename.as_str())
            invariant
                p <= res@.len(),
                forall|k: int| 0 <= k < p ==> !seq_less(#[trigger] res@[k].filename@, e.filename@),
            decreases res@.len() - p,
        {
            p = p + 1;
        }
        let ghost old_res = res@;
        let ghost old_perm = perm;
        res.insert(p, e);
        proof {
            perm = old_perm.insert(p as int, t);
            vstd::seq_lib::to_multiset_insert(old_res, p as int, e);
            assert(res@.to_multiset().add(rest@.to_multiset()) =~= orig.to_multiset());
            assert forall|j: int| p < j < res@.len() implies seq_less(
                #[trigger] res@[j].filename@,
                e.filename@,
            ) by {
                let x = old_res[j - 1].filename@;
                let top = old_res[p as int].filename@;
                assert(res@[j] == old_res[j - 1]);
                assert(seq_less(top, e.filename@));
                if j - 1 > p {
                    assert(!seq_less(old_res[p as int].filename@, old_res[j - 1].filename@));
                }
                lemma_seq_less_order(x, top, e.filename@);
                lemma_seq_less_order(top, x, e.filename@);
            }
            assert forall|i: int, j: int| 0 <= i < j < res@.len() implies !seq_less(
                #[trigger] res@[i].filename@,
                #[trigger] res@[j].filename@,
            ) by {
                if j < p {
                } else if j == p {
                    assert(res@[i] == old_res[i]);
                } else if i < p {
                    assert(res@[i] == old_res[i]);
                    assert(res@[j] == old_res[j - 1]);
                } else if i == p {
                    assert(seq_less(res@[j].filename@, e.filename@));
                    lemma_seq_less_order(res@[j].filename@, e.filename@, e.filename@);
                } else {
                    assert(res@[i] == old_res[i - 1]);
                    assert(res@[j] == old_res[j - 1]);
                }
            }
            assert forall|k: int| 0 <= k < res@.len() implies 0 <= #[trigger] perm[k] < orig.len()
                && res@[k] == orig[perm[k]] by {
                if k < p {
                    assert(perm[k] == old_perm[k]);
                } else if k > p {
                    assert(perm[k] == old_perm[k - 1]);
                }
            }
            assert forall|k: int| 0 <= k < perm.len() implies #[trigger] perm[k] < res@.len() by {
                if k < p {
                    assert(perm[k] == old_perm[k]);
                } else if k > p {
                    assert(perm[k] == old_perm[k - 1]);
                }
            }
            assert forall|i: int, j: int| #![trigger perm[i], perm[j]] 0 <= i < j < res@.len() implies perm[i] != perm[j]
                && (res@[i].filename@ == res@[j].filename@ ==> perm[i] < perm[j]) by {
                if j < p {
                    assert(perm[i] == old_perm[i] && perm[j] == old_perm[j]);
                } else if j == p {
                    assert(perm[i] == old_perm[i]);
                    assert(old_perm[i] < t);
                } else if i < p {
                    assert(perm[i] == old_perm[i] && perm[j] == old_perm[j - 1]);
                    assert(res@[i] == old_res[i]);
                    assert(res@[j] == old_res[j - 1]);
                } else if i == p {
                    assert(perm[j] == old_perm[j - 1]);
                    assert(old_perm[j - 1] < t);
                    assert(seq_less(res@[j].filename@, e.filename@));
                    lemma_seq_less_order(e.filename@, e.filename@, e.filename@);
                } else {
                    assert(perm[i] == old_perm[i - 1] && perm[j] == old_perm[j - 1]);
                    assert(res@[i] == old_res[i - 1]);
                    assert(res@[j] == old_res[j - 1]);
                }
            }
            assert(stable_arrangement(res@, orig, perm));
        }
    }
    assert(rest@.to_multiset() =~= Multiset::<HistoryEntry>::empty());
    assert(res@.to_multiset() =~= res@.to_multiset().add(rest@.to_multiset()));
    assert(stable_arrangement(res@, orig, perm));
    res
}

/// Index of the newest of the snapshot files `names`: one whose name no other
/// name follows; `None` when there are no files.
pub fn newest_file(names: &Vec<String>) -> (r: Option<usize>)
    ensures
        r is None <==> names@.len() == 0,
        r matches Some(i) ==> i < names@.len() && forall|j: int| 0 <= j < names@.len() ==> !seq_less(names@[i as int]@, #[trigger] names@[j]@),
{
    if names.len() == 0 {
        return None;
    }
    let mut best: usize = 0;
    let n = names.len();
    proof {
        lemma_seq_less_order(names@[0]@, names@[0]@, names@[0]@);
    }
    for i in 1..n
        invariant
            n == names@.len(),
            best < n,
            forall|j: int| 0 <= j < i ==> !seq_less(names@[best as int]@, #[trigger] names@[j]@),
    {
        if str_less(names[best].as_str(), names[i].as_str()) {
            proof {
                assert forall|j: int| 0 <= j < i + 1 implies !seq_less(names@[i as int]@, #[trigger] names@[j]@) by {
                    lemma_seq_less_order(names@[i as int]@, names@[best as int]@, names@[j]@);
                    lemma_seq_less_order(names@[best as int]@, names@[j]@, names@[i as int]@);
                    lemma_seq_less_order(names@[j]@, names@[best as int]@, names@[i as int]@);
                    lemma_seq_less_order(names@[i as int]@, names@[j]@, names@[best as int]@);
                }
            }
            best = i;
        }
    }
    Some(best)
}

/// Whether a new snapshot of `text` is written, given the text of the newest
/// snapshot when it could be read and parsed: it is not when that text is the
/// same.
pub fn snapshot_needed(newest_text: Option<&str>, text: &str) -> (r: bool)
    ensures
        r == needs_snapshot(
            match newest_text {
                Some(t) => Some(t@),
                None => None,
            },
            text@,
        ),
{
    match newest_text {
        Some(t) => !str_eq(t, text),
        None => true,
    }
}


/// The name of the snapshot file to write for `text`, given the text of the
/// newest snapshot when it could be read and parsed: `None` when no snapshot is
/// needed, otherwise the current local time `%Y-%m-%d_%H-%M-%S` followed by
/// `.json`.
pub fn new_snapshot_name(newest_text: Option<&str>, text: &str) -> (r: Option<String>)
    ensures
        r is Some <==> needs_snapshot(
            match newest_text {
                Some(t) => Some(t@),
                None => None,
            },
            text@,
        ),
        r matches Some(name) ==> name@.len() >= 5 && is_time_stamp(name@.subrange(0, name@.len() - 5))
            && is_suffix(json_ext(), name@),
        r matches Some(name) ==> exists|t: Seq<char>| clock_time(t) && name@ == #[trigger] (t + json_ext()),
{
    if snapshot_needed(newest_text, text) {
        let stamp = local_time_text("%Y-%m-%d_%H-%M-%S");
        let name = snapshot_file_name(stamp.as_str());
        assert(name@.subrange(0, name@.len() - 5) =~= stamp@);
        assert(name@.subrange(name@.len() - 5, name@.len() as int) =~= json_ext());
        Some(name)
    } else {
        None
    }
}

/// A new snapshot of `text` is written unless the newest snapshot, when it
/// could be read, holds the same text.
pub open spec fn needs_snapshot(newest_text: Option<Seq<char>>, text: Seq<char>) -> bool {
    !(newest_text == Some(text))
}

/// Saving the same text again right after a snapshot of it writes no second
/// snapshot; any other text, or an unreadable newest snapshot, is written.
pub proof fn lemma_no_duplicate_snapshot(newest_text: Option<Seq<char>>, text: Seq<char>)
    ensures
        !needs_snapshot(Some(text), text),
        newest_text != Some(text) ==> needs_snapshot(newest_text, text),
{
}

proof fn lemma_find_at(s: Seq<char>, c: char, i: int, k: int)
    requires
        0 <= i <= k < s.len(),
        s[k] == c,
        forall|j: int| i <= j < k ==> s[j] != c,
    ensures
        find_from(s, c, i) == k,
    decreases k - i,
{
    if i < k {
        lemma_find_at(s, c, i + 1, k);
    }
}

proof fn lemma_find_none(s: Seq<char>, c: char, i: int)
    requires
        0 <= i <= s.len(),
        forall|j: int| i <= j < s.len() ==> s[j] != c,
    ensures
        find_from(s, c, i) == s.len(),
    decreases s.len() - i,
{
    if i < s.len() {
        lemma_find_none(s, c, i + 1);
    }
}

proof fn lemma_date_has_no_underscore(d: Seq<char>)
    requires
        is_date_stamp(d),
    ensures
        forall|j: int| 0 <= j < d.len() ==> d[j] != '_',
{
    let n = d.len() as int;
    let y = d.subrange(0, n - 6);
    assert forall|j: int| 0 <= j < d.len() implies d[j] != '_' by {
        if j < n - 6 {
            assert(d[j] == y[j]);
            if y.len() == 4 {
                assert(is_digit(y[j]));
            } else if j > 0 {
                assert(y.drop_first()[j - 1] == y[j]);
                assert(is_digit(y.drop_first()[j - 1]));
            }
        }
    }
}

/// A snapshot written on day `today` shows in that day's history and is not
/// removed when the history is cleaned on that day.
pub proof fn lemma_snapshot_of_today_is_kept(stamp: Seq<char>, today: Seq<char>)
    requires
        is_prefix(today, stamp),
    ensures
        history_file_of(stamp + json_ext(), today),
        is_prefix(today, stamp + json_ext()),
{
    let name = stamp + json_ext();
    assert(name.subrange(0, today.len() as int) =~= stamp.subrange(0, today.len() as int));
    assert(name.subrange(name.len() - 5, name.len() as int) =~= json_ext());
}

/// The history shows a snapshot written at time `stamp` as its date, a space,
/// and its time of day with colons: `2024-05-01_09-30-00` shows as
/// `2024-05-01 09:30:00`.
pub proof fn lemma_snapshot_display(stamp: Seq<char>)
    requires
        is_time_stamp(stamp),
    ensures
        history_display(stamp + json_ext()) == stamp.subrange(0, stamp.len() - 9) + seq![' ']
            + dashes_to_colons(stamp.subrange(stamp.len() - 8, stamp.len() as int)),
{
    let n = stamp.len() as int;
    let name = stamp + json_ext();
    assert(name.subrange(name.len() - 5, name.len() as int) =~= json_ext());
    assert(name.subrange(0, name.len() - 5) =~= stamp);
    assert(!is_suffix(json_ext(), stamp)) by {
        let tail = stamp.subrange(n - 5, n);
        assert(tail[4] == stamp[n - 1]);
        assert(is_digit(stamp[n - 1]));
        assert(tail[4] != json_ext()[4]);
    }
    assert(trim_json(stamp) == stamp);
    assert(trim_json(name) == stamp);
    let date = stamp.subrange(0, n - 9);
    lemma_date_has_no_underscore(date);
    assert forall|j: int| 0 <= j < n - 9 implies stamp[j] != '_' by {
        assert(stamp[j] == date[j]);
    }
    lemma_find_at(stamp, '_', 0, n - 9);
    let rest = stamp.subrange(n - 8, n);
    assert(stamp.subrange(n - 9 + 1, n) == rest);
    assert forall|j: int| 0 <= j < rest.len() implies rest[j] != '_' by {
        assert(rest[j] == stamp[n - 8 + j]);
    }
    lemma_find_none(rest, '_', 0);
    assert(first_piece(rest, '_') =~= rest);
    assert(first_piece(stamp, '_') == date);
    assert(second_piece(stamp, '_') == rest);
}


/// Saving the same text twice writes one snapshot. After the first save wrote
/// the snapshot `written`, a name that no other file name of the directory
/// follows, the newest file that a second save picks (`picked`, chosen as
/// `newest_file` does) is that snapshot; when reading it back gives the saved
/// text, the second save writes nothing.
pub proof fn lemma_repeated_save_writes_once(
    names: Seq<Seq<char>>,
    written: Seq<char>,
    picked: int,
    read_back: Option<Seq<char>>,
    text: Seq<char>,
)
    requires
        names.contains(written),
        forall|j: int| 0 <= j < names.len() ==> !seq_less(written, #[trigger] names[j]),
        0 <= picked < names.len(),
        forall|j: int| 0 <= j < names.len() ==> !seq_less(names[picked], #[trigger] names[j]),
        names[picked] == written ==> read_back == Some(text),
    ensures
        names[picked] == written,
        !needs_snapshot(read_back, text),
{
    let w = choose|j: int| 0 <= j < names.len() && names[j] == written;
    lemma_seq_less_order(names[picked], names[w], names[w]);
    assert(!seq_less(written, names[picked]));
    assert(!seq_less(names[picked], names[w]));
}


/// A snapshot named after a reading `t` of the local clock belongs to that
/// reading's day: the name is the reading's date (year, month, day), `_`, its
/// time of day, then `.json`; it starts with the date that `current_day` gives
/// for the same reading, so it is shown in that day's history, is not removed
/// on that day, and shows as that date and time.
pub proof fn lemma_snapshot_belongs_to_reading_day(t: Seq<char>)
    requires
        clock_time(t),
    ensures
        is_date_stamp(date_part(t)),
        t == date_part(t) + seq!['_'] + t.subrange(t.len() - 8, t.len() as int),
        is_prefix(date_part(t), t + json_ext()),
        history_file_of(t + json_ext(), date_part(t)),
        history_display(t + json_ext()) == date_part(t) + seq![' '] + dashes_to_colons(
            t.subrange(t.len() - 8, t.len() as int),
        ),
{
    lemma_clock_time_shape(t);
    let n = t.len() as int;
    assert(t =~= date_part(t) + seq!['_'] + t.subrange(n - 8, n));
    assert(is_prefix(date_part(t), t)) by {
        assert(t.subrange(0, n - 9) =~= date_part(t));
    }
    lemma_snapshot_of_today_is_kept(t, date_part(t));
    lemma_snapshot_display(t);
}

} // verus!
