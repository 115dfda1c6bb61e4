//! Ordering of track lists: sort keys, the order on key values, and a stable sort.
use vstd::prelude::*;
use crate::text::{chars_of, extend_chars, spec_to_lowercase, to_lowercase};
use crate::track::TrackSummary;

verus! {

/// The column a track list is ordered by.
#[derive(Clone, Copy, PartialEq, Eq, Structural, Debug)]
pub enum SortKey {
    Added,
    Title,
    Artist,
    Album,
    Format,
    Size,
    Duration,
    Bitrate,
    Status,
}

/// The value a track is ordered by under one sort key.
pub enum SortValue {
    Num(int),
    Text(Seq<char>),
}

/// Lexicographic order on texts by code point (the order `str` comparison gives,
/// since UTF-8 preserves code-point order byte by byte).
pub open spec fn text_le(a: Seq<char>, b: Seq<char>) -> bool
    decreases a.len(),
{
    if a.len() == 0 {
        true
    } else if b.len() == 0 {
        false
    } else if a[0] != b[0] {
        (a[0] as int) < (b[0] as int)
    } else {
        text_le(a.drop_first(), b.drop_first())
    }
}

/// Order on sort values; numbers before texts (never mixed under one key).
pub open spec fn value_le(a: SortValue, b: SortValue) -> bool {
    match (a, b) {
        (SortValue::Num(x), SortValue::Num(y)) => x <= y,
        (SortValue::Text(x), SortValue::Text(y)) => text_le(x, y),
        (SortValue::Num(_), SortValue::Text(_)) => true,
        (SortValue::Text(_), SortValue::Num(_)) => false,
    }
}

/// Text key of an optional tag: present values (lower-cased, prefixed by `0`)
/// come before missing ones (`1`).
pub open spec fn opt_text_key(s: Option<String>) -> Seq<char> {
    match s {
        Some(v) => seq!['0'] + spec_to_lowercase(v@),
        None => seq!['1'],
    }
}

/// The value `t` is ordered by under `key`.
pub open spec fn sort_value(t: TrackSummary, key: SortKey) -> SortValue {
    match key {
        SortKey::Added => SortValue::Num(match t.id { Some(i) => i as int, None => i64::MAX as int }),
        SortKey::Title => SortValue::Text(opt_text_key(t.title)),
        SortKey::Artist => SortValue::Text(opt_text_key(t.artist)),
        SortKey::Album => SortValue::Text(opt_text_key(t.album)),
        SortKey::Format => SortValue::Text(opt_text_key(t.file_format)),
        SortKey::Size => SortValue::Num(match t.file_size { Some(s) => s as int, None => -1 }),
        SortKey::Duration => SortValue::Num(match t.duration { Some(d) => d as int, None => 0 }),
        SortKey::Bitrate => SortValue::Num(match t.bitrate { Some(b) => b as int, None => 0 }),
        SortKey::Status => SortValue::Text(t.status@),
    }
}

/// `p` lists each index below `n` exactly once.
pub open spec fn is_index_permutation(p: Seq<int>, n: nat) -> bool {
    &&& p.len() == n
    &&& forall|i: int| 0 <= i < p.len() ==> 0 <= #[trigger] p[i] < n
    &&& forall|i: int, j: int| 0 <= i < j < p.len() ==> p[i] != p[j]
}

/// `res` is `orig` reordered by the index permutation `p`.
pub open spec fn reorders(orig: Seq<TrackSummary>, res: Seq<TrackSummary>, p: Seq<int>) -> bool {
    &&& is_index_permutation(p, orig.len())
    &&& res.len() == orig.len()
    &&& forall|k: int| 0 <= k < res.len() ==> res[k] == orig[#[trigger] p[k]]
}

/// The values of `s` under `key` never decrease.
pub open spec fn sorted_by(s: Seq<TrackSummary>, key: SortKey) -> bool {
    forall|i: int, j: int|
        0 <= i < j < s.len() ==> value_le(sort_value(#[trigger] s[i], key), sort_value(#[trigger] s[j], key))
}

/// Reordering `p` keeps rows with equal values in their original relative order.
pub open spec fn keeps_ties(res: Seq<TrackSummary>, p: Seq<int>, key: SortKey) -> bool {
    forall|i: int, j: int|
        0 <= i < j < res.len() && sort_value(#[trigger] res[i], key) == sort_value(#[trigger] res[j], key)
            ==> p[i] < p[j]
}

/// `res` is the stable sort of `orig` by `key`.
pub open spec fn stable_sort_of(orig: Seq<TrackSummary>, res: Seq<TrackSummary>, key: SortKey) -> bool {
    exists|p: Seq<int>| reorders(orig, res, p) && sorted_by(res, key) && keeps_ties(res, p, key)
}

/// A stable sort keeps the number of rows.
pub proof fn lemma_stable_sort_len(orig: Seq<TrackSummary>, res: Seq<TrackSummary>, key: SortKey)
    requires
        stable_sort_of(orig, res, key),
    ensures
        res.len() == orig.len(),
        res.reverse().len() == orig.len(),
{
}

/// The text order is total.
pub proof fn lemma_text_le_total(a: Seq<char>, b: Seq<char>)
    ensures
        text_le(a, b) || text_le(b, a),
    decreases a.len(),
{
    if a.len() > 0 && b.len() > 0 {
        if a[0] == b[0] {
            lemma_text_le_total(a.drop_first(), b.drop_first());
        }
    }
}

/// The text order is antisymmetric.
pub proof fn lemma_text_le_antisymmetric(a: Seq<char>, b: Seq<char>)
    requires
        text_le(a, b),
        text_le(b, a),
    ensures
        a == b,
    decreases a.len(),
{
    if a.len() == 0 {
        assert(b.len() == 0);
        assert(a =~= b);
    } else {
        lemma_text_le_antisymmetric(a.drop_first(), b.drop_first());
        assert(a =~= seq![a[0]] + a.drop_first());
        assert(b =~= seq![b[0]] + b.drop_first());
    }
}

/// The text order is transitive.
pub proof fn lemma_text_le_transitive(a: Seq<char>, b: Seq<char>, c: Seq<char>)
    requires
        text_le(a, b),
        text_le(b, c),
    ensures
        text_le(a, c),
    decreases a.len(),
{
    if a.len() > 0 && b.len() > 0 && c.len() > 0 && a[0] == b[0] && b[0] == c[0] {
        lemma_text_le_transitive(a.drop_first(), b.drop_first(), c.drop_first());
    }
}

/// The value order is a total order.
pub proof fn lemma_value_le_order(a: SortValue, b: SortValue, c: SortValue)
    ensures
        value_le(a, b) || value_le(b, a),
        value_le(a, b) && value_le(b, a) ==> a == b,
        value_le(a, b) && value_le(b, c) ==> value_le(a, c),
{
    match (a, b) {
        (SortValue::Text(x), SortValue::Text(y)) => {
            lemma_text_le_total(x, y);
            if text_le(x, y) && text_le(y, x) {
                lemma_text_le_antisymmetric(x, y);
            }
        },
        _ => {},
    }
    match (a, b, c) {
        (SortValue::Text(x), SortValue::Text(y), SortValue::Text(z)) => {
            if text_le(x, y) && text_le(y, z) {
                lemma_text_le_transitive(x, y, z);
            }
        },
        _ => {},
    }
}

/// Tags in list order: present texts compared lower-cased by code point,
/// present before missing.
pub open spec fn tag_in_order(a: Option<String>, b: Option<String>) -> bool {
    match (a, b) {
        (Some(x), Some(y)) => text_le(spec_to_lowercase(x@), spec_to_lowercase(y@)),
        (Some(_), None) => true,
        (None, Some(_)) => false,
        (None, None) => true,
    }
}

/// Row `a` may stand before row `b` in a list sorted ascending by the column
/// `key`: insertion order (id, rows without one last); title, artist, album or
/// format as tags; file size (unknown first); duration and bitrate (unknown
/// as zero); status as written.
pub open spec fn column_in_order(key: SortKey, a: TrackSummary, b: TrackSummary) -> bool {
    match key {
        SortKey::Added => (match a.id { Some(i) => i as int, None => i64::MAX as int })
            <= (match b.id { Some(i) => i as int, None => i64::MAX as int }),
        SortKey::Title => tag_in_order(a.title, b.title),
        SortKey::Artist => tag_in_order(a.artist, b.artist),
        SortKey::Album => tag_in_order(a.album, b.album),
        SortKey::Format => tag_in_order(a.file_format, b.file_format),
        SortKey::Size => (match a.file_size { Some(s) => s as int, None => -1 })
            <= (match b.file_size { Some(s) => s as int, None => -1 }),
        SortKey::Duration => (match a.duration { Some(d) => d as int, None => 0 })
            <= (match b.duration { Some(d) => d as int, None => 0 }),
        SortKey::Bitrate => (match a.bitrate { Some(d) => d as int, None => 0 })
            <= (match b.bitrate { Some(d) => d as int, None => 0 }),
        SortKey::Status => text_le(a.status@, b.status@),
    }
}

proof fn lemma_text_key_order(a: Option<String>, b: Option<String>)
    ensures
        text_le(opt_text_key(a), opt_text_key(b)) == tag_in_order(a, b),
{
    reveal_with_fuel(text_le, 2);
    let ka = opt_text_key(a);
    let kb = opt_text_key(b);
    assert(('0' as int) < ('1' as int));
    match (a, b) {
        (Some(x), Some(y)) => {
            assert(ka[0] == '0' && kb[0] == '0');
            assert(ka.drop_first() =~= spec_to_lowercase(x@));
            assert(kb.drop_first() =~= spec_to_lowercase(y@));
        },
        (Some(x), None) => {
            assert(ka[0] == '0' && kb[0] == '1');
        },
        (None, Some(y)) => {
            assert(ka[0] == '1' && kb[0] == '0');
        },
        (None, None) => {
            assert(ka.drop_first() =~= Seq::<char>::empty());
            assert(kb.drop_first() =~= Seq::<char>::empty());
        },
    }
}

/// A list sorted by a column has that column in order: every row may stand
/// before each later one, judged on the column's own field (for the artist
/// column, the artist tag; for the bitrate column, the bitrate; and so on).
pub proof fn lemma_sorted_rows_follow_the_column(orig: Seq<TrackSummary>, res: Seq<TrackSummary>, key: SortKey)
    requires
        stable_sort_of(orig, res, key),
    ensures
        res.len() == orig.len(),
        forall|i: int, j: int| 0 <= i < j < res.len() ==> column_in_order(key, #[trigger] res[i], #[trigger] res[j]),
{
    assert forall|i: int, j: int| 0 <= i < j < res.len() implies column_in_order(key, #[trigger] res[i], #[trigger] res[j]) by {
        assert(value_le(sort_value(res[i], key), sort_value(res[j], key)));
        match key {
            SortKey::Title => lemma_text_key_order(res[i].title, res[j].title),
            SortKey::Artist => lemma_text_key_order(res[i].artist, res[j].artist),
            SortKey::Album => lemma_text_key_order(res[i].album, res[j].album),
            SortKey::Format => lemma_text_key_order(res[i].file_format, res[j].file_format),
            _ => {},
        }
    }
}

/// Executable sort value.
pub enum KeyVal {
    Num(i64),
    Text(Vec<char>),
}

impl KeyVal {
    pub open spec fn value(&self) -> SortValue {
        match self {
            KeyVal::Num(n) => SortValue::Num(*n as int),
            KeyVal::Text(t) => SortValue::Text(t@),
        }
    }
}

fn text_le_exec(a: &Vec<char>, b: &Vec<char>) -> (res: bool)
    ensures
        res == text_le(a@, b@),
{
    let mut i: usize = 0;
    assert(a@.skip(0) =~= a@);
    assert(b@.skip(0) =~= b@);
    while i < a.len() && i < b.len() && a[i] == b[i]
        invariant
            i <= a.len(),
            i <= b.len(),
            text_le(a@, b@) == text_le(a@.skip(i as int), b@.skip(i as int)),
        decreases a.len() - i,
    {
        assert(a@.skip(i as int).drop_first() =~= a@.skip(i + 1));
        assert(b@.skip(i as int).drop_first() =~= b@.skip(i + 1));
        i += 1;
    }
    if i == a.len() {
        true
    } else if i == b.len() {
        false
    } else {
        a[i] < b[i]
    }
}

fn key_le(a: &KeyVal, b: &KeyVal) -> (res: bool)
    ensures
        res == value_le(a.value(), b.value()),
{
    match (a, b) {
        (KeyVal::Num(x), KeyVal::Num(y)) => *x <= *y,
        (KeyVal::Text(x), KeyVal::Text(y)) => text_le_exec(x, y),
        (KeyVal::Num(_), KeyVal::Text(_)) => true,
        (KeyVal::Text(_), KeyVal::Num(_)) => false,
    }
}

fn opt_text_key_exec(s: &Option<String>) -> (res: Vec<char>)
    ensures
        res@ == opt_text_key(*s),
{
    match s {
        Some(v) => {
            let lower = to_lowercase(v.as_str());
            let mut r: Vec<char> = Vec::new();
            r.push('0');
            let tail = chars_of(lower.as_str());
            extend_chars(&mut r, &tail);
            r
        },
        None => {
            let mut r: Vec<char> = Vec::new();
            r.push('1');
            assert(r@ =~= seq!['1']);
            r
        },
    }
}

/// The executable sort value of `t` under `key`.
fn key_of(t: &TrackSummary, key: SortKey) -> (res: KeyVal)
    ensures
        res.value() == sort_value(*t, key),
{
    match key {
        SortKey::Added => KeyVal::Num(match t.id { Some(i) => i, None => i64::MAX }),
        SortKey::Title => KeyVal::Text(opt_text_key_exec(&t.title)),
        SortKey::Artist => KeyVal::Text(opt_text_key_exec(&t.artist)),
        SortKey::Album => KeyVal::Text(opt_text_key_exec(&t.album)),
        SortKey::Format => KeyVal::Text(opt_text_key_exec(&t.file_format)),
        SortKey::Size => KeyVal::Num(match t.file_size { Some(s) => s, None => -1 }),
        SortKey::Duration => KeyVal::Num(match t.duration { Some(d) => d as i64, None => 0 }),
        SortKey::Bitrate => KeyVal::Num(match t.bitrate { Some(b) => b as i64, None => 0 }),
        SortKey::Status => KeyVal::Text(chars_of(t.status.as_str())),
    }
}

/// Sorts `tracks` by `key`, stably, ascending; then reverses the whole list when
/// `desc` is set. Text keys compare case-insensitively with missing values last
/// (ascending); status compares as written.
pub fn sort_tracks(tracks: &mut Vec<TrackSummary>, key: SortKey, desc: bool)
    ensures
        exists|s: Seq<TrackSummary>|
            stable_sort_of(old(tracks)@, s, key) && final(tracks)@ == (if desc { s.reverse() } else { s }),
        final(tracks)@.len() == old(tracks)@.len(),
        forall|i: int, j: int| 0 <= i < j < final(tracks)@.len() ==> (if desc {
            column_in_order(key, #[trigger] final(tracks)@[j], #[trigger] final(tracks)@[i])
        } else {
            column_in_order(key, final(tracks)@[i], final(tracks)@[j])
        }),
{
    let ghost orig = tracks@;
    let n = tracks.len();
    let mut keys: Vec<KeyVal> = Vec::new();
    let mut k: usize = 0;
    while k < n
        invariant
            n == tracks@.len(),
            tracks@ == orig,
            k <= n,
            keys@.len() == k,
            forall|j: int| 0 <= j < k ==> (#[trigger] keys@[j]).value() == sort_value(tracks@[j], key),
        decreases n - k,
    {
        keys.push(key_of(&tracks[k], key));
        k += 1;
    }
    let ghost mut p: Seq<int> = Seq::new(n as nat, |j: int| j);
    let mut i: usize = 0;
    while i < n
        invariant
            i <= n,
            tracks@.len() == n,
            keys@.len() == n,
            orig.len() == n,
            forall|j: int| 0 <= j < n ==> (#[trigger] keys@[j]).value() == sort_value(tracks@[j], key),
            reorders(orig, tracks@, p),
            forall|j: int| i <= j < n ==> #[trigger] p[j] == j,
            forall|j: int| 0 <= j < i ==> #[trigger] p[j] < i,
            sorted_by(tracks@.take(i as int), key),
            keeps_ties(tracks@.take(i as int), p, key),
        decreases n - i,
    {
        // find the insertion point: after every row whose value is <= the new row's
        let mut pos: usize = i;
        while pos > 0 && !key_le(&keys[pos - 1], &keys[i])
            invariant
                pos <= i < n,
                keys@.len() == n,
                forall|j: int| pos <= j < i ==> !value_le(#[trigger] keys@[j].value(), keys@[i as int].value()),
            decreases pos,
        {
            pos -= 1;
        }
        let ghost old_tracks = tracks@;
        let ghost old_keys = keys@;
        let ghost old_p = p;
        let x = tracks.remove(i);
        tracks.insert(pos, x);
        let kx = keys.remove(i);
        keys.insert(pos, kx);
        proof {
            p = old_p.remove(i as int).insert(pos as int, i as int);
            let vx = sort_value(x, key);
            assert(vx == old_keys[i as int].value());
            // positions in the new prefix [0, i]
            assert forall|j: int| 0 <= j <= i implies #[trigger] tracks@[j] == (if j < pos {
                old_tracks[j]
            } else if j == pos {
                x
            } else {
                old_tracks[j - 1]
            }) by {}
            assert forall|j: int| 0 <= j < n implies (#[trigger] keys@[j]).value() == sort_value(tracks@[j], key) by {
                if j < pos {
                } else if j == pos {
                } else if j <= i {
                    assert(keys@[j] == old_keys[j - 1]);
                } else {
                    assert(keys@[j] == old_keys[j]);
                }
            }
            // every earlier row has a value <= vx; every later one (in the prefix) a larger value
            assert forall|j: int| 0 <= j < pos implies value_le(sort_value(#[trigger] old_tracks[j], key), vx) by {
                if pos > 0 {
                    assert(value_le(old_keys[pos - 1].value(), vx));
                    if j < pos - 1 {
                        assert(value_le(sort_value(old_tracks.take(i as int)[j], key), sort_value(old_tracks.take(i as int)[pos - 1], key)));
                        lemma_value_le_order(sort_value(old_tracks[j], key), old_keys[pos - 1].value(), vx);
                    }
                }
            }
            assert forall|j: int| pos <= j < i implies !value_le(sort_value(#[trigger] old_tracks[j], key), vx)
                && value_le(vx, sort_value(old_tracks[j], key)) by {
                assert(old_keys[j].value() == sort_value(old_tracks[j], key));
                lemma_value_le_order(sort_value(old_tracks[j], key), vx, vx);
            }
            // sortedness of the new prefix
            let np = tracks@.take(i + 1);
            assert forall|a: int, b: int| 0 <= a < b < np.len() implies value_le(
                sort_value(#[trigger] np[a], key), sort_value(#[trigger] np[b], key)) by {
                let ta = tracks@[a];
                let tb = tracks@[b];
                if a == pos {
                    assert(value_le(vx, sort_value(old_tracks[b - 1], key)));
                } else if b == pos {
                    assert(value_le(sort_value(old_tracks[a], key), vx));
                } else {
                    let oa = if a < pos { a } else { a - 1 };
                    let ob = if b < pos { b } else { b - 1 };
                    assert(value_le(sort_value(old_tracks.take(i as int)[oa], key), sort_value(old_tracks.take(i as int)[ob], key)));
                }
            }
            // the index permutation
            assert forall|j: int| 0 <= j < n implies #[trigger] tracks@[j] == orig[p[j]] by {
                if j < pos {
                    assert(p[j] == old_p[j]);
                } else if j == pos {
                    assert(p[j] == i);
                    assert(old_p[i as int] == i);
                } else if j <= i {
                    assert(p[j] == old_p[j - 1]);
                } else {
                    assert(p[j] == old_p[j]);
                }
            }
            assert forall|a: int, b: int| 0 <= a < b < p.len() implies p[a] != p[b] by {
                let oa = if a < pos { a } else if a == pos { i as int } else if a <= i { a - 1 } else { a };
                let ob = if b < pos { b } else if b == pos { i as int } else if b <= i { b - 1 } else { b };
                assert(p[a] == old_p[oa]);
                assert(p[b] == old_p[ob]);
            }
            assert forall|j: int| 0 <= j < p.len() implies 0 <= #[trigger] p[j] < n by {
                if j < pos {
                    assert(p[j] == old_p[j]);
                } else if j == pos {
                } else if j <= i {
                    assert(p[j] == old_p[j - 1]);
                } else {
                    assert(p[j] == old_p[j]);
                }
            }
            assert forall|j: int| i + 1 <= j < n implies #[trigger] p[j] == j by {
                assert(p[j] == old_p[j]);
            }
            assert forall|j: int| 0 <= j < i + 1 implies #[trigger] p[j] < i + 1 by {
                if j < pos {
                    assert(p[j] == old_p[j]);
                } else if j == pos {
                } else {
                    assert(p[j] == old_p[j - 1]);
                }
            }
            // ties keep their order
            assert forall|a: int, b: int| 0 <= a < b < np.len() && sort_value(#[trigger] np[a], key)
                == sort_value(#[trigger] np[b], key) implies p[a] < p[b] by {
                if a == pos {
                    assert(!value_le(sort_value(old_tracks[b - 1], key), vx));
                    lemma_value_le_order(vx, vx, vx);
                } else if b == pos {
                    assert(p[b] == i);
                    assert(p[a] < i) by {
                        assert(p[a] == old_p[a]);
                    }
                } else {
                    let oa = if a < pos { a } else { a - 1 };
                    let ob = if b < pos { b } else { b - 1 };
                    assert(p[a] == old_p[oa]);
                    assert(p[b] == old_p[ob]);
                    assert(old_tracks.take(i as int)[oa] == np[a]);
                    assert(old_tracks.take(i as int)[ob] == np[b]);
                }
            }
        }
        i += 1;
    }
    proof {
        assert(tracks@.take(n as int) =~= tracks@);
        assert(stable_sort_of(orig, tracks@, key));
        lemma_sorted_rows_follow_the_column(orig, tracks@, key);
    }
    if desc {
        let ghost asc = tracks@;
        let mut rev: Vec<TrackSummary> = Vec::new();
        while tracks.len() > 0
            invariant
                tracks@.len() + rev@.len() == asc.len(),
                tracks@ == asc.take(tracks@.len() as int),
                forall|j: int| 0 <= j < rev@.len() ==> #[trigger] rev@[j] == asc[asc.len() - 1 - j],
            decreases tracks@.len(),
        {
            let x = tracks.pop().unwrap();
            rev.push(x);
        }
        assert(rev@ =~= asc.reverse());
        *tracks = rev;
        assert forall|i: int, j: int| 0 <= i < j < tracks@.len() implies
            column_in_order(key, #[trigger] tracks@[j], #[trigger] tracks@[i]) by {
            assert(tracks@[i] == asc[asc.len() - 1 - i]);
            assert(tracks@[j] == asc[asc.len() - 1 - j]);
        }
    }
}

} // verus!
