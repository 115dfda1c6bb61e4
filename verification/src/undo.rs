//! Reversible actions. Every flag, restore, keeper resolution, retry and
//! purge is recorded with the action that reverses it; undo applies that
//! action. The row updates each action makes are computed here, so the
//! reversal can be checked against them.
use vstd::prelude::*;
use crate::text::{chars_of, decimal, decimal_chars, extend_chars, signed_decimal, signed_decimal_chars, string_of};
use crate::track::{TrackInfo, TrackSummary};
use crate::app::member_ids;

verus! {

/// A purged track captured so it can be restored from quarantine.
pub struct RestoredTrack {
    pub track: TrackInfo,
    pub original_path: String,
    pub quarantine_path: String,
    /// The library the track was purged from (0 for records that predate libraries).
    pub library_id: i64,
}

/// The name a purged file gets in quarantine: the track's id, `_`, and the
/// file's name (the id again when the path has no file name).
pub open spec fn quarantine_name_of(id: i64, file_name: Option<Seq<char>>) -> Seq<char> {
    signed_decimal(id as int) + "_"@ + match file_name {
        Some(n) => n,
        None => signed_decimal(id as int),
    }
}

/// The name a purged file gets in quarantine, e.g. `12_song.flac`.
pub fn quarantine_name(id: i64, file_name: Option<&str>) -> (res: String)
    ensures
        res@ == quarantine_name_of(id, match file_name {
            Some(n) => Some(n@),
            None => None,
        }),
{
    let mut v = signed_decimal_chars(id);
    let u = chars_of("_");
    extend_chars(&mut v, &u);
    match file_name {
        Some(n) => {
            let c = chars_of(n);
            extend_chars(&mut v, &c);
        },
        None => {
            let d = signed_decimal_chars(id);
            extend_chars(&mut v, &d);
        },
    }
    string_of(&v)
}

/// The operation that undoes a logged action.
pub enum UndoAction {
    /// Re-set the deletion flag on a set of tracks.
    SetMarked { ids: Vec<i64>, value: bool },
    /// Restore previous statuses.
    SetStatus { items: Vec<(i64, String)> },
    /// Move purged files back from quarantine and re-insert their rows.
    RestoreRows { tracks: Vec<RestoredTrack> },
}

/// The state after applying `(id, value)` updates in order to `m`.
pub open spec fn apply_updates<V>(m: Map<i64, V>, u: Seq<(i64, V)>) -> Map<i64, V>
    decreases u.len(),
{
    if u.len() == 0 {
        m
    } else {
        apply_updates(m, u.drop_last()).insert(u.last().0, u.last().1)
    }
}

/// `id` is updated by `u`.
pub open spec fn updates_key<V>(u: Seq<(i64, V)>, id: i64) -> bool {
    exists|k: int| 0 <= k < u.len() && (#[trigger] u[k]).0 == id
}

/// The value the last update of `id` in `u` sets.
pub open spec fn last_update<V>(u: Seq<(i64, V)>, id: i64) -> V
    decreases u.len(),
{
    if u.len() == 0 {
        arbitrary()
    } else if u.last().0 == id {
        u.last().1
    } else {
        last_update(u.drop_last(), id)
    }
}

/// Each key of the result holds its last update, or its old value when it was not updated.
pub proof fn lemma_apply_updates<V>(m: Map<i64, V>, u: Seq<(i64, V)>, id: i64)
    ensures
        apply_updates(m, u).dom().contains(id) == (m.dom().contains(id) || updates_key(u, id)),
        updates_key(u, id) ==> apply_updates(m, u)[id] == last_update(u, id),
        !updates_key(u, id) && m.dom().contains(id) ==> apply_updates(m, u)[id] == m[id],
    decreases u.len(),
{
    if u.len() > 0 {
        let p = u.drop_last();
        lemma_apply_updates(m, p, id);
        if updates_key(u, id) && u.last().0 != id {
            let k = choose|k: int| 0 <= k < u.len() && (#[trigger] u[k]).0 == id;
            assert(p[k].0 == id);
        }
        if updates_key(p, id) {
            let k = choose|k: int| 0 <= k < p.len() && (#[trigger] p[k]).0 == id;
            assert(u[k].0 == id);
        }
        if u.last().0 == id {
            assert(u[u.len() - 1].0 == id);
        }
    }
}

/// Undo restores the rows: when a second batch of updates writes back, for
/// every row the first batch touched, the value that row had before, the
/// state is as it was.
pub proof fn lemma_undo_restores<V>(m: Map<i64, V>, done: Seq<(i64, V)>, undo: Seq<(i64, V)>)
    requires
        forall|k: int| 0 <= k < done.len() ==> m.dom().contains((#[trigger] done[k]).0),
        forall|k: int| 0 <= k < done.len() ==> updates_key(undo, (#[trigger] done[k]).0),
        forall|k: int| 0 <= k < undo.len() ==> m.dom().contains((#[trigger] undo[k]).0)
            && undo[k].1 == m[undo[k].0],
    ensures
        apply_updates(apply_updates(m, done), undo) == m,
{
    let mid = apply_updates(m, done);
    let fin = apply_updates(mid, undo);
    assert forall|id: i64| fin.dom().contains(id) <==> m.dom().contains(id) by {
        lemma_apply_updates(m, done, id);
        lemma_apply_updates(mid, undo, id);
        if updates_key(done, id) {
            let k = choose|k: int| 0 <= k < done.len() && (#[trigger] done[k]).0 == id;
        }
        if updates_key(undo, id) {
            let k = choose|k: int| 0 <= k < undo.len() && (#[trigger] undo[k]).0 == id;
        }
    }
    assert forall|id: i64| #[trigger] fin.dom().contains(id) implies fin[id] == m[id] by {
        lemma_apply_updates(m, done, id);
        lemma_apply_updates(mid, undo, id);
        if updates_key(undo, id) {
            lemma_last_update_is_an_entry(undo, id);
        } else if updates_key(done, id) {
            let k = choose|k: int| 0 <= k < done.len() && (#[trigger] done[k]).0 == id;
            assert(updates_key(undo, done[k].0));
        }
    }
    assert(fin =~= m);
}

/// The last update of a key is one of the updates of that key.
proof fn lemma_last_update_is_an_entry<V>(u: Seq<(i64, V)>, id: i64)
    requires
        updates_key(u, id),
    ensures
        exists|k: int| 0 <= k < u.len() && (#[trigger] u[k]).0 == id && u[k].1 == last_update(u, id),
    decreases u.len(),
{
    if u.last().0 == id {
        assert(u[u.len() - 1].0 == id);
    } else {
        let p = u.drop_last();
        let k = choose|k: int| 0 <= k < u.len() && (#[trigger] u[k]).0 == id;
        assert(p[k].0 == id);
        lemma_last_update_is_an_entry(p, id);
        let j = choose|j: int| 0 <= j < p.len() && (#[trigger] p[j]).0 == id && p[j].1 == last_update(p, id);
        assert(u[j] == p[j]);
    }
}

/// Every id paired with one value.
pub open spec fn all_to<V>(ids: Seq<i64>, v: V) -> Seq<(i64, V)> {
    ids.map_values(|id: i64| (id, v))
}

/// The deletion-flag updates an undo action makes.
pub open spec fn undo_mark_updates(a: UndoAction) -> Seq<(i64, bool)> {
    match a {
        UndoAction::SetMarked { ids, value } => all_to(ids@, value),
        _ => Seq::empty(),
    }
}

/// The status updates an undo action makes.
pub open spec fn undo_status_updates(a: UndoAction) -> Seq<(i64, Seq<char>)> {
    match a {
        UndoAction::SetStatus { items } => items@.map_values(|p: (i64, String)| (p.0, p.1@)),
        _ => Seq::empty(),
    }
}

fn pair_all(ids: &Vec<i64>, v: bool) -> (res: Vec<(i64, bool)>)
    ensures
        res@ == all_to(ids@, v),
{
    let mut out: Vec<(i64, bool)> = Vec::new();
    let mut i: usize = 0;
    while i < ids.len()
        invariant
            i <= ids@.len(),
            out@ == all_to(ids@.take(i as int), v),
        decreases ids@.len() - i,
    {
        out.push((ids[i], v));
        assert(out@ =~= all_to(ids@.take(i + 1), v));
        i += 1;
    }
    assert(ids@.take(ids@.len() as int) =~= ids@);
    out
}

fn copy_ids(ids: &Vec<i64>) -> (res: Vec<i64>)
    ensures
        res@ == ids@,
{
    let mut out: Vec<i64> = Vec::new();
    let mut i: usize = 0;
    while i < ids.len()
        invariant
            i <= ids@.len(),
            out@ == ids@.take(i as int),
        decreases ids@.len() - i,
    {
        out.push(ids[i]);
        assert(out@ =~= ids@.take(i + 1));
        i += 1;
    }
    assert(ids@.take(ids@.len() as int) =~= ids@);
    out
}

impl UndoAction {
    /// The deletion-flag updates applying this action makes.
    pub fn mark_updates(&self) -> (res: Vec<(i64, bool)>)
        ensures
            res@ == undo_mark_updates(*self),
    {
        match self {
            UndoAction::SetMarked { ids, value } => pair_all(ids, *value),
            _ => Vec::new(),
        }
    }

    /// The status updates applying this action makes.
    pub fn status_updates(&self) -> (res: Vec<(i64, String)>)
        ensures
            res@.map_values(|p: (i64, String)| (p.0, p.1@)) == undo_status_updates(*self),
    {
        match self {
            UndoAction::SetStatus { items } => {
                let mut out: Vec<(i64, String)> = Vec::new();
                let mut i: usize = 0;
                while i < items.len()
                    invariant
                        i <= items@.len(),
                        out@.map_values(|p: (i64, String)| (p.0, p.1@))
                            == items@.take(i as int).map_values(|p: (i64, String)| (p.0, p.1@)),
                    decreases items@.len() - i,
                {
                    let id = items[i].0;
                    let st = items[i].1.clone();
                    let ghost before = out@;
                    out.push((id, st));
                    proof {
                        assert(out@ == before.push((id, st)));
                        assert(out@.map_values(|p: (i64, String)| (p.0, p.1@))
                            =~= before.map_values(|p: (i64, String)| (p.0, p.1@)).push((id, st@)));
                        assert(items@.take(i + 1) =~= items@.take(i as int).push(items@[i as int]));
                        assert(items@.take(i + 1).map_values(|p: (i64, String)| (p.0, p.1@))
                            =~= items@.take(i as int).map_values(|p: (i64, String)| (p.0, p.1@)).push((id, st@)));
                    }
                    i += 1;
                }
                assert(items@.take(items@.len() as int) =~= items@);
                out
            },
            _ => {
                assert(Seq::<(i64, String)>::empty().map_values(|p: (i64, String)| (p.0, p.1@))
                    =~= Seq::<(i64, Seq<char>)>::empty());
                Vec::new()
            },
        }
    }
}

/// The report of an applied undo: how many flags, status changes or purged
/// tracks it put back.
pub open spec fn applied_message_of(a: UndoAction) -> Seq<char> {
    match a {
        UndoAction::SetMarked { ids, .. } => "restored "@ + decimal(ids@.len()) + " flag(s)"@,
        UndoAction::SetStatus { items } => "reverted "@ + decimal(items@.len()) + " status change(s)"@,
        UndoAction::RestoreRows { tracks } => "restored "@ + decimal(tracks@.len()) + " purged track(s)"@,
    }
}

impl UndoAction {
    /// The report of this action once applied, e.g. `restored 3 flag(s)`.
    pub fn applied_message(&self) -> (res: String)
        ensures
            res@ == applied_message_of(*self),
    {
        let (head, n, tail): (&str, usize, &str) = match self {
            UndoAction::SetMarked { ids, .. } => ("restored ", ids.len(), " flag(s)"),
            UndoAction::SetStatus { items } => ("reverted ", items.len(), " status change(s)"),
            UndoAction::RestoreRows { tracks } => ("restored ", tracks.len(), " purged track(s)"),
        };
        let mut v = chars_of(head);
        let d = decimal_chars(n as u64);
        extend_chars(&mut v, &d);
        let t = chars_of(tail);
        extend_chars(&mut v, &t);
        string_of(&v)
    }
}

/// A change to the rows together with the action that reverses it.
pub struct MarkPlan {
    pub updates: Vec<(i64, bool)>,
    pub undo: UndoAction,
}

/// Flagging tracks for deletion: each id is flagged; undo clears the flags.
pub fn flag_plan(ids: &Vec<i64>) -> (res: MarkPlan)
    ensures
        res.updates@ == all_to(ids@, true),
        res.undo matches UndoAction::SetMarked { ids: u, value } && u@ == ids@ && !value,
{
    MarkPlan { updates: pair_all(ids, true), undo: UndoAction::SetMarked { ids: copy_ids(ids), value: false } }
}

/// Restoring tracks from the Trash: each id is unflagged; undo flags them again.
pub fn restore_plan(ids: &Vec<i64>) -> (res: MarkPlan)
    ensures
        res.updates@ == all_to(ids@, false),
        res.undo matches UndoAction::SetMarked { ids: u, value } && u@ == ids@ && value,
{
    MarkPlan { updates: pair_all(ids, false), undo: UndoAction::SetMarked { ids: copy_ids(ids), value: true } }
}

/// The undo of resolving a duplicate group: clear the flags that were set.
pub fn keep_undo(flagged: &Vec<i64>) -> (res: UndoAction)
    ensures
        res matches UndoAction::SetMarked { ids: u, value } && u@ == flagged@ && !value,
{
    UndoAction::SetMarked { ids: copy_ids(flagged), value: false }
}

/// Re-queueing dead letters for enrichment.
pub struct StatusPlan {
    /// Every id gets the status `pending`.
    pub updates: Vec<(i64, String)>,
    pub undo: UndoAction,
}

/// The `(id, status)` of each listed row whose id is among `ids`, in row order.
pub open spec fn recorded_statuses(rows: Seq<TrackSummary>, ids: Seq<i64>) -> Seq<(i64, Seq<char>)> {
    rows.filter(|t: TrackSummary| t.id is Some && ids.contains(t.id.unwrap()))
        .map_values(|t: TrackSummary| (t.id.unwrap(), t.status@))
}

fn contains_id(ids: &Vec<i64>, id: i64) -> (res: bool)
    ensures
        res == ids@.contains(id),
{
    let mut i: usize = 0;
    while i < ids.len()
        invariant
            i <= ids@.len(),
            forall|j: int| 0 <= j < i ==> ids@[j] != id,
        decreases ids@.len() - i,
    {
        if ids[i] == id {
            assert(ids@[i as int] == id);
            return true;
        }
        i += 1;
    }
    false
}

/// Re-queueing the rows `ids` of a Failed tab: every id becomes `pending`;
/// undo writes back the statuses the listed rows had.
pub fn retry_plan(rows: &Vec<TrackSummary>, ids: &Vec<i64>) -> (res: StatusPlan)
    ensures
        res.updates@.map_values(|p: (i64, String)| (p.0, p.1@)) == all_to(ids@, "pending"@),
        res.undo matches UndoAction::SetStatus { items }
            && items@.map_values(|p: (i64, String)| (p.0, p.1@)) == recorded_statuses(rows@, ids@),
{
    proof { reveal_strlit("pending"); }
    let ghost rs = rows@;
    let mut items: Vec<(i64, String)> = Vec::new();
    let mut i: usize = 0;
    while i < rows.len()
        invariant
            i <= rs.len(),
            rs == rows@,
            items@.map_values(|p: (i64, String)| (p.0, p.1@)) == recorded_statuses(rs.take(i as int), ids@),
        decreases rs.len() - i,
    {
        let ghost before = recorded_statuses(rs.take(i as int), ids@);
        proof {
            assert(rs.take(i + 1).drop_last() =~= rs.take(i as int));
            reveal_with_fuel(Seq::filter, 1);
        }
        let t = &rows[i];
        if let Some(id) = t.id {
            if contains_id(ids, id) {
                items.push((id, t.status.clone()));
                assert(recorded_statuses(rs.take(i + 1), ids@) =~= before.push((id, t.status@)));
                assert(items@.map_values(|p: (i64, String)| (p.0, p.1@)) =~= before.push((id, t.status@)));
            } else {
                assert(recorded_statuses(rs.take(i + 1), ids@) =~= before);
            }
        } else {
            assert(recorded_statuses(rs.take(i + 1), ids@) =~= before);
        }
        i += 1;
    }
    assert(rs.take(rs.len() as int) =~= rs);
    let mut updates: Vec<(i64, String)> = Vec::new();
    let mut k: usize = 0;
    let pc = chars_of("pending");
    let pending = string_of(&pc);
    while k < ids.len()
        invariant
            pending@ == "pending"@,
            k <= ids@.len(),
            updates@.map_values(|p: (i64, String)| (p.0, p.1@)) == all_to(ids@.take(k as int), "pending"@),
        decreases ids@.len() - k,
    {
        let ghost before = updates@;
        updates.push((ids[k], pending.clone()));
        assert(updates@ == before.push((ids@[k as int], pending)));
        assert(ids@.take(k + 1) =~= ids@.take(k as int).push(ids@[k as int]));
        assert(updates@.map_values(|p: (i64, String)| (p.0, p.1@))
            =~= before.map_values(|p: (i64, String)| (p.0, p.1@)).push((ids@[k as int], "pending"@)));
        assert(all_to(ids@.take(k + 1), "pending"@) =~= all_to(ids@.take(k as int), "pending"@).push((ids@[k as int], "pending"@)));
        assert(updates@.map_values(|p: (i64, String)| (p.0, p.1@)) =~= all_to(ids@.take(k + 1), "pending"@));
        k += 1;
    }
    assert(ids@.take(ids@.len() as int) =~= ids@);
    StatusPlan { updates, undo: UndoAction::SetStatus { items } }
}

/// Flagging tracks and then undoing leaves every flag as it was, provided none
/// of them was flagged before (the Trash holds only flagged tracks, so only
/// unflagged ones are offered for flagging).
pub proof fn lemma_flag_then_undo(flags: Map<i64, bool>, ids: Seq<i64>)
    requires
        forall|k: int| 0 <= k < ids.len() ==> flags.dom().contains(#[trigger] ids[k]) && !flags[ids[k]],
    ensures
        apply_updates(apply_updates(flags, all_to(ids, true)), all_to(ids, false)) == flags,
{
    let done = all_to(ids, true);
    let undo = all_to(ids, false);
    assert forall|k: int| 0 <= k < done.len() implies updates_key(undo, (#[trigger] done[k]).0) by {
        assert(undo[k].0 == ids[k]);
    }
    assert forall|k: int| 0 <= k < undo.len() implies flags.dom().contains((#[trigger] undo[k]).0)
        && undo[k].1 == flags[undo[k].0] by {
        assert(undo[k].0 == ids[k]);
    }
    assert forall|k: int| 0 <= k < done.len() implies flags.dom().contains((#[trigger] done[k]).0) by {
        assert(done[k].0 == ids[k]);
    }
    lemma_undo_restores(flags, done, undo);
}

/// Restoring tracks from the Trash and then undoing flags them again.
pub proof fn lemma_restore_then_undo(flags: Map<i64, bool>, ids: Seq<i64>)
    requires
        forall|k: int| 0 <= k < ids.len() ==> flags.dom().contains(#[trigger] ids[k]) && flags[ids[k]],
    ensures
        apply_updates(apply_updates(flags, all_to(ids, false)), all_to(ids, true)) == flags,
{
    let done = all_to(ids, false);
    let undo = all_to(ids, true);
    assert forall|k: int| 0 <= k < done.len() implies updates_key(undo, (#[trigger] done[k]).0) by {
        assert(undo[k].0 == ids[k]);
    }
    assert forall|k: int| 0 <= k < undo.len() implies flags.dom().contains((#[trigger] undo[k]).0)
        && undo[k].1 == flags[undo[k].0] by {
        assert(undo[k].0 == ids[k]);
    }
    assert forall|k: int| 0 <= k < done.len() implies flags.dom().contains((#[trigger] done[k]).0) by {
        assert(done[k].0 == ids[k]);
    }
    lemma_undo_restores(flags, done, undo);
}

/// Re-queueing dead letters and then undoing gives every row back the status
/// it had, when the listed rows show the stored statuses and every re-queued
/// id is listed.
pub proof fn lemma_retry_then_undo(statuses: Map<i64, Seq<char>>, rows: Seq<TrackSummary>, ids: Seq<i64>)
    requires
        forall|k: int| 0 <= k < ids.len() ==> statuses.dom().contains(#[trigger] ids[k]),
        forall|k: int| #![trigger ids[k]] 0 <= k < ids.len() ==> exists|r: int| 0 <= r < rows.len() && (#[trigger] rows[r]).id == Some(ids[k]),
        forall|r: int| 0 <= r < rows.len() && (#[trigger] rows[r]).id is Some ==>
            statuses.dom().contains(rows[r].id.unwrap()) && statuses[rows[r].id.unwrap()] == rows[r].status@,
    ensures
        apply_updates(apply_updates(statuses, all_to(ids, "pending"@)), recorded_statuses(rows, ids)) == statuses,
{
    let done = all_to(ids, "pending"@);
    let pred = |t: TrackSummary| t.id is Some && ids.contains(t.id.unwrap());
    let kept = rows.filter(pred);
    let undo = recorded_statuses(rows, ids);
    assert(undo == kept.map_values(|t: TrackSummary| (t.id.unwrap(), t.status@)));
    assert forall|k: int| 0 <= k < undo.len() implies statuses.dom().contains((#[trigger] undo[k]).0)
        && undo[k].1 == statuses[undo[k].0] by {
        kept_rows_come_from(rows, pred, k);
        let t = kept[k];
        let r = choose|r: int| 0 <= r < rows.len() && rows[r] == t;
        assert(rows[r].id is Some);
    }
    assert forall|k: int| 0 <= k < done.len() implies updates_key(undo, (#[trigger] done[k]).0) by {
        let id = ids[k];
        assert(done[k].0 == id);
        let r = choose|r: int| 0 <= r < rows.len() && (#[trigger] rows[r]).id == Some(ids[k]);
        assert(ids.contains(id)) by { assert(ids[k] == id); }
        assert(pred(rows[r]));
        broadcast use vstd::seq_lib::group_filter_ensures;
        assert(kept.contains(rows[r]));
        let j = choose|j: int| 0 <= j < kept.len() && kept[j] == rows[r];
        assert(undo[j].0 == id);
    }
    assert forall|k: int| 0 <= k < done.len() implies statuses.dom().contains((#[trigger] done[k]).0) by {
        assert(done[k].0 == ids[k]);
    }
    lemma_undo_restores(statuses, done, undo);
}

proof fn kept_rows_come_from(rows: Seq<TrackSummary>, pred: spec_fn(TrackSummary) -> bool, k: int)
    requires
        0 <= k < rows.filter(pred).len(),
    ensures
        rows.contains(rows.filter(pred)[k]),
        pred(rows.filter(pred)[k]),
{
    broadcast use vstd::seq_lib::group_filter_ensures;
    assert(rows.filter(pred).contains(rows.filter(pred)[k]));
    rows.lemma_filter_contains_rev(pred, rows.filter(pred)[k]);
}

/// Resolving a duplicate group and then undoing leaves every member's flag as
/// it was, the members being unflagged before (only unflagged tracks form groups).
pub proof fn lemma_keep_then_undo(flags: Map<i64, bool>, members: Seq<TrackSummary>, keeper: i64)
    requires
        forall|k: int| 0 <= k < member_ids(members).len() ==>
            flags.dom().contains(#[trigger] member_ids(members)[k]) && !flags[member_ids(members)[k]],
    ensures
        apply_updates(
            apply_updates(flags, member_ids(members).map_values(|id: i64| (id, id != keeper))),
            all_to(member_ids(members).filter(|id: i64| id != keeper), false),
        ) == flags,
{
    let ids = member_ids(members);
    let done = ids.map_values(|id: i64| (id, id != keeper));
    let fl = ids.filter(|id: i64| id != keeper);
    let undo = all_to(fl, false);
    broadcast use vstd::seq_lib::group_filter_ensures;
    let mid = apply_updates(flags, done);
    let fin = apply_updates(mid, undo);
    assert forall|id: i64| fin.dom().contains(id) <==> flags.dom().contains(id) by {
        lemma_apply_updates(flags, done, id);
        lemma_apply_updates(mid, undo, id);
        if updates_key(done, id) {
            let k = choose|k: int| 0 <= k < done.len() && (#[trigger] done[k]).0 == id;
            assert(ids[k] == id);
        }
        if updates_key(undo, id) {
            let k = choose|k: int| 0 <= k < undo.len() && (#[trigger] undo[k]).0 == id;
            assert(fl[k] == id);
            assert(fl.contains(id));
            ids.lemma_filter_contains_rev(|id: i64| id != keeper, id);
            let j = choose|j: int| 0 <= j < ids.len() && ids[j] == id;
            assert(done[j].0 == id);
        }
    }
    assert forall|id: i64| #[trigger] fin.dom().contains(id) implies fin[id] == flags[id] by {
        lemma_apply_updates(flags, done, id);
        lemma_apply_updates(mid, undo, id);
        if updates_key(undo, id) {
            lemma_last_update_is_an_entry(undo, id);
            let k = choose|k: int| 0 <= k < undo.len() && (#[trigger] undo[k]).0 == id && undo[k].1 == last_update(undo, id);
            assert(fl[k] == id);
            assert(fl.contains(id));
            ids.lemma_filter_contains_rev(|id: i64| id != keeper, id);
            let j = choose|j: int| 0 <= j < ids.len() && ids[j] == id;
            assert(done[j].0 == id);
        } else if updates_key(done, id) {
            lemma_last_update_is_an_entry(done, id);
            let k = choose|k: int| 0 <= k < done.len() && (#[trigger] done[k]).0 == id && done[k].1 == last_update(done, id);
            assert(ids[k] == id);
            if id != keeper {
                ids.lemma_filter_contains(|id: i64| id != keeper, k);
                assert(fl.contains(id));
                let j = choose|j: int| 0 <= j < fl.len() && fl[j] == id;
                assert(undo[j].0 == id);
            }
        }
    }
    assert(fin =~= flags);
}

} // verus!
