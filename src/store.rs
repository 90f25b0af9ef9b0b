use vstd::prelude::*;
use crate::outcome::{line, OutcomeView, Status};
use crate::removal::{removal_outcome_spec, RemoveView};
use crate::target::{has_parent_segment, joined, resolved};
use crate::upload::{respond, start_spec, step_spec, ActionView, EventView, StageView, UploadView};

verus! {

/// The files under the storage root: each path with its content.
pub type Files = Map<Seq<char>, Seq<u8>>;

/// What an upload action does to the files: a write replaces or creates one
/// file; every other action leaves them as they are.
pub open spec fn apply_action(fs: Files, a: ActionView) -> Files {
    match a {
        ActionView::WriteFile(f, d) => fs.insert(f, d),
        _ => fs,
    }
}

/// The files after each action in turn.
pub open spec fn apply_actions(fs: Files, acts: Seq<ActionView>) -> Files
    decreases acts.len(),
{
    if acts.len() == 0 {
        fs
    } else {
        apply_actions(apply_action(fs, acts[0]), acts.drop_first())
    }
}

/// An upload fed the events in turn: its last state and every action it asked for.
pub open spec fn run(u: UploadView, events: Seq<EventView>) -> (UploadView, Seq<ActionView>)
    decreases events.len(),
{
    if events.len() == 0 {
        (u, Seq::empty())
    } else {
        let (u1, a) = step_spec(u, events[0]);
        let (u2, rest) = run(u1, events.drop_first());
        (u2, seq![a] + rest)
    }
}

/// The events of a body whose parts, name and payload, all read and write
/// without error.
pub open spec fn part_events(parts: Seq<(Seq<char>, Seq<u8>)>) -> Seq<EventView>
    decreases parts.len(),
{
    if parts.len() == 0 {
        Seq::empty()
    } else {
        seq![EventView::Part(parts[0].0), EventView::Data(parts[0].1), EventView::Written]
            + part_events(parts.drop_first())
    }
}

/// Every action of an upload of `parts` to request path `p` under `root`,
/// where every outside operation succeeds.
pub open spec fn upload_actions(root: Seq<char>, p: Seq<char>, parts: Seq<(Seq<char>, Seq<u8>)>) -> Seq<
    ActionView,
> {
    let (u, first) = start_spec(root, p);
    seq![first] + run(u, seq![EventView::DirReady] + part_events(parts) + seq![EventView::Finished]).1
}

/// The files after each part in turn is written to `dir/name`.
pub open spec fn files_after(fs: Files, dir: Seq<char>, parts: Seq<(Seq<char>, Seq<u8>)>) -> Files
    decreases parts.len(),
{
    if parts.len() == 0 {
        fs
    } else {
        files_after(fs.insert(joined(dir, parts[0].0), parts[0].1), dir, parts.drop_first())
    }
}

/// No part's name holds a `..` segment.
pub open spec fn names_plain(parts: Seq<(Seq<char>, Seq<u8>)>) -> bool {
    forall|i: int| 0 <= i < parts.len() ==> !has_parent_segment(#[trigger] parts[i].0)
}

proof fn lemma_run_concat(u: UploadView, e1: Seq<EventView>, e2: Seq<EventView>)
    ensures
        run(u, e1 + e2) == (
            run(run(u, e1).0, e2).0,
            run(u, e1).1 + run(run(u, e1).0, e2).1,
        ),
    decreases e1.len(),
{
    if e1.len() == 0 {
        assert(e1 + e2 =~= e2);
        assert(run(u, e1).1 + run(run(u, e1).0, e2).1 =~= run(u, e2).1);
    } else {
        let (u1, a) = step_spec(u, e1[0]);
        assert((e1 + e2).drop_first() =~= e1.drop_first() + e2);
        lemma_run_concat(u1, e1.drop_first(), e2);
        let r1 = run(u1, e1.drop_first());
        assert(seq![a] + (r1.1 + run(r1.0, e2).1) =~= (seq![a] + r1.1) + run(r1.0, e2).1);
    }
}

proof fn lemma_apply_concat(fs: Files, a1: Seq<ActionView>, a2: Seq<ActionView>)
    ensures
        apply_actions(fs, a1 + a2) == apply_actions(apply_actions(fs, a1), a2),
    decreases a1.len(),
{
    if a1.len() == 0 {
        assert(a1 + a2 =~= a2);
    } else {
        assert((a1 + a2).drop_first() =~= a1.drop_first() + a2);
        lemma_apply_concat(apply_action(fs, a1[0]), a1.drop_first(), a2);
    }
}

/// From a waiting upload in `dir`, parts that all succeed are written in
/// order and the upload comes back to waiting in the same directory.
proof fn lemma_parts_written(fs: Files, dir: Seq<char>, parts: Seq<(Seq<char>, Seq<u8>)>)
    requires
        names_plain(parts),
    ensures
        run(UploadView { dir, stage: StageView::AwaitingPart }, part_events(parts)).0 == (
        UploadView { dir, stage: StageView::AwaitingPart }),
        apply_actions(
            fs,
            run(UploadView { dir, stage: StageView::AwaitingPart }, part_events(parts)).1,
        ) == files_after(fs, dir, parts),
    decreases parts.len(),
{
    let u = UploadView { dir, stage: StageView::AwaitingPart };
    if parts.len() > 0 {
        let (n, c) = parts[0];
        let head = seq![EventView::Part(n), EventView::Data(c), EventView::Written];
        let tail = parts.drop_first();
        assert(!has_parent_segment(parts[0].0));
        assert(names_plain(tail)) by {
            assert forall|i: int| 0 <= i < tail.len() implies !has_parent_segment(
                #[trigger] tail[i].0,
            ) by {
                assert(tail[i] == parts[i + 1]);
            }
        }
        lemma_run_concat(u, head, part_events(tail));
        reveal_with_fuel(run, 4);
        assert(head.drop_first().drop_first().drop_first() =~= Seq::<EventView>::empty());
        assert(head.drop_first().drop_first()[0] == EventView::Written);
        assert(head.drop_first()[0] == EventView::Data(c));
        let acts = run(u, head).1;
        assert(run(u, head).0 == u);
        lemma_parts_written(fs.insert(joined(dir, n), c), dir, tail);
        lemma_apply_concat(fs, acts, run(u, part_events(tail)).1);
        reveal_with_fuel(apply_actions, 4);
        assert(acts.drop_first().drop_first().drop_first() =~= Seq::<ActionView>::empty());
        assert(apply_actions(fs, acts) == fs.insert(joined(dir, n), c));
    }
}

/// A whole upload where every outside operation succeeds: it answers with
/// success, and the files are those before with each part written in order.
pub proof fn lemma_upload_writes_parts(
    fs: Files,
    root: Seq<char>,
    p: Seq<char>,
    parts: Seq<(Seq<char>, Seq<u8>)>,
)
    requires
        !has_parent_segment(p),
        names_plain(parts),
    ensures
        upload_actions(root, p, parts).last() == respond(Status::Success, line("ok"@)),
        apply_actions(fs, upload_actions(root, p, parts)) == files_after(
            fs,
            resolved(root, p),
            parts,
        ),
{
    let dir = resolved(root, p);
    let (u0, first) = start_spec(root, p);
    let waiting = UploadView { dir, stage: StageView::AwaitingPart };
    let e0 = seq![EventView::DirReady];
    let ep = part_events(parts);
    let ef = seq![EventView::Finished];
    lemma_run_concat(u0, e0 + ep, ef);
    lemma_run_concat(u0, e0, ep);
    reveal_with_fuel(run, 2);
    assert(e0.drop_first() =~= Seq::<EventView>::empty());
    assert(ef.drop_first() =~= Seq::<EventView>::empty());
    assert(run(u0, e0).0 == waiting);
    lemma_parts_written(fs, dir, parts);
    let a0 = run(u0, e0).1;
    let ap = run(waiting, ep).1;
    let af = run(waiting, ef).1;
    assert(upload_actions(root, p, parts) =~= seq![first] + a0 + ap + af);
    lemma_apply_concat(fs, seq![first] + a0, ap);
    lemma_apply_concat(fs, seq![first] + a0 + ap, af);
    reveal_with_fuel(apply_actions, 3);
    assert((seq![first] + a0).drop_first().drop_first() =~= Seq::<ActionView>::empty());
    assert(apply_actions(fs, seq![first] + a0) == fs);
    let fs2 = files_after(fs, dir, parts);
    assert(af.drop_first() =~= Seq::<ActionView>::empty());
    assert(apply_actions(fs2, af) == fs2);
}

/// Uploading the same name again to the same path replaces the file: its
/// content is that of the latest upload.
pub proof fn lemma_reupload_overwrites(
    fs: Files,
    root: Seq<char>,
    p: Seq<char>,
    name: Seq<char>,
    first: Seq<u8>,
    second: Seq<u8>,
)
    requires
        !has_parent_segment(p),
        !has_parent_segment(name),
    ensures
        apply_actions(
            apply_actions(fs, upload_actions(root, p, seq![(name, first)])),
            upload_actions(root, p, seq![(name, second)]),
        )[joined(resolved(root, p), name)] == second,
{
    let one = seq![(name, first)];
    let two = seq![(name, second)];
    assert(one[0] == (name, first));
    assert(two[0] == (name, second));
    lemma_upload_writes_parts(fs, root, p, one);
    let fs1 = files_after(fs, resolved(root, p), one);
    lemma_upload_writes_parts(fs1, root, p, two);
    reveal_with_fuel(files_after, 2);
    assert(one.drop_first() =~= Seq::<(Seq<char>, Seq<u8>)>::empty());
    assert(two.drop_first() =~= Seq::<(Seq<char>, Seq<u8>)>::empty());
}

/// Two parts with different names become exactly two new files, each with
/// its part's payload, beside what was there.
pub proof fn lemma_two_parts_two_files(
    fs: Files,
    root: Seq<char>,
    p: Seq<char>,
    a: (Seq<char>, Seq<u8>),
    b: (Seq<char>, Seq<u8>),
)
    requires
        !has_parent_segment(p),
        !has_parent_segment(a.0),
        !has_parent_segment(b.0),
        a.0 != b.0,
    ensures
        ({
            let after = apply_actions(fs, upload_actions(root, p, seq![a, b]));
            let fa = joined(resolved(root, p), a.0);
            let fb = joined(resolved(root, p), b.0);
            &&& after[fa] == a.1
            &&& after[fb] == b.1
            &&& after.dom() == fs.dom().insert(fa).insert(fb)
        }),
{
    let parts = seq![a, b];
    let dir = resolved(root, p);
    assert(parts[0] == a && parts[1] == b);
    lemma_upload_writes_parts(fs, root, p, parts);
    reveal_with_fuel(files_after, 3);
    assert(parts.drop_first()[0] == b);
    assert(parts.drop_first().drop_first() =~= Seq::<(Seq<char>, Seq<u8>)>::empty());
    let fa = joined(dir, a.0);
    let fb = joined(dir, b.0);
    assert(fa.subrange(dir.len() + 1 as int, fa.len() as int) =~= a.0);
    assert(fb.subrange(dir.len() + 1 as int, fb.len() as int) =~= b.0);
    let after = fs.insert(fa, a.1).insert(fb, b.1);
    assert(after.dom() =~= fs.dom().insert(fa).insert(fb));
}

/// Two uploads of different names to one directory both succeed, and the
/// files come out the same whichever of them completes first: creating the
/// directory twice changes nothing, and the writes touch different files.
pub proof fn lemma_uploads_commute(
    fs: Files,
    root: Seq<char>,
    p: Seq<char>,
    a: (Seq<char>, Seq<u8>),
    b: (Seq<char>, Seq<u8>),
)
    requires
        !has_parent_segment(p),
        !has_parent_segment(a.0),
        !has_parent_segment(b.0),
        a.0 != b.0,
    ensures
        upload_actions(root, p, seq![a]).last() == respond(Status::Success, line("ok"@)),
        upload_actions(root, p, seq![b]).last() == respond(Status::Success, line("ok"@)),
        apply_actions(
            apply_actions(fs, upload_actions(root, p, seq![a])),
            upload_actions(root, p, seq![b]),
        ) == apply_actions(
            apply_actions(fs, upload_actions(root, p, seq![b])),
            upload_actions(root, p, seq![a]),
        ),
{
    let dir = resolved(root, p);
    let sa = seq![a];
    let sb = seq![b];
    assert(sa[0] == a && sb[0] == b);
    assert(sa.drop_first() =~= Seq::<(Seq<char>, Seq<u8>)>::empty());
    assert(sb.drop_first() =~= Seq::<(Seq<char>, Seq<u8>)>::empty());
    lemma_upload_writes_parts(fs, root, p, sa);
    lemma_upload_writes_parts(fs, root, p, sb);
    reveal_with_fuel(files_after, 2);
    let fa = joined(dir, a.0);
    let fb = joined(dir, b.0);
    assert(fa.subrange(dir.len() + 1 as int, fa.len() as int) =~= a.0);
    assert(fb.subrange(dir.len() + 1 as int, fb.len() as int) =~= b.0);
    lemma_upload_writes_parts(fs.insert(fa, a.1), root, p, sb);
    lemma_upload_writes_parts(fs.insert(fb, b.1), root, p, sa);
    assert(fs.insert(fa, a.1).insert(fb, b.1) =~= fs.insert(fb, b.1).insert(fa, a.1));
}

/// A delete as the filesystem does it: a present file goes and is reported
/// removed; an absent one is reported absent and nothing changes.
pub open spec fn remove_file(fs: Files, f: Seq<char>) -> (Files, RemoveView) {
    if fs.contains_key(f) {
        (fs.remove(f), RemoveView::Removed)
    } else {
        (fs, RemoveView::Absent)
    }
}

/// Deleting a present file answers with success and leaves it absent;
/// deleting an absent one answers not found and changes nothing.
pub proof fn lemma_delete(fs: Files, f: Seq<char>)
    ensures
        ({
            let (after, result) = remove_file(fs, f);
            let o: OutcomeView = removal_outcome_spec(result);
            &&& !after.contains_key(f)
            &&& fs.contains_key(f) ==> o.status == Status::NoContent
            &&& !fs.contains_key(f) ==> o.status == Status::NotFound && after == fs
        }),
{
}

} // verus!
