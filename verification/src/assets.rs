//! An asset tree and the plan for copying it into a directory.
//!
//! An [`AssetDir`] is a read-only hierarchy of named byte-content
//! entries, supplied by the caller. Copying it under a destination
//! keeps the tree's own nesting but takes only the final component of
//! each entry's recorded path: ancestor components inside the recorded
//! path are discarded at every level, so entries whose final components
//! collide under one destination overwrite one another in plan order.
//!
//! [`copy_plan`] turns a tree into the exact sequence of filesystem
//! actions, as [`spec_plan`] describes; executing them is a separate,
//! trusted step.

use vstd::prelude::*;

use crate::paths::{basename_of, join_str, spec_basename, spec_join};

verus! {

/// A file entry: a recorded path and the bytes to write.
pub struct AssetFile {
    pub path: String,
    pub contents: Vec<u8>,
}

/// A directory entry: a recorded path and the entries under it.
pub struct AssetDir {
    pub path: String,
    pub entries: Vec<AssetEntry>,
}

/// One entry of an asset tree.
pub enum AssetEntry {
    Dir(AssetDir),
    File(AssetFile),
}

/// One filesystem action of a copy: create a directory, or write a
/// file with the given bytes.
pub enum CopyStep {
    MakeDir(String),
    WriteFile(String, Vec<u8>),
}

/// The mathematical form of a [`CopyStep`].
pub enum StepView {
    MakeDir(Seq<char>),
    WriteFile(Seq<char>, Seq<u8>),
}

impl View for CopyStep {
    type V = StepView;

    open spec fn view(&self) -> StepView {
        match self {
            CopyStep::MakeDir(p) => StepView::MakeDir(p@),
            CopyStep::WriteFile(p, c) => StepView::WriteFile(p@, c@),
        }
    }
}

/// The views of a sequence of copy steps.
pub open spec fn step_views(steps: Seq<CopyStep>) -> Seq<StepView> {
    steps.map_values(|s: CopyStep| s@)
}

/// The actions that copying one entry under `dest` takes: a file is
/// one write; a directory is one creation followed by the actions for
/// its entries, in order.
pub open spec fn spec_plan_entry(e: AssetEntry, dest: Seq<char>) -> Seq<StepView>
    decreases e, 0int,
{
    match e {
        AssetEntry::File(f) => seq![
            StepView::WriteFile(spec_join(dest, spec_basename(f.path@)), f.contents@),
        ],
        AssetEntry::Dir(d) => seq![
            StepView::MakeDir(spec_join(dest, spec_basename(d.path@))),
        ] + spec_plan(d.entries@, spec_join(dest, spec_basename(d.path@))),
    }
}

/// The actions that copying `entries` under `dest` takes, entry by
/// entry, in order.
pub open spec fn spec_plan(entries: Seq<AssetEntry>, dest: Seq<char>) -> Seq<StepView>
    decreases entries, 1int,
{
    if entries.len() == 0 {
        Seq::empty()
    } else {
        spec_plan_entry(entries[0], dest) + spec_plan(entries.drop_first(), dest)
    }
}

/// Copying a directory that holds one entry creates the directory's
/// own target first, then performs the entry's actions under that
/// target: the tree's own nesting is kept, level by level.
pub proof fn lemma_plan_keeps_nesting(d: AssetDir, e: AssetEntry, dest: Seq<char>)
    requires
        d.entries@ == seq![e],
    ensures
        spec_plan_entry(AssetEntry::Dir(d), dest) == seq![
            StepView::MakeDir(spec_join(dest, spec_basename(d.path@))),
        ] + spec_plan_entry(e, spec_join(dest, spec_basename(d.path@))),
{
    let target = spec_join(dest, spec_basename(d.path@));
    reveal_with_fuel(spec_plan, 2);
    assert(d.entries@[0] == e);
    assert(d.entries@.drop_first() =~= Seq::<AssetEntry>::empty());
    assert(spec_plan(d.entries@.drop_first(), target) =~= Seq::<StepView>::empty());
    assert(spec_plan(d.entries@, target) =~= spec_plan_entry(e, target));
    assert(spec_plan_entry(AssetEntry::Dir(d), dest) =~= seq![StepView::MakeDir(target)]
        + spec_plan_entry(e, target));
}

/// Appends the actions for one entry under `dest` to `out`, as
/// [`spec_plan_entry`] describes.
fn plan_entry(e: &AssetEntry, dest: &str, out: &mut Vec<CopyStep>)
    ensures
        step_views(final(out)@) == step_views(old(out)@) + spec_plan_entry(*e, dest@),
    decreases *e, 0int,
{
    match e {
        AssetEntry::File(f) => {
            let name = basename_of(f.path.as_str());
            let target = join_str(dest, name.as_str());
            let contents = f.contents.clone();
            proof {
                assert forall|i: int| 0 <= i < f.contents@.len() implies contents@[i]
                    == f.contents@[i] by {}
                assert(contents@ =~= f.contents@);
            }
            out.push(CopyStep::WriteFile(target, contents));
            proof {
                assert(step_views(out@) =~= step_views(old(out)@) + spec_plan_entry(*e, dest@));
            }
        },
        AssetEntry::Dir(d) => {
            let name = basename_of(d.path.as_str());
            let target = join_str(dest, name.as_str());
            out.push(CopyStep::MakeDir(target.clone()));
            let ghost mid = out@;
            proof {
                assert(step_views(mid) =~= step_views(old(out)@) + seq![
                    StepView::MakeDir(spec_join(dest@, spec_basename(d.path@))),
                ]);
            }
            plan_list(&d.entries, 0, target.as_str(), out);
            proof {
                let head = seq![StepView::MakeDir(spec_join(dest@, spec_basename(d.path@)))];
                let rest = spec_plan(d.entries@, spec_join(dest@, spec_basename(d.path@)));
                assert(d.entries@.skip(0) =~= d.entries@);
                assert(step_views(out@) == step_views(mid) + rest);
                assert((step_views(old(out)@) + head) + rest =~= step_views(old(out)@) + (head
                    + rest));
                assert(step_views(out@) =~= step_views(old(out)@) + spec_plan_entry(*e, dest@));
            }
        },
    }
}

/// Appends the actions for `entries[i..]` under `dest` to `out`, as
/// [`spec_plan`] describes.
fn plan_list(entries: &Vec<AssetEntry>, i: usize, dest: &str, out: &mut Vec<CopyStep>)
    requires
        i <= entries@.len(),
    ensures
        step_views(final(out)@) == step_views(old(out)@) + spec_plan(entries@.skip(i as int), dest@),
    decreases entries@, entries@.len() - i + 1,
{
    if i == entries.len() {
        proof {
            assert(step_views(out@) =~= step_views(old(out)@) + spec_plan(
                entries@.skip(i as int),
                dest@,
            ));
        }
        return ;
    }
    plan_entry(&entries[i], dest, out);
    plan_list(entries, i + 1, dest, out);
    proof {
        assert(entries@.skip(i as int).drop_first() =~= entries@.skip(i as int + 1));
        assert(entries@.skip(i as int)[0] == entries@[i as int]);
        assert(step_views(out@) =~= step_views(old(out)@) + spec_plan(
            entries@.skip(i as int),
            dest@,
        ));
    }
}

/// The sequence of filesystem actions that copies `entries` under
/// `dest`, as [`spec_plan`] describes.
pub fn copy_plan(entries: &Vec<AssetEntry>, dest: &str) -> (r: Vec<CopyStep>)
    ensures
        step_views(r@) == spec_plan(entries@, dest@),
{
    let mut out: Vec<CopyStep> = Vec::new();
    plan_list(entries, 0, dest, &mut out);
    proof {
        assert(entries@.skip(0) =~= entries@);
        assert(step_views(out@) =~= spec_plan(entries@, dest@));
    }
    out
}

} // verus!
