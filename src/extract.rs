use vstd::prelude::*;

use crate::assets::{map_of, AssetSet};
use crate::paths::{parent_dir, parent_of};

verus! {

/// One filesystem step of extraction, relative to the workspace root.
pub enum FsAction {
    /// Create this directory and all its missing ancestors.
    CreateDirAll(String),
    /// Write the bytes of the bundle entry at this position to its path.
    WriteFile(usize),
}

/// What an extraction step does, as a mathematical value.
pub enum ActionView {
    CreateDirAll(Seq<char>),
    WriteFile(int),
}

impl View for FsAction {
    type V = ActionView;

    open spec fn view(&self) -> ActionView {
        match self {
            FsAction::CreateDirAll(d) => ActionView::CreateDirAll(d@),
            FsAction::WriteFile(i) => ActionView::WriteFile(*i as int),
        }
    }
}

/// The steps of a plan as mathematical values.
pub open spec fn actions_view(v: Seq<FsAction>) -> Seq<ActionView> {
    v.map_values(|a: FsAction| a@)
}

/// The steps for entry `i`: create its directory, if it has one, then write it.
pub open spec fn steps_for(entries: Seq<(Seq<char>, Seq<u8>)>, i: int) -> Seq<ActionView> {
    match parent_of(entries[i].0) {
        Some(d) => seq![ActionView::CreateDirAll(d), ActionView::WriteFile(i)],
        None => seq![ActionView::WriteFile(i)],
    }
}

/// The steps that extract the first `m` entries, in order.
pub open spec fn plan_of(entries: Seq<(Seq<char>, Seq<u8>)>, m: int) -> Seq<ActionView>
    decreases m,
{
    if m <= 0 {
        Seq::empty()
    } else {
        plan_of(entries, m - 1) + steps_for(entries, m - 1)
    }
}

/// The files present after running `acts` on an empty workspace, when each
/// write takes its path and bytes from `entries`.
pub open spec fn files_after(acts: Seq<ActionView>, entries: Seq<(Seq<char>, Seq<u8>)>) -> Map<
    Seq<char>,
    Seq<u8>,
>
    decreases acts.len(),
{
    if acts.len() == 0 {
        Map::empty()
    } else {
        match acts.last() {
            ActionView::CreateDirAll(_) => files_after(acts.drop_last(), entries),
            ActionView::WriteFile(i) => files_after(acts.drop_last(), entries).insert(
                entries[i].0,
                entries[i].1,
            ),
        }
    }
}

proof fn lemma_files_after_prefix(entries: Seq<(Seq<char>, Seq<u8>)>, m: int)
    requires
        0 <= m <= entries.len(),
    ensures
        files_after(plan_of(entries, m), entries) == map_of(entries.take(m)),
    decreases m,
{
    if m > 0 {
        lemma_files_after_prefix(entries, m - 1);
        let p = plan_of(entries, m - 1);
        let w = ActionView::WriteFile(m - 1);
        assert(entries.take(m).drop_last() =~= entries.take(m - 1));
        assert(entries.take(m).last() == entries[m - 1]);
        match parent_of(entries[m - 1].0) {
            Some(d) => {
                let c = ActionView::CreateDirAll(d);
                assert((p + seq![c, w]).drop_last() =~= p + seq![c]);
                assert((p + seq![c, w]).last() == w);
                assert((p + seq![c]).drop_last() =~= p);
                assert((p + seq![c]).last() == c);
                assert(files_after(p + seq![c], entries) == files_after(p, entries));
            },
            None => {
                assert((p + seq![w]).drop_last() =~= p);
                assert((p + seq![w]).last() == w);
            },
        }
    }
}

/// Running the extraction steps of a bundle on an empty workspace leaves
/// exactly the bundle's files, each with its bytes unchanged.
pub proof fn lemma_extraction_reproduces_assets(set: &AssetSet)
    ensures
        files_after(plan_of(set.entries_view(), set.entries_view().len() as int), set.entries_view())
            == set.contents(),
{
    let e = set.entries_view();
    lemma_files_after_prefix(e, e.len() as int);
    assert(e.take(e.len() as int) =~= e);
}

proof fn lemma_write_step_prefix(entries: Seq<(Seq<char>, Seq<u8>)>, m: int, k: int)
    requires
        0 <= m <= entries.len(),
        0 <= k < plan_of(entries, m).len(),
        plan_of(entries, m)[k] is WriteFile,
    ensures
        ({
            let plan = plan_of(entries, m);
            let i = plan[k]->WriteFile_0;
            &&& 0 <= i < m
            &&& parent_of(entries[i].0) matches Some(d) ==> k >= 1 && plan[k - 1]
                == ActionView::CreateDirAll(d)
        }),
    decreases m,
{
    let p = plan_of(entries, m - 1);
    let s = steps_for(entries, m - 1);
    assert(plan_of(entries, m) == p + s);
    if k < p.len() {
        assert((p + s)[k] == p[k]);
        lemma_write_step_prefix(entries, m - 1, k);
        if k >= 1 {
            assert((p + s)[k - 1] == p[k - 1]);
        }
    } else {
        assert((p + s)[k] == s[k - p.len()]);
        if k >= 1 {
            assert((p + s)[k - 1] == if k - 1 < p.len() {
                p[k - 1]
            } else {
                s[k - 1 - p.len()]
            });
        }
    }
}

/// In the extraction steps every write names an entry of the bundle, and a
/// file whose path has a directory part is written right after the step that
/// creates that directory.
pub proof fn lemma_directory_precedes_write(set: &AssetSet, k: int)
    requires
        0 <= k < plan_of(set.entries_view(), set.entries_view().len() as int).len(),
        plan_of(set.entries_view(), set.entries_view().len() as int)[k] is WriteFile,
    ensures
        ({
            let e = set.entries_view();
            let plan = plan_of(e, e.len() as int);
            let i = plan[k]->WriteFile_0;
            &&& 0 <= i < e.len()
            &&& parent_of(e[i].0) matches Some(d) ==> k >= 1 && plan[k - 1]
                == ActionView::CreateDirAll(d)
        }),
{
    lemma_write_step_prefix(set.entries_view(), set.entries_view().len() as int, k);
}

/// The steps that extract every file of `set`: for each entry in order, the
/// creation of its directory (when its path has one), then the write.
pub fn extraction_plan(set: &AssetSet) -> (r: Vec<FsAction>)
    ensures
        actions_view(r@) == plan_of(set.entries_view(), set.entries_view().len() as int),
{
    let n = set.len();
    let mut r: Vec<FsAction> = Vec::new();
    let mut i: usize = 0;
    while i < n
        invariant
            n == set.entries_view().len(),
            i <= n,
            actions_view(r@) == plan_of(set.entries_view(), i as int),
        decreases n - i,
    {
        let ghost before = r@;
        match parent_dir(set.path_at(i).as_str()) {
            Some(d) => {
                r.push(FsAction::CreateDirAll(d));
            },
            None => {},
        }
        r.push(FsAction::WriteFile(i));
        assert(actions_view(r@) =~= actions_view(before) + steps_for(
            set.entries_view(),
            i as int,
        ));
        i = i + 1;
    }
    r
}

} // verus!
