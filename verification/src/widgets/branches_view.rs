//! Entries of the branch panel.

use crate::graph::{CommitTime, GraphInfo};
use crate::widgets::list::ListItem;
use vstd::prelude::*;

verus! {

/// What an entry of the branch panel stands for.
#[derive(Debug, Clone, Copy, PartialEq, Eq, Structural)]
pub enum BranchItemType {
    LocalBranch,
    RemoteBranch,
    Tag,
    /// Title of a section. It cannot be selected.
    Heading,
}

impl BranchItemType {
    pub open spec fn selectable(&self) -> bool {
        !(*self is Heading)
    }

    pub fn is_selectable(&self) -> (b: bool)
        ensures
            b == self.selectable(),
            b == (*self != BranchItemType::Heading),
    {
        match self {
            BranchItemType::Heading => false,
            _ => true,
        }
    }
}

/// An entry of the branch panel: a branch or tag of the graph, or a heading.
#[derive(Debug, Clone)]
pub struct BranchItem {
    pub name: String,
    /// Position of the branch among the branches of the graph; `None` for a
    /// heading.
    pub index: Option<usize>,
    /// Colour of the branch in the 256-colour palette.
    pub color: u8,
    pub branch_type: BranchItemType,
}

impl BranchItem {
    pub fn new(name: String, index: Option<usize>, color: u8, branch_type: BranchItemType) -> (item:
        Self)
        ensures
            item.name == name,
            item.index == index,
            item.color == color,
            item.branch_type == branch_type,
    {
        Self { name, index, color, branch_type }
    }
}

impl ListItem for BranchItem {
    open spec fn selectable(&self) -> bool {
        self.branch_type.selectable()
    }

    fn is_selectable(&self) -> (b: bool) {
        self.branch_type.is_selectable()
    }
}

/// An entry of the branch panel as a mathematical value.
pub struct BranchEntry {
    pub name: Seq<char>,
    pub index: Option<usize>,
    pub color: u8,
    pub branch_type: BranchItemType,
}

impl View for BranchItem {
    type V = BranchEntry;

    open spec fn view(&self) -> BranchEntry {
        BranchEntry {
            name: self.name@,
            index: self.index,
            color: self.color,
            branch_type: self.branch_type,
        }
    }
}

/// Colour of the headings of the branch panel in the 256-colour palette.
pub const HEADING_COLOR: u8 = 7;

/// The heading with the given title.
pub open spec fn heading(title: Seq<char>) -> BranchEntry {
    BranchEntry { name: title, index: None, color: HEADING_COLOR, branch_type: BranchItemType::Heading }
}

/// The entry for the branch or tag at position `idx` among the branches of
/// the graph.
pub open spec fn entry_of(graph: GraphInfo, idx: usize, branch_type: BranchItemType) -> BranchEntry {
    BranchEntry {
        name: graph.all_branches@[idx as int].name@,
        index: Some(idx),
        color: graph.all_branches@[idx as int].term_color,
        branch_type,
    }
}

/// The entries for those of the branches `ids` that are remote, or for
/// those that are local, in the order of `ids`. Positions that the graph
/// does not have are passed over.
pub open spec fn branch_section(graph: GraphInfo, ids: Seq<usize>, remote: bool) -> Seq<BranchEntry>
    decreases ids.len(),
{
    if ids.len() == 0 {
        Seq::empty()
    } else {
        let rest = branch_section(graph, ids.drop_last(), remote);
        let idx = ids.last();
        if idx < graph.all_branches@.len() && graph.all_branches@[idx as int].is_remote == remote {
            rest.push(
                entry_of(
                    graph,
                    idx,
                    if remote {
                        BranchItemType::RemoteBranch
                    } else {
                        BranchItemType::LocalBranch
                    },
                ),
            )
        } else {
            rest
        }
    }
}

/// Where a tag of time `key` goes into `sorted`, which holds tags with their
/// times, latest first: behind every tag that is as late or later.
pub open spec fn insert_position(sorted: Seq<(int, usize)>, key: int) -> int
    decreases sorted.len(),
{
    if sorted.len() == 0 {
        0
    } else if sorted.last().0 >= key {
        sorted.len() as int
    } else {
        insert_position(sorted.drop_last(), key)
    }
}

/// Those of the tags `ids` whose commit could be read, each with the time of
/// its commit, latest first; tags of the same time in the order of `ids`.
pub open spec fn tags_by_time(graph: GraphInfo, ids: Seq<usize>) -> Seq<(int, usize)>
    decreases ids.len(),
{
    if ids.len() == 0 {
        Seq::empty()
    } else {
        let rest = tags_by_time(graph, ids.drop_last());
        let idx = ids.last();
        if idx < graph.all_branches@.len() {
            match graph.all_branches@[idx as int].target_time {
                Some(time) => rest.insert(
                    insert_position(rest, time.local_seconds()),
                    (time.local_seconds(), idx),
                ),
                None => rest,
            }
        } else {
            rest
        }
    }
}

/// The entries of the branch panel for a graph: under the heading
/// "Branches" the local branches, under "Remotes" the remote ones, under
/// "Tags" the tags, latest first.
pub open spec fn branch_entries(graph: GraphInfo) -> Seq<BranchEntry> {
    seq![heading("Branches"@)] + branch_section(graph, graph.branches@, false) + seq![
        heading("Remotes"@),
    ] + branch_section(graph, graph.branches@, true) + seq![heading("Tags"@)] + tags_by_time(
        graph,
        graph.tags@,
    ).map(|i: int, tag: (int, usize)| entry_of(graph, tag.1, BranchItemType::Tag))
}

/// Whether the times in `tags` do not rise.
pub open spec fn latest_first(tags: Seq<(int, usize)>) -> bool {
    forall|i: int, j: int| 0 <= i < j < tags.len() ==> (#[trigger] tags[i]).0 >= (#[trigger] tags[j]).0
}

/// In a sequence that is latest first, a tag goes behind the tags that are
/// as late or later and before those that are earlier.
proof fn lemma_insert_position(sorted: Seq<(int, usize)>, key: int)
    requires
        latest_first(sorted),
    ensures
        0 <= insert_position(sorted, key) <= sorted.len(),
        forall|i: int| 0 <= i < insert_position(sorted, key) ==> (#[trigger] sorted[i]).0 >= key,
        forall|i: int|
            insert_position(sorted, key) <= i < sorted.len() ==> (#[trigger] sorted[i]).0 < key,
    decreases sorted.len(),
{
    if sorted.len() > 0 && sorted.last().0 < key {
        let shorter = sorted.drop_last();
        assert forall|i: int, j: int| 0 <= i < j < shorter.len() implies (#[trigger] shorter[i]).0 >= (
        #[trigger] shorter[j]).0 by {
            assert(shorter[i] == sorted[i] && shorter[j] == sorted[j]);
        }
        lemma_insert_position(shorter, key);
        assert forall|i: int| 0 <= i < insert_position(sorted, key) implies (#[trigger] sorted[i]).0
            >= key by {
            assert(sorted[i] == shorter[i]);
        }
        assert forall|i: int| insert_position(sorted, key) <= i < sorted.len() implies (
        #[trigger] sorted[i]).0 < key by {
            if i < shorter.len() {
                assert(sorted[i] == shorter[i]);
            }
        }
    }
}

/// The tags of the branch panel are listed latest first, and each of them is
/// a tag of the graph whose commit could be read.
pub proof fn lemma_tags_by_time(graph: GraphInfo, ids: Seq<usize>)
    ensures
        latest_first(tags_by_time(graph, ids)),
        tags_by_time(graph, ids).len() <= ids.len(),
        forall|i: int|
            0 <= i < tags_by_time(graph, ids).len() ==> {
                let tag = #[trigger] tags_by_time(graph, ids)[i];
                &&& ids.contains(tag.1)
                &&& tag.1 < graph.all_branches@.len()
                &&& graph.all_branches@[tag.1 as int].target_time matches Some(time)
                &&& time.local_seconds() == tag.0
            },
    decreases ids.len(),
{
    if ids.len() > 0 {
        let shorter = ids.drop_last();
        let rest = tags_by_time(graph, shorter);
        lemma_tags_by_time(graph, shorter);
        let idx = ids.last();
        assert(ids[ids.len() - 1] == idx);
        assert forall|i: int| 0 <= i < rest.len() implies ids.contains((#[trigger] rest[i]).1) by {
            let k = choose|k: int| 0 <= k < shorter.len() && shorter[k] == rest[i].1;
            assert(ids[k] == rest[i].1);
        }
        if idx < graph.all_branches@.len() && graph.all_branches@[idx as int].target_time is Some {
            let key = graph.all_branches@[idx as int].target_time->0.local_seconds();
            lemma_insert_position(rest, key);
            let p = insert_position(rest, key);
            let out = rest.insert(p, (key, idx));
            assert(out == tags_by_time(graph, ids));
            assert forall|i: int, j: int| 0 <= i < j < out.len() implies (#[trigger] out[i]).0 >= (
            #[trigger] out[j]).0 by {
                if i < p {
                    assert(out[i] == rest[i]);
                }
                if i > p {
                    assert(out[i] == rest[i - 1]);
                }
                if j < p {
                    assert(out[j] == rest[j]);
                }
                if j > p {
                    assert(out[j] == rest[j - 1]);
                }
            }
            assert forall|i: int| 0 <= i < out.len() implies {
                let tag = #[trigger] out[i];
                &&& ids.contains(tag.1)
                &&& tag.1 < graph.all_branches@.len()
                &&& graph.all_branches@[tag.1 as int].target_time matches Some(time)
                &&& time.local_seconds() == tag.0
            } by {
                if i < p {
                    assert(out[i] == rest[i]);
                } else if i > p {
                    assert(out[i] == rest[i - 1]);
                }
            }
        }
    }
}

fn local_seconds(time: CommitTime) -> (key: i128)
    ensures
        key == time.local_seconds(),
{
    (time.seconds as i128) + (time.offset_minutes as i128) * 60
}

/// Builds the heading with the given title.
fn heading_item(title: &str) -> (item: BranchItem)
    ensures
        item@ == heading(title@),
{
    BranchItem::new(String::from_str(title), None, HEADING_COLOR, BranchItemType::Heading)
}

/// Appends to `items` the entries for the remote, or for the local,
/// branches of the graph.
fn push_section(items: &mut Vec<BranchItem>, graph: &GraphInfo, remote: bool)
    ensures
        final(items)@.map_values(|item: BranchItem| item@) == old(items)@.map_values(
            |item: BranchItem| item@,
        ) + branch_section(*graph, graph.branches@, remote),
{
    let ghost before = items@.map_values(|item: BranchItem| item@);
    let mut k: usize = 0;
    assert(graph.branches@.take(0) =~= Seq::<usize>::empty());
    assert(items@.map_values(|item: BranchItem| item@) =~= before + branch_section(
        *graph,
        graph.branches@.take(0),
        remote,
    ));
    while k < graph.branches.len()
        invariant
            k <= graph.branches@.len(),
            items@.map_values(|item: BranchItem| item@) == before + branch_section(
                *graph,
                graph.branches@.take(k as int),
                remote,
            ),
        decreases graph.branches@.len() - k,
    {
        let idx = graph.branches[k];
        proof {
            assert(graph.branches@.take(k + 1).drop_last() =~= graph.branches@.take(k as int));
            assert(graph.branches@.take(k + 1).last() == idx);
        }
        if idx < graph.all_branches.len() && graph.all_branches[idx].is_remote == remote {
            let branch = &graph.all_branches[idx];
            let ghost shown = items@.map_values(|item: BranchItem| item@);
            let item = BranchItem::new(
                branch.name.clone(),
                Some(idx),
                branch.term_color,
                if remote {
                    BranchItemType::RemoteBranch
                } else {
                    BranchItemType::LocalBranch
                },
            );
            items.push(item);
            assert(items@.map_values(|item: BranchItem| item@) =~= shown.push(item@));
            assert(before + branch_section(*graph, graph.branches@.take(k as int), remote).push(
                item@,
            ) =~= (before + branch_section(*graph, graph.branches@.take(k as int), remote)).push(
                item@,
            ));
        }
        k += 1;
    }
    assert(graph.branches@.take(k as int) =~= graph.branches@);
}

/// Lists the tags of the graph whose commit could be read, each with the
/// time of its commit, latest first.
fn sorted_tags(graph: &GraphInfo) -> (tags: Vec<(i128, usize)>)
    ensures
        tags@.map_values(|tag: (i128, usize)| (tag.0 as int, tag.1)) == tags_by_time(
            *graph,
            graph.tags@,
        ),
{
    let mut tags: Vec<(i128, usize)> = Vec::new();
    let mut k: usize = 0;
    assert(graph.tags@.take(0) =~= Seq::<usize>::empty());
    assert(tags@.map_values(|tag: (i128, usize)| (tag.0 as int, tag.1)) =~= tags_by_time(
        *graph,
        graph.tags@.take(0),
    ));
    while k < graph.tags.len()
        invariant
            k <= graph.tags@.len(),
            tags@.map_values(|tag: (i128, usize)| (tag.0 as int, tag.1)) == tags_by_time(
                *graph,
                graph.tags@.take(k as int),
            ),
        decreases graph.tags@.len() - k,
    {
        let idx = graph.tags[k];
        proof {
            assert(graph.tags@.take(k + 1).drop_last() =~= graph.tags@.take(k as int));
            assert(graph.tags@.take(k + 1).last() == idx);
        }
        if idx < graph.all_branches.len() {
            match graph.all_branches[idx].target_time {
                Some(time) => {
                    let key = local_seconds(time);
                    let ghost shown = tags@.map_values(|tag: (i128, usize)| (tag.0 as int, tag.1));
                    let mut pos: usize = tags.len();
                    assert(shown.take(pos as int) =~= shown);
                    while pos > 0 && tags[pos - 1].0 < key
                        invariant
                            pos <= tags@.len(),
                            shown == tags@.map_values(|tag: (i128, usize)| (tag.0 as int, tag.1)),
                            insert_position(shown, key as int) == insert_position(
                                shown.take(pos as int),
                                key as int,
                            ),
                        decreases pos,
                    {
                        proof {
                            assert(shown.take(pos as int).drop_last() =~= shown.take(pos - 1));
                            assert(shown.take(pos as int).last() == shown[pos - 1]);
                        }
                        pos -= 1;
                    }
                    proof {
                        assert(shown.take(shown.len() as int) =~= shown);
                        if pos > 0 {
                            assert(shown.take(pos as int).last() == shown[pos - 1]);
                        }
                        assert(insert_position(shown, key as int) == pos);
                    }
                    tags.insert(pos, (key, idx));
                    assert(tags@.map_values(|tag: (i128, usize)| (tag.0 as int, tag.1))
                        =~= shown.insert(pos as int, (key as int, idx)));
                },
                None => {},
            }
        }
        k += 1;
    }
    assert(graph.tags@.take(k as int) =~= graph.tags@);
    tags
}

/// Builds the entries of the branch panel for a graph.
pub fn branch_items(graph: &GraphInfo) -> (items: Vec<BranchItem>)
    ensures
        items@.map_values(|item: BranchItem| item@) == branch_entries(*graph),
{
    let mut items: Vec<BranchItem> = Vec::new();
    items.push(heading_item("Branches"));
    assert(items@.map_values(|item: BranchItem| item@) =~= seq![heading("Branches"@)]);
    push_section(&mut items, graph, false);
    let ghost locals = items@.map_values(|item: BranchItem| item@);
    items.push(heading_item("Remotes"));
    assert(items@.map_values(|item: BranchItem| item@) =~= locals + seq![heading("Remotes"@)]);
    push_section(&mut items, graph, true);
    let ghost remotes = items@.map_values(|item: BranchItem| item@);
    items.push(heading_item("Tags"));
    assert(items@.map_values(|item: BranchItem| item@) =~= remotes + seq![heading("Tags"@)]);
    let ghost headed = items@.map_values(|item: BranchItem| item@);
    let tags = sorted_tags(graph);
    let ghost listed = tags_by_time(*graph, graph.tags@);
    proof {
        lemma_tags_by_time(*graph, graph.tags@);
    }
    let mut k: usize = 0;
    while k < tags.len()
        invariant
            k <= tags@.len(),
            listed == tags@.map_values(|tag: (i128, usize)| (tag.0 as int, tag.1)),
            listed == tags_by_time(*graph, graph.tags@),
            forall|i: int| 0 <= i < listed.len() ==> (#[trigger] listed[i]).1 < graph.all_branches@.len(),
            items@.map_values(|item: BranchItem| item@) == headed + listed.take(k as int).map(
                |i: int, tag: (int, usize)| entry_of(*graph, tag.1, BranchItemType::Tag),
            ),
        decreases tags@.len() - k,
    {
        let idx = tags[k].1;
        assert(listed[k as int].1 == idx);
        let branch = &graph.all_branches[idx];
        let ghost shown = items@.map_values(|item: BranchItem| item@);
        let item = BranchItem::new(branch.name.clone(), Some(idx), branch.term_color, BranchItemType::Tag);
        items.push(item);
        assert(items@.map_values(|item: BranchItem| item@) =~= shown.push(item@));
        assert(listed.take(k + 1).map(
            |i: int, tag: (int, usize)| entry_of(*graph, tag.1, BranchItemType::Tag),
        ) =~= listed.take(k as int).map(
            |i: int, tag: (int, usize)| entry_of(*graph, tag.1, BranchItemType::Tag),
        ).push(item@));
        k += 1;
    }
    assert(listed.take(k as int) =~= listed);
    items
}

} // verus!
