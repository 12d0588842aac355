//! What an extraction leaves on the disk.

use vstd::prelude::*;
use vstd::utf8::*;

use crate::copying::{CopyAct, Node, Tree};
use crate::platform::Platform;
use crate::runtime::{RuntimeData, RuntimeWorld, MARKER_NUMBER, ROOT_NUMBER};

verus! {

/// Where an extraction takes place.
pub struct Site {
    /// The directory of the bundled runtime.
    pub src: Seq<u64>,
    /// The directory to extract to.
    pub dst: Seq<u64>,
    /// The entries of the bundled runtime.
    pub entries: Seq<Tree>,
    /// The disk after a clone that failed.
    pub uncloned: Map<Seq<u64>, Node>,
}

/// What copying the bundled runtime comes to, without the file `left_out`.
pub open spec fn bundle_acts(entries: Seq<Tree>, left_out: Option<u64>) -> Seq<CopyAct> {
    crate::copying::tree_acts(left_out, Seq::empty(), Tree::Dir(ROOT_NUMBER, entries))
}

/// The path that an act is about.
pub open spec fn act_path(act: CopyAct) -> Seq<u64> {
    match act {
        CopyAct::Make(path) => path,
        CopyAct::Copy(path) => path,
    }
}

/// Whether the entries are what the disk holds below `src`.
pub open spec fn describes(
    entries: Seq<Tree>,
    disk: Map<Seq<u64>, Node>,
    src: Seq<u64>,
) -> bool {
    let acts = bundle_acts(entries, None);
    &&& forall|path: Seq<u64>| #[trigger]
        disk.contains_key(path) && src.is_prefix_of(path) ==> exists|act: CopyAct| #[trigger]
            acts.contains(act) && crate::copying::place_in(src, act_path(act)) == path
    &&& forall|act: CopyAct| #[trigger]
        acts.contains(act) ==> {
            let path = crate::copying::place_in(src, act_path(act));
            disk.contains_key(path) && (act is Make <==> disk[path] == Node::Dir)
        }
}

/// Whether the marker of the bundled runtime holds `wanted`, and no other file has its number.
pub open spec fn marked(
    entries: Seq<Tree>,
    disk: Map<Seq<u64>, Node>,
    src: Seq<u64>,
    wanted: Seq<char>,
) -> bool {
    &&& disk.contains_key(src.push(MARKER_NUMBER))
    &&& disk[src.push(MARKER_NUMBER)] == Node::File(encode_utf8(wanted))
    &&& forall|act: CopyAct| #[trigger]
        bundle_acts(entries, None).contains(act) && act is Copy && act->Copy_0.last()
            == MARKER_NUMBER ==> act->Copy_0 == seq![ROOT_NUMBER, MARKER_NUMBER]
}

/// Whether the directories around everything on the disk are there.
pub open spec fn rooted(disk: Map<Seq<u64>, Node>) -> bool {
    forall|path: Seq<u64>, outer: Seq<u64>|
        #![trigger disk.contains_key(path), outer.is_prefix_of(path)]
        disk.contains_key(path) && outer.is_prefix_of(path) ==> disk.contains_key(outer)
}

/// Whether `after` has below `dst` nothing but what `disk` has below `src`,
/// directories as directories, and the same as `disk` below `src`.
pub open spec fn fragment(
    after: Map<Seq<u64>, Node>,
    disk: Map<Seq<u64>, Node>,
    src: Seq<u64>,
    dst: Seq<u64>,
) -> bool {
    &&& forall|path: Seq<u64>|
        src.is_prefix_of(path) ==> #[trigger] after.contains_key(path) == disk.contains_key(path)
    &&& forall|path: Seq<u64>|
        src.is_prefix_of(path) && disk.contains_key(path) ==> #[trigger] after[path] == disk[path]
    &&& forall|inner: Seq<u64>| #[trigger]
        after.contains_key(dst + inner) ==> disk.contains_key(src + inner) && (disk[src + inner]
            == Node::Dir ==> after[dst + inner] == Node::Dir)
}

/// Whether `after` has the same below `dst` as `disk` has below `src`.
pub open spec fn mirrors(
    after: Map<Seq<u64>, Node>,
    dst: Seq<u64>,
    disk: Map<Seq<u64>, Node>,
    src: Seq<u64>,
) -> bool {
    &&& forall|inner: Seq<u64>| #[trigger]
        after.contains_key(dst + inner) <==> disk.contains_key(src + inner)
    &&& forall|inner: Seq<u64>|
        disk.contains_key(src + inner) ==> #[trigger] after[dst + inner] == disk[src + inner]
}

proof fn lemma_either(a: Seq<CopyAct>, b: Seq<CopyAct>, act: CopyAct)
    ensures
        (a + b).contains(act) <==> a.contains(act) || b.contains(act),
{
    if a.contains(act) {
        let i = choose|i: int| 0 <= i < a.len() && a[i] == act;
        assert((a + b)[i] == act);
    }
    if b.contains(act) {
        let i = choose|i: int| 0 <= i < b.len() && b[i] == act;
        assert((a + b)[a.len() + i] == act);
    }
    if (a + b).contains(act) {
        let i = choose|i: int| 0 <= i < (a + b).len() && (a + b)[i] == act;
        if i < a.len() {
            assert(a[i] == act);
        } else {
            assert(b[i - a.len()] == act);
        }
    }
}

/// Whether an act copies the file `number`.
pub open spec fn copies(act: CopyAct, number: u64) -> bool {
    act is Copy && act->Copy_0.last() == number
}

/// Leaving out a file takes its copies away, and nothing else. Every path goes
/// beyond the directory around the tree.
proof fn lemma_tree_without(number: u64, outer: Seq<u64>, tree: Tree, act: CopyAct)
    ensures
        crate::copying::tree_acts(Some(number), outer, tree).contains(act)
            <==> crate::copying::tree_acts(None, outer, tree).contains(act) && !copies(act, number),
        crate::copying::tree_acts(None, outer, tree).contains(act) ==> act_path(act).len()
            > outer.len(),
    decreases tree,
{
    match tree {
        Tree::File(id) => {
            let copy = CopyAct::Copy(outer.push(id));
            assert(seq![copy].contains(act) <==> act == copy) by {
                assert(seq![copy][0] == copy);
            }
            assert(!Seq::<CopyAct>::empty().contains(act));
        },
        Tree::Dir(id, entries) => {
            let make = CopyAct::Make(outer.push(id));
            lemma_entries_without(number, outer.push(id), entries, act);
            lemma_either(
                seq![make],
                crate::copying::entries_acts(Some(number), outer.push(id), entries),
                act,
            );
            lemma_either(
                seq![make],
                crate::copying::entries_acts(None, outer.push(id), entries),
                act,
            );
            assert(seq![make].contains(act) <==> act == make) by {
                assert(seq![make][0] == make);
            }
        },
    }
}

proof fn lemma_entries_without(number: u64, outer: Seq<u64>, entries: Seq<Tree>, act: CopyAct)
    ensures
        crate::copying::entries_acts(Some(number), outer, entries).contains(act)
            <==> crate::copying::entries_acts(None, outer, entries).contains(act) && !copies(
            act,
            number,
        ),
        crate::copying::entries_acts(None, outer, entries).contains(act) ==> act_path(act).len()
            > outer.len(),
    decreases entries,
{
    if entries.len() > 0 {
        let rest = entries.drop_first();
        lemma_tree_without(number, outer, entries[0], act);
        lemma_entries_without(number, outer, rest, act);
        lemma_either(
            crate::copying::tree_acts(Some(number), outer, entries[0]),
            crate::copying::entries_acts(Some(number), outer, rest),
            act,
        );
        lemma_either(
            crate::copying::tree_acts(None, outer, entries[0]),
            crate::copying::entries_acts(None, outer, rest),
            act,
        );
    }
}

/// Two entries at one place of two trees stand at the same place of each.
proof fn lemma_same_inner(base: Seq<u64>, a: Seq<u64>, b: Seq<u64>)
    requires
        base + a == base + b,
    ensures
        a == b,
{
    assert(a =~= (base + a).skip(base.len() as int));
    assert(b =~= (base + b).skip(base.len() as int));
}

/// A path below a directory starts with it.
proof fn lemma_starts(base: Seq<u64>, inner: Seq<u64>)
    ensures
        base.is_prefix_of(base + inner),
{
    assert((base + inner).subrange(0, base.len() as int) =~= base);
}

/// The disk after the copy and the marker.
pub open spec fn completed(
    disk: Map<Seq<u64>, Node>,
    site: Site,
    wanted: Seq<char>,
) -> Map<Seq<u64>, Node> {
    crate::copying::after_acts(
        disk,
        site.src,
        site.dst,
        bundle_acts(site.entries, Some(MARKER_NUMBER)),
    ).insert(site.dst.push(MARKER_NUMBER), Node::File(encode_utf8(wanted)))
}

/// What the disk has to be like before an extraction.
pub open spec fn sound(disk: Map<Seq<u64>, Node>, site: Site, wanted: Seq<char>) -> bool {
    &&& crate::copying::apart(site.src, site.dst)
    &&& rooted(disk)
    &&& describes(site.entries, disk, site.src)
    &&& marked(site.entries, disk, site.src, wanted)
}

/// One path of a completed runtime.
proof fn lemma_completed_at(
    disk: Map<Seq<u64>, Node>,
    start: Map<Seq<u64>, Node>,
    site: Site,
    wanted: Seq<char>,
    inner: Seq<u64>,
)
    requires
        sound(disk, site, wanted),
        fragment(start, disk, site.src, site.dst),
    ensures
        completed(start, site, wanted).contains_key(site.dst + inner) <==> disk.contains_key(
            site.src + inner,
        ),
        disk.contains_key(site.src + inner) ==> completed(start, site, wanted)[site.dst + inner]
            == disk[site.src + inner],
{
    let src = site.src;
    let dst = site.dst;
    let all = bundle_acts(site.entries, None);
    let acts = bundle_acts(site.entries, Some(MARKER_NUMBER));
    let copied = crate::copying::after_acts(start, src, dst, acts);
    let end = completed(start, site, wanted);
    let tree = Tree::Dir(ROOT_NUMBER, site.entries);
    let marker = seq![MARKER_NUMBER];
    assert(src.push(MARKER_NUMBER) =~= src + marker);
    assert(dst.push(MARKER_NUMBER) =~= dst + marker);
    assert forall|i: int| 0 <= i < acts.len() implies ((#[trigger] acts[i]) matches CopyAct::Copy(
        path,
    ) ==> start.contains_key(crate::copying::place_in(src, path))) by {
        assert(acts.contains(acts[i]));
        lemma_tree_without(MARKER_NUMBER, Seq::empty(), tree, acts[i]);
        assert(all.contains(acts[i]));
        lemma_starts(src, act_path(acts[i]).drop_first());
    }
    crate::copying::law_copy_merges(start, src, dst, acts);
    lemma_starts(src, inner);
    if disk.contains_key(src + inner) {
        let act = choose|act: CopyAct| #[trigger]
            all.contains(act) && crate::copying::place_in(src, act_path(act)) == src + inner;
        lemma_same_inner(src, act_path(act).drop_first(), inner);
        lemma_tree_without(MARKER_NUMBER, Seq::empty(), tree, act);
        if copies(act, MARKER_NUMBER) {
            assert(act->Copy_0.drop_first() =~= marker);
        } else {
            let i = choose|i: int| 0 <= i < acts.len() && acts[i] == act;
            assert(acts[i] == act);
            if inner == marker {
                assert(disk[src + inner] != Node::Dir);
                assert(act is Copy);
                assert(act->Copy_0.last() == MARKER_NUMBER) by {
                    assert(act->Copy_0.drop_first().last() == MARKER_NUMBER);
                }
            } else {
                if dst + inner == dst + marker {
                    lemma_same_inner(dst, inner, marker);
                }
                match act {
                    CopyAct::Copy(path) => {
                        assert(copied[crate::copying::place_in(dst, path)]
                            == start[crate::copying::place_in(src, path)]);
                    },
                    CopyAct::Make(path) => {
                        assert(copied.contains_key(dst + inner));
                        if crate::copying::overwritten(dst, acts, dst + inner) {
                            let j = choose|j: int|
                                0 <= j < acts.len() && (#[trigger] acts[j]) is Copy
                                    && crate::copying::place_in(dst, acts[j]->Copy_0) == dst
                                    + inner;
                            let other = acts[j];
                            assert(acts.contains(other));
                            lemma_tree_without(MARKER_NUMBER, Seq::empty(), tree, other);
                            lemma_same_inner(dst, other->Copy_0.drop_first(), inner);
                            assert(all.contains(other));
                            assert(false);
                        }
                        if start.contains_key(dst + inner) {
                            assert(copied[dst + inner] == start[dst + inner]);
                        }
                    },
                }
            }
        }
    }
    if end.contains_key(dst + inner) {
        if dst + inner == dst + marker {
            lemma_same_inner(dst, inner, marker);
        } else if start.contains_key(dst + inner) {
            assert(disk.contains_key(src + inner));
        } else if crate::copying::overwritten(dst, acts, dst + inner) {
            let j = choose|j: int|
                0 <= j < acts.len() && (#[trigger] acts[j]) is Copy && crate::copying::place_in(
                    dst,
                    acts[j]->Copy_0,
                ) == dst + inner;
            let other = acts[j];
            assert(acts.contains(other));
            lemma_tree_without(MARKER_NUMBER, Seq::empty(), tree, other);
            lemma_same_inner(dst, other->Copy_0.drop_first(), inner);
            assert(all.contains(other));
        } else {
            assert(copied.contains_key(dst + inner));
            assert(crate::copying::made(dst, acts, dst + inner));
            let j = choose|j: int|
                0 <= j < acts.len() && (#[trigger] acts[j]) is Make && (dst
                    + inner).is_prefix_of(crate::copying::place_in(dst, acts[j]->Make_0));
            let other = acts[j];
            let below = other->Make_0.drop_first();
            assert(acts.contains(other));
            lemma_tree_without(MARKER_NUMBER, Seq::empty(), tree, other);
            assert(all.contains(other));
            assert(disk.contains_key(src + below));
            assert(inner =~= below.subrange(0, inner.len() as int)) by {
                let whole = dst + below;
                assert(dst + inner =~= whole.subrange(0, (dst + inner).len() as int));
                assert forall|k: int| 0 <= k < inner.len() implies inner[k] == below[k] by {
                    assert((dst + inner)[dst.len() + k] == whole[dst.len() + k]);
                }
            }
            assert(src + inner =~= (src + below).subrange(0, (src + inner).len() as int));
            assert((src + inner).is_prefix_of(src + below));
        }
    }
}

/// The disk without a directory and everything below it.
pub open spec fn cleared(disk: Map<Seq<u64>, Node>, dir: Seq<u64>) -> Map<Seq<u64>, Node> {
    Map::new(
        |path: Seq<u64>| disk.contains_key(path) && !dir.is_prefix_of(path),
        |path: Seq<u64>| disk[path],
    )
}

/// The disk after `step` was carried out without a failure, other than that of a clone.
pub open spec fn disk_after(
    site: Site,
    step: RuntimeData,
    disk: Map<Seq<u64>, Node>,
) -> Map<Seq<u64>, Node> {
    match step {
        RuntimeData::ClearOld(_) => cleared(disk, site.dst),
        RuntimeData::MakeParent(_) => crate::copying::with_dirs(disk, site.dst.drop_last()),
        RuntimeData::CloneTree(_) => site.uncloned,
        RuntimeData::CopyTree(_) => crate::copying::after_acts(
            disk,
            site.src,
            site.dst,
            bundle_acts(site.entries, Some(MARKER_NUMBER)),
        ),
        RuntimeData::WriteMarker(job) => disk.insert(
            site.dst.push(MARKER_NUMBER),
            Node::File(encode_utf8(job.wanted)),
        ),
        _ => disk,
    }
}

/// The disk after the steps from `step` on.
pub open spec fn disk_end(
    world: RuntimeWorld,
    site: Site,
    step: RuntimeData,
    disk: Map<Seq<u64>, Node>,
) -> Map<Seq<u64>, Node>
    decreases crate::runtime::steps_left(step),
{
    if crate::runtime::steps_left(step) == 0 {
        disk
    } else {
        disk_end(
            world,
            site,
            crate::runtime::runtime_next(world, step),
            disk_after(site, step, disk),
        )
    }
}

/// Nothing is at the place to extract to once what was there is cleared away.
proof fn lemma_start_is_fragment(
    disk: Map<Seq<u64>, Node>,
    site: Site,
    old_present: bool,
)
    requires
        crate::copying::apart(site.src, site.dst),
        !old_present ==> forall|path: Seq<u64>| #[trigger]
            disk.contains_key(path) ==> !site.dst.is_prefix_of(path),
    ensures
        ({
            let clear = if old_present {
                cleared(disk, site.dst)
            } else {
                disk
            };
            fragment(
                crate::copying::with_dirs(clear, site.dst.drop_last()),
                disk,
                site.src,
                site.dst,
            )
        }),
{
    let src = site.src;
    let dst = site.dst;
    let clear = if old_present {
        cleared(disk, dst)
    } else {
        disk
    };
    let parent = dst.drop_last();
    let start = crate::copying::with_dirs(clear, parent);
    assert(dst.len() > 0) by {
        if dst.len() == 0 {
            assert(dst =~= src.subrange(0, 0));
        }
    }
    assert forall|path: Seq<u64>| src.is_prefix_of(path) implies clear.contains_key(path)
        == disk.contains_key(path) && !path.is_prefix_of(parent) by {
        if dst.is_prefix_of(path) {
            let inner = path.skip(dst.len() as int);
            assert(path =~= dst + inner);
            crate::copying::lemma_apart(src, dst, path, inner);
        }
        if path.is_prefix_of(parent) {
            assert(dst + Seq::<u64>::empty() =~= dst);
            crate::copying::lemma_apart(src, dst, path, Seq::empty());
            assert(path =~= dst.subrange(0, path.len() as int));
        }
    }
    assert forall|path: Seq<u64>| src.is_prefix_of(path) implies #[trigger] start.contains_key(path)
        == disk.contains_key(path) by {
        assert(clear.contains_key(path) == disk.contains_key(path) && !path.is_prefix_of(parent));
    }
    assert forall|path: Seq<u64>|
        src.is_prefix_of(path) && disk.contains_key(path) implies #[trigger] start[path]
        == disk[path] by {
        assert(clear.contains_key(path) == disk.contains_key(path) && !path.is_prefix_of(parent));
    }
    assert forall|inner: Seq<u64>| !#[trigger] start.contains_key(dst + inner) by {
        lemma_starts(dst, inner);
        assert(!(dst + inner).is_prefix_of(parent));
        if disk.contains_key(dst + inner) {
            assert(!clear.contains_key(dst + inner));
        }
    }
}

/// After an extraction that ends well by way of a copy, the runtime's
/// directory holds exactly what the bundled runtime holds: the same paths,
/// with the same contents. On macOS the copy follows a clone that failed, of
/// which nothing is left but parts of the bundled runtime.
pub proof fn law_extraction_mirrors_the_bundle(
    platform: Platform,
    world: RuntimeWorld,
    site: Site,
    disk: Map<Seq<u64>, Node>,
)
    requires
        crate::runtime::located(world),
        !crate::runtime::up_to_date(world),
        world.removal is Ok,
        world.parent is Ok,
        world.copy is Ok,
        world.marking is Ok,
        platform == Platform::MacOs ==> !world.cloned && fragment(
            site.uncloned,
            disk,
            site.src,
            site.dst,
        ),
        sound(disk, site, world.wanted->Ok_0),
        !world.old_present ==> forall|path: Seq<u64>| #[trigger]
            disk.contains_key(path) ==> !site.dst.is_prefix_of(path),
    ensures
        crate::runtime::runtime_steps(
            world,
            crate::runtime::runtime_start(platform, false),
        ).last() is Ready,
        mirrors(
            disk_end(world, site, crate::runtime::runtime_start(platform, false), disk),
            site.dst,
            disk,
            site.src,
        ),
{
    let job = crate::runtime::job_in(platform, world);
    let first = crate::runtime::runtime_start(platform, false);
    let end = disk_end(world, site, first, disk);
    crate::runtime::law_runtime_outcome(platform, false, world);
    let clear = if world.old_present {
        cleared(disk, site.dst)
    } else {
        disk
    };
    let parent = crate::copying::with_dirs(clear, site.dst.drop_last());
    let start = if platform == Platform::MacOs {
        site.uncloned
    } else {
        parent
    };
    lemma_start_is_fragment(disk, site, world.old_present);
    assert(end == disk_end(world, site, RuntimeData::ReadWanted(platform, job.bundle), disk));
    assert(end == disk_end(world, site, RuntimeData::LocateRuntime(job), disk));
    assert(end == disk_end(world, site, RuntimeData::Inspect(job), disk));
    assert(end == disk_end(world, site, RuntimeData::CheckOld(job), disk));
    if world.old_present {
        assert(end == disk_end(world, site, RuntimeData::ClearOld(job), disk));
    }
    assert(end == disk_end(world, site, RuntimeData::MakeParent(job), clear));
    if platform == Platform::MacOs {
        assert(end == disk_end(world, site, RuntimeData::CloneTree(job), parent));
    }
    assert(end == disk_end(world, site, RuntimeData::CopyTree(job), start));
    let copied = disk_after(site, RuntimeData::CopyTree(job), start);
    if platform != Platform::Windows {
        assert(end == disk_end(world, site, RuntimeData::SetModes(job), copied));
    }
    if platform == Platform::MacOs {
        assert(end == disk_end(world, site, RuntimeData::Unquarantine(job), copied));
    }
    assert(end == disk_end(world, site, RuntimeData::WriteMarker(job), copied));
    let last = disk_after(site, RuntimeData::WriteMarker(job), copied);
    assert(end == disk_end(world, site, RuntimeData::Ready, last));
    assert(end == completed(start, site, job.wanted));
    assert forall|inner: Seq<u64>| #[trigger]
        end.contains_key(site.dst + inner) <==> disk.contains_key(site.src + inner) by {
        lemma_completed_at(disk, start, site, job.wanted, inner);
    }
    assert forall|inner: Seq<u64>|
        disk.contains_key(site.src + inner) implies #[trigger] end[site.dst + inner]
        == disk[site.src + inner] by {
        lemma_completed_at(disk, start, site, job.wanted, inner);
    }
}

} // verus!
