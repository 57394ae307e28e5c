//! What holds of the merged image: the order in which segments are laid out,
//! and where their bytes and the fill bytes end up.

use crate::image::gap;
use crate::image::layout;
use crate::image::lemma_insert_place;
use crate::image::merged;
use crate::image::sort_by_addr;
use crate::image::SegmentView;
use crate::image::GAP_FILL;
use vstd::prelude::*;

verus! {

/// The addresses never decrease along the sequence.
pub open spec fn sorted(segments: Seq<SegmentView>) -> bool {
    forall|i: int, j: int| 0 <= i < j < segments.len() ==> segments[i].addr <= segments[j].addr
}

/// Every segment ends at or before the start of the one that follows it.
pub open spec fn ascending(ordered: Seq<SegmentView>) -> bool {
    forall|i: int, j: int| 0 <= i < j < ordered.len() ==> ordered[i].end() <= ordered[j].addr
}

/// Whether one of two segments ends at or before the start of the other.
pub open spec fn apart(a: SegmentView, b: SegmentView) -> bool {
    a.end() <= b.addr || b.end() <= a.addr
}

/// Every segment has bytes, and no two of them overlap.
pub open spec fn non_overlapping(segments: Seq<SegmentView>) -> bool {
    &&& forall|i: int| 0 <= i < segments.len() ==> (#[trigger] segments[i]).data.len() > 0
    &&& forall|i: int, j: int|
        0 <= i < segments.len() && 0 <= j < segments.len() && i != j ==> apart(
            segments[i],
            segments[j],
        )
}

/// Whether the address `a` lies within `segment`.
pub open spec fn holds(segment: SegmentView, a: int) -> bool {
    segment.addr <= a < segment.end()
}

/// Whether the address `a` lies within one of `segments`.
pub open spec fn covered(segments: Seq<SegmentView>, a: int) -> bool {
    exists|i: int| 0 <= i < segments.len() && #[trigger] holds(segments[i], a)
}

/// The number of bytes in all of `segments`.
pub open spec fn total_len(segments: Seq<SegmentView>) -> int
    decreases segments.len(),
{
    if segments.len() == 0 {
        0
    } else {
        total_len(segments.drop_last()) + segments.last().data.len()
    }
}

/// The number of addresses between the segments of `ordered`: from the end of
/// each to the start of the next.
pub open spec fn total_gaps(ordered: Seq<SegmentView>) -> int
    decreases ordered.len(),
{
    if ordered.len() <= 1 {
        0
    } else {
        total_gaps(ordered.drop_last()) + (ordered.last().addr - ordered[ordered.len() - 2].end())
    }
}

proof fn lemma_total_len_insert(segments: Seq<SegmentView>, pos: int, segment: SegmentView)
    requires
        0 <= pos <= segments.len(),
    ensures
        total_len(segments.insert(pos, segment)) == total_len(segments) + segment.data.len(),
    decreases segments.len(),
{
    let bigger = segments.insert(pos, segment);
    if pos == segments.len() {
        assert(bigger.drop_last() =~= segments);
    } else {
        assert(bigger.drop_last() =~= segments.drop_last().insert(pos, segment));
        assert(bigger.last() == segments.last());
        lemma_total_len_insert(segments.drop_last(), pos, segment);
    }
}

/// Sorting keeps the segments and puts them in order of address.
pub proof fn lemma_sort_by_addr(segments: Seq<SegmentView>)
    ensures
        sorted(sort_by_addr(segments)),
        sort_by_addr(segments).len() == segments.len(),
        sort_by_addr(segments).to_multiset() == segments.to_multiset(),
        total_len(sort_by_addr(segments)) == total_len(segments),
        forall|s: SegmentView| sort_by_addr(segments).contains(s) <==> segments.contains(s),
    decreases segments.len(),
{
    if segments.len() == 0 {
        assert(sort_by_addr(segments) =~= segments);
    } else {
        let head = segments.drop_last();
        let last = segments.last();
        let before = sort_by_addr(head);
        lemma_sort_by_addr(head);
        let pos = lemma_insert_place(before, last);
        let after = before.insert(pos, last);
        assert(sort_by_addr(segments) == after);
        assert(sorted(after)) by {
            assert forall|i: int, j: int| 0 <= i < j < after.len() implies after[i].addr
                <= after[j].addr by {
                if j < pos {
                    assert(after[i] == before[i] && after[j] == before[j]);
                } else if j == pos {
                    assert(after[i] == before[i]);
                    if i < pos - 1 {
                        assert(before[i].addr <= before[pos - 1].addr);
                    }
                } else if i < pos {
                    assert(after[i] == before[i] && after[j] == before[j - 1]);
                    if i < j - 1 {
                        assert(before[i].addr <= before[j - 1].addr);
                    }
                } else if i == pos {
                    assert(after[j] == before[j - 1]);
                } else {
                    assert(after[i] == before[i - 1] && after[j] == before[j - 1]);
                }
            }
        }
        lemma_total_len_insert(before, pos, last);
        assert(segments =~= head.push(last));
        vstd::seq_lib::to_multiset_insert(before, pos, last);
        vstd::seq_lib::to_multiset_build(head, last);
        assert forall|s: SegmentView| after.contains(s) <==> segments.contains(s) by {
            vstd::seq_lib::to_multiset_contains(after, s);
            vstd::seq_lib::to_multiset_contains(segments, s);
        }
    }
}

/// Segments that have bytes and do not overlap follow one another once they
/// are sorted.
pub proof fn lemma_non_overlapping_ascend(segments: Seq<SegmentView>)
    requires
        non_overlapping(segments),
    ensures
        non_overlapping(sort_by_addr(segments)),
        ascending(sort_by_addr(segments)),
    decreases segments.len(),
{
    let after = sort_by_addr(segments);
    lemma_sort_by_addr(segments);
    if segments.len() > 0 {
        let head = segments.drop_last();
        let last = segments.last();
        let before = sort_by_addr(head);
        assert(non_overlapping(head)) by {
            assert forall|i: int| 0 <= i < head.len() implies (#[trigger] head[i]).data.len()
                > 0 by {
                assert(head[i] == segments[i]);
            }
            assert forall|i: int, j: int|
                0 <= i < head.len() && 0 <= j < head.len() && i != j implies apart(
                head[i],
                head[j],
            ) by {
                assert(head[i] == segments[i] && head[j] == segments[j]);
            }
        }
        lemma_non_overlapping_ascend(head);
        lemma_sort_by_addr(head);
        let pos = lemma_insert_place(before, last);
        assert(after == before.insert(pos, last));
        assert forall|k: int| 0 <= k < before.len() implies apart(before[k], last) by {
            assert(before.contains(before[k]));
            assert(head.contains(before[k]));
            let m = choose|m: int| 0 <= m < head.len() && head[m] == before[k];
            assert(segments[m] == before[k]);
            assert(apart(segments[m], segments[segments.len() - 1]));
        }
        assert forall|i: int| 0 <= i < after.len() implies (#[trigger] after[i]).data.len()
            > 0 by {
            if i < pos {
                assert(after[i] == before[i]);
            } else if i == pos {
                assert(after[i] == segments[segments.len() - 1]);
            } else {
                assert(after[i] == before[i - 1]);
            }
        }
        assert forall|i: int, j: int|
            0 <= i < after.len() && 0 <= j < after.len() && i != j implies apart(
            after[i],
            after[j],
        ) by {
            let bi = if i < pos {
                i
            } else {
                i - 1
            };
            let bj = if j < pos {
                j
            } else {
                j - 1
            };
            if i == pos {
                assert(after[j] == before[bj]);
                assert(apart(before[bj], last));
            } else if j == pos {
                assert(after[i] == before[bi]);
                assert(apart(before[bi], last));
            } else {
                assert(after[i] == before[bi] && after[j] == before[bj]);
                assert(apart(before[bi], before[bj]));
            }
        }
    }
    assert forall|i: int, j: int| 0 <= i < j < after.len() implies after[i].end()
        <= after[j].addr by {
        assert(after[i].addr <= after[j].addr);
        assert(apart(after[i], after[j]));
        assert(after[j].data.len() > 0);
    }
}

/// Where the bytes end up when segments that follow one another are laid
/// out: the image reaches from the start of the first segment to the end of
/// the last, every segment's bytes stand at its address, and every other byte
/// is a fill byte.
pub proof fn lemma_layout(ordered: Seq<SegmentView>)
    requires
        ordered.len() > 0,
        ascending(ordered),
    ensures
        layout(ordered).len() == ordered.last().end() - ordered[0].addr,
        layout(ordered).len() == total_len(ordered) + total_gaps(ordered),
        forall|i: int|
            0 <= i < ordered.len() ==> ordered[0].addr <= (#[trigger] ordered[i]).addr
                && ordered[i].end() <= ordered.last().end(),
        forall|i: int, k: int|
            0 <= i < ordered.len() && 0 <= k < ordered[i].data.len() ==> layout(
                ordered,
            )[ordered[i].addr - ordered[0].addr + k] == #[trigger] ordered[i].data[k],
        forall|off: int|
            0 <= off < layout(ordered).len() && !covered(ordered, ordered[0].addr + off)
                ==> #[trigger] layout(ordered)[off] == GAP_FILL,
    decreases ordered.len(),
{
    let base = ordered[0].addr as int;
    let image = layout(ordered);
    if ordered.len() == 1 {
        assert(total_len(ordered.drop_last()) == 0);
        assert forall|off: int|
            0 <= off < image.len() && !covered(ordered, base + off) implies #[trigger] image[off]
            == GAP_FILL by {
            assert(holds(ordered[0], base + off));
        }
    } else {
        let head = ordered.drop_last();
        let last = ordered.last();
        let n = ordered.len() as int;
        assert(head.last() == ordered[n - 2]);
        assert(head[0] == ordered[0]);
        assert(ascending(head)) by {
            assert forall|i: int, j: int| 0 <= i < j < head.len() implies head[i].end()
                <= head[j].addr by {
                assert(head[i] == ordered[i] && head[j] == ordered[j]);
            }
        }
        lemma_layout(head);
        let before = layout(head);
        let hole = last.addr - head.last().end();
        assert(ordered[n - 2].end() <= ordered[n - 1].addr);
        assert(image == before + gap(hole) + last.data);
        assert(before.len() + hole == last.addr - base);
        assert forall|i: int| 0 <= i < n implies base <= (#[trigger] ordered[i]).addr
            && ordered[i].end() <= last.end() by {
            if i < n - 1 {
                assert(ordered[i] == head[i]);
            }
        }
        assert forall|i: int, k: int|
            0 <= i < n && 0 <= k < ordered[i].data.len() implies image[ordered[i].addr - base + k]
            == #[trigger] ordered[i].data[k] by {
            if i < n - 1 {
                assert(ordered[i] == head[i]);
                assert(head[i].end() <= head.last().end());
                assert(image[head[i].addr - base + k] == before[head[i].addr - base + k]);
            }
        }
        assert forall|off: int|
            0 <= off < image.len() && !covered(ordered, base + off) implies #[trigger] image[off]
            == GAP_FILL by {
            if off < before.len() {
                if covered(head, base + off) {
                    let i = choose|i: int| 0 <= i < head.len() && #[trigger] holds(
                        head[i],
                        base + off,
                    );
                    assert(holds(ordered[i], base + off));
                }
                assert(image[off] == before[off]);
            } else if off < before.len() + hole {
                assert(image[off] == gap(hole)[off - before.len()]);
            } else {
                assert(holds(ordered[n - 1], base + off));
            }
        }
    }
}

/// The law of merging: segments that follow one another in the order of
/// their addresses merge into an image that is as long as all of them
/// together and all the holes between them, in which every segment's bytes
/// stand at its address and every byte that belongs to no segment is a fill
/// byte. Segments that do not overlap are such segments, as
/// `lemma_non_overlapping_ascend` shows.
pub proof fn lemma_merge(segments: Seq<SegmentView>)
    requires
        segments.len() > 0,
        ascending(sort_by_addr(segments)),
    ensures
        merged(segments).data.len() == total_len(segments) + total_gaps(sort_by_addr(segments)),
        forall|i: int|
            0 <= i < segments.len() ==> merged(segments).addr <= (#[trigger] segments[i]).addr
                && segments[i].end() <= merged(segments).end(),
        forall|i: int, k: int|
            0 <= i < segments.len() && 0 <= k < segments[i].data.len() ==> merged(
                segments,
            ).data[segments[i].addr - merged(segments).addr + k] == #[trigger] segments[i].data[k],
        forall|off: int|
            0 <= off < merged(segments).data.len() && !covered(
                segments,
                merged(segments).addr + off,
            ) ==> #[trigger] merged(segments).data[off] == GAP_FILL,
{
    let ordered = sort_by_addr(segments);
    let image = merged(segments);
    lemma_sort_by_addr(segments);
    lemma_layout(ordered);
    assert forall|i: int| 0 <= i < segments.len() implies image.addr <= (
    #[trigger] segments[i]).addr && segments[i].end() <= image.end() by {
        assert(segments.contains(segments[i]));
        assert(ordered.contains(segments[i]));
        let m = choose|m: int| 0 <= m < ordered.len() && ordered[m] == segments[i];
        assert(ordered[0].addr <= ordered[m].addr);
    }
    assert forall|i: int, k: int|
        0 <= i < segments.len() && 0 <= k < segments[i].data.len() implies image.data[(
        segments[i].addr - image.addr + k)] == #[trigger] segments[i].data[k] by {
        assert(segments.contains(segments[i]));
        assert(ordered.contains(segments[i]));
        let m = choose|m: int| 0 <= m < ordered.len() && ordered[m] == segments[i];
        assert(layout(ordered)[ordered[m].addr - ordered[0].addr + k] == ordered[m].data[k]);
    }
    assert forall|off: int|
        0 <= off < image.data.len() && !covered(
            segments,
            image.addr + off,
        ) implies #[trigger] image.data[off] == GAP_FILL by {
        if covered(ordered, image.addr + off) {
            let m = choose|m: int| 0 <= m < ordered.len() && #[trigger] holds(
                ordered[m],
                image.addr + off,
            );
            assert(ordered.contains(ordered[m]));
            assert(segments.contains(ordered[m]));
            let i = choose|i: int| 0 <= i < segments.len() && segments[i] == ordered[m];
            assert(holds(segments[i], image.addr + off));
        }
    }
}

} // verus!
