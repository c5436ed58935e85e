//! The tree of surfaces that make up a window (a toplevel surface and its
//! subsurfaces), and the bounding box over its mapped part.

use vstd::prelude::*;
use crate::geometry::{Point, Size, Rectangle, fits_i32};

verus! {

/// One surface of a window together with its subsurfaces, in stacking
/// order. `size` is `None` while the surface has no buffer attached (it is
/// unmapped, and its children are hidden with it). `subsurface_offset` is the
/// position of a subsurface relative to its parent, and `None` for a surface
/// that does not have the subsurface role.
pub struct SurfaceTree {
    pub size: Option<Size>,
    pub subsurface_offset: Option<Point>,
    pub children: Vec<SurfaceTree>,
}

/// Where a surface is drawn given the location of its parent: subsurfaces are
/// shifted by their offset. `None` when the sum leaves `i32`.
pub open spec fn surface_location(parent: Point, offset: Option<Point>) -> Option<Point> {
    match offset {
        None => Some(parent),
        Some(o) => if parent.add_fits(o) {
            Some(Point { x: (parent.x + o.x) as i32, y: (parent.y + o.y) as i32 })
        } else {
            None
        },
    }
}

/// Walk a sequence of sibling surfaces depth first, each child after its
/// parent, merging the rectangle of every mapped surface into `acc`.
/// Unmapped surfaces are skipped together with their children. `None` when
/// some step of the walk would leave `i32`.
pub open spec fn fold_bbox(acc: Rectangle, parent: Point, trees: Seq<SurfaceTree>) -> Option<
    Rectangle,
>
    decreases trees,
{
    if trees.len() == 0 {
        Some(acc)
    } else {
        let t = trees[0];
        let after_first = match t.size {
            None => Some(acc),
            Some(size) => match surface_location(parent, t.subsurface_offset) {
                None => None,
                Some(loc) => {
                    let r = Rectangle { loc, size };
                    if acc.merge_fits(r) {
                        fold_bbox(acc.spec_merge(r), loc, t.children@)
                    } else {
                        None
                    }
                },
            },
        };
        match after_first {
            None => None,
            Some(acc2) => fold_bbox(acc2, parent, trees.drop_first()),
        }
    }
}

/// The rectangles of the mapped surfaces of a forest, in walk order, or
/// `None` when a location would leave `i32`.
pub open spec fn mapped_rects(parent: Point, trees: Seq<SurfaceTree>) -> Option<Seq<Rectangle>>
    decreases trees,
{
    if trees.len() == 0 {
        Some(Seq::empty())
    } else {
        let t = trees[0];
        let first = match t.size {
            None => Some(Seq::empty()),
            Some(size) => match surface_location(parent, t.subsurface_offset) {
                None => None,
                Some(loc) => match mapped_rects(loc, t.children@) {
                    None => None,
                    Some(rs) => Some(seq![Rectangle { loc, size }] + rs),
                },
            },
        };
        match (first, mapped_rects(parent, trees.drop_first())) {
            (Some(a), Some(b)) => Some(a + b),
            _ => None,
        }
    }
}

/// `outer` encloses `inner` and `inner` encloses `r`, so `outer` encloses `r`.
proof fn lemma_encloses_trans(outer: Rectangle, inner: Rectangle, r: Rectangle)
    requires
        outer.encloses(inner),
        inner.encloses(r),
    ensures
        outer.encloses(r),
{
}

/// The merged box encloses the starting box and every mapped rectangle.
pub proof fn lemma_fold_bbox_encloses(acc: Rectangle, parent: Point, trees: Seq<SurfaceTree>)
    requires
        fold_bbox(acc, parent, trees) is Some,
    ensures
        mapped_rects(parent, trees) is Some,
        fold_bbox(acc, parent, trees).unwrap().encloses(acc),
        forall|i: int|
            0 <= i < mapped_rects(parent, trees).unwrap().len() ==> fold_bbox(
                acc,
                parent,
                trees,
            ).unwrap().encloses(#[trigger] mapped_rects(parent, trees).unwrap()[i]),
    decreases trees,
{
    if trees.len() == 0 {
    } else {
        let t = trees[0];
        let rest = trees.drop_first();
        let acc2 = match t.size {
            None => acc,
            Some(size) => {
                let loc = surface_location(parent, t.subsurface_offset).unwrap();
                let r = Rectangle { loc, size };
                let m = acc.spec_merge(r);
                acc.lemma_merge_encloses(r);
                lemma_fold_bbox_encloses(m, loc, t.children@);
                let acc2 = fold_bbox(m, loc, t.children@).unwrap();
                lemma_encloses_trans(acc2, m, acc);
                lemma_encloses_trans(acc2, m, r);
                acc2
            },
        };
        lemma_fold_bbox_encloses(acc2, parent, rest);
        let fin = fold_bbox(acc2, parent, rest).unwrap();
        lemma_encloses_trans(fin, acc2, acc);
        let first = match t.size {
            None => Seq::<Rectangle>::empty(),
            Some(size) => {
                let loc = surface_location(parent, t.subsurface_offset).unwrap();
                seq![Rectangle { loc, size }] + mapped_rects(loc, t.children@).unwrap()
            },
        };
        let all = mapped_rects(parent, trees).unwrap();
        assert(all == first + mapped_rects(parent, rest).unwrap());
        assert forall|i: int| 0 <= i < all.len() implies fin.encloses(#[trigger] all[i]) by {
            if i < first.len() {
                match t.size {
                    None => {},
                    Some(size) => {
                        let loc = surface_location(parent, t.subsurface_offset).unwrap();
                        let m = acc.spec_merge(Rectangle { loc, size });
                        let kids = mapped_rects(loc, t.children@).unwrap();
                        if i == 0 {
                            lemma_encloses_trans(fin, acc2, Rectangle { loc, size });
                        } else {
                            assert(all[i] == kids[i - 1]);
                            lemma_encloses_trans(fin, acc2, kids[i - 1]);
                        }
                    },
                }
            } else {
                assert(all[i] == mapped_rects(parent, rest).unwrap()[i - first.len()]);
            }
        }
    }
}

impl SurfaceTree {
    /// Merge the rectangles of the mapped surfaces of `trees`, placed
    /// relative to `parent`, into `acc`.
    pub fn fold_bbox(acc: Rectangle, parent: Point, trees: &Vec<SurfaceTree>) -> (r: Rectangle)
        requires
            fold_bbox(acc, parent, trees@) is Some,
        ensures
            r == fold_bbox(acc, parent, trees@).unwrap(),
        decreases trees@,
    {
        let mut acc = acc;
        let mut i: usize = 0;
        let ghost acc0 = acc;
        assert(trees@.skip(0) == trees@);
        while i < trees.len()
            invariant
                i <= trees.len(),
                fold_bbox(acc0, parent, trees@) == fold_bbox(acc, parent, trees@.skip(i as int)),
                fold_bbox(acc, parent, trees@.skip(i as int)) is Some,
            decreases trees.len() - i,
        {
            let ghost rest = trees@.skip(i as int);
            assert(rest[0] == trees@[i as int]);
            assert(rest.drop_first() == trees@.skip(i + 1));
            let t = &trees[i];
            match t.size {
                None => {},
                Some(size) => {
                    let loc = match t.subsurface_offset {
                        None => parent,
                        Some(o) => parent.add(o),
                    };
                    let r = Rectangle::from_loc_and_size(loc, size);
                    let m = acc.merge(r);
                    proof {
                        assert(decreases_to!(trees@ => trees@[i as int]));
                    }
                    acc = SurfaceTree::fold_bbox(m, loc, &t.children);
                },
            }
            i = i + 1;
        }
        assert(trees@.skip(i as int).len() == 0);
        acc
    }

    /// The bounding box of a window at `location` whose surfaces form `tree`:
    /// it starts as the empty rectangle at `location` and grows to hold every
    /// mapped surface.
    pub fn bounding_box(location: Point, tree: &SurfaceTree) -> (r: Rectangle)
        requires
            bbox_of(location, *tree) is Some,
        ensures
            r == bbox_of(location, *tree).unwrap(),
    {
        let start = Rectangle::from_loc_and_size(location, Size { w: 0, h: 0 });
        let ghost one = seq![*tree];
        assert(one[0] == *tree);
        assert(one.drop_first() =~= Seq::<SurfaceTree>::empty());
        match tree.size {
            None => {
                assert(fold_bbox(start, location, one.drop_first()) == Some(start));
                start
            },
            Some(size) => {
                let loc = match tree.subsurface_offset {
                    None => location,
                    Some(o) => location.add(o),
                };
                let m = start.merge(Rectangle::from_loc_and_size(loc, size));
                let r = SurfaceTree::fold_bbox(m, loc, &tree.children);
                assert(fold_bbox(r, location, one.drop_first()) == Some(r));
                r
            },
        }
    }
}

/// The bounding box over a window at `location` made of `tree`, or `None`
/// when computing it would leave `i32`.
pub open spec fn bbox_of(location: Point, tree: SurfaceTree) -> Option<Rectangle> {
    fold_bbox(Rectangle { loc: location, size: Size { w: 0, h: 0 } }, location, seq![tree])
}

} // verus!
