//! The circles of one drawing: a radius for each centre, at most one circle
//! per centre, kept in a hash map keyed by the centre's packed coordinates.
use std::collections::HashMap;
use vstd::prelude::*;
use vstd::std_specs::iter::IteratorSpec;
use crate::geometry::{Coord, Radius, dist, distance, distance_fits};

verus! {

broadcast use vstd::std_specs::hash::group_hash_axioms;

/// The key under which a centre is stored: its two coordinates, each moved
/// into the unsigned range, side by side in one 64-bit word.
pub open spec fn key_of(c: Coord) -> u64 {
    ((c.0 as int + 0x8000_0000) * 0x1_0000_0000 + (c.1 as int + 0x8000_0000)) as u64
}

/// The centre stored under a key.
pub open spec fn coord_of(k: u64) -> Coord {
    (((k / 0x1_0000_0000) as int - 0x8000_0000) as i32, ((k % 0x1_0000_0000) as int - 0x8000_0000) as i32)
}

/// Keys and centres correspond one to one.
pub proof fn lemma_key_roundtrip(c: Coord, k: u64)
    ensures
        coord_of(key_of(c)) == c,
        key_of(coord_of(k)) == k,
{
    let x = c.0 as int + 0x8000_0000;
    let y = c.1 as int + 0x8000_0000;
    assert(0 <= x * 0x1_0000_0000 + y < 0x1_0000_0000_0000_0000) by (nonlinear_arith)
        requires
            0 <= x < 0x1_0000_0000,
            0 <= y < 0x1_0000_0000,
    ;
    assert((x * 0x1_0000_0000 + y) / 0x1_0000_0000 == x) by (nonlinear_arith)
        requires
            0 <= y < 0x1_0000_0000,
    ;
    assert((x * 0x1_0000_0000 + y) % 0x1_0000_0000 == y) by (nonlinear_arith)
        requires
            0 <= y < 0x1_0000_0000,
    ;
    let q = k as int / 0x1_0000_0000;
    let m = k as int % 0x1_0000_0000;
    assert(k as int == q * 0x1_0000_0000 + m && 0 <= q < 0x1_0000_0000 && 0 <= m < 0x1_0000_0000)
        by (nonlinear_arith)
        requires
            0 <= k < 0x1_0000_0000_0000_0000,
            q == k as int / 0x1_0000_0000,
            m == k as int % 0x1_0000_0000,
    ;
}

fn key(c: Coord) -> (k: u64)
    ensures
        k == key_of(c),
{
    proof {
        lemma_key_roundtrip(c, 0);
    }
    let x: u64 = (c.0 as i64 + 0x8000_0000) as u64;
    let y: u64 = (c.1 as i64 + 0x8000_0000) as u64;
    assert(x * 0x1_0000_0000 + y < 0x1_0000_0000_0000_0000) by (nonlinear_arith)
        requires
            x < 0x1_0000_0000,
            y < 0x1_0000_0000,
    ;
    x * 0x1_0000_0000 + y
}

fn coord(k: u64) -> (c: Coord)
    ensures
        c == coord_of(k),
{
    proof {
        lemma_key_roundtrip((0, 0), k);
    }
    let x: i64 = (k / 0x1_0000_0000) as i64 - 0x8000_0000;
    let y: i64 = (k % 0x1_0000_0000) as i64 - 0x8000_0000;
    (x as i32, y as i32)
}

/// The circles of a drawing.
pub struct Circles {
    map: HashMap<u64, i32>,
}

impl View for Circles {
    type V = Map<Coord, Radius>;

    /// The radius of each centre.
    closed spec fn view(&self) -> Map<Coord, Radius> {
        Map::new(|c: Coord| self.map@.contains_key(key_of(c)), |c: Coord| self.map@[key_of(c)])
    }
}

/// A point lies on or inside a circle: its distance to the centre, rounded
/// down to whole pixels, is at most the radius.
pub open spec fn within(center: Coord, radius: Radius, p: Coord) -> bool {
    dist(center, p) <= radius
}

/// Every centre of the drawing is at a computable distance from `p`.
pub open spec fn all_fit(circles: Map<Coord, Radius>, p: Coord) -> bool {
    forall|c: Coord| #[trigger] circles.contains_key(c) ==> distance_fits(c, p)
}

/// The circle picked under the pointer at `p`: one that holds `p`, and
/// whose centre is no farther from `p` than that of any other circle that
/// holds `p`.
pub open spec fn is_nearest_holding(circles: Map<Coord, Radius>, p: Coord, c: Coord, r: Radius) -> bool {
    &&& circles.contains_key(c)
    &&& circles[c] == r
    &&& within(c, r, p)
    &&& forall|c2: Coord| #[trigger] circles.contains_key(c2) && within(c2, circles[c2], p) ==> dist(c, p) <= dist(c2, p)
}

/// Some circle holds `p`.
pub open spec fn any_holds(circles: Map<Coord, Radius>, p: Coord) -> bool {
    exists|c: Coord| #[trigger] circles.contains_key(c) && within(c, circles[c], p)
}

impl Circles {
    /// A drawing without circles.
    pub fn new() -> (s: Self)
        ensures
            s@ == Map::<Coord, Radius>::empty(),
    {
        let s = Circles { map: HashMap::new() };
        assert(s@ =~= Map::<Coord, Radius>::empty());
        s
    }

    /// Draws a circle of radius `r` at `c`, replacing the one that was there.
    pub fn insert(&mut self, c: Coord, r: Radius)
        ensures
            final(self)@ == old(self)@.insert(c, r),
    {
        let k = key(c);
        self.map.insert(k, r);
        proof {
            assert forall|c2: Coord| c2 != c implies key_of(c2) != k by {
                lemma_key_roundtrip(c2, 0);
                lemma_key_roundtrip(c, 0);
            }
        }
        assert(self@ =~= old(self)@.insert(c, r));
    }

    /// The radius of the circle at `c`, if there is one.
    pub fn get(&self, c: Coord) -> (r: Option<Radius>)
        ensures
            r == (if self@.contains_key(c) { Some(self@[c]) } else { None::<Radius> }),
    {
        match self.map.get(&key(c)) {
            Some(r) => Some(*r),
            None => None,
        }
    }

    /// A second drawing with the same circles.
    pub fn duplicate(&self) -> (s: Self)
        ensures
            s@ == self@,
    {
        let s = Circles { map: self.map.clone() };
        assert(s@ =~= self@);
        s
    }

    /// Every circle once, as a centre and a radius, in no set order.
    pub fn entries(&self) -> (r: Vec<(Coord, Radius)>)
        ensures
            forall|i: int| 0 <= i < r@.len() ==> #[trigger] self@.contains_key(r@[i].0) && self@[r@[i].0] == r@[i].1,
            forall|c: Coord| #[trigger] self@.contains_key(c) ==> exists|i: int| 0 <= i < r@.len() && r@[i] == (c, self@[c]),
            forall|i: int, j: int| 0 <= i < j < r@.len() ==> r@[i].0 != r@[j].0,
    {
        let mut r: Vec<(Coord, Radius)> = Vec::new();
        let ghost all = vstd::std_specs::hash::spec_hash_map_iter(&self.map).remaining();
        for (k, v) in it: self.map.iter()
            invariant
                it.seq() == all,
                r@.len() == it.index(),
                forall|i: int| 0 <= i < r@.len() ==> #[trigger] r@[i] == (coord_of(*all[i].0), *all[i].1),
        {
            r.push((coord(*k), *v));
        }
        proof {
            assert(all.len() == r@.len());
            assert forall|i: int| 0 <= i < r@.len() implies #[trigger] self@.contains_key(r@[i].0) && self@[r@[i].0] == r@[i].1 by {
                assert(self.map@.contains_key(*all[i].0));
                lemma_key_roundtrip((0, 0), *all[i].0);
            }
            assert forall|c: Coord| #[trigger] self@.contains_key(c) implies exists|i: int| 0 <= i < r@.len() && r@[i] == (c, self@[c]) by {
                let k = key_of(c);
                assert(self.map@.contains_key(k));
                assert(all.contains((&k, &self.map@[k])));
                let j = choose|j: int| 0 <= j < all.len() && all[j] == (&k, &self.map@[k]);
                lemma_key_roundtrip(c, k);
                assert(r@[j] == (c, self@[c]));
            }
            assert forall|i: int, j: int| 0 <= i < j < r@.len() implies r@[i].0 != r@[j].0 by {
                assert(all.no_duplicates());
                lemma_key_roundtrip((0, 0), *all[i].0);
                lemma_key_roundtrip((0, 0), *all[j].0);
                assert(self.map@.contains_key(*all[i].0));
                assert(self.map@.contains_key(*all[j].0));
                if *all[i].0 == *all[j].0 {
                    assert(all[i] == all[j]);
                }
            }
        }
        r
    }

    /// Whether every centre lies at a computable distance from `p`.
    pub fn fits_at(&self, p: Coord) -> (b: bool)
        ensures
            b == all_fit(self@, p),
    {
        let entries = self.entries();
        let mut i: usize = 0;
        while i < entries.len()
            invariant
                i <= entries@.len(),
                forall|j: int| 0 <= j < entries@.len() ==> #[trigger] self@.contains_key(entries@[j].0),
                forall|c: Coord| #[trigger] self@.contains_key(c) ==> exists|j: int| 0 <= j < entries@.len() && entries@[j] == (c, self@[c]),
                forall|j: int| 0 <= j < i ==> distance_fits(#[trigger] entries@[j].0, p),
            decreases entries@.len() - i,
        {
            let c = entries[i].0;
            let dx: i64 = c.0 as i64 - p.0 as i64;
            let dy: i64 = c.1 as i64 - p.1 as i64;
            if dx < -0x8000_0000 || dx > 0x7fff_ffff || dy < -0x8000_0000 || dy > 0x7fff_ffff {
                proof {
                    assert(self@.contains_key(entries@[i as int].0));
                }
                return false;
            }
            assert(dx * dx <= 0x4000_0000_0000_0000 && dy * dy <= 0x4000_0000_0000_0000 && dx * dx >= 0 && dy * dy >= 0)
                by (nonlinear_arith)
                requires
                    -0x8000_0000 <= dx <= 0x7fff_ffff,
                    -0x8000_0000 <= dy <= 0x7fff_ffff,
            ;
            let sx: u64 = (dx * dx) as u64;
            let sy: u64 = (dy * dy) as u64;
            if sx + sy > 0x7fff_ffff {
                proof {
                    assert(self@.contains_key(entries@[i as int].0));
                }
                return false;
            }
            i = i + 1;
        }
        proof {
            assert forall|c: Coord| #[trigger] self@.contains_key(c) implies distance_fits(c, p) by {
                let j = choose|j: int| 0 <= j < entries@.len() && entries@[j] == (c, self@[c]);
                assert(distance_fits(entries@[j].0, p));
            }
        }
        true
    }

    /// The circle under the pointer at `p`: among the circles that hold `p`,
    /// one whose centre is nearest to it; `None` when no circle holds `p`.
    pub fn circle_at(&self, p: Coord) -> (found: Option<(Coord, Radius)>)
        requires
            all_fit(self@, p),
        ensures
            found is None <==> !any_holds(self@, p),
            found matches Some((c, r)) ==> is_nearest_holding(self@, p, c, r),
    {
        let entries = self.entries();
        let mut best: Option<(Coord, Radius, i32)> = None;
        let mut i: usize = 0;
        while i < entries.len()
            invariant
                i <= entries@.len(),
                all_fit(self@, p),
                forall|j: int| 0 <= j < entries@.len() ==> #[trigger] self@.contains_key(entries@[j].0) && self@[entries@[j].0] == entries@[j].1,
                best matches Some((c, r, d)) ==> self@.contains_key(c) && self@[c] == r && within(c, r, p) && d == dist(c, p),
                forall|j: int| 0 <= j < i && #[trigger] within(entries@[j].0, entries@[j].1, p) ==>
                    (best matches Some((c, r, d)) && d <= dist(entries@[j].0, p)),
            decreases entries@.len() - i,
        {
            let (c, r) = entries[i];
            assert(self@.contains_key(entries@[i as int].0));
            let d = distance(c, p);
            if d <= r {
                match best {
                    Some((_, _, bd)) => {
                        if d < bd {
                            best = Some((c, r, d));
                        }
                    },
                    None => {
                        best = Some((c, r, d));
                    },
                }
            }
            i = i + 1;
        }
        match best {
            Some((c, r, _)) => {
                proof {
                    assert forall|c2: Coord| #[trigger] self@.contains_key(c2) && within(c2, self@[c2], p) implies dist(c, p) <= dist(c2, p) by {
                        let j = choose|j: int| 0 <= j < entries@.len() && entries@[j] == (c2, self@[c2]);
                        assert(within(entries@[j].0, entries@[j].1, p));
                    }
                }
                Some((c, r))
            },
            None => {
                proof {
                    assert forall|c2: Coord| #[trigger] self@.contains_key(c2) implies !within(c2, self@[c2], p) by {
                        let j = choose|j: int| 0 <= j < entries@.len() && entries@[j] == (c2, self@[c2]);
                        if within(c2, self@[c2], p) {
                            assert(within(entries@[j].0, entries@[j].1, p));
                        }
                    }
                }
                None
            },
        }
    }
}

} // verus!
