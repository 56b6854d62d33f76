//! The warehouse hierarchy as one tree: warehouses, their zones, and the
//! bins of each zone.
//!
//! Rows come from three flat listings whose ids may fail to read (`None`);
//! such rows are skipped. Bins are given by their row number, so the caller
//! attaches the bin records it read.

use vstd::prelude::*;

verus! {

/// A zone of the tree: its id, name, and the row numbers of its bins.
#[derive(Clone, Debug)]
pub struct ZoneNode {
    pub id: u128,
    pub name: String,
    pub bins: Vec<usize>,
}

/// A warehouse of the tree, with its zones.
#[derive(Clone, Debug)]
pub struct WarehouseNode {
    pub id: u128,
    pub name: String,
    pub zones: Vec<ZoneNode>,
}

/// A warehouse row: id and name.
pub type WarehouseRow = (Option<u128>, String);

/// A zone row: id, warehouse id, name.
pub type ZoneRow = (Option<u128>, Option<u128>, String);

/// A bin row: id and zone id.
pub type BinRow = (Option<u128>, Option<u128>);

/// The rows among the first `n` bins that belong to zone `zid`, in order.
pub open spec fn matching_bins(bins: Seq<BinRow>, zid: u128, n: int) -> Seq<usize>
    decreases n,
{
    if n <= 0 {
        Seq::empty()
    } else {
        let r = matching_bins(bins, zid, n - 1);
        if bins[n - 1].0 is Some && bins[n - 1].1 == Some(zid) {
            r.push((n - 1) as usize)
        } else {
            r
        }
    }
}

/// A zone row is kept when both its ids read.
pub open spec fn zone_kept(z: ZoneRow) -> bool {
    z.0 is Some && z.1 is Some
}

/// Whether kept zone row `j` is the first kept row with its id (only that
/// one receives the zone's bins).
pub open spec fn zone_first(zones: Seq<ZoneRow>, j: int) -> bool {
    forall|k: int| 0 <= k < j ==> !(zone_kept(zones[k]) && zones[k].0 == zones[j].0)
}

/// The bins of zone row `j`.
pub open spec fn zone_bins(zones: Seq<ZoneRow>, bins: Seq<BinRow>, j: int) -> Seq<usize> {
    if zone_first(zones, j) {
        matching_bins(bins, zones[j].0->0, bins.len() as int)
    } else {
        Seq::empty()
    }
}

/// The kept zone rows among the first `n` that belong to warehouse `wid`.
pub open spec fn zones_of(zones: Seq<ZoneRow>, wid: u128, n: int) -> Seq<int>
    decreases n,
{
    if n <= 0 {
        Seq::empty()
    } else {
        let r = zones_of(zones, wid, n - 1);
        if zone_kept(zones[n - 1]) && zones[n - 1].1 == Some(wid) {
            r.push(n - 1)
        } else {
            r
        }
    }
}

/// Whether warehouse row `i` is the first row with its id (only that one
/// receives the warehouse's zones).
pub open spec fn warehouse_first(whs: Seq<WarehouseRow>, i: int) -> bool {
    forall|k: int| 0 <= k < i ==> !(whs[k].0 is Some && whs[k].0 == whs[i].0)
}

/// The kept warehouse rows among the first `n`, in order.
pub open spec fn kept_warehouses(whs: Seq<WarehouseRow>, n: int) -> Seq<int>
    decreases n,
{
    if n <= 0 {
        Seq::empty()
    } else {
        let r = kept_warehouses(whs, n - 1);
        if whs[n - 1].0 is Some {
            r.push(n - 1)
        } else {
            r
        }
    }
}

/// A zone as the tree shows it: id, name, bin rows.
pub open spec fn zone_shape(zones: Seq<ZoneRow>, bins: Seq<BinRow>, j: int) -> (
    u128,
    Seq<char>,
    Seq<usize>,
) {
    (zones[j].0->0, zones[j].2@, zone_bins(zones, bins, j))
}

/// A warehouse as the tree shows it: id, name, and its zones when it is the
/// first row with its id.
pub open spec fn warehouse_shape(
    whs: Seq<WarehouseRow>,
    zones: Seq<ZoneRow>,
    bins: Seq<BinRow>,
    i: int,
) -> (u128, Seq<char>, Seq<(u128, Seq<char>, Seq<usize>)>) {
    (
        whs[i].0->0,
        whs[i].1@,
        if warehouse_first(whs, i) {
            zones_of(zones, whs[i].0->0, zones.len() as int).map_values(
                |j: int| zone_shape(zones, bins, j),
            )
        } else {
            Seq::empty()
        },
    )
}

/// The tree the listings describe.
pub open spec fn tree_shape(whs: Seq<WarehouseRow>, zones: Seq<ZoneRow>, bins: Seq<BinRow>) -> Seq<
    (u128, Seq<char>, Seq<(u128, Seq<char>, Seq<usize>)>),
> {
    kept_warehouses(whs, whs.len() as int).map_values(|i: int| warehouse_shape(whs, zones, bins, i))
}

/// The shape of a built zone.
pub open spec fn zone_view(z: ZoneNode) -> (u128, Seq<char>, Seq<usize>) {
    (z.id, z.name@, z.bins@)
}

/// The shape of a built tree.
pub open spec fn tree_view(t: Seq<WarehouseNode>) -> Seq<
    (u128, Seq<char>, Seq<(u128, Seq<char>, Seq<usize>)>),
> {
    t.map_values(|w: WarehouseNode| (w.id, w.name@, w.zones@.map_values(|z: ZoneNode| zone_view(z))))
}

fn bins_of_zone(bins: &Vec<BinRow>, zid: u128) -> (r: Vec<usize>)
    ensures
        r@ == matching_bins(bins@, zid, bins@.len() as int),
{
    let mut r: Vec<usize> = Vec::new();
    let mut k: usize = 0;
    while k < bins.len()
        invariant
            k <= bins@.len(),
            r@ == matching_bins(bins@, zid, k as int),
        decreases bins.len() - k,
    {
        if bins[k].0.is_some() && bins[k].1 == Some(zid) {
            r.push(k);
        }
        k = k + 1;
    }
    r
}

fn is_first_zone(zones: &Vec<ZoneRow>, j: usize) -> (r: bool)
    requires
        j < zones@.len(),
    ensures
        r == zone_first(zones@, j as int),
{
    let mut k: usize = 0;
    while k < j
        invariant
            j < zones@.len(),
            k <= j,
            forall|m: int| 0 <= m < k ==> !(zone_kept(zones@[m]) && zones@[m].0 == zones@[j as int].0),
        decreases j - k,
    {
        if zones[k].0.is_some() && zones[k].1.is_some() && zones[k].0 == zones[j].0 {
            return false;
        }
        k = k + 1;
    }
    true
}

fn zone_node(zones: &Vec<ZoneRow>, bins: &Vec<BinRow>, j: usize) -> (r: ZoneNode)
    requires
        j < zones@.len(),
        zone_kept(zones@[j as int]),
    ensures
        zone_view(r) == zone_shape(zones@, bins@, j as int),
{
    let id = match zones[j].0 {
        Some(z) => z,
        None => 0,
    };
    let b = if is_first_zone(zones, j) {
        bins_of_zone(bins, id)
    } else {
        Vec::new()
    };
    let r = ZoneNode { id, name: zones[j].2.clone(), bins: b };
    proof {
        assert(r.bins@ =~= zone_bins(zones@, bins@, j as int));
    }
    r
}

fn zones_of_warehouse(zones: &Vec<ZoneRow>, bins: &Vec<BinRow>, wid: u128) -> (r: Vec<ZoneNode>)
    ensures
        r@.map_values(|z: ZoneNode| zone_view(z)) == zones_of(zones@, wid, zones@.len() as int).map_values(
            |j: int| zone_shape(zones@, bins@, j),
        ),
{
    let mut r: Vec<ZoneNode> = Vec::new();
    let mut j: usize = 0;
    while j < zones.len()
        invariant
            j <= zones@.len(),
            r@.map_values(|z: ZoneNode| zone_view(z)) == zones_of(zones@, wid, j as int).map_values(
                |m: int| zone_shape(zones@, bins@, m),
            ),
        decreases zones.len() - j,
    {
        let ghost before = r@;
        if zones[j].0.is_some() && zones[j].1 == Some(wid) {
            let node = zone_node(zones, bins, j);
            r.push(node);
            proof {
                assert(r@.map_values(|z: ZoneNode| zone_view(z)) =~= before.map_values(
                    |z: ZoneNode| zone_view(z),
                ).push(zone_view(node)));
                assert(zones_of(zones@, wid, j + 1) == zones_of(zones@, wid, j as int).push(
                    j as int,
                ));
                assert(zones_of(zones@, wid, j + 1).map_values(
                    |m: int| zone_shape(zones@, bins@, m),
                ) =~= zones_of(zones@, wid, j as int).map_values(
                    |m: int| zone_shape(zones@, bins@, m),
                ).push(zone_shape(zones@, bins@, j as int)));
            }
        }
        j = j + 1;
    }
    r
}

fn is_first_warehouse(whs: &Vec<WarehouseRow>, i: usize) -> (r: bool)
    requires
        i < whs@.len(),
    ensures
        r == warehouse_first(whs@, i as int),
{
    let mut k: usize = 0;
    while k < i
        invariant
            i < whs@.len(),
            k <= i,
            forall|m: int| 0 <= m < k ==> !(whs@[m].0 is Some && whs@[m].0 == whs@[i as int].0),
        decreases i - k,
    {
        if whs[k].0.is_some() && whs[k].0 == whs[i].0 {
            return false;
        }
        k = k + 1;
    }
    true
}

/// Builds the warehouse tree: each warehouse row whose id reads, in order,
/// with (if it is the first row with that id) the zone rows naming it as
/// their warehouse, in order; each zone with (if it is the first zone row
/// with that id) the rows of the bins naming it, in order.
pub fn build_tree(whs: &Vec<WarehouseRow>, zones: &Vec<ZoneRow>, bins: &Vec<BinRow>) -> (r: Vec<
    WarehouseNode,
>)
    ensures
        tree_view(r@) == tree_shape(whs@, zones@, bins@),
{
    let mut r: Vec<WarehouseNode> = Vec::new();
    let mut i: usize = 0;
    while i < whs.len()
        invariant
            i <= whs@.len(),
            tree_view(r@) == kept_warehouses(whs@, i as int).map_values(
                |m: int| warehouse_shape(whs@, zones@, bins@, m),
            ),
        decreases whs.len() - i,
    {
        let ghost before = r@;
        match whs[i].0 {
            Some(wid) => {
                let zs = if is_first_warehouse(whs, i) {
                    zones_of_warehouse(zones, bins, wid)
                } else {
                    Vec::new()
                };
                let node = WarehouseNode { id: wid, name: whs[i].1.clone(), zones: zs };
                r.push(node);
                proof {
                    let shape = warehouse_shape(whs@, zones@, bins@, i as int);
                    assert(node.zones@.map_values(|z: ZoneNode| zone_view(z)) =~= shape.2);
                    assert(tree_view(r@) =~= tree_view(before).push(
                        (node.id, node.name@, node.zones@.map_values(|z: ZoneNode| zone_view(z))),
                    ));
                    assert(kept_warehouses(whs@, i + 1) == kept_warehouses(whs@, i as int).push(
                        i as int,
                    ));
                    assert(kept_warehouses(whs@, i + 1).map_values(
                        |m: int| warehouse_shape(whs@, zones@, bins@, m),
                    ) =~= kept_warehouses(whs@, i as int).map_values(
                        |m: int| warehouse_shape(whs@, zones@, bins@, m),
                    ).push(shape));
                }
            },
            None => {},
        }
        i = i + 1;
    }
    r
}

proof fn lemma_matching_bins_belong(bins: Seq<BinRow>, zid: u128, n: int, k: usize)
    requires
        matching_bins(bins, zid, n).contains(k),
        n <= bins.len() <= usize::MAX,
    ensures
        bins[k as int].1 == Some(zid),
    decreases n,
{
    if n > 0 {
        let r = matching_bins(bins, zid, n - 1);
        if bins[n - 1].0 is Some && bins[n - 1].1 == Some(zid) {
            if k != (n - 1) as usize {
                let w = r.push((n - 1) as usize);
                let m = choose|m: int| 0 <= m < w.len() && #[trigger] w[m] == k;
                assert(r[m] == k);
                lemma_matching_bins_belong(bins, zid, n - 1, k);
            }
        } else {
            lemma_matching_bins_belong(bins, zid, n - 1, k);
        }
    }
}

proof fn lemma_zones_of_belong(zones: Seq<ZoneRow>, wid: u128, n: int, j: int)
    requires
        zones_of(zones, wid, n).contains(j),
    ensures
        zones[j].1 == Some(wid),
    decreases n,
{
    if n > 0 {
        let r = zones_of(zones, wid, n - 1);
        if zone_kept(zones[n - 1]) && zones[n - 1].1 == Some(wid) {
            if j != n - 1 {
                let w = r.push(n - 1);
                let m = choose|m: int| 0 <= m < w.len() && #[trigger] w[m] == j;
                assert(r[m] == j);
                lemma_zones_of_belong(zones, wid, n - 1, j);
            }
        } else {
            lemma_zones_of_belong(zones, wid, n - 1, j);
        }
    }
}

/// No bin row lands under two zone rows of the tree.
pub proof fn each_bin_under_one_zone(
    zones: Seq<ZoneRow>,
    bins: Seq<BinRow>,
    j1: int,
    j2: int,
    k: usize,
)
    requires
        0 <= j1 < zones.len(),
        0 <= j2 < zones.len(),
        j1 != j2,
        zone_kept(zones[j1]),
        zone_kept(zones[j2]),
        zone_bins(zones, bins, j1).contains(k),
        bins.len() <= usize::MAX,
    ensures
        !zone_bins(zones, bins, j2).contains(k),
{
    if zone_bins(zones, bins, j2).contains(k) {
        lemma_matching_bins_belong(bins, zones[j1].0->0, bins.len() as int, k);
        lemma_matching_bins_belong(bins, zones[j2].0->0, bins.len() as int, k);
        assert(zones[j1].0 == zones[j2].0);
        if j1 < j2 {
            assert(!zone_first(zones, j2));
        } else {
            assert(!zone_first(zones, j1));
        }
    }
}

/// No zone row lands under two warehouse rows of the tree.
pub proof fn each_zone_under_one_warehouse(
    whs: Seq<WarehouseRow>,
    zones: Seq<ZoneRow>,
    i1: int,
    i2: int,
    j: int,
)
    requires
        0 <= i1 < whs.len(),
        0 <= i2 < whs.len(),
        i1 != i2,
        whs[i1].0 is Some,
        whs[i2].0 is Some,
        warehouse_first(whs, i1),
        warehouse_first(whs, i2),
        zones_of(zones, whs[i1].0->0, zones.len() as int).contains(j),
    ensures
        !zones_of(zones, whs[i2].0->0, zones.len() as int).contains(j),
{
    if zones_of(zones, whs[i2].0->0, zones.len() as int).contains(j) {
        lemma_zones_of_belong(zones, whs[i1].0->0, zones.len() as int, j);
        lemma_zones_of_belong(zones, whs[i2].0->0, zones.len() as int, j);
        assert(whs[i1].0 == whs[i2].0);
        if i1 < i2 {
            assert(!warehouse_first(whs, i2));
        } else {
            assert(!warehouse_first(whs, i1));
        }
    }
}


proof fn lemma_matching_bins_exact(bins: Seq<BinRow>, zid: u128, n: int, k: usize)
    requires
        0 <= n <= bins.len() <= usize::MAX,
    ensures
        matching_bins(bins, zid, n).contains(k) <==> (k < n && bins[k as int].0 is Some
            && bins[k as int].1 == Some(zid)),
    decreases n,
{
    if n > 0 {
        lemma_matching_bins_exact(bins, zid, n - 1, k);
        let r = matching_bins(bins, zid, n - 1);
        if bins[n - 1].0 is Some && bins[n - 1].1 == Some(zid) {
            let w = r.push((n - 1) as usize);
            if w.contains(k) {
                let m = choose|m: int| 0 <= m < w.len() && #[trigger] w[m] == k;
                if m < r.len() {
                    assert(r[m] == k);
                }
            }
            if r.contains(k) {
                let m = choose|m: int| 0 <= m < r.len() && #[trigger] r[m] == k;
                assert(w[m] == k);
            }
            if k as int == n - 1 {
                assert(w[r.len() as int] == k);
            }
        }
    }
}

proof fn lemma_matching_bins_ascending(bins: Seq<BinRow>, zid: u128, n: int)
    requires
        0 <= n <= bins.len() <= usize::MAX,
    ensures
        forall|a: int|
            0 <= a < matching_bins(bins, zid, n).len() ==> #[trigger] matching_bins(
                bins,
                zid,
                n,
            )[a] < n,
        forall|a: int, b: int|
            0 <= a < b < matching_bins(bins, zid, n).len() ==> matching_bins(bins, zid, n)[a]
                < matching_bins(bins, zid, n)[b],
    decreases n,
{
    if n > 0 {
        lemma_matching_bins_ascending(bins, zid, n - 1);
        let r = matching_bins(bins, zid, n - 1);
        let w = matching_bins(bins, zid, n);
        if bins[n - 1].0 is Some && bins[n - 1].1 == Some(zid) {
            assert(w == r.push((n - 1) as usize));
            assert forall|a: int| 0 <= a < w.len() implies #[trigger] w[a] < n by {
                if a < r.len() {
                    assert(w[a] == r[a]);
                }
            }
            assert forall|a: int, b: int| 0 <= a < b < w.len() implies w[a] < w[b] by {
                assert(w[a] == r[a]);
                if b < r.len() {
                    assert(w[b] == r[b]);
                }
            }
        } else {
            assert(w == r);
        }
    }
}

proof fn lemma_kept_warehouses_exact(whs: Seq<WarehouseRow>, n: int, i: int)
    requires
        0 <= n <= whs.len(),
    ensures
        kept_warehouses(whs, n).contains(i) <==> (0 <= i < n && whs[i].0 is Some),
    decreases n,
{
    if n > 0 {
        lemma_kept_warehouses_exact(whs, n - 1, i);
        let r = kept_warehouses(whs, n - 1);
        if whs[n - 1].0 is Some {
            let w = r.push(n - 1);
            if w.contains(i) {
                let m = choose|m: int| 0 <= m < w.len() && #[trigger] w[m] == i;
                if m < r.len() {
                    assert(r[m] == i);
                }
            }
            if r.contains(i) {
                let m = choose|m: int| 0 <= m < r.len() && #[trigger] r[m] == i;
                assert(w[m] == i);
            }
            if i == n - 1 {
                assert(w[r.len() as int] == i);
            }
        }
    }
}

proof fn lemma_zones_of_exact(zones: Seq<ZoneRow>, wid: u128, n: int, j: int)
    requires
        0 <= n <= zones.len(),
    ensures
        zones_of(zones, wid, n).contains(j) <==> (0 <= j < n && zone_kept(zones[j])
            && zones[j].1 == Some(wid)),
    decreases n,
{
    if n > 0 {
        lemma_zones_of_exact(zones, wid, n - 1, j);
        let r = zones_of(zones, wid, n - 1);
        if zone_kept(zones[n - 1]) && zones[n - 1].1 == Some(wid) {
            let w = r.push(n - 1);
            if w.contains(j) {
                let m = choose|m: int| 0 <= m < w.len() && #[trigger] w[m] == j;
                if m < r.len() {
                    assert(r[m] == j);
                }
            }
            if r.contains(j) {
                let m = choose|m: int| 0 <= m < r.len() && #[trigger] r[m] == j;
                assert(w[m] == j);
            }
            if j == n - 1 {
                assert(w[r.len() as int] == j);
            }
        }
    }
}

/// A zone of the tree holds exactly the bin rows whose ids both read and
/// whose zone id is its own: none is left out, none is added, and they come
/// in listing order.
pub proof fn zone_holds_exactly_its_bins(
    zones: Seq<ZoneRow>,
    bins: Seq<BinRow>,
    j: int,
    k: usize,
)
    requires
        0 <= j < zones.len(),
        zone_kept(zones[j]),
        zone_first(zones, j),
        bins.len() <= usize::MAX,
    ensures
        zone_bins(zones, bins, j).contains(k) <==> (k < bins.len() && bins[k as int].0 is Some
            && bins[k as int].1 == zones[j].0),
        forall|a: int, b: int|
            0 <= a < b < zone_bins(zones, bins, j).len() ==> zone_bins(zones, bins, j)[a]
                < zone_bins(zones, bins, j)[b],
{
    lemma_matching_bins_exact(bins, zones[j].0->0, bins.len() as int, k);
    lemma_matching_bins_ascending(bins, zones[j].0->0, bins.len() as int);
}

/// A warehouse of the tree holds exactly the zone rows whose ids both read
/// and that name it as their warehouse, in listing order.
pub proof fn warehouse_holds_exactly_its_zones(
    whs: Seq<WarehouseRow>,
    zones: Seq<ZoneRow>,
    bins: Seq<BinRow>,
    i: int,
    j: int,
)
    requires
        0 <= i < whs.len(),
        whs[i].0 is Some,
        warehouse_first(whs, i),
    ensures
        zones_of(zones, whs[i].0->0, zones.len() as int).contains(j) <==> (0 <= j < zones.len()
            && zones[j].0 is Some && zones[j].1 == whs[i].0),
        warehouse_shape(whs, zones, bins, i).2 == zones_of(
            zones,
            whs[i].0->0,
            zones.len() as int,
        ).map_values(|m: int| zone_shape(zones, bins, m)),
{
    lemma_zones_of_exact(zones, whs[i].0->0, zones.len() as int, j);
}

/// Every bin row whose ids read, and whose zone is a zone row of a
/// warehouse row of the listings, shows up in the tree under that
/// warehouse and that zone.
pub proof fn tree_holds_every_bin(
    whs: Seq<WarehouseRow>,
    zones: Seq<ZoneRow>,
    bins: Seq<BinRow>,
    i: int,
    j: int,
    k: usize,
)
    requires
        0 <= i < whs.len(),
        whs[i].0 is Some,
        warehouse_first(whs, i),
        0 <= j < zones.len(),
        zone_kept(zones[j]),
        zone_first(zones, j),
        zones[j].1 == whs[i].0,
        k < bins.len() <= usize::MAX,
        bins[k as int].0 is Some,
        bins[k as int].1 == zones[j].0,
    ensures
        exists|a: int, b: int|
            #![trigger tree_shape(whs, zones, bins)[a].2[b]]
            0 <= a < tree_shape(whs, zones, bins).len() && 0 <= b < tree_shape(
                whs,
                zones,
                bins,
            )[a].2.len() && tree_shape(whs, zones, bins)[a].0 == whs[i].0->0
                && tree_shape(whs, zones, bins)[a].2[b].0 == zones[j].0->0 && tree_shape(
                whs,
                zones,
                bins,
            )[a].2[b].2.contains(k),
{
    let wid = whs[i].0->0;
    lemma_kept_warehouses_exact(whs, whs.len() as int, i);
    let kw = kept_warehouses(whs, whs.len() as int);
    let a = choose|a: int| 0 <= a < kw.len() && #[trigger] kw[a] == i;
    lemma_zones_of_exact(zones, wid, zones.len() as int, j);
    let zo = zones_of(zones, wid, zones.len() as int);
    let b = choose|b: int| 0 <= b < zo.len() && #[trigger] zo[b] == j;
    lemma_matching_bins_exact(bins, zones[j].0->0, bins.len() as int, k);
    let t = tree_shape(whs, zones, bins);
    assert(t[a] == warehouse_shape(whs, zones, bins, i));
    assert(t[a].2[b] == zone_shape(zones, bins, j));
    assert(t[a].2[b].2.contains(k));
}

} // verus!
