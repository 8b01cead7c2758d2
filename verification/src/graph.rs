//! The static region topology: per-province attributes and an
//! adjacency relation resolved once, at construction, from declared
//! neighbour names.  Construction fails outright — no partial graph —
//! when any declared neighbour name has no matching province.

use vstd::prelude::*;
use crate::errors::SimError;
use crate::fixed::{
    SCALE, div_tz, in_range, add_c, sub_c, mul_c, div_c, lift, value_of, add_fx, sub_fx, mul_fx,
    div_fx, divi_fx,
};

verus! {

/// One province as declared by the caller: attributes plus the *names*
/// of its neighbours, not yet resolved to indices.
#[derive(Clone, Debug)]
pub struct ProvinceData {
    pub name: String,
    pub population: u32,
    pub density_per_square_km: u16,
    pub connected_provinces: Vec<String>,
}

/// One province inside a built graph: the same attributes with every
/// neighbour name resolved to the index of the first province carrying
/// that name.
#[derive(Clone, Debug)]
pub struct Province {
    pub name: String,
    pub population: u32,
    pub density_per_square_km: u16,
    pub connected_provinces: Vec<usize>,
}

/// Whether `name` matches the name of some entry of `provinces`.
pub open spec fn name_resolves(provinces: Seq<ProvinceData>, name: Seq<char>) -> bool {
    exists|j: int| 0 <= j < provinces.len() && provinces[j].name@ == name
}

/// Whether every declared neighbour name of every entry resolves.
pub open spec fn all_names_resolve(provinces: Seq<ProvinceData>) -> bool {
    forall|i: int, k: int|
        0 <= i < provinces.len() && 0 <= k < provinces[i].connected_provinces@.len()
            ==> name_resolves(provinces, provinces[i].connected_provinces@[k]@)
}

/// Whether `j` is the first index of `provinces` whose name is `name`.
pub open spec fn is_first_match(provinces: Seq<ProvinceData>, name: Seq<char>, j: int) -> bool {
    &&& 0 <= j < provinces.len()
    &&& provinces[j].name@ == name
    &&& forall|j2: int| 0 <= j2 < j ==> provinces[j2].name@ != name
}

/// Whether `node` is the resolved form of entry `i` of `provinces`.
pub open spec fn node_built(provinces: Seq<ProvinceData>, node: Province, i: int) -> bool {
    &&& node.name@ == provinces[i].name@
    &&& node.population == provinces[i].population
    &&& node.density_per_square_km == provinces[i].density_per_square_km
    &&& node.connected_provinces@.len() == provinces[i].connected_provinces@.len()
    &&& forall|k: int|
        0 <= k < node.connected_provinces@.len() ==> is_first_match(
            provinces,
            provinces[i].connected_provinces@[k]@,
            #[trigger] node.connected_provinces@[k] as int,
        )
}

/// Sum of the population densities of the first `n` provinces.
pub open spec fn density_sum(s: Seq<Province>, n: int) -> int
    decreases n,
{
    if n <= 0 {
        0
    } else {
        density_sum(s, n - 1) + s[n - 1].density_per_square_km
    }
}

/// Densities are non-negative, so their partial sums never decrease.
proof fn lemma_density_sum_mono(s: Seq<Province>, i: int, j: int)
    requires
        0 <= i <= j,
    ensures
        density_sum(s, i) <= density_sum(s, j),
    decreases j - i,
{
    if i < j {
        lemma_density_sum_mono(s, i, j - 1);
    }
}

/// Scales a base reproduction number by the province's relative
/// density deviation from the mean: `r0 * (1 + (density - mean) /
/// mean)`.  A mean that is not strictly positive is a failure.
pub open spec fn scaled_r0_c(r0: i64, density: u16, mean: i64) -> Option<int> {
    mul_c(
        lift(r0),
        add_c(
            Some(SCALE as int),
            div_c(sub_c(Some((density as int) * (SCALE as int)), lift(mean)), lift(mean)),
        ),
    )
}

/// Executable counterpart of [`scaled_r0_c`].
pub fn scaled_r_naught(r0: i64, density: u16, mean: i64) -> (r: Option<i64>)
    ensures
        value_of(r) == scaled_r0_c(r0, density, mean),
{
    let d_fx: i64 = (density as i64) * SCALE;
    let diff: i64 = sub_fx(d_fx, mean)?;
    let relative: i64 = div_fx(diff, mean)?;
    let factor: i64 = add_fx(SCALE, relative)?;
    mul_fx(r0, factor)
}

/// Whether every resolved neighbour index in `g` lies below `n`.
pub open spec fn adjacency_bounded(g: Seq<Province>, n: int) -> bool {
    forall|r: int, k: int|
        0 <= r < g.len() && 0 <= k < g[r].connected_provinces@.len()
            ==> g[r].connected_provinces@[k] < n
}

/// A graph of provinces, where nodes are provinces and edges connect
/// nearby provinces.
#[derive(Debug)]
pub struct ProvinceGraph {
    nodes: Vec<Province>,
}

impl View for ProvinceGraph {
    type V = Seq<Province>;

    closed spec fn view(&self) -> Seq<Province> {
        self.nodes@
    }
}

/// The index of the first entry of `provinces` named `name`, if any.
fn find_first(provinces: &Vec<ProvinceData>, name: &String) -> (r: Option<usize>)
    ensures
        r matches Some(j) ==> is_first_match(provinces@, name@, j as int),
        r is None ==> !name_resolves(provinces@, name@),
{
    let n: usize = provinces.len();
    let mut j: usize = 0;
    while j < n
        invariant
            0 <= j <= n,
            n == provinces@.len(),
            forall|j2: int| 0 <= j2 < j ==> provinces@[j2].name@ != name@,
        decreases n - j,
    {
        if provinces[j].name == *name {
            return Some(j);
        }
        j = j + 1;
    }
    None
}

impl ProvinceGraph {
    /// Every resolved neighbour index points inside the graph.
    pub open spec fn wf(&self) -> bool {
        adjacency_bounded(self@, self@.len() as int)
    }

    /// Number of nodes.
    pub fn len(&self) -> (n: usize)
        ensures
            n == self@.len(),
    {
        self.nodes.len()
    }

    /// The province at `index`.
    pub fn index(&self, index: usize) -> (p: &Province)
        requires
            index < self@.len(),
        ensures
            *p == self@[index as int],
    {
        &self.nodes[index]
    }

    /// Mean population density over all provinces, as a fixed-point
    /// scalar: the density sum rescaled by `SCALE`, divided by the
    /// province count with truncation.  An empty graph is rejected
    /// outright rather than dividing by zero.
    pub fn mean_density(&self) -> (r: Result<i64, SimError>)
        ensures
            r == Err::<i64, SimError>(SimError::EmptyGraph) <==> self@.len() == 0,
            r is Ok <==> 1 <= self@.len() <= i64::MAX && in_range(
                density_sum(self@, self@.len() as int),
            ) && in_range(density_sum(self@, self@.len() as int) * SCALE),
            r matches Ok(m) ==> m == div_tz(
                density_sum(self@, self@.len() as int) * SCALE,
                self@.len() as int,
            ),
    {
        let n: usize = self.nodes.len();
        if n == 0 {
            return Err(SimError::EmptyGraph);
        }
        if n as u64 > i64::MAX as u64 {
            return Err(SimError::Overflow);
        }
        let mut acc: i64 = 0;
        let mut i: usize = 0;
        while i < n
            invariant
                0 <= i <= n,
                n == self@.len(),
                acc == density_sum(self@, i as int),
                0 <= acc,
            decreases n - i,
        {
            let d: i64 = self.nodes[i].density_per_square_km as i64;
            acc = match acc.checked_add(d) {
                Some(v) => v,
                None => {
                    proof {
                        lemma_density_sum_mono(self@, i + 1, n as int);
                    }
                    return Err(SimError::Overflow);
                },
            };
            i = i + 1;
        }
        let scaled: i64 = match acc.checked_mul(SCALE) {
            Some(v) => v,
            None => {
                return Err(SimError::Overflow);
            },
        };
        match divi_fx(scaled, n as i64) {
            Some(m) => Ok(m),
            None => {
                // The province count is strictly positive.
                proof {
                    assert(false);
                }
                Err(SimError::Overflow)
            },
        }
    }

    /// Builds the graph from declared province data, resolving every
    /// neighbour name to the index of the first province carrying that
    /// name.  Succeeds exactly when every declared name resolves; the
    /// error names the first declaration, in order, that does not.
    pub fn from(provinces: Vec<ProvinceData>) -> (r: Result<ProvinceGraph, SimError>)
        ensures
            r is Ok <==> all_names_resolve(provinces@),
            r matches Ok(g) ==> {
                &&& g@.len() == provinces@.len()
                &&& forall|i: int|
                    0 <= i < provinces@.len() ==> node_built(provinces@, #[trigger] g@[i], i)
                &&& g.wf()
            },
            r matches Err(e) ==> {
                &&& e matches SimError::UnresolvedNeighbor { province, neighbor }
                &&& province < provinces@.len()
                &&& neighbor < provinces@[province as int].connected_provinces@.len()
                &&& !name_resolves(
                    provinces@,
                    provinces@[province as int].connected_provinces@[neighbor as int]@,
                )
            },
    {
        let n: usize = provinces.len();
        let mut nodes: Vec<Province> = Vec::new();
        let mut i: usize = 0;
        while i < n
            invariant
                0 <= i <= n,
                n == provinces@.len(),
                nodes@.len() == i,
                forall|i2: int| 0 <= i2 < i ==> node_built(provinces@, #[trigger] nodes@[i2], i2),
            decreases n - i,
        {
            let m: usize = provinces[i].connected_provinces.len();
            let mut conn: Vec<usize> = Vec::new();
            let mut k: usize = 0;
            while k < m
                invariant
                    0 <= k <= m,
                    0 <= i < n,
                    n == provinces@.len(),
                    m == provinces@[i as int].connected_provinces@.len(),
                    conn@.len() == k,
                    forall|k2: int|
                        0 <= k2 < k ==> is_first_match(
                            provinces@,
                            provinces@[i as int].connected_provinces@[k2]@,
                            #[trigger] conn@[k2] as int,
                        ),
                decreases m - k,
            {
                match find_first(&provinces, &provinces[i].connected_provinces[k]) {
                    Some(idx) => {
                        conn.push(idx);
                    },
                    None => {
                        return Err(SimError::UnresolvedNeighbor { province: i, neighbor: k });
                    },
                }
                k = k + 1;
            }
            let node = Province {
                name: provinces[i].name.clone(),
                population: provinces[i].population,
                density_per_square_km: provinces[i].density_per_square_km,
                connected_provinces: conn,
            };
            nodes.push(node);
            i = i + 1;
        }
        let g = ProvinceGraph { nodes };
        proof {
            assert forall|i2: int, k2: int|
                0 <= i2 < provinces@.len() && 0 <= k2
                    < provinces@[i2].connected_provinces@.len() implies name_resolves(
                provinces@,
                provinces@[i2].connected_provinces@[k2]@,
            ) by {
                assert(node_built(provinces@, g@[i2], i2));
                let idx = g@[i2].connected_provinces@[k2] as int;
                assert(is_first_match(provinces@, provinces@[i2].connected_provinces@[k2]@, idx));
            }
        }
        Ok(g)
    }
}

} // verus!
