//! A Merkle path of zeros, and the root that a leaf has under a path.
use crate::error::SynthesisError;
use crate::field::{fr_views, Fr};
use crate::gadget::hashes::mimc7::{mimc_compress, mimc_hash, MiMC, Parameters, TwoToOneMiMC};
use crate::gadget::hashes::{CRHScheme, TwoToOneCRHScheme};
use vstd::prelude::*;

verus! {

/// The siblings of the nodes on the way from a leaf to the root. The leaf's
/// own sibling comes apart; `auth_path` lists the others from the root down.
/// Bit `i` of `leaf_index`, counted from the lowest, says whether the node on
/// level `i` above the root's children is a right child.
#[derive(Clone, Debug, PartialEq, Eq)]
pub struct Path {
    pub leaf_sibling_hash: Fr,
    pub auth_path: Vec<Fr>,
    pub leaf_index: usize,
}

/// The root after `levels` levels of the authentication path have been
/// climbed from `node`, the deepest first. `index` says on which side `node`
/// lies, level by level, lowest bit first.
pub open spec fn climb(rc: Seq<nat>, auth_path: Seq<nat>, node: nat, index: nat, levels: nat) -> nat
    decreases levels,
{
    if levels == 0 {
        node
    } else {
        let sibling = auth_path[auth_path.len() - 1];
        let parent = if index % 2 == 0 {
            mimc_compress(rc, node, sibling)
        } else {
            mimc_compress(rc, sibling, node)
        };
        climb(rc, auth_path.drop_last(), parent, index / 2, (levels - 1) as nat)
    }
}

/// The root that `leaf` has under a path: the leaf is hashed, compressed
/// with its sibling, and the result climbs the authentication path.
pub open spec fn test_root(leaf_rc: Seq<nat>, rc: Seq<nat>, path: Path, leaf: Seq<nat>) -> nat {
    let leaf_hash = mimc_hash(leaf_rc, leaf);
    let sibling = path.leaf_sibling_hash@;
    let first = if path.leaf_index % 2 == 0 {
        mimc_compress(rc, leaf_hash, sibling)
    } else {
        mimc_compress(rc, sibling, leaf_hash)
    };
    climb(
        rc,
        fr_views(path.auth_path@),
        first,
        (path.leaf_index / 2) as nat,
        path.auth_path.len() as nat,
    )
}

/// The hash computed so far and its sibling, in the order left, right: a
/// node with an even index is a left child. Both are clones of what was
/// handed in.
pub fn select_left_right_child<L: Clone>(index: usize, computed_hash: &L, sibling_hash: &L) -> (r:
    Result<(L, L), SynthesisError>)
    ensures
        r matches Ok(pair) && if index % 2 == 0 {
            cloned(*computed_hash, pair.0) && cloned(*sibling_hash, pair.1)
        } else {
            cloned(*sibling_hash, pair.0) && cloned(*computed_hash, pair.1)
        },
{
    let is_left = index % 2 == 0;
    if is_left {
        Ok((computed_hash.clone(), sibling_hash.clone()))
    } else {
        Ok((sibling_hash.clone(), computed_hash.clone()))
    }
}

/// A path that can compute the root of a leaf under it.
pub trait MockingMerkleTree {
    /// The root that `leaf` has under the path.
    spec fn root_of(&self, leaf_hash_params: &Parameters, two_to_one_params: &Parameters, leaf: &[Fr]) -> nat;

    /// The root that a nonempty `leaf` has under the path.
    fn get_test_root(&self, leaf_hash_params: &Parameters, two_to_one_params: &Parameters, leaf: &[Fr]) -> (r:
        Result<Fr, SynthesisError>)
        requires
            leaf@.len() >= 1,
        ensures
            r matches Ok(root) && root@ == self.root_of(leaf_hash_params, two_to_one_params, leaf),
    ;
}

impl MockingMerkleTree for Path {
    open spec fn root_of(&self, leaf_hash_params: &Parameters, two_to_one_params: &Parameters, leaf: &[Fr]) -> nat {
        test_root(leaf_hash_params@, two_to_one_params@, *self, fr_views(leaf@))
    }

    /// The root that `leaf` has under this path.
    fn get_test_root(&self, leaf_hash_params: &Parameters, two_to_one_params: &Parameters, leaf: &[Fr]) -> (r:
        Result<Fr, SynthesisError>) {
        let claimed_leaf_hash = MiMC::evaluate(leaf_hash_params, leaf)?;
        let (left_child, right_child) = select_left_right_child(
            self.leaf_index,
            &claimed_leaf_hash,
            &self.leaf_sibling_hash,
        )?;
        let mut curr_path_node = TwoToOneMiMC::evaluate(
            two_to_one_params,
            &left_child,
            &right_child,
        )?;
        let mut index = self.leaf_index / 2;
        let ghost rc = two_to_one_params@;
        let ghost full = fr_views(self.auth_path@);
        let ghost want = test_root(leaf_hash_params@, rc, *self, fr_views(leaf@));
        let mut level: usize = self.auth_path.len();
        assert(full.subrange(0, level as int) =~= full);
        while level > 0
            invariant
                level <= self.auth_path.len(),
                rc == two_to_one_params@,
                full == fr_views(self.auth_path@),
                want == climb(
                    rc,
                    full.subrange(0, level as int),
                    curr_path_node@,
                    index as nat,
                    level as nat,
                ),
            decreases level,
        {
            level -= 1;
            let (left, right) = select_left_right_child(
                index,
                &curr_path_node,
                &self.auth_path[level],
            )?;
            proof {
                assert(full.subrange(0, level + 1).drop_last() =~= full.subrange(0, level as int));
            }
            curr_path_node = TwoToOneMiMC::compress(two_to_one_params, &left, &right)?;
            index = index / 2;
        }
        Ok(curr_path_node)
    }

}

impl Path {
    /// Whether `leaf` has the root `root_hash` under this path.
    pub fn verify(&self, leaf_hash_params: &Parameters, two_to_one_params: &Parameters, root_hash: &Fr, leaf: &[Fr]) -> (r:
        Result<bool, SynthesisError>)
        requires
            leaf.len() >= 1,
        ensures
            r matches Ok(ok) && ok == (root_hash@ == test_root(
                leaf_hash_params@,
                two_to_one_params@,
                *self,
                fr_views(leaf@),
            )),
    {
        let root = self.get_test_root(leaf_hash_params, two_to_one_params, leaf)?;
        Ok(root.same_value(root_hash))
    }
}

/// The path of the first leaf in a tree of height `tree_height` whose other
/// leaves and nodes are all zero: `tree_height - 2` zeros above a zero
/// sibling.
pub fn get_mocking_merkle_tree(tree_height: u64) -> (path: Path)
    requires
        2 <= tree_height <= usize::MAX,
    ensures
        path.leaf_index == 0,
        path.leaf_sibling_hash@ == 0,
        path.auth_path.len() == tree_height - 2,
        forall|i: int| 0 <= i < path.auth_path.len() ==> (#[trigger] path.auth_path[i])@ == 0,
{
    let total_sibling_nodes: usize = (tree_height - 1) as usize;
    let mut auth_path: Vec<Fr> = Vec::new();
    let mut i: usize = 1;
    while i < total_sibling_nodes
        invariant
            1 <= i <= total_sibling_nodes,
            auth_path.len() == i - 1,
            forall|k: int| 0 <= k < auth_path.len() ==> (#[trigger] auth_path[k])@ == 0,
        decreases total_sibling_nodes - i,
    {
        auth_path.push(Fr::zero());
        i += 1;
    }
    Path { leaf_index: 0, auth_path, leaf_sibling_hash: Fr::zero() }
}

} // verus!
