//! Block registry construction: resolve a list of block declarations --
//! each naming its six face textures -- against an atlas map from texture
//! name to UV rectangle. Block IDs are assigned by declaration order; lookup
//! by name is a separate secondary index. Construction is pure: it either
//! yields the whole registry or fails with the offending name, never a
//! partial result.

use crate::block::Block;
use crate::geom::UVRect;
use vstd::prelude::*;

verus! {

/// One block declaration: the block's name and the texture name of each of
/// its six faces, to be resolved against the atlas.
#[derive(Debug)]
pub struct BlockInfo {
    pub name: String,
    pub front: String,
    pub back: String,
    pub left: String,
    pub right: String,
    pub top: String,
    pub bottom: String,
}

/// The declaration list as consumed from the block-registry document.
#[derive(Debug)]
pub struct BlockInfoRegistry {
    pub blocks: Vec<BlockInfo>,
}

/// One atlas entry: a texture name and its normalized rectangle.
#[derive(Debug)]
pub struct AtlasEntry {
    pub name: String,
    pub rect: UVRect,
}

/// Immutable lookup from texture name to normalized UV rectangle in the
/// packed atlas.
#[derive(Debug)]
pub struct AtlasMap {
    pub entries: Vec<AtlasEntry>,
}

/// Why registry construction failed, carrying the offending name.
#[derive(Debug)]
pub enum RegistryError {
    /// A declaration references a texture name absent from the atlas.
    UnknownTexture(String),
    /// Two declarations share a block name.
    DuplicateBlockName(String),
}

/// First match for `name` among the atlas entries from position `i` on.
pub open spec fn atlas_lookup_from(a: Seq<AtlasEntry>, name: Seq<char>, i: int) -> Option<UVRect>
    decreases a.len() - i,
{
    if i < 0 || i >= a.len() {
        None
    } else if a[i].name@ == name {
        Some(a[i].rect)
    } else {
        atlas_lookup_from(a, name, i + 1)
    }
}

/// The rectangle the atlas assigns to `name`, if any.
pub open spec fn atlas_spec_lookup(a: Seq<AtlasEntry>, name: Seq<char>) -> Option<UVRect> {
    atlas_lookup_from(a, name, 0)
}

/// The rectangle of a name known to be present (arbitrary otherwise).
pub open spec fn rect_of(a: Seq<AtlasEntry>, name: Seq<char>) -> UVRect {
    match atlas_spec_lookup(a, name) {
        Some(r) => r,
        None => UVRect { u_min: 0, v_min: 0, u_max: 0, v_max: 0 },
    }
}

impl AtlasMap {
    /// Texture names are distinct and every rectangle lies inside the atlas.
    pub open spec fn wf(self) -> bool {
        &&& forall|i: int, j: int|
            0 <= i < j < self.entries@.len() ==> self.entries@[i].name@ != self.entries@[j].name@
        &&& forall|i: int| 0 <= i < self.entries@.len() ==> (#[trigger] self.entries@[i].rect).wf()
    }

    /// An empty atlas.
    pub fn new() -> (a: AtlasMap)
        ensures
            a.wf(),
            a.entries@.len() == 0,
    {
        AtlasMap { entries: Vec::new() }
    }

    /// Add a texture. Skipped (the map is unchanged) when the name is
    /// already present, so `wf` is preserved.
    pub fn insert(&mut self, name: String, rect: UVRect) -> (added: bool)
        requires
            old(self).wf(),
            rect.wf(),
        ensures
            final(self).wf(),
            added <==> atlas_spec_lookup(old(self).entries@, name@) is None,
            added ==> final(self).entries@ == old(self).entries@.push(
                AtlasEntry { name, rect },
            ),
            !added ==> final(self).entries@ == old(self).entries@,
    {
        if self.lookup(&name).is_some() {
            return false;
        }
        proof {
            lemma_atlas_lookup_none_no_match(self.entries@, name@, 0);
        }
        let ghost old_entries = self.entries@;
        self.entries.push(AtlasEntry { name, rect });
        proof {
            assert forall|i: int, j: int|
                0 <= i < j < self.entries@.len() implies self.entries@[i].name@
                != self.entries@[j].name@ by {
                if j < self.entries@.len() - 1 {
                    assert(old_entries[i].name@ != old_entries[j].name@);
                }
            }
        }
        true
    }

    /// The rectangle registered for `name`, if any.
    pub fn lookup(&self, name: &String) -> (r: Option<UVRect>)
        ensures
            r == atlas_spec_lookup(self.entries@, name@),
    {
        let mut i: usize = 0;
        while i < self.entries.len()
            invariant
                i <= self.entries@.len(),
                atlas_spec_lookup(self.entries@, name@) == atlas_lookup_from(
                    self.entries@,
                    name@,
                    i as int,
                ),
            decreases self.entries@.len() - i,
        {
            if self.entries[i].name == *name {
                return Some(self.entries[i].rect);
            }
            i = i + 1;
        }
        None
    }
}

/// When a lookup from position `i` finds nothing, no entry from `i` on
/// carries the name.
proof fn lemma_atlas_lookup_none_no_match(a: Seq<AtlasEntry>, name: Seq<char>, i: int)
    requires
        atlas_lookup_from(a, name, i) is None,
        0 <= i,
    ensures
        forall|j: int| i <= j < a.len() ==> a[j].name@ != name,
    decreases a.len() - i,
{
    if i < a.len() {
        lemma_atlas_lookup_none_no_match(a, name, i + 1);
    }
}

/// The first texture name of declaration `d`, in face order, that the atlas
/// does not know; `None` when all six resolve.
pub open spec fn decl_missing(a: Seq<AtlasEntry>, d: BlockInfo) -> Option<Seq<char>> {
    if atlas_spec_lookup(a, d.front@) is None {
        Some(d.front@)
    } else if atlas_spec_lookup(a, d.back@) is None {
        Some(d.back@)
    } else if atlas_spec_lookup(a, d.left@) is None {
        Some(d.left@)
    } else if atlas_spec_lookup(a, d.right@) is None {
        Some(d.right@)
    } else if atlas_spec_lookup(a, d.top@) is None {
        Some(d.top@)
    } else if atlas_spec_lookup(a, d.bottom@) is None {
        Some(d.bottom@)
    } else {
        None
    }
}

/// The block built from declaration `d` with all six faces resolved.
pub open spec fn decl_resolve(a: Seq<AtlasEntry>, d: BlockInfo) -> Block {
    Block {
        front: rect_of(a, d.front@),
        back: rect_of(a, d.back@),
        left: rect_of(a, d.left@),
        right: rect_of(a, d.right@),
        top: rect_of(a, d.top@),
        bottom: rect_of(a, d.bottom@),
    }
}

/// Declaration `i` repeats the name of an earlier declaration.
pub open spec fn dup_before(decls: Seq<BlockInfo>, i: int) -> bool {
    exists|j: int| 0 <= j < i && decls[j].name@ == decls[i].name@
}

/// Declaration `i` fails: a repeated name or an unresolvable texture.
pub open spec fn decl_bad(a: Seq<AtlasEntry>, decls: Seq<BlockInfo>, i: int) -> bool {
    dup_before(decls, i) || decl_missing(a, decls[i]) is Some
}

/// Index of the first failing declaration at or past `i`, or `decls.len()`
/// when every one from `i` on succeeds.
pub open spec fn first_bad_from(a: Seq<AtlasEntry>, decls: Seq<BlockInfo>, i: int) -> int
    decreases decls.len() - i,
{
    if i < 0 || i >= decls.len() {
        decls.len() as int
    } else if decl_bad(a, decls, i) {
        i
    } else {
        first_bad_from(a, decls, i + 1)
    }
}

/// Index of the first failing declaration, or `decls.len()` when
/// construction succeeds.
pub open spec fn first_bad(a: Seq<AtlasEntry>, decls: Seq<BlockInfo>) -> int {
    first_bad_from(a, decls, 0)
}

/// The immutable table of block types: `blocks[id]` holds the six resolved
/// rectangles of the declaration that got ID `id`, `names[id]` its name.
#[derive(Debug)]
pub struct BlockRegistry {
    pub blocks: Vec<Block>,
    pub names: Vec<String>,
}

/// Whether some stored name reads the same as `name`.
fn contains_name(names: &Vec<String>, name: &String) -> (r: bool)
    ensures
        r <==> exists|j: int| 0 <= j < names@.len() && names@[j]@ == name@,
{
    let mut j: usize = 0;
    while j < names.len()
        invariant
            j <= names@.len(),
            forall|k: int| 0 <= k < j ==> names@[k]@ != name@,
        decreases names@.len() - j,
    {
        if names[j] == *name {
            return true;
        }
        j = j + 1;
    }
    false
}

impl BlockRegistry {
    /// One name per block, names distinct, every block's rectangles valid.
    pub open spec fn wf(self) -> bool {
        &&& self.names@.len() == self.blocks@.len()
        &&& forall|i: int| 0 <= i < self.blocks@.len() ==> (#[trigger] self.blocks@[i]).wf()
        &&& forall|i: int, j: int|
            0 <= i < j < self.names@.len() ==> self.names@[i]@ != self.names@[j]@
    }

    /// Number of registered block types.
    pub fn len(&self) -> (n: usize)
        ensures
            n == self.blocks@.len(),
    {
        self.blocks.len()
    }

    /// The ID assigned to block name `name`: the secondary index by name.
    pub fn id_of(&self, name: &String) -> (r: Option<usize>)
        ensures
            match r {
                Some(id) => id < self.names@.len() && self.names@[id as int]@ == name@,
                None => forall|j: int| 0 <= j < self.names@.len() ==> self.names@[j]@ != name@,
            },
    {
        let mut i: usize = 0;
        while i < self.names.len()
            invariant
                i <= self.names@.len(),
                forall|j: int| 0 <= j < i ==> self.names@[j]@ != name@,
            decreases self.names@.len() - i,
        {
            if self.names[i] == *name {
                return Some(i);
            }
            i = i + 1;
        }
        None
    }

    /// Resolve every declaration against the atlas, in order, assigning IDs
    /// by declaration order. Fails with `DuplicateBlockName` on a repeated
    /// block name (checked first for each declaration) or `UnknownTexture`
    /// on the first texture name, in face order, that the atlas lacks;
    /// succeeds if and only if no declaration fails, and never partially.
    pub fn build(atlas: &AtlasMap, decls: &BlockInfoRegistry) -> (r: Result<
        BlockRegistry,
        RegistryError,
    >)
        requires
            atlas.wf(),
        ensures
            r is Ok <==> first_bad(atlas.entries@, decls.blocks@) == decls.blocks@.len(),
            match r {
                Ok(reg) => {
                    &&& reg.wf()
                    &&& reg.blocks@.len() == decls.blocks@.len()
                    &&& forall|i: int|
                        0 <= i < decls.blocks@.len() ==> #[trigger] reg.blocks@[i]
                            == decl_resolve(atlas.entries@, decls.blocks@[i])
                    &&& forall|i: int|
                        0 <= i < decls.blocks@.len() ==> (#[trigger] reg.names@[i])@
                            == decls.blocks@[i].name@
                },
                Err(e) => {
                    let k = first_bad(atlas.entries@, decls.blocks@);
                    &&& 0 <= k < decls.blocks@.len()
                    &&& if dup_before(decls.blocks@, k) {
                        e matches RegistryError::DuplicateBlockName(n) && n@
                            == decls.blocks@[k].name@
                    } else {
                        e matches RegistryError::UnknownTexture(n) && Some(n@) == decl_missing(
                            atlas.entries@,
                            decls.blocks@[k],
                        )
                    }
                },
            },
    {
        let ghost a = atlas.entries@;
        let ghost ds = decls.blocks@;
        let mut blocks: Vec<Block> = Vec::new();
        let mut names: Vec<String> = Vec::new();
        let n = decls.blocks.len();
        let mut i: usize = 0;
        while i < n
            invariant
                atlas.wf(),
                a == atlas.entries@,
                ds == decls.blocks@,
                n == ds.len(),
                i <= n,
                blocks@.len() == i,
                names@.len() == i,
                first_bad(a, ds) == first_bad_from(a, ds, i as int),
                forall|j: int| 0 <= j < i ==> !decl_bad(a, ds, j),
                forall|j: int|
                    0 <= j < i ==> #[trigger] blocks@[j] == decl_resolve(a, ds[j]),
                forall|j: int| 0 <= j < i ==> (#[trigger] names@[j])@ == ds[j].name@,
            decreases n - i,
        {
            let d = &decls.blocks[i];
            if contains_name(&names, &d.name) {
                proof {
                    let j = choose|j: int| 0 <= j < names@.len() && names@[j]@ == d.name@;
                    assert(ds[j].name@ == ds[i as int].name@);
                    assert(dup_before(ds, i as int));
                    assert(first_bad(a, ds) == i as int);
                }
                return Err(RegistryError::DuplicateBlockName(d.name.clone()));
            }
            proof {
                assert forall|j: int| 0 <= j < i implies ds[j].name@ != ds[i as int].name@ by {
                    assert(names@[j]@ == ds[j].name@);
                }
                assert(!dup_before(ds, i as int));
            }
            let front = match atlas.lookup(&d.front) {
                Some(rect) => rect,
                None => {
                    proof {
                        assert(first_bad(a, ds) == i as int);
                    }
                    return Err(RegistryError::UnknownTexture(d.front.clone()));
                },
            };
            let back = match atlas.lookup(&d.back) {
                Some(rect) => rect,
                None => {
                    proof {
                        assert(first_bad(a, ds) == i as int);
                    }
                    return Err(RegistryError::UnknownTexture(d.back.clone()));
                },
            };
            let left = match atlas.lookup(&d.left) {
                Some(rect) => rect,
                None => {
                    proof {
                        assert(first_bad(a, ds) == i as int);
                    }
                    return Err(RegistryError::UnknownTexture(d.left.clone()));
                },
            };
            let right = match atlas.lookup(&d.right) {
                Some(rect) => rect,
                None => {
                    proof {
                        assert(first_bad(a, ds) == i as int);
                    }
                    return Err(RegistryError::UnknownTexture(d.right.clone()));
                },
            };
            let top = match atlas.lookup(&d.top) {
                Some(rect) => rect,
                None => {
                    proof {
                        assert(first_bad(a, ds) == i as int);
                    }
                    return Err(RegistryError::UnknownTexture(d.top.clone()));
                },
            };
            let bottom = match atlas.lookup(&d.bottom) {
                Some(rect) => rect,
                None => {
                    proof {
                        assert(first_bad(a, ds) == i as int);
                    }
                    return Err(RegistryError::UnknownTexture(d.bottom.clone()));
                },
            };
            blocks.push(Block::new(front, back, left, right, top, bottom));
            names.push(d.name.clone());
            proof {
                assert(!decl_bad(a, ds, i as int));
                assert(blocks@[i as int] == decl_resolve(a, ds[i as int]));
            }
            i = i + 1;
        }
        let reg = BlockRegistry { blocks, names };
        proof {
            assert forall|p: int, q: int|
                0 <= p < q < reg.names@.len() implies reg.names@[p]@ != reg.names@[q]@ by {
                assert(!decl_bad(a, ds, q));
                assert(!dup_before(ds, q));
            }
            assert forall|p: int| 0 <= p < reg.blocks@.len() implies (
            #[trigger] reg.blocks@[p]).wf() by {
                assert(!decl_bad(a, ds, p));
                assert(decl_missing(a, ds[p]) is None);
                lemma_lookup_some_wf(a, ds[p].front@);
                lemma_lookup_some_wf(a, ds[p].back@);
                lemma_lookup_some_wf(a, ds[p].left@);
                lemma_lookup_some_wf(a, ds[p].right@);
                lemma_lookup_some_wf(a, ds[p].top@);
                lemma_lookup_some_wf(a, ds[p].bottom@);
            }
        }
        Ok(reg)
    }
}

/// A rectangle the atlas hands out is well-formed, provided every stored
/// rectangle is.
proof fn lemma_lookup_some_wf(a: Seq<AtlasEntry>, name: Seq<char>)
    requires
        forall|i: int| 0 <= i < a.len() ==> (#[trigger] a[i].rect).wf(),
    ensures
        atlas_spec_lookup(a, name) is Some ==> rect_of(a, name).wf(),
{
    lemma_lookup_from_some_wf(a, name, 0);
}

/// Helper for `lemma_lookup_some_wf`, over every start position.
proof fn lemma_lookup_from_some_wf(a: Seq<AtlasEntry>, name: Seq<char>, i: int)
    requires
        forall|i: int| 0 <= i < a.len() ==> (#[trigger] a[i].rect).wf(),
    ensures
        match atlas_lookup_from(a, name, i) {
            Some(r) => r.wf(),
            None => true,
        },
    decreases a.len() - i,
{
    if 0 <= i < a.len() && a[i].name@ != name {
        lemma_lookup_from_some_wf(a, name, i + 1);
    }
}

} // verus!
