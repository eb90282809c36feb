//! Scene statistics of the debug overlay: which entities of the scene
//! hierarchy are counted, and the mesh, polygon and object counts over
//! them.
//!
//! Entities are numbered `0..n`; `children[v]` lists the children of
//! entity `v`. Numbers outside `0..n` name entities that no longer exist
//! and are ignored.
use vstd::prelude::*;

verus! {

broadcast use vstd::std_specs::hash::group_hash_axioms;

/// Whether `v` is listed as a child of `u`.
pub open spec fn has_child(children: Seq<Vec<usize>>, u: int, v: int) -> bool {
    0 <= u < children.len() && 0 <= v && children[u]@.contains(v as usize)
}

/// Whether `v` is reached from one of `roots` in at most `k` steps from
/// parent to child.
pub open spec fn reachable_within(roots: Seq<usize>, children: Seq<Vec<usize>>, v: int, k: nat) -> bool
    decreases k,
{
    if k == 0 {
        0 <= v && roots.contains(v as usize)
    } else {
        reachable_within(roots, children, v, (k - 1) as nat) || exists|u: int|
            #[trigger] has_child(children, u, v) && reachable_within(
                roots,
                children,
                u,
                (k - 1) as nat,
            )
    }
}

/// Whether `v` is reached from one of `roots` through parent-to-child
/// steps.
pub open spec fn reachable(roots: Seq<usize>, children: Seq<Vec<usize>>, v: int) -> bool {
    exists|k: nat| #[trigger] reachable_within(roots, children, v, k)
}

/// Number of `false` entries.
pub open spec fn count_false(s: Seq<bool>) -> nat
    decreases s.len(),
{
    if s.len() == 0 {
        0
    } else {
        count_false(s.drop_last()) + if s.last() {
            0nat
        } else {
            1nat
        }
    }
}

proof fn lemma_count_false_set(s: Seq<bool>, i: int)
    requires
        0 <= i < s.len(),
        !s[i],
    ensures
        count_false(s.update(i, true)) + 1 == count_false(s),
    decreases s.len(),
{
    if i < s.len() - 1 {
        lemma_count_false_set(s.drop_last(), i);
        assert(s.update(i, true).drop_last() =~= s.drop_last().update(i, true));
    } else {
        assert(s.update(i, true).drop_last() =~= s.drop_last());
    }
}

proof fn lemma_reachable_step(roots: Seq<usize>, children: Seq<Vec<usize>>, u: int, c: int)
    requires
        reachable(roots, children, u),
        has_child(children, u, c),
    ensures
        reachable(roots, children, c),
{
    let k = choose|k: nat| #[trigger] reachable_within(roots, children, u, k);
    assert(reachable_within(roots, children, c, k + 1));
}

proof fn lemma_reachable_root(roots: Seq<usize>, children: Seq<Vec<usize>>, i: int)
    requires
        0 <= i < roots.len(),
    ensures
        reachable(roots, children, roots[i] as int),
{
    assert(reachable_within(roots, children, roots[i] as int, 0));
}

/// Everything reachable lies in a set that holds the roots and is closed
/// under children.
proof fn lemma_closed_set_holds_reachable(
    roots: Seq<usize>,
    children: Seq<Vec<usize>>,
    flags: Seq<bool>,
    v: int,
    k: nat,
)
    requires
        flags.len() == children.len(),
        children.len() <= usize::MAX,
        forall|i: int| 0 <= i < roots.len() && roots[i] < flags.len() ==> flags[roots[i] as int],
        forall|u: int, j: int|
            0 <= u < flags.len() && flags[u] && 0 <= j < children[u]@.len() && children[u]@[j]
                < flags.len() ==> #[trigger] flags[children[u]@[j] as int],
        0 <= v < flags.len(),
        reachable_within(roots, children, v, k),
    ensures
        flags[v],
    decreases k,
{
    if k == 0 {
        let i = choose|i: int| 0 <= i < roots.len() && roots[i] == v as usize;
        assert(roots[i] as int == v);
    } else if reachable_within(roots, children, v, (k - 1) as nat) {
        lemma_closed_set_holds_reachable(roots, children, flags, v, (k - 1) as nat);
    } else {
        let u = choose|u: int|
            #[trigger] has_child(children, u, v) && reachable_within(
                roots,
                children,
                u,
                (k - 1) as nat,
            );
        lemma_closed_set_holds_reachable(roots, children, flags, u, (k - 1) as nat);
        let j = choose|j: int| 0 <= j < children[u]@.len() && children[u]@[j] == v as usize;
        assert(flags[children[u]@[j] as int]);
    }
}

/// Marks the entities reached from `roots` (by depth-first search):
/// `r[v]` is whether entity `v` is reachable.
pub fn reachable_entities(roots: &Vec<usize>, children: &Vec<Vec<usize>>) -> (r: Vec<bool>)
    ensures
        r@.len() == children@.len(),
        forall|v: int|
            0 <= v < children@.len() ==> (#[trigger] r@[v] <==> reachable(roots@, children@, v)),
{
    let n = children.len();
    let mut visited: Vec<bool> = Vec::new();
    let mut k: usize = 0;
    while k < n
        invariant
            k <= n,
            visited@.len() == k,
            forall|i: int| 0 <= i < k ==> !visited@[i],
        decreases n - k,
    {
        visited.push(false);
        k = k + 1;
    }
    let mut stack: Vec<usize> = Vec::new();
    let mut i: usize = 0;
    while i < roots.len()
        invariant
            i <= roots@.len(),
            stack@ == roots@.subrange(0, i as int),
        decreases roots@.len() - i,
    {
        stack.push(roots[i]);
        i = i + 1;
        proof {
            assert(stack@ =~= roots@.subrange(0, i as int));
        }
    }
    proof {
        assert(stack@ =~= roots@);
        assert forall|j: int| 0 <= j < stack@.len() && stack@[j] < n implies reachable(
            roots@,
            children@,
            #[trigger] stack@[j] as int,
        ) by {
            lemma_reachable_root(roots@, children@, j);
        }
        assert forall|j: int| 0 <= j < roots@.len() && roots@[j] < n implies visited@[roots@[
            j] as int] || stack@.contains(#[trigger] roots@[j]) by {
            assert(stack@[j] == roots@[j]);
        }
    }
    while stack.len() > 0
        invariant
            n == children@.len(),
            visited@.len() == n,
            forall|v: int| 0 <= v < n && #[trigger] visited@[v] ==> reachable(roots@, children@, v),
            forall|j: int|
                0 <= j < stack@.len() && stack@[j] < n ==> reachable(
                    roots@,
                    children@,
                    #[trigger] stack@[j] as int,
                ),
            forall|j: int|
                0 <= j < roots@.len() && roots@[j] < n ==> visited@[roots@[j] as int]
                    || stack@.contains(#[trigger] roots@[j]),
            forall|u: int, j: int|
                0 <= u < n && visited@[u] && 0 <= j < children@[u]@.len() && children@[u]@[j] < n
                    ==> visited@[children@[u]@[j] as int] || stack@.contains(
                    #[trigger] children@[u]@[j],
                ),
        decreases count_false(visited@), stack@.len(),
    {
        let ghost old_stack = stack@;
        let v = match stack.pop() {
            Some(v) => v,
            None => 0,
        };
        proof {
            assert(old_stack == stack@.push(v));
            assert forall|c: usize| old_stack.contains(c) implies stack@.contains(c) || c == v by {
                let j = choose|j: int| 0 <= j < old_stack.len() && old_stack[j] == c;
                if j < stack@.len() {
                    assert(stack@[j] == c);
                }
            }
        }
        if v < n && !visited[v] {
            proof {
                assert(old_stack[old_stack.len() - 1] == v);
                assert(reachable(roots@, children@, v as int));
                lemma_count_false_set(visited@, v as int);
            }
            visited.set(v, true);
            let ghost mid_stack = stack@;
            let kids = &children[v];
            let mut j: usize = 0;
            while j < kids.len()
                invariant
                    j <= kids@.len(),
                    v < n,
                    n == children@.len(),
                    kids@ == children@[v as int]@,
                    reachable(roots@, children@, v as int),
                    stack@ == mid_stack + kids@.subrange(0, j as int),
                decreases kids@.len() - j,
            {
                stack.push(kids[j]);
                j = j + 1;
                proof {
                    assert(stack@ =~= mid_stack + kids@.subrange(0, j as int));
                }
            }
            proof {
                assert(kids@.subrange(0, kids@.len() as int) =~= kids@);
                assert forall|m: int| 0 <= m < stack@.len() && stack@[m] < n implies reachable(
                    roots@,
                    children@,
                    #[trigger] stack@[m] as int,
                ) by {
                    if m < mid_stack.len() {
                        assert(stack@[m] == mid_stack[m]);
                        assert(old_stack[m] == mid_stack[m]);
                    } else {
                        let c = kids@[m - mid_stack.len()];
                        assert(stack@[m] == c);
                        assert(has_child(children@, v as int, c as int));
                        lemma_reachable_step(roots@, children@, v as int, c as int);
                    }
                }
                assert forall|c: usize| mid_stack.contains(c) implies stack@.contains(c) by {
                    let m = choose|m: int| 0 <= m < mid_stack.len() && mid_stack[m] == c;
                    assert(stack@[m] == c);
                }
                assert forall|m: int| 0 <= m < kids@.len() implies stack@.contains(
                    #[trigger] kids@[m],
                ) by {
                    assert(stack@[mid_stack.len() + m] == kids@[m]);
                }
            }
        } else {
            proof {
                assert forall|m: int| 0 <= m < stack@.len() && stack@[m] < n implies reachable(
                    roots@,
                    children@,
                    #[trigger] stack@[m] as int,
                ) by {
                    assert(old_stack[m] == stack@[m]);
                }
            }
        }
    }
    proof {
        assert forall|j: int| 0 <= j < roots@.len() && roots@[j] < visited@.len() implies visited@[
            roots@[j] as int] by {
            assert(!stack@.contains(roots@[j]));
        }
        assert forall|u: int, j: int|
            0 <= u < visited@.len() && visited@[u] && 0 <= j < children@[u]@.len()
                && children@[u]@[j] < visited@.len() implies #[trigger] visited@[children@[u]@[
            j] as int] by {
            assert(!stack@.contains(children@[u]@[j]));
        }
        assert forall|v: int| 0 <= v < n implies (#[trigger] visited@[v] <==> reachable(
            roots@,
            children@,
            v,
        )) by {
            if reachable(roots@, children@, v) {
                let k = choose|k: nat| #[trigger] reachable_within(roots@, children@, v, k);
                lemma_closed_set_holds_reachable(roots@, children@, visited@, v, k);
            }
        }
    }
    visited
}


/// Mesh and object counts of the debug overlay.
#[derive(Clone, Copy, Debug, PartialEq, Eq, Structural)]
pub struct DebugSceneCounts {
    pub mesh_count: usize,
    pub visible_mesh_count: usize,
    pub polygon_count: u64,
    pub visible_polygon_count: u64,
    pub visible_object_count: usize,
}

/// Whether entity `v` is a counted mesh: reached, and carrying a mesh
/// (`mesh_triangles[v]` is its triangle count).
pub open spec fn counted_mesh(flags: Seq<bool>, mesh_triangles: Seq<Option<u64>>, v: int) -> bool {
    flags[v] && mesh_triangles[v] is Some
}

/// Whether entity `v` is a counted mesh that the camera sees.
pub open spec fn counted_visible_mesh(
    flags: Seq<bool>,
    mesh_triangles: Seq<Option<u64>>,
    visible: Seq<bool>,
    v: int,
) -> bool {
    counted_mesh(flags, mesh_triangles, v) && visible[v]
}

/// Among entities below `k`: how many are counted meshes, and how many
/// triangles they have, counting only those where `seen` holds.
pub open spec fn mesh_totals(
    flags: Seq<bool>,
    mesh_triangles: Seq<Option<u64>>,
    seen: Seq<bool>,
    k: int,
) -> (nat, nat)
    decreases k,
{
    if k <= 0 {
        (0, 0)
    } else {
        let (count, triangles) = mesh_totals(flags, mesh_triangles, seen, k - 1);
        if counted_mesh(flags, mesh_triangles, k - 1) && seen[k - 1] {
            (count + 1, (triangles + mesh_triangles[k - 1]->0) as nat)
        } else {
            (count, triangles)
        }
    }
}

/// `n`, held at `u64::MAX`.
pub open spec fn saturate_u64(n: nat) -> u64 {
    if n > u64::MAX {
        u64::MAX
    } else {
        n as u64
    }
}

/// The scene objects the camera sees through at least one of their
/// counted visible meshes (`object_root[v]` is the scene object that
/// entity `v` belongs to).
pub open spec fn visible_objects(
    flags: Seq<bool>,
    mesh_triangles: Seq<Option<u64>>,
    visible: Seq<bool>,
    object_root: Seq<Option<usize>>,
    k: int,
) -> Set<usize> {
    Set::new(
        |o: usize|
            exists|v: int|
                0 <= v < k && #[trigger] counted_visible_mesh(flags, mesh_triangles, visible, v)
                    && object_root[v] == Some(o),
    )
}

/// All true.
pub open spec fn all_seen(n: nat) -> Seq<bool> {
    Seq::new(n, |i: int| true)
}

/// The overlay's counts over the entities reached from `roots`: meshes and
/// their triangles (held at `u64::MAX`), the same for the meshes the
/// camera sees, and the distinct scene objects those belong to.
pub open spec fn spec_scene_counts(
    roots: Seq<usize>,
    children: Seq<Vec<usize>>,
    mesh_triangles: Seq<Option<u64>>,
    visible: Seq<bool>,
    object_root: Seq<Option<usize>>,
    flags: Seq<bool>,
) -> DebugSceneCounts {
    let n = children.len() as int;
    let (meshes, triangles) = mesh_totals(flags, mesh_triangles, all_seen(n as nat), n);
    let (visible_meshes, visible_triangles) = mesh_totals(flags, mesh_triangles, visible, n);
    DebugSceneCounts {
        mesh_count: meshes as usize,
        visible_mesh_count: visible_meshes as usize,
        polygon_count: saturate_u64(triangles),
        visible_polygon_count: saturate_u64(visible_triangles),
        visible_object_count: visible_objects(flags, mesh_triangles, visible, object_root, n).len()
            as usize,
    }
}

proof fn lemma_mesh_count_bound(
    flags: Seq<bool>,
    mesh_triangles: Seq<Option<u64>>,
    seen: Seq<bool>,
    k: int,
)
    requires
        k >= 0,
    ensures
        mesh_totals(flags, mesh_triangles, seen, k).0 <= k,
    decreases k,
{
    if k > 0 {
        lemma_mesh_count_bound(flags, mesh_triangles, seen, k - 1);
    }
}

/// Counts meshes, triangles and visible scene objects over the entities
/// reached from `roots`; see [`spec_scene_counts`].
pub fn scene_counts(
    roots: &Vec<usize>,
    children: &Vec<Vec<usize>>,
    mesh_triangles: &Vec<Option<u64>>,
    visible: &Vec<bool>,
    object_root: &Vec<Option<usize>>,
) -> (r: DebugSceneCounts)
    requires
        mesh_triangles@.len() == children@.len(),
        visible@.len() == children@.len(),
        object_root@.len() == children@.len(),
    ensures
        exists|flags: Seq<bool>|
            {
                &&& flags.len() == children@.len()
                &&& forall|v: int|
                    0 <= v < children@.len() ==> (#[trigger] flags[v] <==> reachable(
                        roots@,
                        children@,
                        v,
                    ))
                &&& r == spec_scene_counts(
                    roots@,
                    children@,
                    mesh_triangles@,
                    visible@,
                    object_root@,
                    flags,
                )
            },
{
    let flags = reachable_entities(roots, children);
    let n = children.len();
    let ghost everything = all_seen(n as nat);
    let mut mesh_count: usize = 0;
    let mut visible_mesh_count: usize = 0;
    let mut polygon_count: u64 = 0;
    let mut visible_polygon_count: u64 = 0;
    let mut objects: std::collections::HashSet<usize> = std::collections::HashSet::new();
    let mut v: usize = 0;
    while v < n
        invariant
            v <= n,
            n == children@.len(),
            flags@.len() == n,
            mesh_triangles@.len() == n,
            visible@.len() == n,
            object_root@.len() == n,
            everything == all_seen(n as nat),
            mesh_count == mesh_totals(flags@, mesh_triangles@, everything, v as int).0,
            polygon_count == saturate_u64(
                mesh_totals(flags@, mesh_triangles@, everything, v as int).1,
            ),
            visible_mesh_count == mesh_totals(flags@, mesh_triangles@, visible@, v as int).0,
            visible_polygon_count == saturate_u64(
                mesh_totals(flags@, mesh_triangles@, visible@, v as int).1,
            ),
            objects@ == visible_objects(flags@, mesh_triangles@, visible@, object_root@, v as int),
        decreases n - v,
    {
        proof {
            lemma_mesh_count_bound(flags@, mesh_triangles@, everything, v as int);
            lemma_mesh_count_bound(flags@, mesh_triangles@, visible@, v as int);
        }
        let ghost before = objects@;
        if flags[v] {
            match mesh_triangles[v] {
                Some(triangles) => {
                    mesh_count = mesh_count + 1;
                    polygon_count = polygon_count.saturating_add(triangles);
                    if visible[v] {
                        visible_mesh_count = visible_mesh_count + 1;
                        visible_polygon_count = visible_polygon_count.saturating_add(triangles);
                        match object_root[v] {
                            Some(root) => {
                                objects.insert(root);
                            },
                            None => {},
                        }
                    }
                },
                None => {},
            }
        }
        proof {
            let next = visible_objects(flags@, mesh_triangles@, visible@, object_root@, v + 1);
            let prev = visible_objects(flags@, mesh_triangles@, visible@, object_root@, v as int);
            let hit = counted_visible_mesh(flags@, mesh_triangles@, visible@, v as int)
                && object_root@[v as int] is Some;
            if hit {
                let x = object_root@[v as int]->0;
                assert(objects@ == before.insert(x));
                assert forall|o: usize| #[trigger] next.contains(o) <==> prev.insert(x).contains(
                    o,
                ) by {
                    if next.contains(o) && o != x {
                        let w = choose|w: int|
                            0 <= w < v + 1 && #[trigger] counted_visible_mesh(
                                flags@,
                                mesh_triangles@,
                                visible@,
                                w,
                            ) && object_root@[w] == Some(o);
                        assert(w != v);
                        assert(prev.contains(o));
                    }
                    if prev.contains(o) {
                        let w = choose|w: int|
                            0 <= w < v && #[trigger] counted_visible_mesh(
                                flags@,
                                mesh_triangles@,
                                visible@,
                                w,
                            ) && object_root@[w] == Some(o);
                        assert(next.contains(o));
                    }
                    if o == x {
                        assert(counted_visible_mesh(flags@, mesh_triangles@, visible@, v as int));
                        assert(next.contains(o));
                    }
                }
                assert(next =~= prev.insert(x));
            } else {
                assert(objects@ == before);
                assert forall|o: usize| #[trigger] next.contains(o) <==> prev.contains(o) by {
                    if next.contains(o) {
                        let w = choose|w: int|
                            0 <= w < v + 1 && #[trigger] counted_visible_mesh(
                                flags@,
                                mesh_triangles@,
                                visible@,
                                w,
                            ) && object_root@[w] == Some(o);
                        assert(w != v);
                        assert(prev.contains(o));
                    }
                    if prev.contains(o) {
                        let w = choose|w: int|
                            0 <= w < v && #[trigger] counted_visible_mesh(
                                flags@,
                                mesh_triangles@,
                                visible@,
                                w,
                            ) && object_root@[w] == Some(o);
                        assert(next.contains(o));
                    }
                }
                assert(next =~= prev);
            }
        }
        v = v + 1;
    }
    let r = DebugSceneCounts {
        mesh_count,
        visible_mesh_count,
        polygon_count,
        visible_polygon_count,
        visible_object_count: objects.len(),
    };
    proof {
        assert(everything == all_seen(children@.len()));
        assert(r == spec_scene_counts(
            roots@,
            children@,
            mesh_triangles@,
            visible@,
            object_root@,
            flags@,
        ));
    }
    r
}


/// The parent of entity `v`, where it has one.
pub open spec fn parent_of(parent: Seq<Option<usize>>, v: int) -> Option<usize> {
    if 0 <= v < parent.len() {
        parent[v]
    } else {
        None
    }
}

/// Whether entity `v` is a scene object.
pub open spec fn is_object(is_scene_object: Seq<bool>, v: int) -> bool {
    0 <= v < is_scene_object.len() && is_scene_object[v]
}

/// Whether the chain of parents from `v` ends within `fuel` steps.
pub open spec fn reaches_top(parent: Seq<Option<usize>>, v: int, fuel: nat) -> bool
    decreases fuel,
{
    match parent_of(parent, v) {
        None => true,
        Some(p) => fuel > 0 && reaches_top(parent, p as int, (fuel - 1) as nat),
    }
}

/// The first scene object on the way up from `v` (itself included), looking
/// at most `fuel` parents up.
pub open spec fn object_ancestor(
    parent: Seq<Option<usize>>,
    is_scene_object: Seq<bool>,
    v: int,
    fuel: nat,
) -> Option<usize>
    decreases fuel,
{
    if is_object(is_scene_object, v) {
        Some(v as usize)
    } else {
        match parent_of(parent, v) {
            None => None,
            Some(p) => if fuel == 0 {
                None
            } else {
                object_ancestor(parent, is_scene_object, p as int, (fuel - 1) as nat)
            },
        }
    }
}

/// The scene object that entity `start` belongs to: itself, or the nearest
/// ancestor that is one. The hierarchy has no cycles: every chain of parents
/// ends within `parent.len()` steps.
pub fn scene_object_ancestor(
    start: usize,
    parent: &Vec<Option<usize>>,
    is_scene_object: &Vec<bool>,
) -> (r: Option<usize>)
    requires
        forall|v: int| 0 <= v < parent@.len() ==> reaches_top(parent@, v, parent@.len()),
    ensures
        r == object_ancestor(parent@, is_scene_object@, start as int, parent@.len()),
{
    if start < is_scene_object.len() && is_scene_object[start] {
        return Some(start);
    }
    let ghost n = parent@.len();
    let mut current = start;
    let ghost mut fuel: nat = n;
    proof {
        if start < n {
            assert(reaches_top(parent@, start as int, n));
        }
    }
    loop
        invariant
            n == parent@.len(),
            !is_object(is_scene_object@, current as int),
            reaches_top(parent@, current as int, fuel),
            object_ancestor(parent@, is_scene_object@, start as int, n) == object_ancestor(
                parent@,
                is_scene_object@,
                current as int,
                fuel,
            ),
        decreases fuel,
    {
        let next = if current < parent.len() {
            parent[current]
        } else {
            None
        };
        match next {
            None => {
                return None;
            },
            Some(p) => {
                proof {
                    fuel = (fuel - 1) as nat;
                }
                current = p;
                if current < is_scene_object.len() && is_scene_object[current] {
                    return Some(current);
                }
            },
        }
    }
}

} // verus!
