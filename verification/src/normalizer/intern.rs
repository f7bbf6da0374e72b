use vstd::prelude::*;
use rustc_hash::{FxBuildHasher, FxHashMap};

verus! {

/// The hasher builder of `rustc_hash`'s `FxHashMap`.
#[verifier::external_type_specification]
#[verifier::external_body]
pub struct ExFxBuildHasher(FxBuildHasher);

/// The map type the interner keeps: frame lists to stack ids.
pub type StackIdMap = FxHashMap<Vec<u64>, u32>;

/// What an `FxHashMap` from frame lists to stack ids holds, keyed by the frames.
pub uninterp spec fn stack_ids(m: StackIdMap) -> Map<Seq<u64>, u32>;

/// `FxHashMap::default()` (a `std` `HashMap` with the Fx hasher): an empty map.
#[verifier::external_body]
fn stack_map_new() -> (m: StackIdMap)
    ensures
        stack_ids(m).dom() == Set::<Seq<u64>>::empty(),
{
    FxHashMap::default()
}

/// `HashMap::get` on the Fx-hashed map: the id stored under an equal frame list, if any.
#[verifier::external_body]
fn stack_map_get(m: &StackIdMap, frames: &[u64]) -> (r: Option<u32>)
    ensures
        r == (if stack_ids(*m).contains_key(frames@) {
            Some(stack_ids(*m)[frames@])
        } else {
            None
        }),
{
    m.get(frames).copied()
}

/// `HashMap::insert` on the Fx-hashed map: afterwards `frames` maps to `id`, and
/// every other entry is unchanged.
#[verifier::external_body]
fn stack_map_insert(m: &mut StackIdMap, frames: Vec<u64>, id: u32)
    ensures
        stack_ids(*final(m)) == stack_ids(*old(m)).insert(frames@, id),
{
    m.insert(frames, id);
}

/// The id a stack receives when interned into an interner holding `stacks`:
/// its existing id if already present, else the next free id.
pub open spec fn id_of(stacks: Seq<Seq<u64>>, frames: Seq<u64>) -> int {
    if stacks.contains(frames) {
        stacks.index_of(frames) + 1
    } else {
        stacks.len() + 1int
    }
}

/// The interned stacks after interning `frames`.
pub open spec fn after_intern(stacks: Seq<Seq<u64>>, frames: Seq<u64>) -> Seq<Seq<u64>> {
    if stacks.contains(frames) {
        stacks
    } else {
        stacks.push(frames)
    }
}

/// Interning keeps the list free of duplicates and the new id points at the frames.
pub proof fn lemma_after_intern(stacks: Seq<Seq<u64>>, frames: Seq<u64>)
    requires
        stacks.no_duplicates(),
    ensures
        after_intern(stacks, frames).no_duplicates(),
        1 <= id_of(stacks, frames) <= after_intern(stacks, frames).len(),
        after_intern(stacks, frames)[id_of(stacks, frames) - 1] == frames,
        forall|g: Seq<u64>|
            stacks.contains(g) ==> #[trigger] id_of(after_intern(stacks, frames), g) == id_of(
                stacks,
                g,
            ),
{
    let st2 = after_intern(stacks, frames);
    if !stacks.contains(frames) {
        assert forall|i: int, j: int|
            0 <= i < st2.len() && 0 <= j < st2.len() && i != j implies st2[i] != st2[j] by {
            if i < stacks.len() && j < stacks.len() {
            } else if i < stacks.len() {
                assert(stacks.contains(stacks[i]));
            } else {
                assert(stacks.contains(stacks[j]));
            }
        }
    }
    assert forall|g: Seq<u64>| stacks.contains(g) implies #[trigger] id_of(st2, g) == id_of(
        stacks,
        g,
    ) by {
        let k = stacks.index_of(g);
        assert(st2[k] == g);
        assert(st2.contains(g));
        let k2 = st2.index_of(g);
        assert(k == k2);
    }
}

/// Law: interning the same frames again yields the same id and changes nothing.
pub proof fn law_intern_same_stack_same_id(stacks: Seq<Seq<u64>>, frames: Seq<u64>)
    requires
        stacks.no_duplicates(),
    ensures
        id_of(after_intern(stacks, frames), frames) == id_of(stacks, frames),
        after_intern(after_intern(stacks, frames), frames) == after_intern(stacks, frames),
{
    lemma_after_intern(stacks, frames);
    let st2 = after_intern(stacks, frames);
    let i = id_of(stacks, frames) - 1;
    assert(st2[i] == frames);
    assert(st2.contains(frames));
    assert(st2.index_of(frames) == i);
}

/// Law: two different frame lists interned one after the other get different ids.
pub proof fn law_intern_different_stacks_different_ids(
    stacks: Seq<Seq<u64>>,
    f: Seq<u64>,
    g: Seq<u64>,
)
    requires
        stacks.no_duplicates(),
        f != g,
    ensures
        id_of(after_intern(stacks, f), g) != id_of(stacks, f),
{
    lemma_after_intern(stacks, f);
    let st2 = after_intern(stacks, f);
    lemma_after_intern(st2, g);
    let st3 = after_intern(st2, g);
    law_intern_same_stack_same_id(st2, f);
    assert(st2.contains(f));
    let i = id_of(stacks, f) - 1;
    let j = id_of(st2, g) - 1;
    assert(st3[j] == g);
    assert(id_of(st3, f) == id_of(st2, f));
    assert(st3[id_of(st3, f) - 1] == f) by {
        lemma_after_intern(st3, f);
        law_intern_same_stack_same_id(st3, f);
        assert(st3.contains(f)) by {
            let k = st2.index_of(f);
            assert(st3[k] == f);
        }
    }
}

/// Law: ids start at one; the first stack interned gets id 1 and the second a new id 2.
pub proof fn law_ids_start_at_one(f: Seq<u64>, g: Seq<u64>)
    requires
        f != g,
    ensures
        id_of(Seq::empty(), f) == 1,
        id_of(after_intern(Seq::empty(), f), g) == 2,
{
    let st = after_intern(Seq::<Seq<u64>>::empty(), f);
    assert(st =~= seq![f]);
    assert(!st.contains(g)) by {
        if st.contains(g) {
            let k = st.index_of(g);
            assert(st[k] == g);
        }
    }
}

/// Law: looking up the id a stack was interned under gives the stack back,
/// and id 0 names no stack.
pub proof fn law_get_after_intern(stacks: Seq<Seq<u64>>, frames: Seq<u64>)
    ensures
        1 <= id_of(stacks, frames) <= after_intern(stacks, frames).len(),
        after_intern(stacks, frames)[id_of(stacks, frames) - 1] == frames,
{
    if stacks.contains(frames) {
        let k = stacks.index_of(frames);
        assert(stacks[k] == frames);
    }
}

/// Interns stack frame address slices into compact integer IDs.
///
/// Two stacks with the same frame sequence always get the same ID.
/// IDs start at 1; 0 is reserved for "no stack".
pub struct StackInterner {
    map: StackIdMap,
    /// The interned stacks in insertion order; index + 1 == stack_id.
    stacks: Vec<Vec<u64>>,
}

impl StackInterner {
    /// The interned stacks in insertion order: stack `i` has id `i + 1`.
    pub closed spec fn stacks(&self) -> Seq<Seq<u64>> {
        self.stacks@.map_values(|v: Vec<u64>| v@)
    }

    /// The map and the list agree: each interned stack is listed once, and the
    /// map sends it to its position plus one.
    pub closed spec fn wf(&self) -> bool {
        let ids = stack_ids(self.map);
        let st = self.stacks();
        &&& st.len() <= u32::MAX
        &&& forall|i: int| 0 <= i < st.len() ==> #[trigger] ids.contains_key(st[i]) && ids[st[i]]
            == i + 1
        &&& forall|k: Seq<u64>| #[trigger]
            ids.contains_key(k) ==> 1 <= ids[k] <= st.len() && st[ids[k] - 1] == k
    }

    /// A well-formed interner never lists a stack twice.
    pub proof fn lemma_wf_no_duplicates(&self)
        requires
            self.wf(),
        ensures
            self.stacks().no_duplicates(),
    {
        let st = self.stacks();
        let ids = stack_ids(self.map);
        assert forall|i: int, j: int|
            0 <= i < st.len() && 0 <= j < st.len() && i != j implies st[i] != st[j] by {
            assert(ids.contains_key(st[i]));
            assert(ids.contains_key(st[j]));
        }
    }

    pub fn new() -> (s: Self)
        ensures
            s.wf(),
            s.stacks() == Seq::<Seq<u64>>::empty(),
    {
        let s = StackInterner { map: stack_map_new(), stacks: Vec::new() };
        assert(s.stacks() =~= Seq::<Seq<u64>>::empty());
        s
    }

    /// Return the ID for this stack, interning it if new.
    pub fn intern(&mut self, frames: &[u64]) -> (id: u32)
        requires
            old(self).wf(),
            !old(self).stacks().contains(frames@) ==> old(self).stacks().len() < u32::MAX,
        ensures
            final(self).wf(),
            final(self).stacks() == after_intern(old(self).stacks(), frames@),
            id == id_of(old(self).stacks(), frames@),
            final(self).stacks()[id - 1] == frames@,
    {
        let ghost st = self.stacks();
        proof {
            self.lemma_wf_no_duplicates();
        }
        match stack_map_get(&self.map, frames) {
            Some(id) => {
                assert(st.contains(frames@));
                assert(st[id - 1] == frames@);
                assert(st.index_of(frames@) == id - 1);
                return id;
            },
            None => {},
        }
        assert(!st.contains(frames@)) by {
            if st.contains(frames@) {
                let i = choose|i: int| 0 <= i < st.len() && st[i] == frames@;
                assert(stack_ids(self.map).contains_key(st[i]));
            }
        }
        let id = self.stacks.len() as u32 + 1;
        let owned = vstd::slice::slice_to_vec(frames);
        stack_map_insert(&mut self.map, owned.clone(), id);
        self.stacks.push(owned);
        assert(self.stacks() =~= st.push(frames@));
        id
    }

    /// Retrieve the frames for an ID (1-based). Returns `None` for id == 0 or out of range.
    pub fn get(&self, id: u32) -> (r: Option<&[u64]>)
        requires
            self.wf(),
        ensures
            (1 <= id <= self.stacks().len()) == r.is_some(),
            r matches Some(f) ==> f@ == self.stacks()[id - 1],
    {
        if id == 0 {
            return None;
        }
        let idx = (id - 1) as usize;
        if idx < self.stacks.len() {
            Some(self.stacks[idx].as_slice())
        } else {
            None
        }
    }

    pub fn len(&self) -> (n: usize)
        ensures
            n == self.stacks().len(),
    {
        self.stacks.len()
    }

    pub fn is_empty(&self) -> (b: bool)
        ensures
            b == (self.stacks().len() == 0),
    {
        self.stacks.len() == 0
    }
}

} // verus!
