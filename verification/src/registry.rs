//! The registry of pointer paths: where in the observed process a value lies.

use vstd::prelude::*;
use vstd::slice::slice_to_vec;
use crate::memory::PointerKind;

verus! {

/// What a pointer path says: the module it starts from, the offsets applied
/// in turn, and the kind of value at its end.
pub ghost struct PathModel {
    pub module: Seq<char>,
    pub offsets: Seq<i64>,
    pub kind: PointerKind,
}

/// A registered pointer path. `id` is the handle it was registered under.
#[derive(Debug, Clone, PartialEq, Eq)]
pub struct PointerPath {
    pub id: usize,
    pub module: String,
    pub offsets: Vec<i64>,
    pub kind: PointerKind,
}

impl View for PointerPath {
    type V = PathModel;

    open spec fn view(&self) -> PathModel {
        PathModel { module: self.module@, offsets: self.offsets@, kind: self.kind }
    }
}

/// The registered paths. A handle is the position at which its path was
/// registered; a retracted path leaves its position empty, so no handle is
/// ever given out twice.
pub struct PathRegistry {
    slots: Vec<Option<PointerPath>>,
}

impl View for PathRegistry {
    type V = Seq<Option<PathModel>>;

    closed spec fn view(&self) -> Seq<Option<PathModel>> {
        Seq::new(
            self.slots@.len(),
            |i: int|
                match self.slots@[i] {
                    Some(p) => Some(p@),
                    None => None,
                },
        )
    }
}

impl PathRegistry {
    /// Every live path carries the handle it stands at.
    pub closed spec fn wf(&self) -> bool {
        forall|i: int|
            0 <= i < self.slots@.len() ==> match #[trigger] self.slots@[i] {
                Some(p) => p.id == i,
                None => true,
            }
    }

    /// Whether a handle names a live path.
    pub open spec fn is_live(&self, id: usize) -> bool {
        id < self@.len() && self@[id as int] is Some
    }

    /// An empty registry.
    pub fn new() -> (r: PathRegistry)
        ensures
            r.wf(),
            r@ == Seq::<Option<PathModel>>::empty(),
    {
        let r = PathRegistry { slots: Vec::new() };
        assert(r@ =~= Seq::<Option<PathModel>>::empty());
        r
    }

    /// The number of handles given out so far, live or retracted.
    pub fn len(&self) -> (n: usize)
        ensures
            n == self@.len(),
    {
        self.slots.len()
    }

    /// Registers a path and returns its handle. The handle is new: it is the
    /// number of handles given out before, so equal paths get different
    /// handles, and every path registered earlier stays as it was.
    pub fn push_pointer_path(&mut self, module: &str, offsets: &[i64], kind: PointerKind) -> (id:
        usize)
        requires
            old(self).wf(),
        ensures
            final(self).wf(),
            id == old(self)@.len(),
            !old(self).is_live(id),
            final(self).is_live(id),
            final(self)@ == old(self)@.push(
                Some(PathModel { module: module@, offsets: offsets@, kind: kind }),
            ),
    {
        let id: usize = self.slots.len();
        let path = PointerPath {
            id: id,
            module: module.to_owned(),
            offsets: slice_to_vec(offsets),
            kind: kind,
        };
        self.slots.push(Some(path));
        assert(self@ =~= old(self)@.push(
            Some(PathModel { module: module@, offsets: offsets@, kind: kind }),
        ));
        id
    }

    /// Retracts the path registered under a handle. Every other handle keeps
    /// its path; a handle that is not live changes nothing.
    pub fn pop_pointer_path(&mut self, pointer_path_id: usize)
        requires
            old(self).wf(),
        ensures
            final(self).wf(),
            !final(self).is_live(pointer_path_id),
            pointer_path_id < old(self)@.len() ==> final(self)@ == old(self)@.update(
                pointer_path_id as int,
                None,
            ),
            pointer_path_id >= old(self)@.len() ==> final(self)@ == old(self)@,
    {
        if pointer_path_id < self.slots.len() {
            self.slots.set(pointer_path_id, None);
            assert(self@ =~= old(self)@.update(pointer_path_id as int, None));
        }
    }

    /// The path registered under a handle, if it is live.
    pub fn get(&self, pointer_path_id: usize) -> (found: Option<&PointerPath>)
        requires
            self.wf(),
        ensures
            found is Some == self.is_live(pointer_path_id),
            found matches Some(p) ==> Some(p@) == self@[pointer_path_id as int] && p.id
                == pointer_path_id,
    {
        if pointer_path_id < self.slots.len() {
            self.slots[pointer_path_id].as_ref()
        } else {
            None
        }
    }
}

/// Registering never disturbs a live handle, and retracting one handle never
/// disturbs another: at most one path is live under a handle, and it is the
/// one registered there.
pub proof fn lemma_handles_are_independent(
    before: Seq<Option<PathModel>>,
    added: PathModel,
    retracted: int,
    other: int,
)
    requires
        0 <= retracted < before.len(),
        0 <= other < before.len(),
        other != retracted,
    ensures
        before.push(Some(added))[other] == before[other],
        before.push(Some(added))[before.len() as int] == Some(added),
        before.update(retracted, None)[other] == before[other],
        before.update(retracted, None).len() == before.len(),
{
}

} // verus!
