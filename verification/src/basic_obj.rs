//! The closed set of primitive mesh kinds and the machinery that feeds their
//! per-instance data to draw submission: the registry of meshes, the per-kind
//! render lists filled by scene traversal, and the per-kind instancing
//! buffers that mirror a render list for bulk-instanced drawing.

use vstd::prelude::*;

use crate::CreationError;

verus! {

/// The number of primitive kinds; dense indices range over `[0, NUM_TYPES)`.
pub const NUM_TYPES: usize = 9;

/// A primitive mesh kind.  The set is closed and maps bijectively onto the
/// dense index range `[0, NUM_TYPES)`.
#[derive(Copy, Clone, PartialEq, Eq, Structural, Debug)]
pub enum BasicObj {
    Triangle,
    Quad,
    Cube,
    Sphere,
    LineX,
    LineY,
    LineZ,
    TessellatedCube,
    TessellatedCylinder,
}

impl BasicObj {
    /// The dense index of this kind.
    pub open spec fn index_spec(self) -> int {
        match self {
            BasicObj::Triangle => 0,
            BasicObj::Quad => 1,
            BasicObj::Cube => 2,
            BasicObj::Sphere => 3,
            BasicObj::LineX => 4,
            BasicObj::LineY => 5,
            BasicObj::LineZ => 6,
            BasicObj::TessellatedCube => 7,
            BasicObj::TessellatedCylinder => 8,
        }
    }

    /// The kind owning a dense index.
    pub open spec fn from_index_spec(i: int) -> BasicObj {
        if i == 0 {
            BasicObj::Triangle
        } else if i == 1 {
            BasicObj::Quad
        } else if i == 2 {
            BasicObj::Cube
        } else if i == 3 {
            BasicObj::Sphere
        } else if i == 4 {
            BasicObj::LineX
        } else if i == 5 {
            BasicObj::LineY
        } else if i == 6 {
            BasicObj::LineZ
        } else if i == 7 {
            BasicObj::TessellatedCube
        } else {
            BasicObj::TessellatedCylinder
        }
    }

    /// Dense index lookup; total over the closed kind set.
    pub fn index(self) -> (i: usize)
        ensures
            i == self.index_spec(),
            i < NUM_TYPES,
    {
        match self {
            BasicObj::Triangle => 0,
            BasicObj::Quad => 1,
            BasicObj::Cube => 2,
            BasicObj::Sphere => 3,
            BasicObj::LineX => 4,
            BasicObj::LineY => 5,
            BasicObj::LineZ => 6,
            BasicObj::TessellatedCube => 7,
            BasicObj::TessellatedCylinder => 8,
        }
    }

    /// Kind lookup by dense index; total over the index range.
    pub fn from_index(i: usize) -> (o: BasicObj)
        requires
            i < NUM_TYPES,
        ensures
            o == BasicObj::from_index_spec(i as int),
    {
        if i == 0 {
            BasicObj::Triangle
        } else if i == 1 {
            BasicObj::Quad
        } else if i == 2 {
            BasicObj::Cube
        } else if i == 3 {
            BasicObj::Sphere
        } else if i == 4 {
            BasicObj::LineX
        } else if i == 5 {
            BasicObj::LineY
        } else if i == 6 {
            BasicObj::LineZ
        } else if i == 7 {
            BasicObj::TessellatedCube
        } else {
            BasicObj::TessellatedCylinder
        }
    }
}

/// Law: every dense index round-trips through its kind.
pub proof fn lemma_index_round_trip(i: int)
    requires
        0 <= i < NUM_TYPES,
    ensures
        BasicObj::from_index_spec(i).index_spec() == i,
{
}

/// Law: every kind round-trips through its dense index; together with
/// `lemma_index_round_trip` the mapping is a bijection.
pub proof fn lemma_kind_round_trip(o: BasicObj)
    ensures
        BasicObj::from_index_spec(o.index_spec()) == o,
        0 <= o.index_spec() < NUM_TYPES,
{
}

/// The registry of one immutable mesh per primitive kind, in dense index
/// order.  The mesh handle type is abstract: the executor that allocated the
/// geometry chooses it.
pub struct Resources<M> {
    meshes: Vec<M>,
}

impl<M> Resources<M> {
    /// The mesh handle for kind index `k`.
    pub closed spec fn mesh_spec(self, k: int) -> M {
        self.meshes@[k]
    }

    /// How many meshes the registry holds.
    pub closed spec fn num_meshes(self) -> int {
        self.meshes@.len() as int
    }

    /// A registry is well formed when it covers the closed kind set exactly.
    pub open spec fn wf(self) -> bool {
        self.num_meshes() == NUM_TYPES
    }

    /// Builds the registry from one mesh per kind, in dense index order.
    /// An incomplete or oversized set is rejected wholesale: no partial
    /// registry is ever observable.
    pub fn create(meshes: Vec<M>) -> (r: Result<Resources<M>, CreationError>)
        ensures
            match r {
                Ok(res) => {
                    &&& meshes@.len() == NUM_TYPES
                    &&& res.wf()
                    &&& forall|k: int| 0 <= k < NUM_TYPES ==> res.mesh_spec(k) == meshes@[k]
                },
                Err(e) => {
                    &&& meshes@.len() != NUM_TYPES
                    &&& e == CreationError::IncompleteMeshSet
                },
            },
    {
        if meshes.len() == NUM_TYPES {
            Ok(Resources { meshes })
        } else {
            Err(CreationError::IncompleteMeshSet)
        }
    }

    /// O(1) mesh lookup by kind; total, because construction is exhaustive
    /// over the closed kind set.
    pub fn mesh(&self, object: BasicObj) -> (m: &M)
        requires
            self.wf(),
        ensures
            *m == self.mesh_spec(object.index_spec()),
    {
        let ki = object.index();
        &self.meshes[ki]
    }
}

/// How a drawable hands its per-instance data to the GPU: one draw per
/// record with the record passed as uniforms, or one bulk-instanced draw
/// with each record in its own attribute slot.
#[derive(Copy, Clone, PartialEq, Eq, Structural, Debug)]
pub enum InstancingMode {
    Uniforms,
    Vertex,
}

/// One batch of a draw plan: the strategy tag, the primitive kind whose mesh
/// is drawn, and the instance records to draw it with.  A batch with no
/// records draws nothing.
#[derive(Clone, Debug)]
pub struct DrawCall<I> {
    pub mode: InstancingMode,
    pub kind: BasicObj,
    pub instances: Vec<I>,
}

/// One per-frame sequence of instance records per primitive kind, filled by
/// scene traversal and consumed at upload.
pub struct RenderList<I> {
    lists: Vec<Vec<I>>,
}

impl<I> RenderList<I> {
    /// The records recorded for kind index `k`.
    pub closed spec fn sublist(self, k: int) -> Seq<I> {
        self.lists@[k]@
    }

    /// How many per-kind sublists the value holds.
    pub closed spec fn num_lists(self) -> int {
        self.lists@.len() as int
    }

    /// A render list is well formed when it has one sublist per kind.
    pub open spec fn wf(self) -> bool {
        self.num_lists() == NUM_TYPES
    }

    /// An empty render list: one empty sublist per kind.
    pub fn new() -> (r: Self)
        ensures
            r.wf(),
            forall|k: int| 0 <= k < NUM_TYPES ==> r.sublist(k) == Seq::<I>::empty(),
    {
        let mut lists: Vec<Vec<I>> = Vec::new();
        let mut i: usize = 0;
        while i < NUM_TYPES
            invariant
                i <= NUM_TYPES,
                lists@.len() == i,
                forall|k: int| 0 <= k < i ==> lists@[k]@ == Seq::<I>::empty(),
            decreases NUM_TYPES - i,
        {
            lists.push(Vec::new());
            i = i + 1;
        }
        RenderList { lists }
    }

    /// Empties every per-kind sublist; idempotent, called once per frame
    /// before traversal.
    pub fn clear(&mut self)
        requires
            old(self).wf(),
        ensures
            final(self).wf(),
            forall|k: int| 0 <= k < NUM_TYPES ==> final(self).sublist(k) == Seq::<I>::empty(),
    {
        let mut i: usize = 0;
        while i < self.lists.len()
            invariant
                self.lists@.len() == NUM_TYPES,
                i <= NUM_TYPES,
                forall|k: int| 0 <= k < i ==> self.lists@[k]@ == Seq::<I>::empty(),
            decreases NUM_TYPES - i,
        {
            self.lists[i].clear();
            i = i + 1;
        }
    }

    /// Appends one record to the sublist of `object`; every other sublist is
    /// untouched.
    pub fn push(&mut self, object: BasicObj, record: I)
        requires
            old(self).wf(),
        ensures
            final(self).wf(),
            final(self).sublist(object.index_spec())
                == old(self).sublist(object.index_spec()).push(record),
            forall|k: int|
                0 <= k < NUM_TYPES && k != object.index_spec()
                    ==> final(self).sublist(k) == old(self).sublist(k),
    {
        let ki = object.index();
        self.lists[ki].push(record);
    }

    /// Read access to the sublist of `object`.
    pub fn list(&self, object: BasicObj) -> (l: &Vec<I>)
        requires
            self.wf(),
        ensures
            l@ == self.sublist(object.index_spec()),
    {
        let ki = object.index();
        &self.lists[ki]
    }
}

/// Copies a sequence of instance records; records are plain `Copy` data.
fn copy_records<I: Copy>(src: &Vec<I>) -> (r: Vec<I>)
    ensures
        r@ == src@,
{
    let mut out: Vec<I> = Vec::new();
    let mut j: usize = 0;
    while j < src.len()
        invariant
            j <= src@.len(),
            out@.len() == j,
            forall|t: int| 0 <= t < j ==> out@[t] == src@[t],
        decreases src@.len() - j,
    {
        out.push(src[j]);
        j = j + 1;
    }
    proof {
        assert(out@ =~= src@);
    }
    out
}

impl<I: Copy> RenderList<I> {
    /// The per-instance-uniform draw plan over this list: one batch per
    /// kind, in dense index order.  The executor submits one draw per record
    /// of a batch, passing the record as shader uniforms.
    pub fn as_drawable(&self) -> (calls: Vec<DrawCall<I>>)
        requires
            self.wf(),
        ensures
            calls@.len() == NUM_TYPES,
            forall|k: int| #![trigger calls@[k]]
                0 <= k < NUM_TYPES ==> {
                    &&& calls@[k].mode == InstancingMode::Uniforms
                    &&& calls@[k].kind == BasicObj::from_index_spec(k)
                    &&& calls@[k].instances@ == self.sublist(k)
                },
    {
        let mut calls: Vec<DrawCall<I>> = Vec::new();
        let mut k: usize = 0;
        while k < NUM_TYPES
            invariant
                self.wf(),
                k <= NUM_TYPES,
                calls@.len() == k,
                forall|j: int| #![trigger calls@[j]]
                    0 <= j < k ==> {
                        &&& calls@[j].mode == InstancingMode::Uniforms
                        &&& calls@[j].kind == BasicObj::from_index_spec(j)
                        &&& calls@[j].instances@ == self.sublist(j)
                    },
            decreases NUM_TYPES - k,
        {
            calls.push(DrawCall {
                mode: InstancingMode::Uniforms,
                kind: BasicObj::from_index(k),
                instances: copy_records(&self.lists[k]),
            });
            k = k + 1;
        }
        calls
    }
}

/// GPU-side storage mirroring a render list, one buffer per primitive kind,
/// for bulk-instanced draw submission.  The model tracks the uploaded
/// contents; the executor owns the device buffers that realise them.
pub struct Instancing<I> {
    buffers: Vec<Vec<I>>,
}

impl<I> Instancing<I> {
    /// The records last uploaded for kind index `k`.
    pub closed spec fn contents(self, k: int) -> Seq<I> {
        self.buffers@[k]@
    }

    /// How many per-kind buffers the value holds.
    pub closed spec fn num_buffers(self) -> int {
        self.buffers@.len() as int
    }

    /// An instancing value is well formed when it has one buffer per kind.
    pub open spec fn wf(self) -> bool {
        self.num_buffers() == NUM_TYPES
    }

    /// Allocates one empty buffer per kind.
    pub fn create() -> (r: Result<Self, CreationError>)
        ensures
            match r {
                Ok(ins) => {
                    &&& ins.wf()
                    &&& forall|k: int| 0 <= k < NUM_TYPES ==> ins.contents(k) == Seq::<I>::empty()
                },
                Err(_) => false,
            },
    {
        let mut buffers: Vec<Vec<I>> = Vec::new();
        let mut k: usize = 0;
        while k < NUM_TYPES
            invariant
                k <= NUM_TYPES,
                buffers@.len() == k,
                forall|j: int| 0 <= j < k ==> buffers@[j]@ == Seq::<I>::empty(),
            decreases NUM_TYPES - k,
        {
            buffers.push(Vec::new());
            k = k + 1;
        }
        Ok(Instancing { buffers })
    }
}

impl<I: Copy> Instancing<I> {
    /// Replaces every buffer's contents with the render list's current
    /// records, kind by kind.  A zero-length sublist is valid and leaves an
    /// empty buffer, which draws nothing for that kind.
    pub fn update(&mut self, render_list: &RenderList<I>) -> (r: Result<(), CreationError>)
        requires
            old(self).wf(),
            render_list.wf(),
        ensures
            final(self).wf(),
            r is Ok,
            forall|k: int|
                0 <= k < NUM_TYPES ==> final(self).contents(k) == render_list.sublist(k),
    {
        let mut k: usize = 0;
        while k < NUM_TYPES
            invariant
                render_list.wf(),
                self.buffers@.len() == NUM_TYPES,
                k <= NUM_TYPES,
                forall|j: int| 0 <= j < k ==> self.buffers@[j]@ == render_list.sublist(j),
            decreases NUM_TYPES - k,
        {
            let records = copy_records(&render_list.lists[k]);
            self.buffers[k] = records;
            k = k + 1;
        }
        Ok(())
    }

    /// The bulk-instanced draw plan over the uploaded contents: one batch
    /// per kind, in dense index order.  The executor submits one instanced
    /// draw per batch, covering all of its records at once.
    pub fn as_drawable(&self) -> (calls: Vec<DrawCall<I>>)
        requires
            self.wf(),
        ensures
            calls@.len() == NUM_TYPES,
            forall|k: int| #![trigger calls@[k]]
                0 <= k < NUM_TYPES ==> {
                    &&& calls@[k].mode == InstancingMode::Vertex
                    &&& calls@[k].kind == BasicObj::from_index_spec(k)
                    &&& calls@[k].instances@ == self.contents(k)
                },
    {
        let mut calls: Vec<DrawCall<I>> = Vec::new();
        let mut k: usize = 0;
        while k < NUM_TYPES
            invariant
                self.wf(),
                k <= NUM_TYPES,
                calls@.len() == k,
                forall|j: int| #![trigger calls@[j]]
                    0 <= j < k ==> {
                        &&& calls@[j].mode == InstancingMode::Vertex
                        &&& calls@[j].kind == BasicObj::from_index_spec(j)
                        &&& calls@[j].instances@ == self.contents(j)
                    },
            decreases NUM_TYPES - k,
        {
            calls.push(DrawCall {
                mode: InstancingMode::Vertex,
                kind: BasicObj::from_index(k),
                instances: copy_records(&self.buffers[k]),
            });
            k = k + 1;
        }
        calls
    }
}

/// Law: uploading a render list whose sublist for a kind is empty leaves an
/// instancing state whose draw batch for that kind has no instances.  Here
/// `ins` is any state `Instancing::update` can leave behind for `rl`, and
/// `calls` any plan `Instancing::as_drawable` can return for `ins`; the
/// upload itself reports no error by `update`'s contract.
pub proof fn lemma_empty_upload_draws_nothing<I>(
    ins: Instancing<I>,
    rl: RenderList<I>,
    calls: Seq<DrawCall<I>>,
    k: int,
)
    requires
        ins.wf(),
        rl.wf(),
        0 <= k < NUM_TYPES,
        forall|j: int| 0 <= j < NUM_TYPES ==> ins.contents(j) == rl.sublist(j),
        calls.len() == NUM_TYPES,
        forall|j: int| #![trigger calls[j]]
            0 <= j < NUM_TYPES ==> calls[j].instances@ == ins.contents(j),
        rl.sublist(k).len() == 0,
    ensures
        calls[k].instances@.len() == 0,
{
}

impl<I> Default for RenderList<I> {
    /// Same value as `RenderList::new`.
    fn default() -> (r: Self)
        ensures
            r.wf(),
            forall|k: int| 0 <= k < NUM_TYPES ==> r.sublist(k) == Seq::<I>::empty(),
    {
        RenderList::new()
    }
}

} // verus!
