//! The mathematical model of a registry of renderable instances.
//!
//! A registry stores its records densely. A handle names a record whatever
//! position the record currently has, and the records at positions below
//! `first_invisible` are the visible ones. Every operation of the registry is
//! a function on this model; the executable registry is proved against it.

use vstd::prelude::*;
use crate::buffer::Buffer;
use crate::commands::DrawCall;

verus! {

/// The state of a registry with vertices of type `V` and instance records of
/// type `I`.
#[verifier::ext_equal]
pub struct ModelView<V, I> {
    /// The geometry shared by all instances.
    pub vertexdata: Seq<V>,
    /// The instance records, in storage order.
    pub instances: Seq<I>,
    /// The handle of the record at each position.
    pub handles: Seq<usize>,
    /// The position of the record that each live handle names.
    pub handle_to_index: Map<usize, usize>,
    /// The number of visible records: they occupy the positions below it.
    pub first_invisible: nat,
    /// The handle that the next insertion issues.
    pub next_handle: nat,
    /// The device buffer that mirrors `vertexdata`, once there is one.
    pub vertexbuffer: Option<Buffer>,
    /// The device buffer that mirrors the visible records, once there is one.
    pub instancebuffer: Option<Buffer>,
}

/// One call that changes the records of a registry.
pub enum Operation<I> {
    Insert(I),
    InsertVisibly(I),
    MakeVisible(usize),
    MakeInvisible(usize),
    Remove(usize),
}

impl<V, I> ModelView<V, I> {
    /// The state of a registry that holds `vertexdata` and no instance.
    pub open spec fn empty(vertexdata: Seq<V>) -> Self {
        ModelView {
            vertexdata,
            instances: Seq::empty(),
            handles: Seq::empty(),
            handle_to_index: Map::empty(),
            first_invisible: 0,
            next_handle: 0,
            vertexbuffer: None,
            instancebuffer: None,
        }
    }

    /// The number of records.
    pub open spec fn len(self) -> nat {
        self.instances.len()
    }

    /// The invariant of a registry: `handle_to_index` is a bijection between
    /// the live handles and the positions `0 .. len`, with `handles` as its
    /// inverse; the visible prefix ends inside the storage; and every live
    /// handle was issued, so it lies below `next_handle`.
    pub open spec fn wf(self) -> bool {
        &&& self.handles.len() == self.instances.len()
        &&& self.first_invisible <= self.instances.len()
        &&& self.instances.len() <= self.next_handle <= usize::MAX
        &&& self.handle_to_index.dom().finite()
        &&& self.handle_to_index.dom().len() == self.instances.len()
        &&& forall|i: int|
            0 <= i < self.handles.len() ==> {
                &&& #[trigger] self.handles[i] < self.next_handle
                &&& self.handle_to_index.contains_key(self.handles[i])
                &&& self.handle_to_index[self.handles[i]] == i
            }
        &&& forall|h: usize| #[trigger]
            self.handle_to_index.contains_key(h) ==> {
                &&& self.handle_to_index[h] < self.handles.len()
                &&& self.handles[self.handle_to_index[h] as int] == h
            }
    }

    /// Whether `handle` names a live record.
    pub open spec fn contains(self, handle: usize) -> bool {
        self.handle_to_index.contains_key(handle)
    }

    /// The position of the record that `handle` names.
    pub open spec fn index_of(self, handle: usize) -> int {
        self.handle_to_index[handle] as int
    }

    /// The record that `handle` names.
    pub open spec fn instance_of(self, handle: usize) -> I {
        self.instances[self.index_of(handle)]
    }

    /// Whether `handle` names a visible record.
    pub open spec fn is_visible(self, handle: usize) -> bool {
        self.contains(handle) && self.index_of(handle) < self.first_invisible
    }

    /// The live handles with the record that each names, whatever the storage
    /// order.
    pub open spec fn contents(self) -> Map<usize, I> {
        Map::new(|h: usize| self.contains(h), |h: usize| self.instance_of(h))
    }

    /// The handles of the visible records.
    pub open spec fn visible_handles(self) -> Set<usize> {
        Set::new(|h: usize| self.is_visible(h))
    }

    /// The records that the device mirrors and draws: the visible prefix of
    /// the storage, in storage order.
    pub open spec fn visible_instances(self) -> Seq<I> {
        self.instances.subrange(0, self.first_invisible as int)
    }

    /// The draw call that shows the registry: all vertices, once for each
    /// visible record, starting with the first of each. There is none while a
    /// buffer is missing or no record is visible.
    pub open spec fn draw(self) -> Option<DrawCall> {
        if self.vertexbuffer is Some && self.instancebuffer is Some && self.first_invisible > 0 {
            Some(
                DrawCall {
                    vertex_buffer: self.vertexbuffer->0.buffer,
                    instance_buffer: self.instancebuffer->0.buffer,
                    vertex_count: self.vertexdata.len() as usize,
                    instance_count: self.first_invisible as usize,
                    first_vertex: 0,
                    first_instance: 0,
                },
            )
        } else {
            None
        }
    }

    /// Exchanges the records at the positions `i` and `j`, with their handles.
    pub open spec fn swap(self, i: int, j: int) -> Self {
        ModelView {
            instances: self.instances.update(i, self.instances[j]).update(j, self.instances[i]),
            handles: self.handles.update(i, self.handles[j]).update(j, self.handles[i]),
            handle_to_index: self.handle_to_index.insert(self.handles[i], j as usize).insert(
                self.handles[j],
                i as usize,
            ),
            ..self
        }
    }

    /// Appends `element` as an invisible record under the handle
    /// `next_handle`.
    pub open spec fn insert(self, element: I) -> Self {
        ModelView {
            instances: self.instances.push(element),
            handles: self.handles.push(self.next_handle as usize),
            handle_to_index: self.handle_to_index.insert(
                self.next_handle as usize,
                self.instances.len() as usize,
            ),
            next_handle: self.next_handle + 1,
            ..self
        }
    }

    /// Makes the record of `handle` visible: it changes places with the first
    /// invisible record, and the visible prefix grows by one. Nothing changes
    /// where the handle is unknown or its record is visible already.
    pub open spec fn make_visible(self, handle: usize) -> Self {
        if !self.contains(handle) || self.is_visible(handle) {
            self
        } else {
            ModelView {
                first_invisible: self.first_invisible + 1,
                ..self.swap(self.index_of(handle), self.first_invisible as int)
            }
        }
    }

    /// Makes the record of `handle` invisible: it changes places with the last
    /// visible record, and the visible prefix shrinks by one. Nothing changes
    /// where the handle is unknown or its record is invisible already.
    pub open spec fn make_invisible(self, handle: usize) -> Self {
        if !self.is_visible(handle) {
            self
        } else {
            ModelView {
                first_invisible: (self.first_invisible - 1) as nat,
                ..self.swap(self.index_of(handle), self.first_invisible - 1)
            }
        }
    }

    /// Inserts `element` and makes it visible at once.
    pub open spec fn insert_visibly(self, element: I) -> Self {
        self.insert(element).make_visible(self.next_handle as usize)
    }

    /// Removes the record of `handle`: the record is made invisible, changes
    /// places with the last record, and that last position is dropped together
    /// with the handle. Nothing changes where the handle is unknown.
    pub open spec fn remove(self, handle: usize) -> Self {
        if !self.contains(handle) {
            self
        } else {
            let hidden = self.make_invisible(handle);
            let moved = hidden.swap(hidden.index_of(handle), hidden.len() - 1);
            ModelView {
                instances: moved.instances.drop_last(),
                handles: moved.handles.drop_last(),
                handle_to_index: moved.handle_to_index.remove(handle),
                ..moved
            }
        }
    }

    /// Exchanges the positions of the records of two handles. Nothing changes
    /// where the handles are equal or one of them is unknown.
    pub open spec fn swap_by_handle(self, handle1: usize, handle2: usize) -> Self {
        if handle1 == handle2 || !self.contains(handle1) || !self.contains(handle2) {
            self
        } else {
            self.swap(self.index_of(handle1), self.index_of(handle2))
        }
    }

    /// The state after one operation.
    pub open spec fn apply(self, operation: Operation<I>) -> Self {
        match operation {
            Operation::Insert(element) => self.insert(element),
            Operation::InsertVisibly(element) => self.insert_visibly(element),
            Operation::MakeVisible(handle) => self.make_visible(handle),
            Operation::MakeInvisible(handle) => self.make_invisible(handle),
            Operation::Remove(handle) => self.remove(handle),
        }
    }

    /// The state after the operations of `operations`, first to last.
    pub open spec fn apply_all(self, operations: Seq<Operation<I>>) -> Self
        decreases operations.len(),
    {
        if operations.len() == 0 {
            self
        } else {
            self.apply_all(operations.drop_last()).apply(operations.last())
        }
    }

    /// Inserts the elements of `elements` visibly, one after the other.
    pub open spec fn insert_all_visibly(self, elements: Seq<I>) -> Self
        decreases elements.len(),
    {
        if elements.len() == 0 {
            self
        } else {
            self.insert_all_visibly(elements.drop_last()).insert_visibly(elements.last())
        }
    }

    /// Under the invariant the live handles and the positions `0 .. len`
    /// correspond one to one: two handles never share a position, every handle
    /// has a position within the storage, every position has its handle, and
    /// there are as many handles as records.
    pub proof fn lemma_handles_correspond_to_positions(self)
        requires
            self.wf(),
        ensures
            forall|h1: usize, h2: usize|
                self.contains(h1) && self.contains(h2) && h1 != h2 ==> self.index_of(h1)
                    != self.index_of(h2),
            forall|h: usize| self.contains(h) ==> 0 <= #[trigger] self.index_of(h) < self.len(),
            forall|i: int|
                0 <= i < self.len() ==> self.contains(#[trigger] self.handles[i]) && self.index_of(
                    self.handles[i],
                ) == i,
            self.handle_to_index.len() == self.len(),
            0 <= self.first_invisible <= self.len(),
    {
    }

    /// An exchange of two positions keeps the invariant, the number of records
    /// and the record of every handle.
    pub proof fn lemma_swap(self, i: int, j: int)
        requires
            self.wf(),
            0 <= i < self.len(),
            0 <= j < self.len(),
        ensures
            self.swap(i, j).wf(),
            self.swap(i, j).len() == self.len(),
            self.swap(i, j).contents() == self.contents(),
            self.swap(i, j).handle_to_index.dom() == self.handle_to_index.dom(),
            self.swap(i, j).index_of(self.handles[i]) == j,
            self.swap(i, j).index_of(self.handles[j]) == i,
            forall|h: usize|
                self.contains(h) && h != self.handles[i] && h != self.handles[j]
                    ==> #[trigger] self.swap(i, j).index_of(h) == self.index_of(h),
            i == j ==> self.swap(i, j) == self,
    {
    }

    /// An insertion keeps the invariant, issues a handle that was not live, and
    /// adds the new record to the contents without touching the visible set.
    pub proof fn lemma_insert(self, element: I)
        requires
            self.wf(),
            self.next_handle < usize::MAX,
        ensures
            self.insert(element).wf(),
            !self.contains(self.next_handle as usize),
            self.insert(element).len() == self.len() + 1,
            self.insert(element).first_invisible == self.first_invisible,
            self.insert(element).next_handle == self.next_handle + 1,
            self.insert(element).contents() == self.contents().insert(
                self.next_handle as usize,
                element,
            ),
            self.insert(element).visible_handles() == self.visible_handles(),
            self.insert(element).index_of(self.next_handle as usize) == self.len(),
            !self.insert(element).is_visible(self.next_handle as usize),
    {
    }

    /// Making a record visible keeps the invariant and the contents, and adds
    /// the handle to the visible set.
    pub proof fn lemma_make_visible(self, handle: usize)
        requires
            self.wf(),
        ensures
            self.make_visible(handle).wf(),
            self.make_visible(handle).len() == self.len(),
            self.make_visible(handle).next_handle == self.next_handle,
            self.make_visible(handle).contents() == self.contents(),
            self.contains(handle) ==> self.make_visible(handle).visible_handles()
                == self.visible_handles().insert(handle),
            !self.contains(handle) ==> self.make_visible(handle) == self,
            self.make_visible(handle).first_invisible == self.first_invisible + (if self.contains(
                handle,
            ) && !self.is_visible(handle) {
                1nat
            } else {
                0nat
            }),
    {
        if self.contains(handle) && !self.is_visible(handle) {
            self.lemma_swap(self.index_of(handle), self.first_invisible as int);
        }
    }

    /// Making a record invisible keeps the invariant and the contents, and
    /// takes the handle out of the visible set.
    pub proof fn lemma_make_invisible(self, handle: usize)
        requires
            self.wf(),
        ensures
            self.make_invisible(handle).wf(),
            self.make_invisible(handle).len() == self.len(),
            self.make_invisible(handle).next_handle == self.next_handle,
            self.make_invisible(handle).contents() == self.contents(),
            self.make_invisible(handle).visible_handles() == self.visible_handles().remove(handle),
            !self.contains(handle) ==> self.make_invisible(handle) == self,
            self.make_invisible(handle).first_invisible == self.first_invisible - (if self.is_visible(
                handle,
            ) {
                1nat
            } else {
                0nat
            }),
    {
        if self.is_visible(handle) {
            self.lemma_swap(self.index_of(handle), self.first_invisible - 1);
        }
    }

    /// A removal keeps the invariant and takes the handle, and only it, out of
    /// the contents and out of the visible set.
    pub proof fn lemma_remove(self, handle: usize)
        requires
            self.wf(),
        ensures
            self.remove(handle).wf(),
            self.remove(handle).next_handle == self.next_handle,
            self.remove(handle).contents() == self.contents().remove(handle),
            self.remove(handle).visible_handles() == self.visible_handles().remove(handle),
            !self.remove(handle).contains(handle),
            !self.contains(handle) ==> self.remove(handle) == self,
            self.contains(handle) ==> self.remove(handle).len() == self.len() - 1,
            self.remove(handle).first_invisible == self.first_invisible - (if self.is_visible(
                handle,
            ) {
                1nat
            } else {
                0nat
            }),
    {
        if self.contains(handle) {
            self.lemma_make_invisible(handle);
            let hidden = self.make_invisible(handle);
            hidden.lemma_swap(hidden.index_of(handle), hidden.len() - 1);
        }
    }

    /// A visible insertion keeps the invariant, issues a handle that was not
    /// live, and adds one record to the contents and to the visible set.
    pub proof fn lemma_insert_visibly(self, element: I)
        requires
            self.wf(),
            self.next_handle < usize::MAX,
        ensures
            self.insert_visibly(element).wf(),
            !self.contains(self.next_handle as usize),
            self.insert_visibly(element).len() == self.len() + 1,
            self.insert_visibly(element).first_invisible == self.first_invisible + 1,
            self.insert_visibly(element).next_handle == self.next_handle + 1,
            self.insert_visibly(element).contents() == self.contents().insert(
                self.next_handle as usize,
                element,
            ),
            self.insert_visibly(element).visible_handles() == self.visible_handles().insert(
                self.next_handle as usize,
            ),
            self.first_invisible == self.len() ==> self.insert_visibly(element).instances
                == self.instances.push(element),
    {
        let fresh = self.next_handle as usize;
        self.lemma_insert(element);
        let inserted = self.insert(element);
        inserted.lemma_make_visible(fresh);
        if self.first_invisible == self.len() {
            inserted.lemma_swap(self.len() as int, self.len() as int);
        }
    }

    /// Whatever is inserted, shown, hidden or removed, and in whatever order,
    /// the invariant of the registry holds afterwards: the handles and the
    /// positions `0 .. len` still correspond one to one, and the visible prefix
    /// still ends inside the storage. (Each insertion uses up one handle, so
    /// the handles must not run out.)
    pub proof fn lemma_operations_keep_invariant(self, operations: Seq<Operation<I>>)
        requires
            self.wf(),
            self.next_handle + operations.len() <= usize::MAX,
        ensures
            self.apply_all(operations).wf(),
            self.apply_all(operations).handle_to_index.dom().len() == self.apply_all(
                operations,
            ).len(),
            0 <= self.apply_all(operations).first_invisible <= self.apply_all(operations).len(),
            self.next_handle <= self.apply_all(operations).next_handle <= self.next_handle
                + operations.len(),
        decreases operations.len(),
    {
        if operations.len() > 0 {
            self.lemma_operations_keep_invariant(operations.drop_last());
            let before = self.apply_all(operations.drop_last());
            match operations.last() {
                Operation::Insert(element) => before.lemma_insert(element),
                Operation::InsertVisibly(element) => before.lemma_insert_visibly(element),
                Operation::MakeVisible(handle) => before.lemma_make_visible(handle),
                Operation::MakeInvisible(handle) => before.lemma_make_invisible(handle),
                Operation::Remove(handle) => before.lemma_remove(handle),
            }
        }
    }

    /// Showing an invisible record and hiding it again leaves as many records
    /// visible as before, and every handle still names the record that it
    /// named, though positions may have changed.
    pub proof fn lemma_show_then_hide(self, handle: usize)
        requires
            self.wf(),
            self.contains(handle),
            !self.is_visible(handle),
        ensures
            self.make_visible(handle).make_invisible(handle).wf(),
            self.make_visible(handle).make_invisible(handle).first_invisible
                == self.first_invisible,
            self.make_visible(handle).make_invisible(handle).contains(handle),
            self.make_visible(handle).make_invisible(handle).instance_of(handle)
                == self.instance_of(handle),
            self.make_visible(handle).make_invisible(handle).contents() == self.contents(),
            self.make_visible(handle).make_invisible(handle).visible_handles()
                == self.visible_handles(),
    {
        self.lemma_make_visible(handle);
        self.make_visible(handle).lemma_make_invisible(handle);
    }

    /// A handle that was never issued names no record, so removing it fails
    /// and changes nothing.
    pub proof fn lemma_unissued_handle_is_unknown(self, handle: usize)
        requires
            self.wf(),
            handle >= self.next_handle,
        ensures
            !self.contains(handle),
            self.remove(handle) == self,
    {
    }

    /// A removed handle names no record any more: removing it again changes
    /// nothing, and no later insertion issues it again.
    pub proof fn lemma_removed_handle_is_retired(self, handle: usize, element: I)
        requires
            self.wf(),
            self.contains(handle),
            self.next_handle < usize::MAX,
        ensures
            !self.remove(handle).contains(handle),
            self.remove(handle).remove(handle) == self.remove(handle),
            self.remove(handle).len() == self.len() - 1,
            self.remove(handle).insert(element).contains(self.next_handle as usize),
            !self.remove(handle).insert(element).contains(handle),
            handle < self.next_handle,
    {
        self.lemma_remove(handle);
        self.remove(handle).lemma_insert(element);
    }

    /// After `elements` have been inserted visibly, one after the other, there
    /// are that many more visible records, and the registry draws that many
    /// more instances. Where every record was visible before, the new records
    /// follow the old ones in the order of insertion.
    pub proof fn lemma_insert_all_visibly(self, elements: Seq<I>)
        requires
            self.wf(),
            self.next_handle + elements.len() <= usize::MAX,
        ensures
            self.insert_all_visibly(elements).wf(),
            self.insert_all_visibly(elements).first_invisible == self.first_invisible
                + elements.len(),
            self.insert_all_visibly(elements).len() == self.len() + elements.len(),
            self.insert_all_visibly(elements).next_handle == self.next_handle + elements.len(),
            self.insert_all_visibly(elements).vertexdata == self.vertexdata,
            self.insert_all_visibly(elements).vertexbuffer == self.vertexbuffer,
            self.insert_all_visibly(elements).instancebuffer == self.instancebuffer,
            self.vertexbuffer is Some && self.instancebuffer is Some && elements.len() > 0
                ==> self.insert_all_visibly(elements).draw() is Some && self.insert_all_visibly(
                elements,
            ).draw()->0.instance_count == self.first_invisible + elements.len(),
            self.first_invisible == self.len() ==> self.insert_all_visibly(elements).instances
                == self.instances + elements,
        decreases elements.len(),
    {
        if elements.len() > 0 {
            self.lemma_insert_all_visibly(elements.drop_last());
            let before = self.insert_all_visibly(elements.drop_last());
            before.lemma_insert_visibly(elements.last());
        }
    }
}

} // verus!
