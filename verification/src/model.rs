//! The registry of renderable instances of one object type.
//!
//! All instances share the vertices that the registry was made with. Each
//! inserted record gets a handle that stays valid, whatever the record's
//! position, until the record is removed. The visible records are kept as a
//! prefix of the storage, so the slice that the device mirrors and draws is
//! always contiguous.

use vstd::prelude::*;
use std::collections::HashMap;
use crate::buffer::{buffer_update, plan_buffer_update, Buffer, BufferUpdate};
use crate::commands::DrawCall;
use crate::error::{FatalError, InvalidHandle};
use crate::model_view::ModelView;

verus! {

/// A registry with vertices of type `V` and instance records of type `I`.
pub struct Model<V, I> {
    vertexdata: Vec<V>,
    handle_to_index: HashMap<usize, usize>,
    handles: Vec<usize>,
    instances: Vec<I>,
    first_invisible: usize,
    next_handle: usize,
    vertexbuffer: Option<Buffer>,
    instancebuffer: Option<Buffer>,
}

impl<V, I> View for Model<V, I> {
    type V = ModelView<V, I>;

    closed spec fn view(&self) -> ModelView<V, I> {
        ModelView {
            vertexdata: self.vertexdata@,
            instances: self.instances@,
            handles: self.handles@,
            handle_to_index: self.handle_to_index@,
            first_invisible: self.first_invisible as nat,
            next_handle: self.next_handle as nat,
            vertexbuffer: self.vertexbuffer,
            instancebuffer: self.instancebuffer,
        }
    }
}

/// Exchanges two items of a vector.
fn swap_items<T>(items: &mut Vec<T>, index1: usize, index2: usize)
    requires
        index1 < index2 < old(items).len(),
    ensures
        final(items)@ == old(items)@.update(index1 as int, old(items)@[index2 as int]).update(
            index2 as int,
            old(items)@[index1 as int],
        ),
{
    let (front, back) = items.as_mut_slice().split_at_mut(index2);
    core::mem::swap(&mut front[index1], &mut back[0]);
}

impl<V, I> Model<V, I> {
    /// A registry that holds `vertexdata`, no instance and no device buffer.
    pub fn new(vertexdata: Vec<V>) -> (model: Self)
        ensures
            model@ == ModelView::<V, I>::empty(vertexdata@),
            model@.wf(),
    {
        Model {
            vertexdata,
            handle_to_index: HashMap::new(),
            handles: Vec::new(),
            instances: Vec::new(),
            first_invisible: 0,
            next_handle: 0,
            vertexbuffer: None,
            instancebuffer: None,
        }
    }

    /// The number of records, visible or not.
    pub fn len(&self) -> (len: usize)
        ensures
            len == self@.len(),
    {
        self.instances.len()
    }

    /// The number of visible records.
    pub fn first_invisible(&self) -> (count: usize)
        ensures
            count == self@.first_invisible,
    {
        self.first_invisible
    }

    /// The handle that the next insertion issues.
    pub fn next_handle(&self) -> (handle: usize)
        ensures
            handle == self@.next_handle,
    {
        self.next_handle
    }

    /// The vertices that all instances share.
    pub fn vertexdata(&self) -> (vertices: &[V])
        ensures
            vertices@ == self@.vertexdata,
    {
        self.vertexdata.as_slice()
    }

    /// The record of the device buffer that mirrors the vertices.
    pub fn vertexbuffer(&self) -> (buffer: Option<Buffer>)
        ensures
            buffer == self@.vertexbuffer,
    {
        self.vertexbuffer
    }

    /// The record of the device buffer that mirrors the visible records.
    pub fn instancebuffer(&self) -> (buffer: Option<Buffer>)
        ensures
            buffer == self@.instancebuffer,
    {
        self.instancebuffer
    }

    /// The position of the record that `handle` names.
    fn index_of(&self, handle: usize) -> (index: Option<usize>)
        ensures
            index == (if self@.contains(handle) {
                Some(self@.handle_to_index[handle])
            } else {
                None
            }),
    {
        match self.handle_to_index.get(&handle) {
            Some(index) => Some(*index),
            None => None,
        }
    }

    /// The record that `handle` names, if it names one.
    pub fn get(&self, handle: usize) -> (found: Option<&I>)
        requires
            self@.wf(),
        ensures
            found == (if self@.contains(handle) {
                Some(&self@.instance_of(handle))
            } else {
                None
            }),
    {
        match self.index_of(handle) {
            Some(index) => Some(&self.instances[index]),
            None => None,
        }
    }

    /// The record that `handle` names, for the caller to change in place. The
    /// registry keeps whatever the caller leaves in it, at the same position.
    pub fn get_mut(&mut self, handle: usize) -> (found: Option<&mut I>)
        requires
            old(self)@.wf(),
        ensures
            match found {
                Some(record) => {
                    &&& old(self)@.contains(handle)
                    &&& *record == old(self)@.instance_of(handle)
                    &&& final(self)@ == (ModelView {
                        instances: old(self)@.instances.update(
                            old(self)@.index_of(handle),
                            *final(record),
                        ),
                        ..old(self)@
                    })
                },
                None => !old(self)@.contains(handle) && final(self)@ == old(self)@,
            },
            final(self)@.wf(),
    {
        match self.index_of(handle) {
            Some(index) => Some(&mut self.instances[index]),
            None => None,
        }
    }

    /// Whether the record that `handle` names is visible.
    pub fn is_visible(&self, handle: usize) -> (visible: Result<bool, InvalidHandle>)
        ensures
            visible == (if self@.contains(handle) {
                Ok::<bool, InvalidHandle>(self@.is_visible(handle))
            } else {
                Err(InvalidHandle)
            }),
    {
        match self.index_of(handle) {
            Some(index) => Ok(index < self.first_invisible),
            None => Err(InvalidHandle),
        }
    }

    /// Exchanges the records at two positions, with their handles.
    fn swap_by_index(&mut self, index1: usize, index2: usize)
        requires
            old(self)@.wf(),
            index1 < old(self)@.len(),
            index2 < old(self)@.len(),
        ensures
            final(self)@ == old(self)@.swap(index1 as int, index2 as int),
            final(self)@.wf(),
    {
        proof {
            self@.lemma_swap(index1 as int, index2 as int);
        }
        if index1 == index2 {
            return ;
        }
        let handle1 = self.handles[index1];
        let handle2 = self.handles[index2];
        self.handles[index1] = handle2;
        self.handles[index2] = handle1;
        if index1 < index2 {
            swap_items(&mut self.instances, index1, index2);
        } else {
            swap_items(&mut self.instances, index2, index1);
        }
        self.handle_to_index.insert(handle1, index2);
        self.handle_to_index.insert(handle2, index1);
    }

    /// Makes the record that `handle` names visible.
    pub fn make_visible(&mut self, handle: usize) -> (done: Result<(), InvalidHandle>)
        requires
            old(self)@.wf(),
        ensures
            final(self)@ == old(self)@.make_visible(handle),
            final(self)@.wf(),
            done is Ok <==> old(self)@.contains(handle),
            done is Err ==> final(self)@ == old(self)@,
    {
        proof {
            self@.lemma_make_visible(handle);
        }
        match self.index_of(handle) {
            Some(index) => {
                if index < self.first_invisible {
                    return Ok(());
                }
                self.swap_by_index(index, self.first_invisible);
                self.first_invisible += 1;
                Ok(())
            },
            None => Err(InvalidHandle),
        }
    }

    /// Makes the record that `handle` names invisible.
    pub fn make_invisible(&mut self, handle: usize) -> (done: Result<(), InvalidHandle>)
        requires
            old(self)@.wf(),
        ensures
            final(self)@ == old(self)@.make_invisible(handle),
            final(self)@.wf(),
            done is Ok <==> old(self)@.contains(handle),
            done is Err ==> final(self)@ == old(self)@,
    {
        proof {
            self@.lemma_make_invisible(handle);
        }
        match self.index_of(handle) {
            Some(index) => {
                if index >= self.first_invisible {
                    return Ok(());
                }
                self.swap_by_index(index, self.first_invisible - 1);
                self.first_invisible -= 1;
                Ok(())
            },
            None => Err(InvalidHandle),
        }
    }

    /// Appends `element` as an invisible record and returns its handle, which
    /// no record had before.
    pub fn insert(&mut self, element: I) -> (handle: usize)
        requires
            old(self)@.wf(),
            old(self)@.next_handle < usize::MAX,
        ensures
            final(self)@ == old(self)@.insert(element),
            final(self)@.wf(),
            handle == old(self)@.next_handle,
            !old(self)@.contains(handle),
    {
        proof {
            self@.lemma_insert(element);
        }
        let handle = self.next_handle;
        self.next_handle += 1;
        let index = self.instances.len();
        self.instances.push(element);
        self.handles.push(handle);
        self.handle_to_index.insert(handle, index);
        handle
    }

    /// Inserts `element` as a visible record and returns its handle.
    pub fn insert_visibly(&mut self, element: I) -> (handle: usize)
        requires
            old(self)@.wf(),
            old(self)@.next_handle < usize::MAX,
        ensures
            final(self)@ == old(self)@.insert_visibly(element),
            final(self)@.wf(),
            handle == old(self)@.next_handle,
            !old(self)@.contains(handle),
            final(self)@.first_invisible == old(self)@.first_invisible + 1,
    {
        proof {
            self@.lemma_insert_visibly(element);
        }
        let new_handle = self.insert(element);
        let _ = self.make_visible(new_handle);
        new_handle
    }

    /// Removes the record that `handle` names and returns it.
    pub fn remove(&mut self, handle: usize) -> (removed: Result<I, InvalidHandle>)
        requires
            old(self)@.wf(),
        ensures
            final(self)@ == old(self)@.remove(handle),
            final(self)@.wf(),
            removed == (if old(self)@.contains(handle) {
                Ok::<I, InvalidHandle>(old(self)@.instance_of(handle))
            } else {
                Err(InvalidHandle)
            }),
            removed is Err ==> final(self)@ == old(self)@,
            removed is Ok ==> final(self)@.len() == old(self)@.len() - 1,
    {
        proof {
            self@.lemma_remove(handle);
            self@.lemma_make_invisible(handle);
        }
        match self.index_of(handle) {
            Some(found) => {
                let mut index = found;
                if index < self.first_invisible {
                    self.swap_by_index(index, self.first_invisible - 1);
                    self.first_invisible -= 1;
                    index = self.first_invisible;
                }
                proof {
                    self@.lemma_swap(self@.index_of(handle), self@.len() - 1);
                }
                let last = self.instances.len() - 1;
                self.swap_by_index(index, last);
                self.handles.pop();
                self.handle_to_index.remove(&handle);
                let element = self.instances.pop().unwrap();
                Ok(element)
            },
            None => Err(InvalidHandle),
        }
    }

    /// Exchanges the positions of the records that two handles name. It fails
    /// where one of the handles names no record, also where the two are equal.
    pub fn swap_by_handle(&mut self, handle1: usize, handle2: usize) -> (done: Result<
        (),
        InvalidHandle,
    >)
        requires
            old(self)@.wf(),
        ensures
            final(self)@ == old(self)@.swap_by_handle(handle1, handle2),
            final(self)@.wf(),
            done is Ok <==> old(self)@.contains(handle1) && old(self)@.contains(handle2),
            done is Err ==> final(self)@ == old(self)@,
    {
        match (self.index_of(handle1), self.index_of(handle2)) {
            (Some(index1), Some(index2)) => {
                self.swap_by_index(index1, index2);
                Ok(())
            },
            _ => Err(InvalidHandle),
        }
    }

    /// The records that the device mirrors: the visible ones, in storage
    /// order.
    pub fn visible_instances(&self) -> (visible: &[I])
        requires
            self@.wf(),
        ensures
            visible@ == self@.visible_instances(),
    {
        vstd::slice::slice_subrange(self.instances.as_slice(), 0, self.first_invisible)
    }

    /// What has to happen on the device so that the vertex buffer mirrors the
    /// vertices, together with the data to put into the buffer: all vertices.
    /// The first call asks for a buffer of their size. Once its record is
    /// attached, every call asks to fill that buffer again, as long as it can
    /// hold the vertices.
    pub fn update_vertexbuffer(&self) -> (update: Result<(BufferUpdate, &[V]), FatalError>)
        ensures
            match update {
                Ok((request, data)) => {
                    &&& Ok::<BufferUpdate, FatalError>(request) == buffer_update(
                        self@.vertexbuffer,
                        self@.vertexdata.len(),
                        vstd::layout::size_of::<V>(),
                    )
                    &&& data@ == self@.vertexdata
                    &&& request.count() == self@.vertexdata.len()
                    &&& self@.vertexdata.len() * vstd::layout::size_of::<V>()
                        <= request.size_in_bytes()
                },
                Err(failure) => Err::<BufferUpdate, FatalError>(failure) == buffer_update(
                    self@.vertexbuffer,
                    self@.vertexdata.len(),
                    vstd::layout::size_of::<V>(),
                ),
            },
    {
        match plan_buffer_update(
            self.vertexbuffer,
            self.vertexdata.len(),
            core::mem::size_of::<V>(),
        ) {
            Ok(request) => Ok((request, self.vertexdata.as_slice())),
            Err(failure) => Err(failure),
        }
    }

    /// What has to happen on the device so that the instance buffer mirrors
    /// the visible records, together with the data to put into the buffer: the
    /// visible records and no others. The first call asks for a buffer of
    /// their size. Once its record is attached, a call asks to fill that
    /// buffer again where it can hold the visible records, and for a new
    /// buffer of their size where it has become too small.
    pub fn update_instancebuffer(&self) -> (update: Result<(BufferUpdate, &[I]), FatalError>)
        requires
            self@.wf(),
        ensures
            match update {
                Ok((request, data)) => {
                    &&& Ok::<BufferUpdate, FatalError>(request) == buffer_update(
                        self@.instancebuffer,
                        self@.first_invisible,
                        vstd::layout::size_of::<I>(),
                    )
                    &&& data@ == self@.visible_instances()
                    &&& request.count() == self@.first_invisible
                    &&& self@.first_invisible * vstd::layout::size_of::<I>()
                        <= request.size_in_bytes()
                },
                Err(failure) => Err::<BufferUpdate, FatalError>(failure) == buffer_update(
                    self@.instancebuffer,
                    self@.first_invisible,
                    vstd::layout::size_of::<I>(),
                ),
            },
    {
        match plan_buffer_update(
            self.instancebuffer,
            self.first_invisible,
            core::mem::size_of::<I>(),
        ) {
            Ok(request) => Ok((request, self.visible_instances())),
            Err(failure) => Err(failure),
        }
    }

    /// Takes over the record of the vertex buffer that the device created, and
    /// hands back the record that it replaces, for the owner to destroy that
    /// buffer once no work in flight reads it.
    pub fn attach_vertexbuffer(&mut self, buffer: Buffer) -> (replaced: Option<Buffer>)
        ensures
            final(self)@ == (ModelView { vertexbuffer: Some(buffer), ..old(self)@ }),
            replaced == old(self)@.vertexbuffer,
    {
        let replaced = self.vertexbuffer;
        self.vertexbuffer = Some(buffer);
        replaced
    }

    /// Takes over the record of the instance buffer that the device created,
    /// and hands back the record that it replaces, for the owner to destroy
    /// that buffer once no work in flight reads it.
    pub fn attach_instancebuffer(&mut self, buffer: Buffer) -> (replaced: Option<Buffer>)
        ensures
            final(self)@ == (ModelView { instancebuffer: Some(buffer), ..old(self)@ }),
            replaced == old(self)@.instancebuffer,
    {
        let replaced = self.instancebuffer;
        self.instancebuffer = Some(buffer);
        replaced
    }

    /// Gives up both device buffers, for their owner to destroy. The registry
    /// has none afterwards, so no buffer is handed out twice.
    pub fn release_buffers(&mut self) -> (released: (Option<Buffer>, Option<Buffer>))
        ensures
            final(self)@ == (ModelView { vertexbuffer: None, instancebuffer: None, ..old(self)@ }),
            released == (old(self)@.vertexbuffer, old(self)@.instancebuffer),
    {
        let released = (self.vertexbuffer, self.instancebuffer);
        self.vertexbuffer = None;
        self.instancebuffer = None;
        released
    }

    /// The draw call that shows the registry, if there is anything to draw.
    pub fn draw(&self) -> (call: Option<DrawCall>)
        ensures
            call == self@.draw(),
    {
        match (self.vertexbuffer, self.instancebuffer) {
            (Some(vertexbuffer), Some(instancebuffer)) => {
                if self.first_invisible > 0 {
                    Some(
                        DrawCall {
                            vertex_buffer: vertexbuffer.buffer,
                            instance_buffer: instancebuffer.buffer,
                            vertex_count: self.vertexdata.len(),
                            instance_count: self.first_invisible,
                            first_vertex: 0,
                            first_instance: 0,
                        },
                    )
                } else {
                    None
                }
            },
            _ => None,
        }
    }
}

} // verus!
