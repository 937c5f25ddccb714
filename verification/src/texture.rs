//! The resources made for drawing.

use vstd::prelude::*;
use std::collections::HashMap;
use crate::entity::{Entity, EntityManager};

verus! {

broadcast use vstd::std_specs::hash::group_hash_axioms;

/// Owns the resources that were made for drawing, each under its handle.
/// Nothing is ever taken out.
pub struct TextureManager<T> {
    cache: HashMap<u64, T>,
}

impl<T> View for TextureManager<T> {
    type V = Map<u64, T>;

    /// The resources held, by the number of their handle.
    closed spec fn view(&self) -> Map<u64, T> {
        self.cache@
    }
}

impl<T> TextureManager<T> {
    /// A manager that holds nothing.
    pub fn new() -> (manager: TextureManager<T>)
        ensures
            manager@ == Map::<u64, T>::empty(),
    {
        TextureManager { cache: HashMap::new() }
    }

    /// Takes in what an upload gave. A resource gets a new handle and is
    /// held under it from then on; a failed upload is handed back as it came,
    /// no handle is given out for it and nothing is stored. A handle has to
    /// be free only where there is a resource to take in.
    pub fn create_from_surface<E>(
        &mut self,
        entity_manager: &mut EntityManager,
        uploaded: Result<T, E>,
    ) -> (created: Result<Entity, E>)
        requires
            uploaded is Ok ==> old(entity_manager)@ < u64::MAX,
        ensures
            match uploaded {
                Ok(texture) => {
                    &&& created == Ok::<Entity, E>(Entity(old(entity_manager)@ as u64))
                    &&& final(entity_manager)@ == old(entity_manager)@ + 1
                    &&& final(self)@ == old(self)@.insert(old(entity_manager)@ as u64, texture)
                },
                Err(failure) => {
                    &&& created == Err::<Entity, E>(failure)
                    &&& final(entity_manager)@ == old(entity_manager)@
                    &&& final(self)@ == old(self)@
                },
            },
    {
        match uploaded {
            Ok(texture) => {
                let entity = entity_manager.next();
                self.cache.insert(entity.0, texture);
                Ok(entity)
            },
            Err(failure) => Err(failure),
        }
    }

    /// The resource held under a handle.
    pub fn get(&self, tid: Entity) -> (texture: Option<&T>)
        ensures
            match texture {
                Some(held) => self@.contains_key(tid.0) && *held == self@[tid.0],
                None => !self@.contains_key(tid.0),
            },
    {
        self.cache.get(&tid.0)
    }
}

} // verus!
