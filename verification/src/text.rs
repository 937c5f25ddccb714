//! The cache that keeps a text from being made into a resource twice.

use vstd::prelude::*;
use crate::assoc::{
    distinct_keys, lemma_map_of_absent, lemma_map_of_at, lemma_map_of_push, lemma_map_of_remove,
    map_of,
};
use crate::entity::{Entity, EntityManager};
use crate::texture::TextureManager;
use crate::theme::Color;

verus! {

/// What decides how a text looks once drawn: the text, its colour, its size.
pub struct TextKey {
    pub text: Seq<char>,
    pub colour: Color,
    pub size: usize,
}

/// The mathematical content of the caches that drawing text goes through.
pub struct MemoModel<T> {
    /// The handle noted for a text.
    pub repo: Map<TextKey, Entity>,
    /// The resources held, by the number of their handle.
    pub textures: Map<u64, T>,
    /// The number of the handle that is given out next.
    pub upcoming: nat,
}

/// The handle of the resource that is ready for a text: the one noted for it,
/// if a resource is held under that handle.
pub open spec fn ready<T>(
    repo: Map<TextKey, Entity>,
    textures: Map<u64, T>,
    key: TextKey,
) -> Option<Entity> {
    if repo.contains_key(key) && textures.contains_key(repo[key].0) {
        Some(repo[key])
    } else {
        None
    }
}

impl<T> MemoModel<T> {
    /// The handle of the resource that is ready for a text: see [`ready`].
    pub open spec fn cached(self, key: TextKey) -> Option<Entity> {
        ready(self.repo, self.textures, key)
    }

    /// The caches after a text for which no resource was ready was made into
    /// one, or failed to be: a resource is held under a new handle, which is
    /// noted for the text; a failure changes nothing.
    pub open spec fn recorded<E>(self, key: TextKey, made: Result<T, E>) -> MemoModel<T> {
        match made {
            Ok(texture) => MemoModel {
                repo: self.repo.insert(key, Entity(self.upcoming as u64)),
                textures: self.textures.insert(self.upcoming as u64, texture),
                upcoming: self.upcoming + 1,
            },
            Err(_) => self,
        }
    }

    /// The caches after a text was drawn, where `made` is what making a
    /// resource of it gives: nothing changes if a resource was ready.
    pub open spec fn drawn<E>(self, key: TextKey, made: Result<T, E>) -> MemoModel<T> {
        if self.cached(key) is Some {
            self
        } else {
            self.recorded(key, made)
        }
    }

    /// Whether a draw finds the handle it needs. It needs one only where no
    /// resource is ready and one was made: a text that is ready is drawn
    /// without, and so is nothing taken in of a failure.
    pub open spec fn has_room<E>(self, key: TextKey, made: Result<T, E>) -> bool {
        self.cached(key) is None && made is Ok ==> self.upcoming < u64::MAX
    }

    /// What drawing a text hands back: the handle of the resource to draw,
    /// or the failure to make one.
    pub open spec fn handle<E>(self, key: TextKey, made: Result<T, E>) -> Result<Entity, E> {
        match self.cached(key) {
            Some(entity) => Ok(entity),
            None => match made {
                Ok(_) => Ok(Entity(self.upcoming as u64)),
                Err(failure) => Err(failure),
            },
        }
    }
}

/// Drawing a text a second time makes nothing. Once a text was drawn, its
/// resource is ready and held under the handle handed back, so that drawing
/// it again needs no handle, hands back the same handle and changes nothing,
/// whatever making a resource would give then and whether or not a handle is
/// left. Of the two draws only the first can have made a resource, and it
/// has made exactly one if none was ready before.
pub proof fn lemma_drawn_once<T, E>(
    caches: MemoModel<T>,
    key: TextKey,
    first: Result<T, E>,
    second: Result<T, E>,
)
    requires
        caches.handle(key, first) is Ok,
    ensures
        ({
            let once = caches.drawn(key, first);
            let twice = once.drawn(key, second);
            let handle = caches.handle(key, first)->Ok_0;
            &&& once.cached(key) == Some(handle)
            &&& once.textures.contains_key(handle.0)
            &&& once.has_room(key, second)
            &&& once.handle(key, second) == Ok::<Entity, E>(handle)
            &&& twice == once
            &&& caches.cached(key) is Some ==> twice == caches
            &&& caches.cached(key) is None ==> {
                &&& first is Ok
                &&& twice.upcoming == caches.upcoming + 1
                &&& twice.textures == caches.textures.insert(handle.0, first->Ok_0)
                &&& twice.repo == caches.repo.insert(key, handle)
            }
        }),
{
}

/// A draw that fails to make a resource changes nothing, so that the next
/// draw of the same text tries again.
pub proof fn lemma_failed_draw_is_retried<T, E>(caches: MemoModel<T>, key: TextKey, first: Result<T, E>)
    requires
        caches.handle(key, first) is Err,
    ensures
        caches.drawn(key, first) == caches,
        caches.drawn(key, first).cached(key) is None,
{
}

/// Notes, for every text drawn so far, the handle of the resource made of it.
#[derive(Debug)]
pub struct TextManager {
    repo: Vec<(String, Color, usize, Entity)>,
}

impl View for TextManager {
    type V = Map<TextKey, Entity>;

    closed spec fn view(&self) -> Map<TextKey, Entity> {
        map_of(self.pairs())
    }
}

impl TextManager {
    /// The texts and handles noted, in the order of storage.
    spec fn pairs(&self) -> Seq<(TextKey, Entity)> {
        Seq::new(
            self.repo@.len(),
            |i: int|
                (
                    TextKey {
                        text: self.repo@[i].0@,
                        colour: self.repo@[i].1,
                        size: self.repo@[i].2,
                    },
                    self.repo@[i].3,
                ),
        )
    }

    /// No text is noted twice.
    pub closed spec fn wf(&self) -> bool {
        distinct_keys(self.pairs())
    }

    /// A manager that has noted nothing.
    pub fn new() -> (manager: TextManager)
        ensures
            manager.wf(),
            manager@ == Map::<TextKey, Entity>::empty(),
    {
        let manager = TextManager { repo: Vec::new() };
        assert(manager@ =~= Map::<TextKey, Entity>::empty()) by {
            assert forall|key: TextKey| !manager@.contains_key(key) by {
                lemma_map_of_absent(manager.pairs(), key);
            }
        }
        manager
    }

    /// Where a text is noted.
    fn find(&self, text: &String, colour: Color, size: usize) -> (found: Option<usize>)
        requires
            self.wf(),
        ensures
            match found {
                Some(at) => {
                    &&& at < self.repo@.len()
                    &&& self.pairs()[at as int].0 == (TextKey { text: text@, colour, size })
                    &&& self@.contains_key(TextKey { text: text@, colour, size })
                    &&& self@[TextKey { text: text@, colour, size }] == self.repo@[at as int].3
                },
                None => !self@.contains_key(TextKey { text: text@, colour, size }),
            },
    {
        let ghost key = TextKey { text: text@, colour, size };
        let mut at: usize = 0;
        while at < self.repo.len()
            invariant
                at <= self.repo@.len(),
                forall|i: int| 0 <= i < at ==> self.pairs()[i].0 != key,
                self.wf(),
                key == (TextKey { text: text@, colour, size }),
            decreases self.repo@.len() - at,
        {
            let noted = &self.repo[at];
            if noted.0 == *text && noted.1 == colour && noted.2 == size {
                proof {
                    lemma_map_of_at(self.pairs(), at as int);
                }
                return Some(at);
            }
            at += 1;
        }
        proof {
            lemma_map_of_absent(self.pairs(), key);
        }
        None
    }

    /// The handle noted for a text.
    pub fn get(&self, text: String, colour: Color, size: usize) -> (noted: Option<Entity>)
        requires
            self.wf(),
        ensures
            noted == if self@.contains_key(TextKey { text: text@, colour, size }) {
                Some(self@[TextKey { text: text@, colour, size }])
            } else {
                None
            },
    {
        match self.find(&text, colour, size) {
            Some(at) => Some(self.repo[at].3),
            None => None,
        }
    }

    /// Notes a handle for a text, in place of any that was noted for it.
    pub fn insert(&mut self, text: String, colour: Color, size: usize, entity: Entity)
        requires
            old(self).wf(),
        ensures
            final(self).wf(),
            final(self)@ == old(self)@.insert(TextKey { text: text@, colour, size }, entity),
    {
        let ghost key = TextKey { text: text@, colour, size };
        if let Some(at) = self.find(&text, colour, size) {
            proof {
                lemma_map_of_remove(self.pairs(), at as int);
            }
            let _ = self.repo.remove(at);
            assert(self.pairs() =~= old(self).pairs().remove(at as int));
        }
        proof {
            lemma_map_of_push(self.pairs(), key, entity);
        }
        let ghost before = self.pairs();
        self.repo.push((text, colour, size, entity));
        assert(self.pairs() =~= before.push((key, entity)));
    }

    /// The caches as one value.
    pub open spec fn caches<T>(
        &self,
        entity_manager: &EntityManager,
        texture_manager: &TextureManager<T>,
    ) -> MemoModel<T> {
        MemoModel { repo: self@, textures: texture_manager@, upcoming: entity_manager@ }
    }

    /// The handle of the resource that is ready for a text, if one is: see
    /// [`ready`].
    pub fn cached<T>(
        &self,
        texture_manager: &TextureManager<T>,
        text: &String,
        colour: Color,
        size: usize,
    ) -> (found: Option<Entity>)
        requires
            self.wf(),
        ensures
            found == ready(self@, texture_manager@, TextKey { text: text@, colour, size }),
    {
        if let Some(entity) = self.get(text.clone(), colour, size) {
            if texture_manager.get(entity).is_some() {
                return Some(entity);
            }
        }
        None
    }

    /// Takes in what making a resource of a text gave, for a text that none
    /// was ready for: see [`MemoModel::recorded`]. A resource is held from
    /// then on and its handle, which is handed back, is noted for the text; a
    /// failure is handed back as it came and changes nothing.
    pub fn record<T, E>(
        &mut self,
        entity_manager: &mut EntityManager,
        texture_manager: &mut TextureManager<T>,
        text: String,
        colour: Color,
        size: usize,
        made: Result<T, E>,
    ) -> (noted: Result<Entity, E>)
        requires
            old(self).wf(),
            made is Ok ==> old(entity_manager)@ < u64::MAX,
        ensures
            final(self).wf(),
            final(self).caches(final(entity_manager), final(texture_manager)) == old(self).caches(
                old(entity_manager),
                old(texture_manager),
            ).recorded(TextKey { text: text@, colour, size }, made),
            noted == match made {
                Ok(_) => Ok::<Entity, E>(Entity(old(entity_manager)@ as u64)),
                Err(failure) => Err::<Entity, E>(failure),
            },
    {
        match texture_manager.create_from_surface(entity_manager, made) {
            Ok(entity) => {
                self.insert(text, colour, size, entity);
                Ok(entity)
            },
            Err(failure) => Err(failure),
        }
    }

    /// Finds the resource to draw a text with, making it only if none is
    /// ready: where one is, its handle is handed back, `make` is not called
    /// and nothing changes; else `make` is called once, and what it gave is
    /// taken in as [`TextManager::record`] says. Either way a handle that is
    /// handed back has its resource held under it. A handle has to be free
    /// only for a resource that `make` gives: see [`MemoModel::has_room`].
    pub fn render<T, E, F: FnOnce() -> Result<T, E>>(
        &mut self,
        entity_manager: &mut EntityManager,
        texture_manager: &mut TextureManager<T>,
        text: &String,
        colour: Color,
        size: usize,
        make: F,
    ) -> (drawn: Result<Entity, E>)
        requires
            old(self).wf(),
            make.requires(()),
            forall|made: Result<T, E>| #[trigger]
                make.ensures((), made) ==> old(self).caches(
                    old(entity_manager),
                    old(texture_manager),
                ).has_room(TextKey { text: text@, colour, size }, made),
        ensures
            final(self).wf(),
            drawn matches Ok(entity) ==> final(texture_manager)@.contains_key(entity.0),
            ({
                let before = old(self).caches(old(entity_manager), old(texture_manager));
                let after = final(self).caches(final(entity_manager), final(texture_manager));
                let key = TextKey { text: text@, colour, size };
                match before.cached(key) {
                    Some(entity) => drawn == Ok::<Entity, E>(entity) && after == before,
                    None => exists|made: Result<T, E>|
                        {
                            &&& make.ensures((), made)
                            &&& after == before.recorded(key, made)
                            &&& drawn == before.handle(key, made)
                        },
                }
            }),
    {
        if let Some(entity) = self.cached(texture_manager, text, colour, size) {
            return Ok(entity);
        }
        let made = make();
        self.record(entity_manager, texture_manager, text.clone(), colour, size, made)
    }
}

} // verus!
