//! Scenes: frames kept under keys, one of which is the current one.

use crate::panel::frame::Frame;
use vstd::prelude::*;

verus! {

/// What tells the keys of scenes apart: the number of the key's kind, and
/// the key's number within its kind.
#[derive(Clone, Copy, PartialEq, Eq, Debug, Structural)]
pub struct SceneId {
    pub kind: u64,
    pub index: u64,
}

/// A key under which an application keeps a scene. Keys of different kinds
/// are different keys.
pub trait SceneKey {
    /// What tells this key apart from every other key.
    fn id(&self) -> SceneId;
}

impl SceneId {
    /// Whether `other` is the key that `self` tells apart.
    pub fn eq<K: SceneKey>(&self, other: &K) -> (same: bool)
        ensures
            exists|id: SceneId| #[trigger] call_ensures(K::id, (other,), id) && same == (*self == id),
    {
        *self == other.id()
    }
}

impl SceneKey for SceneId {
    fn id(&self) -> (id: SceneId)
        ensures
            id == *self,
    {
        *self
    }
}

/// The key of the scene that an application starts with.
#[derive(Clone, Copy, PartialEq, Eq, Debug, Structural)]
pub struct DefaultScene;

impl SceneKey for DefaultScene {
    fn id(&self) -> (id: SceneId)
        ensures
            id == (SceneId { kind: 0, index: 0 }),
    {
        SceneId { kind: 0, index: 0 }
    }
}

pub trait SceneKeyT: SceneKey + Copy + Clone {

}

impl<T: SceneKey + Copy + Clone> SceneKeyT for T {

}

pub struct Scene {
    pub key: SceneId,
    pub frame: Frame,
}

impl Scene {
    pub fn new<K: SceneKeyT>(key: K, frame: Frame) -> (scene: Scene)
        ensures
            scene.frame == frame,
            call_ensures(K::id, (&key,), scene.key),
    {
        Scene { key: key.id(), frame }
    }
}

pub struct SceneHandler {
    pub scenes: Vec<Scene>,
    pub current_pos: usize,
}

/// The position of the first of `scenes` from `from` on that is kept under
/// `key`; their number where there is none.
pub open spec fn scene_position(scenes: Seq<Scene>, key: SceneId, from: int) -> int
    decreases scenes.len() - from,
{
    if from < 0 || from >= scenes.len() {
        scenes.len() as int
    } else if scenes[from].key == key {
        from
    } else {
        scene_position(scenes, key, from + 1)
    }
}

impl SceneHandler {
    pub fn new() -> (handler: SceneHandler)
        ensures
            handler.scenes@.len() == 0,
            handler.current_pos == 0,
    {
        SceneHandler { scenes: Vec::new(), current_pos: 0 }
    }

    /// Whether there is a current scene.
    pub open spec fn has_current(&self) -> bool {
        self.current_pos < self.scenes@.len()
    }

    fn find(&self, key: SceneId) -> (i: usize)
        ensures
            i == scene_position(self.scenes@, key, 0),
            i <= self.scenes@.len(),
    {
        let mut i: usize = 0;
        while i < self.scenes.len()
            invariant
                i <= self.scenes.len(),
                scene_position(self.scenes@, key, 0) == scene_position(self.scenes@, key, i as int),
            decreases self.scenes.len() - i,
        {
            if self.scenes[i].key == key {
                return i;
            }
            i += 1;
        }
        i
    }

    /// Keeps `scene` behind the scenes kept already.
    pub fn add_scene(&mut self, scene: Scene)
        ensures
            final(self).scenes@ == old(self).scenes@.push(scene),
            final(self).current_pos == old(self).current_pos,
    {
        self.scenes.push(scene);
    }

    /// Takes out the first scene kept under `key`, if there is one. The
    /// position of the current scene stays as it is.
    pub fn remove_scene(&mut self, key: SceneId) -> (scene: Option<Scene>)
        ensures
            final(self).current_pos == old(self).current_pos,
            match scene {
                Some(s) => scene_position(old(self).scenes@, key, 0) < old(self).scenes@.len()
                    && s == old(self).scenes@[scene_position(old(self).scenes@, key, 0)]
                    && final(self).scenes@ == old(self).scenes@.remove(
                    scene_position(old(self).scenes@, key, 0),
                ),
                None => scene_position(old(self).scenes@, key, 0) == old(self).scenes@.len()
                    && final(self).scenes@ == old(self).scenes@,
            },
    {
        let i = self.find(key);
        if i < self.scenes.len() {
            Some(self.scenes.remove(i))
        } else {
            None
        }
    }

    /// Makes the first scene kept under `key` the current one, if there is
    /// one.
    pub fn set_scene(&mut self, key: SceneId)
        ensures
            final(self).scenes@ == old(self).scenes@,
            final(self).current_pos == if scene_position(old(self).scenes@, key, 0) < old(
                self,
            ).scenes@.len() {
                scene_position(old(self).scenes@, key, 0)
            } else {
                old(self).current_pos as int
            },
    {
        let i = self.find(key);
        if i < self.scenes.len() {
            self.current_pos = i;
        }
    }

    /// Keeps `frame` as a scene under `key`, behind the scenes kept
    /// already.
    pub fn add<T: SceneKeyT>(&mut self, key: T, frame: Frame)
        ensures
            final(self).current_pos == old(self).current_pos,
            final(self).scenes@.len() == old(self).scenes@.len() + 1,
            final(self).scenes@.drop_last() == old(self).scenes@,
            final(self).scenes@.last().frame == frame,
            call_ensures(T::id, (&key,), final(self).scenes@.last().key),
    {
        let scene = Scene::new(key, frame);
        self.add_scene(scene);
        assert(self.scenes@.drop_last() =~= old(self).scenes@);
    }

    /// Takes out the first scene kept under `key`, if there is one.
    pub fn remove<T: SceneKeyT>(&mut self, key: T) -> (scene: Option<Scene>)
        ensures
            final(self).current_pos == old(self).current_pos,
            exists|id: SceneId| #[trigger]
                call_ensures(T::id, (&key,), id) && match scene {
                    Some(s) => scene_position(old(self).scenes@, id, 0) < old(self).scenes@.len()
                        && s == old(self).scenes@[scene_position(old(self).scenes@, id, 0)]
                        && final(self).scenes@ == old(self).scenes@.remove(
                        scene_position(old(self).scenes@, id, 0),
                    ),
                    None => scene_position(old(self).scenes@, id, 0) == old(self).scenes@.len()
                        && final(self).scenes@ == old(self).scenes@,
                },
    {
        let id = key.id();
        self.remove_scene(id)
    }

    /// Makes the first scene kept under `key` the current one, if there is
    /// one.
    pub fn set<T: SceneKeyT>(&mut self, key: &mut T)
        ensures
            *final(key) == *old(key),
            final(self).scenes@ == old(self).scenes@,
            exists|id: SceneId| #[trigger]
                call_ensures(T::id, (&*old(key),), id) && final(self).current_pos
                    == if scene_position(old(self).scenes@, id, 0) < old(self).scenes@.len() {
                    scene_position(old(self).scenes@, id, 0)
                } else {
                    old(self).current_pos as int
                },
    {
        let id = key.id();
        self.set_scene(id);
    }

    /// The current scene.
    pub fn current(&mut self) -> (scene: &mut Scene)
        requires
            old(self).has_current(),
        ensures
            *scene == old(self).scenes@[old(self).current_pos as int],
            final(self).current_pos == old(self).current_pos,
            final(self).scenes@ == old(self).scenes@.update(
                old(self).current_pos as int,
                *final(scene),
            ),
    {
        &mut self.scenes[self.current_pos]
    }

    /// The current scene, where there is one.
    pub fn try_current(&mut self) -> (scene: Option<&mut Scene>)
        ensures
            final(self).current_pos == old(self).current_pos,
            match scene {
                Some(s) => old(self).has_current() && *s == old(self).scenes@[old(
                    self,
                ).current_pos as int] && final(self).scenes@ == old(self).scenes@.update(
                    old(self).current_pos as int,
                    *final(s),
                ),
                None => !old(self).has_current() && final(self).scenes@ == old(self).scenes@,
            },
    {
        if self.current_pos < self.scenes.len() {
            Some(&mut self.scenes[self.current_pos])
        } else {
            None
        }
    }
}

} // verus!
