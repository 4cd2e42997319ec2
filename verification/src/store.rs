//! The entity store: owns every live player, enemy and star record.

use crate::geometry::Vec2;
use vstd::prelude::*;

verus! {

/// The player avatar. A singleton: at most one exists, and only while a run
/// is underway.
#[derive(Clone, Copy, PartialEq, Eq, Structural, Debug)]
pub struct Player {
    pub position: Vec2,
}

/// A roaming enemy: a position and a direction of length about one world
/// unit (`SCALE` milliunits); the zero direction stands for a stationary
/// enemy.
#[derive(Clone, Copy, PartialEq, Eq, Structural, Debug)]
pub struct Enemy {
    pub position: Vec2,
    pub direction: Vec2,
}

/// A collectible star.
#[derive(Clone, Copy, PartialEq, Eq, Structural, Debug)]
pub struct Star {
    pub position: Vec2,
}

/// Owns the live entity records. Every record carries the identifier it was
/// created under; identifiers are unique across all three kinds and are
/// never reused. Within a kind, creation order is preserved, though no rule
/// of the simulation relies on it.
pub struct EntityStore {
    pub player: Option<(u64, Player)>,
    pub enemies: Vec<(u64, Enemy)>,
    pub stars: Vec<(u64, Star)>,
    pub next_id: u64,
}

impl EntityStore {
    /// Well-formedness: every live identifier is below `next_id`, and no two
    /// records share an identifier.
    pub open spec fn wf(self) -> bool {
        &&& (match self.player {
            Some(p) => p.0 < self.next_id,
            None => true,
        })
        &&& (forall|i: int|
            0 <= i < self.enemies@.len() ==> (#[trigger] self.enemies@[i]).0 < self.next_id)
        &&& (forall|i: int|
            0 <= i < self.stars@.len() ==> (#[trigger] self.stars@[i]).0 < self.next_id)
        &&& (forall|i: int, j: int|
            0 <= i < j < self.enemies@.len() ==> (#[trigger] self.enemies@[i]).0 != (
            #[trigger] self.enemies@[j]).0)
        &&& (forall|i: int, j: int|
            0 <= i < j < self.stars@.len() ==> (#[trigger] self.stars@[i]).0 != (
            #[trigger] self.stars@[j]).0)
        &&& (forall|i: int, j: int|
            0 <= i < self.enemies@.len() && 0 <= j < self.stars@.len() ==> (
            #[trigger] self.enemies@[i]).0 != (#[trigger] self.stars@[j]).0)
        &&& (match self.player {
            Some(p) => {
                &&& (forall|i: int|
                    0 <= i < self.enemies@.len() ==> (#[trigger] self.enemies@[i]).0 != p.0)
                &&& (forall|i: int|
                    0 <= i < self.stars@.len() ==> (#[trigger] self.stars@[i]).0 != p.0)
            },
            None => true,
        })
    }

    /// An empty store.
    pub fn new() -> (s: EntityStore)
        ensures
            s.wf(),
            s.player.is_none(),
            s.enemies@.len() == 0,
            s.stars@.len() == 0,
            s.next_id == 0,
    {
        EntityStore { player: None, enemies: Vec::new(), stars: Vec::new(), next_id: 0 }
    }

    /// Creates the player record at `position` and returns its identifier.
    pub fn create_player(&mut self, position: Vec2) -> (id: u64)
        requires
            old(self).wf(),
            old(self).player.is_none(),
            old(self).next_id < u64::MAX,
        ensures
            final(self).wf(),
            final(self).player == Some((id, (Player { position }))),
            final(self).enemies@ == old(self).enemies@,
            final(self).stars@ == old(self).stars@,
            final(self).next_id == old(self).next_id + 1,
            id == old(self).next_id,
    {
        let id = self.next_id;
        self.player = Some((id, Player { position }));
        self.next_id = self.next_id + 1;
        id
    }

    /// Removes the player record if one exists.
    pub fn remove_player(&mut self)
        requires
            old(self).wf(),
        ensures
            final(self).wf(),
            final(self).player.is_none(),
            final(self).enemies@ == old(self).enemies@,
            final(self).stars@ == old(self).stars@,
            final(self).next_id == old(self).next_id,
    {
        self.player = None;
    }

    /// Creates an enemy record and returns its identifier.
    pub fn create_enemy(&mut self, position: Vec2, direction: Vec2) -> (id: u64)
        requires
            old(self).wf(),
            old(self).next_id < u64::MAX,
        ensures
            final(self).wf(),
            final(self).player == old(self).player,
            final(self).enemies@ == old(self).enemies@.push((id, (Enemy { position, direction }))),
            final(self).stars@ == old(self).stars@,
            final(self).next_id == old(self).next_id + 1,
            id == old(self).next_id,
    {
        let id = self.next_id;
        self.enemies.push((id, Enemy { position, direction }));
        self.next_id = self.next_id + 1;
        id
    }

    /// Creates a star record and returns its identifier.
    pub fn create_star(&mut self, position: Vec2) -> (id: u64)
        requires
            old(self).wf(),
            old(self).next_id < u64::MAX,
        ensures
            final(self).wf(),
            final(self).player == old(self).player,
            final(self).enemies@ == old(self).enemies@,
            final(self).stars@ == old(self).stars@.push((id, (Star { position }))),
            final(self).next_id == old(self).next_id + 1,
            id == old(self).next_id,
    {
        let id = self.next_id;
        self.stars.push((id, Star { position }));
        self.next_id = self.next_id + 1;
        id
    }

    /// Removes every enemy record.
    pub fn clear_enemies(&mut self)
        requires
            old(self).wf(),
        ensures
            final(self).wf(),
            final(self).player == old(self).player,
            final(self).enemies@.len() == 0,
            final(self).stars@ == old(self).stars@,
            final(self).next_id == old(self).next_id,
    {
        self.enemies.clear();
    }

    /// Removes every star record.
    pub fn clear_stars(&mut self)
        requires
            old(self).wf(),
        ensures
            final(self).wf(),
            final(self).player == old(self).player,
            final(self).stars@.len() == 0,
            final(self).enemies@ == old(self).enemies@,
            final(self).next_id == old(self).next_id,
    {
        self.stars.clear();
    }

    /// Removes the star record with the given identifier, if it is live;
    /// later records keep their order.
    pub fn remove_star(&mut self, id: u64)
        requires
            old(self).wf(),
        ensures
            final(self).wf(),
            final(self).player == old(self).player,
            final(self).enemies@ == old(self).enemies@,
            final(self).next_id == old(self).next_id,
            (exists|k: int| 0 <= k < old(self).stars@.len() && (#[trigger] old(self).stars@[k]).0
                == id) ==> (exists|k: int|
                {
                    &&& 0 <= k < old(self).stars@.len()
                    &&& (#[trigger] old(self).stars@[k]).0 == id
                    &&& final(self).stars@ == old(self).stars@.remove(k)
                }),
            !(exists|k: int| 0 <= k < old(self).stars@.len() && (#[trigger] old(self).stars@[k]).0
                == id) ==> final(self).stars@ == old(self).stars@,
    {
        let mut i: usize = 0;
        while i < self.stars.len()
            invariant
                self.player == old(self).player,
                self.enemies@ == old(self).enemies@,
                self.stars@ == old(self).stars@,
                self.next_id == old(self).next_id,
                old(self).wf(),
                i <= self.stars@.len(),
                forall|k: int| 0 <= k < i ==> (#[trigger] self.stars@[k]).0 != id,
            decreases self.stars@.len() - i,
        {
            if self.stars[i].0 == id {
                self.stars.remove(i);
                return ;
            }
            i = i + 1;
        }
    }

    /// The number of live enemy records.
    pub fn count_enemies(&self) -> (n: usize)
        ensures
            n == self.enemies@.len(),
    {
        self.enemies.len()
    }

    /// The number of live star records.
    pub fn count_stars(&self) -> (n: usize)
        ensures
            n == self.stars@.len(),
    {
        self.stars.len()
    }

    /// Read-only iteration over the live enemy records, in creation order.
    pub fn iter_enemies(&self) -> (r: &Vec<(u64, Enemy)>)
        ensures
            r@ == self.enemies@,
    {
        &self.enemies
    }

    /// Read-only iteration over the live star records, in creation order.
    pub fn iter_stars(&self) -> (r: &Vec<(u64, Star)>)
        ensures
            r@ == self.stars@,
    {
        &self.stars
    }

    /// Read-only access to the player record, if one is live.
    pub fn get_player(&self) -> (r: &Option<(u64, Player)>)
        ensures
            *r == self.player,
    {
        &self.player
    }
}

} // verus!
