//! Phase 12 of a tick: lasers against threats.

use vstd::prelude::*;
use crate::early_phases::count_true;
use crate::masks::{count_marked, kept_items, partition_by_marks, removed_items};
use crate::state::GameCore;

verus! {

/// Points for each threat shot down by a laser.
pub const LASER_KILL_POINTS: u32 = 10;

/// Laser `l` is used up: it is a standard laser that touches some threat.
/// Charged shots pierce through and are never used up. `contact[l]@[t]`
/// tells whether laser `l` touches threat `t`.
pub open spec fn laser_spent(charged: Seq<bool>, contact: Seq<Vec<bool>>, l: int, n_threats: int) -> bool {
    !charged[l] && exists|t: int| 0 <= t < n_threats && #[trigger] contact[l]@[t]
}

/// Threat `t` is shot down: some laser touches it.
pub open spec fn threat_shot(contact: Seq<Vec<bool>>, t: int) -> bool {
    exists|l: int| 0 <= l < contact.len() && #[trigger] contact[l]@[t]
}

/// Which lasers are used up.
pub open spec fn spent_lasers(charged: Seq<bool>, contact: Seq<Vec<bool>>, n_threats: int) -> Seq<bool> {
    Seq::new(contact.len(), |l: int| laser_spent(charged, contact, l, n_threats))
}

/// Which threats are shot down.
pub open spec fn shot_threats(contact: Seq<Vec<bool>>, n_threats: int) -> Seq<bool> {
    Seq::new(n_threats as nat, |t: int| threat_shot(contact, t))
}

/// The contact table has one row per laser and one column per threat.
pub open spec fn contact_table_fits(contact: Seq<Vec<bool>>, n_lasers: int, n_threats: int) -> bool {
    &&& contact.len() == n_lasers
    &&& forall|l: int| 0 <= l < n_lasers ==> (#[trigger] contact[l]).len() == n_threats
}

/// Which lasers are used up and which threats are shot down, given which
/// lasers are charged shots and which laser touches which threat.
pub fn collision_marks(charged: &Vec<bool>, contact: &Vec<Vec<bool>>, n_threats: usize) -> (marks: (
    Vec<bool>,
    Vec<bool>,
))
    requires
        contact_table_fits(contact@, charged.len() as int, n_threats as int),
    ensures
        marks.0@ == spent_lasers(charged@, contact@, n_threats as int),
        marks.1@ == shot_threats(contact@, n_threats as int),
{
    let n_lasers = charged.len();
    let mut hit: Vec<bool> = Vec::new();
    let mut t: usize = 0;
    while t < n_threats
        invariant
            t <= n_threats,
            hit.len() == t,
            forall|k: int| 0 <= k < t ==> !hit@[k],
        decreases n_threats - t,
    {
        hit.push(false);
        t = t + 1;
    }
    let mut spent: Vec<bool> = Vec::new();
    let mut l: usize = 0;
    while l < n_lasers
        invariant
            n_lasers == charged.len(),
            contact_table_fits(contact@, n_lasers as int, n_threats as int),
            l <= n_lasers,
            hit.len() == n_threats,
            spent.len() == l,
            forall|k: int|
                0 <= k < n_threats ==> hit@[k] == exists|j: int|
                    0 <= j < l && #[trigger] contact@[j]@[k],
            forall|j: int|
                0 <= j < l ==> spent@[j] == laser_spent(charged@, contact@, j, n_threats as int),
        decreases n_lasers - l,
    {
        let row = &contact[l];
        let mut touches = false;
        let mut k: usize = 0;
        while k < n_threats
            invariant
                n_lasers == charged.len(),
                contact_table_fits(contact@, n_lasers as int, n_threats as int),
                l < n_lasers,
                *row == contact@[l as int],
                k <= n_threats,
                hit.len() == n_threats,
                touches == exists|m: int| 0 <= m < k && #[trigger] row@[m],
                forall|m: int|
                    0 <= m < n_threats ==> hit@[m] == ((exists|j: int|
                        0 <= j < l && #[trigger] contact@[j]@[m]) || (m < k && row@[m])),
            decreases n_threats - k,
        {
            if row[k] {
                touches = true;
                hit.set(k, true);
            }
            k = k + 1;
        }
        assert forall|m: int| 0 <= m < n_threats implies hit@[m] == exists|j: int|
            0 <= j < l + 1 && #[trigger] contact@[j]@[m] by {
            if hit@[m] && !(exists|j: int| 0 <= j < l && #[trigger] contact@[j]@[m]) {
                assert(contact@[l as int]@[m]);
            }
            if exists|j: int| 0 <= j < l + 1 && #[trigger] contact@[j]@[m] {
                let j = choose|j: int| 0 <= j < l + 1 && #[trigger] contact@[j]@[m];
                if j == l {
                    assert(row@[m]);
                }
            }
        }
        spent.push(!charged[l] && touches);
        l = l + 1;
    }
    assert(hit@ == shot_threats(contact@, n_threats as int));
    assert(spent@ == spent_lasers(charged@, contact@, n_threats as int));
    (spent, hit)
}

impl GameCore {
    /// The state after the laser phase, when `kills` threats are shot down.
    pub open spec fn after_collisions(self, kills: nat) -> GameCore {
        GameCore { score: (self.score + LASER_KILL_POINTS * kills) as u32, ..self }
    }

    /// Phase 12: every threat that some laser touches is destroyed and
    /// scores `LASER_KILL_POINTS`; standard lasers that touch a threat are
    /// used up, charged shots pierce through. Returns the destroyed threats.
    pub fn handle_collisions<L, T>(
        &mut self,
        lasers: &mut Vec<L>,
        threats: &mut Vec<T>,
        charged: &Vec<bool>,
        contact: &Vec<Vec<bool>>,
    ) -> (destroyed: Vec<T>)
        requires
            charged.len() == old(lasers).len(),
            contact_table_fits(contact@, old(lasers).len() as int, old(threats).len() as int),
            old(self).score + LASER_KILL_POINTS * count_marked(
                shot_threats(contact@, old(threats).len() as int),
                old(threats).len() as int,
            ) <= u32::MAX,
        ensures
            final(lasers)@ == kept_items(
                old(lasers)@,
                spent_lasers(charged@, contact@, old(threats).len() as int),
            ),
            final(threats)@ == kept_items(
                old(threats)@,
                shot_threats(contact@, old(threats).len() as int),
            ),
            destroyed@ == removed_items(
                old(threats)@,
                shot_threats(contact@, old(threats).len() as int),
            ),
            *final(self) == old(self).after_collisions(
                count_marked(shot_threats(contact@, old(threats).len() as int), old(threats).len() as int),
            ),
    {
        let (spent, hit) = collision_marks(charged, contact, threats.len());
        let kills = count_true(&hit);
        self.score = self.score + LASER_KILL_POINTS * (kills as u32);
        let mut taken_threats: Vec<T> = Vec::new();
        std::mem::swap(&mut taken_threats, threats);
        let (kept_threats, destroyed) = partition_by_marks(taken_threats, &hit);
        *threats = kept_threats;
        let mut taken_lasers: Vec<L> = Vec::new();
        std::mem::swap(&mut taken_lasers, lasers);
        let (kept_lasers, _spent) = partition_by_marks(taken_lasers, &spent);
        *lasers = kept_lasers;
        destroyed
    }
}

} // verus!
