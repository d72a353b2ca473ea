//! Mining: while the mine action is held, every frame takes one resource
//! from each asteroid that bears the name the player targets. An asteroid's
//! sprite moves on by one frame at every multiple of 250 resources, and an
//! asteroid whose resources reach zero leaves the world.

use vstd::prelude::*;
use crate::components::{Astroid, Ore, Player};

verus! {

/// The system that resolves mining, once per frame.
#[derive(Clone, Copy, Debug, Default)]
pub struct MiningSystem;

/// An asteroid in the world: the number by which the world knows the
/// entity, its name, its component and the frame of its sprite.
#[derive(Debug, PartialEq, Eq)]
pub struct AsteroidEntity {
    pub entity: u32,
    pub name: String,
    pub astroid: Astroid,
    pub sprite_number: usize,
}

impl Clone for AsteroidEntity {
    fn clone(&self) -> (copy: AsteroidEntity)
        ensures
            copy == *self,
    {
        AsteroidEntity {
            entity: self.entity,
            name: self.name.clone(),
            astroid: self.astroid,
            sprite_number: self.sprite_number,
        }
    }
}

/// An asteroid as the contracts see it.
pub struct AsteroidState {
    pub entity: u32,
    pub name: Seq<char>,
    pub ore: Ore,
    pub resources: nat,
    pub frame: nat,
}

impl View for AsteroidEntity {
    type V = AsteroidState;

    open spec fn view(&self) -> AsteroidState {
        AsteroidState {
            entity: self.entity,
            name: self.name@,
            ore: self.astroid.ore,
            resources: self.astroid.resources as nat,
            frame: self.sprite_number as nat,
        }
    }
}

impl AsteroidEntity {
    /// A tick aimed at `target` moves this asteroid's sprite on by a frame:
    /// it bears that name, and the strike leaves a multiple of 250 resources
    /// that is not zero.
    pub open spec fn frame_moves_on(self, target: Seq<char>) -> bool {
        &&& self.name@ == target
        &&& self.astroid.resources > 1
        &&& (self.astroid.resources - 1) % 250 == 0
    }

    /// The frame index can take what a tick aimed at `target` asks of it:
    /// where the sprite moves on, it is not at the last index there is.
    pub open spec fn can_take_strike(self, target: Seq<char>) -> bool {
        self.frame_moves_on(target) ==> self.sprite_number < usize::MAX
    }

    /// Tests whether the frame index can take a tick aimed at `target`.
    pub fn takes_strike(&self, target: &String) -> (ok: bool)
        ensures
            ok == self.can_take_strike(target@),
    {
        !(self.name == *target && self.astroid.resources > 1 && (self.astroid.resources - 1) % 250
            == 0) || self.sprite_number < usize::MAX
    }
}

/// Every asteroid can take the tick that this frame brings, if it brings one.
pub open spec fn can_take_frame(
    mine_held: bool,
    target: Option<Seq<char>>,
    asteroids: Seq<AsteroidEntity>,
) -> bool {
    match target {
        Some(name) if mine_held => forall|i: int|
            0 <= i < asteroids.len() ==> (#[trigger] asteroids[i]).can_take_strike(name),
        _ => true,
    }
}

/// The states of a list of asteroids, in the same order.
pub open spec fn states(asteroids: Seq<AsteroidEntity>) -> Seq<AsteroidState> {
    asteroids.map_values(|e: AsteroidEntity| e@)
}

/// One strike of the mining tool: a resource less (none less than zero), and
/// the next frame where the count left is a multiple of 250.
pub open spec fn struck(a: AsteroidState) -> AsteroidState {
    let left: nat = if a.resources == 0 {
        0
    } else {
        (a.resources - 1) as nat
    };
    AsteroidState {
        entity: a.entity,
        name: a.name,
        ore: a.ore,
        resources: left,
        frame: if left % 250 == 0 {
            a.frame + 1
        } else {
            a.frame
        },
    }
}

/// What one tick aimed at `target` makes of one asteroid: `None` where it
/// leaves the world.
pub open spec fn outcome(a: AsteroidState, target: Seq<char>) -> Option<AsteroidState> {
    if a.name != target {
        Some(a)
    } else if struck(a).resources == 0 {
        None
    } else {
        Some(struck(a))
    }
}

/// The asteroids after one tick aimed at `target`: the outcomes of all of
/// them, in their old order.
pub open spec fn tick(s: Seq<AsteroidState>, target: Seq<char>) -> Seq<AsteroidState>
    decreases s.len(),
{
    if s.len() == 0 {
        Seq::empty()
    } else {
        match outcome(s.last(), target) {
            Some(b) => tick(s.drop_last(), target).push(b),
            None => tick(s.drop_last(), target),
        }
    }
}

/// The name that mining aims at: the target of the last player, provided that
/// there is a player and that no player is without a target.
pub open spec fn mining_target(players: Seq<Player>) -> Option<Seq<char>> {
    if players.len() > 0 && (forall|i: int| 0 <= i < players.len() ==> players[i].target is Some) {
        players.last().target_name()
    } else {
        None
    }
}

/// The asteroids after one frame of the mining system.
pub open spec fn after_frame(
    mine_held: bool,
    target: Option<Seq<char>>,
    s: Seq<AsteroidState>,
) -> Seq<AsteroidState> {
    match target {
        Some(name) if mine_held => tick(s, name),
        _ => s,
    }
}

/// Finds the name that mining aims at.
pub fn held_target<'a>(players: &'a Vec<Player>) -> (found: Option<&'a String>)
    ensures
        match found {
            Some(name) => mining_target(players@) == Some(name@),
            None => mining_target(players@) is None,
        },
{
    let mut found: Option<&'a String> = None;
    let mut i: usize = 0;
    while i < players.len()
        invariant
            0 <= i <= players.len(),
            forall|j: int| 0 <= j < i ==> players[j].target is Some,
            i == 0 ==> found is None,
            i > 0 ==> found is Some && Some(found->0@) == players[i - 1].target_name(),
        decreases players.len() - i,
    {
        match &players[i].target {
            Some(name) => {
                found = Some(name);
            },
            None => {
                return None;
            },
        }
        i += 1;
    }
    found
}

impl MiningSystem {
    /// One frame of mining. Nothing happens unless the mine action is held
    /// and a target is set; then the asteroids become `tick` of what they
    /// were.
    pub fn run(&mut self, mine_held: bool, players: &Vec<Player>, asteroids: &mut Vec<AsteroidEntity>)
        requires
            can_take_frame(mine_held, mining_target(players@), old(asteroids)@),
        ensures
            states(final(asteroids)@) == after_frame(
                mine_held,
                mining_target(players@),
                states(old(asteroids)@),
            ),
    {
        if !mine_held {
            return ;
        }
        match held_target(players) {
            Some(name) => {
                strike_named(name, asteroids);
            },
            None => {},
        }
    }
}

/// One tick aimed at `target`, as one asteroid takes it. An asteroid of
/// another name stays as it is. One of that name loses a resource, and its
/// sprite moves on a frame if the count left is a multiple of 250; but if
/// nothing is left, it stays untouched and the result says that it is gone
/// and is to be removed.
pub fn strike(target: &String, rock: &mut AsteroidEntity) -> (gone: bool)
    requires
        old(rock).can_take_strike(target@),
    ensures
        gone == (outcome(old(rock)@, target@) is None),
        !gone ==> Some(final(rock)@) == outcome(old(rock)@, target@),
        gone ==> *final(rock) == *old(rock),
        final(rock).name == old(rock).name,
        final(rock).entity == old(rock).entity,
{
    if rock.name == *target {
        let had: u32 = rock.astroid.resources;
        if had <= 1 {
            true
        } else {
            let left: u32 = had - 1;
            rock.astroid.resources = left;
            if left % 250 == 0 {
                rock.sprite_number = rock.sprite_number + 1;
            }
            false
        }
    } else {
        false
    }
}

/// One tick aimed at `target`: strikes every asteroid of that name and
/// removes those that are spent.
pub fn strike_named(target: &String, asteroids: &mut Vec<AsteroidEntity>)
    requires
        forall|i: int|
            0 <= i < old(asteroids)@.len() ==> (#[trigger] old(asteroids)@[i]).can_take_strike(
                target@,
            ),
    ensures
        states(final(asteroids)@) == tick(states(old(asteroids)@), target@),
{
    let ghost orig = states(asteroids@);
    let ghost mut k: int = 0;
    let mut i: usize = 0;
    while i < asteroids.len()
        invariant
            0 <= k <= orig.len(),
            i == tick(orig.take(k), target@).len(),
            states(asteroids@) =~= tick(orig.take(k), target@) + orig.skip(k),
            forall|j: int|
                i <= j < asteroids@.len() ==> (#[trigger] asteroids@[j]).can_take_strike(target@),
        decreases orig.len() - k,
    {
        let ghost done = tick(orig.take(k), target@);
        let ghost before = states(asteroids@);
        proof {
            assert(before[i as int] == orig[k]);
            assert(orig.take(k + 1).drop_last() =~= orig.take(k));
            assert(orig.take(k + 1).last() == orig[k]);
            assert(tick(orig.take(k + 1), target@) == match outcome(orig[k], target@) {
                Some(b) => done.push(b),
                None => done,
            });
        }
        let gone = strike(target, &mut asteroids[i]);
        if gone {
            let _ = asteroids.remove(i);
            proof {
                assert(states(asteroids@) =~= before.remove(i as int));
                assert(before.remove(i as int) =~= done + orig.skip(k + 1));
            }
        } else {
            proof {
                let b = outcome(orig[k], target@)->0;
                assert(states(asteroids@) =~= before.update(i as int, b));
                assert(before.update(i as int, b) =~= done.push(b) + orig.skip(k + 1));
            }
            i += 1;
        }
        proof {
            k = k + 1;
        }
    }
    proof {
        assert(orig.take(k) =~= orig);
    }
}

/// The asteroids after a run of ticks, one for each entry of `targets`, in
/// that order.
pub open spec fn ticks(s: Seq<AsteroidState>, targets: Seq<Seq<char>>) -> Seq<AsteroidState>
    decreases targets.len(),
{
    if targets.len() == 0 {
        s
    } else {
        tick(ticks(s, targets.drop_last()), targets.last())
    }
}

/// One asteroid after `n` strikes.
pub open spec fn mined(a: AsteroidState, n: nat) -> AsteroidState
    decreases n,
{
    if n == 0 {
        a
    } else {
        struck(mined(a, (n - 1) as nat))
    }
}

/// No two asteroids bear the same name.
pub open spec fn names_are_unique(s: Seq<AsteroidState>) -> bool {
    forall|i: int, j: int| 0 <= i < j < s.len() ==> s[i].name != s[j].name
}

/// Every asteroid that is there after a tick is the outcome of one that was
/// there before it: the result names that one.
pub proof fn lemma_tick_origin(s: Seq<AsteroidState>, target: Seq<char>, j: int) -> (i: int)
    requires
        0 <= j < tick(s, target).len(),
    ensures
        0 <= i < s.len(),
        outcome(s[i], target) == Some(tick(s, target)[j]),
    decreases s.len(),
{
    let rest = tick(s.drop_last(), target);
    if outcome(s.last(), target) is Some && j == rest.len() {
        s.len() - 1
    } else {
        lemma_tick_origin(s.drop_last(), target, j)
    }
}

/// Every asteroid that a tick does not remove is there after it: the result
/// is its new place.
pub proof fn lemma_tick_keeps(s: Seq<AsteroidState>, target: Seq<char>, i: int) -> (j: int)
    requires
        0 <= i < s.len(),
        outcome(s[i], target) is Some,
    ensures
        0 <= j < tick(s, target).len(),
        outcome(s[i], target) == Some(tick(s, target)[j]),
    decreases s.len(),
{
    let rest = tick(s.drop_last(), target);
    if i == s.len() - 1 {
        rest.len() as int
    } else {
        lemma_tick_keeps(s.drop_last(), target, i)
    }
}

/// Over any run of ticks no asteroid gains resources and no sprite goes back
/// a frame: each asteroid at the end is one from the start, named by the
/// result, with the same number, name and ore, at most its resources and at
/// least its frame.
pub proof fn lemma_resources_never_grow(
    s: Seq<AsteroidState>,
    targets: Seq<Seq<char>>,
    j: int,
) -> (i: int)
    requires
        0 <= j < ticks(s, targets).len(),
    ensures
        0 <= i < s.len(),
        ticks(s, targets)[j].entity == s[i].entity,
        ticks(s, targets)[j].name == s[i].name,
        ticks(s, targets)[j].ore == s[i].ore,
        0 <= ticks(s, targets)[j].resources <= s[i].resources,
        ticks(s, targets)[j].frame >= s[i].frame,
    decreases targets.len(),
{
    if targets.len() == 0 {
        j
    } else {
        let before = ticks(s, targets.drop_last());
        let m = lemma_tick_origin(before, targets.last(), j);
        lemma_resources_never_grow(s, targets.drop_last(), m)
    }
}

/// A tick never makes the world larger.
pub proof fn lemma_tick_never_adds(s: Seq<AsteroidState>, target: Seq<char>)
    ensures
        tick(s, target).len() <= s.len(),
    decreases s.len(),
{
    if s.len() > 0 {
        lemma_tick_never_adds(s.drop_last(), target);
    }
}

/// Where names are unique, a tick aimed at an asteroid with one resource left
/// takes that asteroid out of the world: it leaves no asteroid of that name,
/// and all the others as they were.
pub proof fn lemma_last_resource_removes(s: Seq<AsteroidState>, target: Seq<char>, i: int)
    requires
        names_are_unique(s),
        0 <= i < s.len(),
        s[i].name == target,
        s[i].resources == 1,
    ensures
        forall|j: int| 0 <= j < tick(s, target).len() ==> tick(s, target)[j].name != target,
        tick(s, target) == s.remove(i),
    decreases s.len(),
{
    if i == s.len() - 1 {
        assert forall|k: int| 0 <= k < s.drop_last().len() implies s.drop_last()[k].name
            != target by {
            assert(s[k].name != s[i].name);
        }
        lemma_absent_target_changes_nothing(s.drop_last(), target);
        assert(s.remove(i) =~= s.drop_last());
    } else {
        assert(s.last().name != s[i].name);
        assert(s.drop_last()[i] == s[i]);
        lemma_last_resource_removes(s.drop_last(), target, i);
        assert(s.remove(i) =~= s.drop_last().remove(i).push(s.last()));
    }
}

/// A tick aimed at a name that no asteroid bears changes nothing.
pub proof fn lemma_absent_target_changes_nothing(s: Seq<AsteroidState>, target: Seq<char>)
    requires
        forall|i: int| 0 <= i < s.len() ==> s[i].name != target,
    ensures
        tick(s, target) == s,
    decreases s.len(),
{
    if s.len() > 0 {
        assert forall|i: int| 0 <= i < s.drop_last().len() implies s.drop_last()[i].name
            != target by {
            assert(s.drop_last()[i] == s[i]);
        }
        lemma_absent_target_changes_nothing(s.drop_last(), target);
        assert(s.drop_last().push(s.last()) =~= s);
    } else {
        assert(tick(s, target) =~= s);
    }
}

/// After `n` strikes an asteroid has `n` resources less, and its sprite has
/// moved on by one frame for each multiple of 250 among the counts that the
/// strikes left behind, which are those from `resources - n` up to
/// `resources - 1`.
pub proof fn lemma_frames_follow_resources(a: AsteroidState, n: nat)
    requires
        n <= a.resources,
    ensures
        mined(a, n).name == a.name,
        mined(a, n).ore == a.ore,
        mined(a, n).resources == a.resources - n,
        mined(a, n).frame == a.frame + (a.resources + 249) / 250 - (a.resources - n + 249) / 250,
    decreases n,
{
    if n > 0 {
        lemma_frames_follow_resources(a, (n - 1) as nat);
    }
}

/// Where names are unique, a tick aimed at an asteroid with more than one
/// resource left strikes that asteroid and leaves all the others as they
/// were.
pub proof fn lemma_tick_strikes_target(s: Seq<AsteroidState>, target: Seq<char>, i: int)
    requires
        names_are_unique(s),
        0 <= i < s.len(),
        s[i].name == target,
        s[i].resources > 1,
    ensures
        tick(s, target) == s.update(i, struck(s[i])),
    decreases s.len(),
{
    if i == s.len() - 1 {
        assert forall|k: int| 0 <= k < s.drop_last().len() implies s.drop_last()[k].name
            != target by {
            assert(s[k].name != s[i].name);
        }
        lemma_absent_target_changes_nothing(s.drop_last(), target);
        assert(s.update(i, struck(s[i])) =~= s.drop_last().push(struck(s[i])));
    } else {
        assert(s.last().name != s[i].name);
        assert(s.drop_last()[i] == s[i]);
        lemma_tick_strikes_target(s.drop_last(), target, i);
        assert(s.update(i, struck(s[i])) =~= s.drop_last().update(i, struck(s[i])).push(
            s.last(),
        ));
    }
}

/// `n` times the same target.
pub open spec fn repeated(target: Seq<char>, n: nat) -> Seq<Seq<char>> {
    Seq::new(n, |k: int| target)
}

/// Where names are unique, `n` ticks aimed at an asteroid with more than `n`
/// resources leave it in the world, struck `n` times, and all the others as
/// they were.
pub proof fn lemma_ticks_mine_target(s: Seq<AsteroidState>, i: int, n: nat)
    requires
        names_are_unique(s),
        0 <= i < s.len(),
        n < s[i].resources,
    ensures
        ticks(s, repeated(s[i].name, n)) == s.update(i, mined(s[i], n)),
    decreases n,
{
    let target = s[i].name;
    if n == 0 {
        assert(s.update(i, s[i]) =~= s);
    } else {
        let m = (n - 1) as nat;
        lemma_ticks_mine_target(s, i, m);
        lemma_frames_follow_resources(s[i], m);
        assert(repeated(target, n).drop_last() =~= repeated(target, m));
        let before = s.update(i, mined(s[i], m));
        assert forall|a: int, b: int| 0 <= a < b < before.len() implies before[a].name
            != before[b].name by {
            assert(s[a].name != s[b].name);
        }
        lemma_tick_strikes_target(before, target, i);
        assert(before.update(i, struck(mined(s[i], m))) =~= s.update(i, mined(s[i], n)));
    }
}

/// A tick keeps names unique.
pub proof fn lemma_tick_keeps_names_unique(s: Seq<AsteroidState>, target: Seq<char>)
    requires
        names_are_unique(s),
    ensures
        names_are_unique(tick(s, target)),
    decreases s.len(),
{
    if s.len() > 0 {
        let rest = tick(s.drop_last(), target);
        assert forall|a: int, b: int| 0 <= a < b < s.drop_last().len() implies s.drop_last()[a].name
            != s.drop_last()[b].name by {
            assert(s[a].name != s[b].name);
        }
        lemma_tick_keeps_names_unique(s.drop_last(), target);
        assert forall|a: int, b: int| 0 <= a < b < tick(s, target).len() implies tick(
            s,
            target,
        )[a].name != tick(s, target)[b].name by {
            if b == rest.len() {
                let i = lemma_tick_origin(s.drop_last(), target, a);
                assert(s[i].name != s[s.len() - 1].name);
            }
        }
    }
}

} // verus!
