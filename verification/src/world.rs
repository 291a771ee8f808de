//! The world: the rooms, the enemies, the player, and the room in which the
//! player stands.

use crate::dice::clamp;
use crate::dice::loaded_chance;
use crate::dice::Dice;
use crate::enemy::Enemy;
use crate::enemy::EnemyView;
use crate::player::Player;
use crate::player::PlayerView;
use crate::room::leads_to;
use crate::room::lemma_leads_to_exit;
use crate::room::Direction;
use crate::room::Exit;
use crate::room::Room;
use crate::room::RoomId;
use crate::room::RoomView;
use crate::search::first_where;
use crate::search::lemma_first_where;
use crate::search::lemma_first_where_is;
use crate::search::lemma_first_where_none;
use crate::search::lemma_first_where_same;
use crate::text::same_text;
use vstd::prelude::*;
use vstd::string::StringExecFns;

verus! {

/// The whole state of a game.
pub struct World {
    rooms: Vec<Room>,
    enemies: Vec<Enemy>,
    player: Player,
    current_room: RoomId,
    dice: Dice,
}

/// The world as contracts see it.
#[verifier::ext_equal]
pub struct WorldView {
    pub rooms: Seq<RoomView>,
    pub enemies: Seq<EnemyView>,
    pub player: PlayerView,
    pub current_room: RoomId,
    pub dice: Dice,
}

/// The views of a list of rooms.
pub open spec fn room_views(rooms: Seq<Room>) -> Seq<RoomView> {
    rooms.map_values(|room: Room| room@)
}

/// The views of a list of enemies.
pub open spec fn enemy_views(enemies: Seq<Enemy>) -> Seq<EnemyView> {
    enemies.map_values(|enemy: Enemy| enemy@)
}

/// The index of the first room with the number `id`, if there is one.
pub open spec fn room_position(rooms: Seq<RoomView>, id: RoomId) -> Option<int> {
    first_where(rooms, |room: RoomView| room.id == id)
}

/// The index of the first enemy that stands in `room` and is called `name`,
/// if there is one.
pub open spec fn enemy_position(enemies: Seq<EnemyView>, room: RoomId, name: Seq<char>) -> Option<
    int,
> {
    first_where(enemies, |enemy: EnemyView| enemy.room == room && enemy.name == name)
}

/// The index of the first living enemy that stands in `room` and is called
/// `name`, if there is one.
pub open spec fn living_position(enemies: Seq<EnemyView>, room: RoomId, name: Seq<char>) -> Option<
    int,
> {
    first_where(
        enemies,
        |enemy: EnemyView| enemy.room == room && enemy.name == name && enemy.hp != 0,
    )
}

/// Whether the rooms fit together: none has the number 0, no two have the
/// same number, and every exit leads to one of them.
pub open spec fn rooms_consistent(rooms: Seq<RoomView>) -> bool {
    &&& forall|i: int| 0 <= i < rooms.len() ==> (#[trigger] rooms[i]).id != 0
    &&& forall|i: int, j: int|
        0 <= i < j < rooms.len() ==> (#[trigger] rooms[i]).id != (#[trigger] rooms[j]).id
    &&& forall|i: int, k: int|
        0 <= i < rooms.len() && 0 <= k < rooms[i].exits.len() ==> room_position(
            rooms,
            (#[trigger] rooms[i].exits[k]).destination,
        ) is Some
}

/// Whether two lists of rooms have the same numbers and the same exits,
/// room by room.
pub open spec fn same_layout(before: Seq<RoomView>, after: Seq<RoomView>) -> bool {
    &&& before.len() == after.len()
    &&& forall|i: int|
        0 <= i < before.len() ==> (#[trigger] after[i]).id == before[i].id && after[i].exits
            == before[i].exits
}

/// Rooms of the same layout are found under the same numbers.
pub proof fn lemma_same_layout_position(before: Seq<RoomView>, after: Seq<RoomView>, id: RoomId)
    requires
        same_layout(before, after),
    ensures
        room_position(after, id) == room_position(before, id),
{
    assert forall|j: int| 0 <= j < before.len() implies (before[j].id == id) == (after[j].id
        == id) by {}
    lemma_first_where_same(
        before,
        |room: RoomView| room.id == id,
        after,
        |room: RoomView| room.id == id,
    );
}

/// Rooms stay consistent as long as their layout stays the same.
pub proof fn lemma_same_layout_consistent(before: Seq<RoomView>, after: Seq<RoomView>)
    requires
        same_layout(before, after),
        rooms_consistent(before),
    ensures
        rooms_consistent(after),
{
    assert forall|i: int| 0 <= i < after.len() implies (#[trigger] after[i]).id != 0 by {}
    assert forall|i: int, j: int| 0 <= i < j < after.len() implies (#[trigger] after[i]).id != (
    #[trigger] after[j]).id by {}
    assert forall|i: int, k: int|
        0 <= i < after.len() && 0 <= k < after[i].exits.len() implies room_position(
        after,
        (#[trigger] after[i].exits[k]).destination,
    ) is Some by {
        lemma_same_layout_position(before, after, after[i].exits[k].destination);
    }
}

/// In a well-formed world the player stands in one of the rooms.
pub proof fn lemma_current_index(world: WorldView)
    requires
        world.wf(),
    ensures
        0 <= world.current_index() < world.rooms.len(),
        world.current().id == world.current_room,
{
    lemma_first_where(world.rooms, |r: RoomView| r.id == world.current_room);
}

/// A blow changes one enemy at most, and nothing but its hit points.
pub proof fn lemma_struck_frame(world: WorldView, damage: u32, name: Seq<char>)
    ensures
        world.struck(damage, name).enemies.len() == world.enemies.len(),
        world.struck(damage, name) == (WorldView {
            enemies: world.struck(damage, name).enemies,
            ..world
        }),
        forall|i: int|
            0 <= i < world.enemies.len() ==> (#[trigger] world.struck(damage, name).enemies[i])
                == (EnemyView { hp: world.struck(damage, name).enemies[i].hp, ..world.enemies[i] }),
{
    lemma_first_where(
        world.enemies,
        |enemy: EnemyView| enemy.room == world.current_room && enemy.name == name,
    );
    lemma_first_where(
        world.enemies,
        |enemy: EnemyView|
            enemy.room == world.current_room && enemy.name == name && enemy.hp != 0,
    );
}

/// A world stays well formed when the room in which the player stands is
/// changed but keeps its number and its exits.
pub proof fn lemma_with_current_wf(world: WorldView, room: RoomView)
    requires
        world.wf(),
        room.id == world.current().id,
        room.exits == world.current().exits,
    ensures
        world.with_current(room).wf(),
        world.with_current(room).current_index() == world.current_index(),
        world.with_current(room).current() == room,
{
    let after = world.with_current(room);
    lemma_first_where(world.rooms, |r: RoomView| r.id == world.current_room);
    lemma_same_layout_consistent(world.rooms, after.rooms);
    lemma_same_layout_position(world.rooms, after.rooms, world.current_room);
}

/// A well-formed world stays well formed when the player goes through an
/// exit of the room in which the player stands.
pub proof fn lemma_moved_to_wf(world: WorldView, direction: Direction)
    requires
        world.wf(),
        leads_to(world.current().exits, direction) != 0,
    ensures
        world.moved_to(leads_to(world.current().exits, direction)).wf(),
{
    lemma_first_where(world.rooms, |r: RoomView| r.id == world.current_room);
    lemma_leads_to_exit(world.current().exits, direction);
}

/// The text that shows, in their order, the enemies that stand in `room`.
pub open spec fn enemies_text(enemies: Seq<EnemyView>, room: RoomId) -> Seq<char>
    decreases enemies.len(),
{
    if enemies.len() == 0 {
        Seq::empty()
    } else if enemies.last().room == room {
        enemies_text(enemies.drop_last(), room) + enemies.last().show_text()
    } else {
        enemies_text(enemies.drop_last(), room)
    }
}

/// The exits of the room with the number `id`; none where there is no such
/// room.
pub open spec fn exits_of(rooms: Seq<RoomView>, id: RoomId) -> Seq<Exit> {
    match room_position(rooms, id) {
        Some(i) => rooms[i].exits,
        None => Seq::empty(),
    }
}

/// The enemy after a movement pass in which `pick` was drawn for it: it
/// goes through the exit of its room whose index is nearest to `pick`, and
/// stays as it is where the room has no exit.
pub open spec fn moved(rooms: Seq<RoomView>, enemy: EnemyView, pick: int) -> EnemyView {
    let exits = exits_of(rooms, enemy.room);
    if exits.len() == 0 {
        enemy
    } else {
        enemy.moved_to(exits[clamp(pick, 0, exits.len() - 1)].destination)
    }
}

/// The enemies after a movement pass in which `picks[i]` was drawn for the
/// enemy at index `i`.
pub open spec fn moved_enemies(rooms: Seq<RoomView>, enemies: Seq<EnemyView>, picks: Seq<int>) -> Seq<
    EnemyView,
> {
    Seq::new(enemies.len(), |i: int| moved(rooms, enemies[i], picks[i]))
}

/// The draws of dice loaded on `hit` and `roll` for the attacks of `count`
/// enemies.
pub open spec fn loaded_rolls(count: nat, hit: bool, roll: u32) -> Seq<(bool, u32)> {
    Seq::new(count, |i: int| (loaded_chance(hit, 1, 2), roll))
}

/// The draws of dice loaded on `roll` for the moves of `count` enemies.
pub open spec fn loaded_picks(count: nat, roll: u32) -> Seq<int> {
    Seq::new(count, |i: int| roll as int)
}

/// The damage that an enemy deals when `roll` was drawn for it: the value
/// within its bounds that is nearest to `roll`.
pub open spec fn rolled_damage(enemy: EnemyView, roll: u32) -> u32 {
    clamp(roll as int, enemy.minimum_damage as int, enemy.maximum_damage as int) as u32
}

/// A retaliation pass: every enemy that stands in `room` attacks in turn,
/// and the player takes the damage of each attack. For the enemy at index
/// `i` the dice gave `rolls[i]`: whether its attack lands, and the roll
/// for its damage. Gives the player after the pass and what is said during
/// it.
pub open spec fn attack_round(
    player: PlayerView,
    enemies: Seq<EnemyView>,
    room: RoomId,
    rolls: Seq<(bool, u32)>,
) -> (PlayerView, Seq<char>)
    decreases enemies.len(),
{
    if enemies.len() == 0 {
        (player, Seq::empty())
    } else {
        let before = attack_round(player, enemies.drop_last(), room, rolls);
        let enemy = enemies.last();
        if enemy.room == room {
            let roll = rolls[enemies.len() - 1];
            let damage = enemy.attack_damage(roll.0, rolled_damage(enemy, roll.1));
            (
                before.0.after_damage(damage),
                before.1 + enemy.attack_text(roll.0, rolled_damage(enemy, roll.1))
                    + before.0.damage_text(damage),
            )
        } else {
            before
        }
    }
}

/// A retaliation pass reads only the rolls of the enemies it is given.
pub proof fn lemma_attack_round_rolls(
    player: PlayerView,
    enemies: Seq<EnemyView>,
    room: RoomId,
    rolls: Seq<(bool, u32)>,
    others: Seq<(bool, u32)>,
)
    requires
        forall|i: int| 0 <= i < enemies.len() ==> rolls[i] == others[i],
    ensures
        attack_round(player, enemies, room, rolls) == attack_round(player, enemies, room, others),
    decreases enemies.len(),
{
    if enemies.len() > 0 {
        lemma_attack_round_rolls(player, enemies.drop_last(), room, rolls, others);
    }
}

/// A retaliation pass changes nothing of the player but the hit points,
/// and never raises them.
pub proof fn lemma_attack_round_frame(
    player: PlayerView,
    enemies: Seq<EnemyView>,
    room: RoomId,
    rolls: Seq<(bool, u32)>,
)
    ensures
        attack_round(player, enemies, room, rolls).0 == (PlayerView {
            hp: attack_round(player, enemies, room, rolls).0.hp,
            ..player
        }),
        attack_round(player, enemies, room, rolls).0.hp <= player.hp,
    decreases enemies.len(),
{
    if enemies.len() > 0 {
        lemma_attack_round_frame(player, enemies.drop_last(), room, rolls);
    }
}

/// In godmode no retaliation pass changes the player, whatever is rolled.
pub proof fn lemma_godmode_attack_round(
    player: PlayerView,
    enemies: Seq<EnemyView>,
    room: RoomId,
    rolls: Seq<(bool, u32)>,
)
    requires
        player.godmode,
    ensures
        attack_round(player, enemies, room, rolls).0 == player,
    decreases enemies.len(),
{
    if enemies.len() > 0 {
        lemma_godmode_attack_round(player, enemies.drop_last(), room, rolls);
    }
}

/// Where no enemy stands in the room, a retaliation pass does nothing.
pub proof fn lemma_attack_round_alone(
    player: PlayerView,
    enemies: Seq<EnemyView>,
    room: RoomId,
    rolls: Seq<(bool, u32)>,
)
    requires
        forall|i: int| 0 <= i < enemies.len() ==> (#[trigger] enemies[i]).room != room,
    ensures
        attack_round(player, enemies, room, rolls) == (player, Seq::<char>::empty()),
    decreases enemies.len(),
{
    if enemies.len() > 0 {
        assert forall|i: int| 0 <= i < enemies.drop_last().len() implies (
        #[trigger] enemies.drop_last()[i]).room != room by {}
        lemma_attack_round_alone(player, enemies.drop_last(), room, rolls);
    }
}

impl WorldView {
    /// The rooms fit together, the player stands in one of them, and the
    /// player's slots hold what belongs there.
    pub open spec fn wf(self) -> bool {
        &&& rooms_consistent(self.rooms)
        &&& room_position(self.rooms, self.current_room) is Some
        &&& self.player.wf()
    }

    /// The index of the room in which the player stands.
    pub open spec fn current_index(self) -> int {
        room_position(self.rooms, self.current_room)->0
    }

    /// The room in which the player stands.
    pub open spec fn current(self) -> RoomView {
        self.rooms[self.current_index()]
    }

    /// The world with `room` in the place of the room in which the player
    /// stands.
    pub open spec fn with_current(self, room: RoomView) -> WorldView {
        WorldView { rooms: self.rooms.update(self.current_index(), room), ..self }
    }

    /// The world with the player changed.
    pub open spec fn with_player(self, player: PlayerView) -> WorldView {
        WorldView { player, ..self }
    }

    /// The world with the player standing in the room `id`.
    pub open spec fn moved_to(self, id: RoomId) -> WorldView {
        WorldView { current_room: id, ..self }
    }

    /// The text that shows where the player stands: the room, then the
    /// enemies in it.
    pub open spec fn show_text(self) -> Seq<char> {
        self.current().show_text() + enemies_text(self.enemies, self.current_room)
    }

    /// The index of the first enemy called `name` that stands where the
    /// player stands.
    pub open spec fn enemy_here(self, name: Seq<char>) -> Option<int> {
        enemy_position(self.enemies, self.current_room, name)
    }

    /// The index of the enemy that a blow at the enemy called `name` meets:
    /// the first living enemy of that name in the player's room, or, where
    /// none of them lives, the first dead one.
    pub open spec fn enemy_to_hit(self, name: Seq<char>) -> Option<int> {
        match living_position(self.enemies, self.current_room, name) {
            Some(i) => Some(i),
            None => self.enemy_here(name),
        }
    }

    /// The world after the player has dealt a blow of `damage` to the enemy
    /// called `name`: the enemy that the blow meets takes it, and a dead
    /// enemy is not changed by it.
    pub open spec fn struck(self, damage: u32, name: Seq<char>) -> WorldView {
        match self.enemy_to_hit(name) {
            Some(i) => WorldView {
                enemies: self.enemies.update(i, self.enemies[i].after_damage(damage)),
                ..self
            },
            None => self,
        }
    }

    /// What is said of such a blow.
    pub open spec fn strike_text(self, damage: u32, name: Seq<char>) -> Seq<char> {
        match self.enemy_to_hit(name) {
            Some(i) => self.enemies[i].damage_text(damage),
            None => "No enemies found with that name: "@ + name + "\n"@,
        }
    }

    /// The world after a look at the enemy called `name`: what the first
    /// enemy of that name in the player's room carries lies in sight in
    /// that room.
    pub open spec fn looted(self, name: Seq<char>) -> WorldView {
        match self.enemy_here(name) {
            Some(i) => WorldView {
                enemies: self.enemies.update(i, self.enemies[i].looted()),
                rooms: self.rooms.update(
                    self.current_index(),
                    self.current().with_items(self.enemies[i].items),
                ),
                ..self
            },
            None => self,
        }
    }

    /// What is said of such a look.
    pub open spec fn loot_text(self, name: Seq<char>) -> Seq<char> {
        match self.enemy_here(name) {
            Some(_) => Seq::empty(),
            None => "No enemies found with that name: "@ + name + "\n"@,
        }
    }

    /// The world after a retaliation pass with the given rolls; see
    /// [`attack_round`].
    pub open spec fn attacked(self, rolls: Seq<(bool, u32)>) -> WorldView {
        self.with_player(attack_round(self.player, self.enemies, self.current_room, rolls).0)
    }

    /// What is said during that pass.
    pub open spec fn attack_text(self, rolls: Seq<(bool, u32)>) -> Seq<char> {
        attack_round(self.player, self.enemies, self.current_room, rolls).1
    }

    /// The world after a movement pass with the given picks.
    pub open spec fn enemies_moved(self, picks: Seq<int>) -> WorldView {
        WorldView { enemies: moved_enemies(self.rooms, self.enemies, picks), ..self }
    }

    /// Whether a retaliation pass can lead from this world to the world
    /// `after` with `text` said: some rolls, one for each enemy, give just
    /// that.
    pub open spec fn may_be_attacked(self, after: WorldView, text: Seq<char>) -> bool {
        exists|rolls: Seq<(bool, u32)>|
            rolls.len() == self.enemies.len() && after == #[trigger] self.attacked(rolls) && text
                == self.attack_text(rolls)
    }

    /// Whether a movement pass can lead from this world to the world
    /// `after`: some picks, one for each enemy, give just that.
    pub open spec fn may_move_to(self, after: WorldView) -> bool {
        exists|picks: Seq<int>|
            picks.len() == self.enemies.len() && after == #[trigger] self.enemies_moved(picks)
    }
}

impl View for World {
    type V = WorldView;

    closed spec fn view(&self) -> WorldView {
        WorldView {
            rooms: room_views(self.rooms@),
            enemies: enemy_views(self.enemies@),
            player: self.player@,
            current_room: self.current_room,
            dice: self.dice,
        }
    }
}

/// Looks for the first room with the number `id`.
fn find_room(rooms: &Vec<Room>, id: RoomId) -> (found: Option<usize>)
    ensures
        found matches Some(i) ==> i < rooms@.len() && rooms@[i as int]@.id == id && room_position(
            room_views(rooms@),
            id,
        ) == Some(i as int),
        found is None ==> room_position(room_views(rooms@), id) is None,
{
    let ghost wanted = |room: RoomView| room.id == id;
    let mut i: usize = 0;
    while i < rooms.len()
        invariant
            i <= rooms@.len(),
            wanted == |room: RoomView| room.id == id,
            forall|j: int| 0 <= j < i ==> !wanted(#[trigger] room_views(rooms@)[j]),
        decreases rooms@.len() - i,
    {
        if rooms[i].get_id() == id {
            proof {
                lemma_first_where_is(room_views(rooms@), wanted, i as int);
            }
            return Some(i);
        }
        i = i + 1;
    }
    proof {
        lemma_first_where_none(room_views(rooms@), wanted);
    }
    None
}

impl World {
    /// Tells whether the rooms fit together; see [`rooms_consistent`].
    pub fn rooms_fit(rooms: &Vec<Room>) -> (fit: bool)
        ensures
            fit == rooms_consistent(room_views(rooms@)),
    {
        let ghost views = room_views(rooms@);
        let mut i: usize = 0;
        while i < rooms.len()
            invariant
                i <= rooms@.len(),
                views == room_views(rooms@),
                forall|a: int| 0 <= a < i ==> (#[trigger] views[a]).id != 0,
                forall|a: int, b: int|
                    0 <= a < b < rooms@.len() && a < i ==> (#[trigger] views[a]).id != (
                    #[trigger] views[b]).id,
                forall|a: int, k: int|
                    0 <= a < i && 0 <= k < views[a].exits.len() ==> room_position(
                        views,
                        (#[trigger] views[a].exits[k]).destination,
                    ) is Some,
            decreases rooms@.len() - i,
        {
            if rooms[i].get_id() == 0 {
                return false;
            }
            let mut j: usize = i + 1;
            while j < rooms.len()
                invariant
                    i < j <= rooms@.len(),
                    views == room_views(rooms@),
                    forall|b: int| i < b < j ==> views[i as int].id != (#[trigger] views[b]).id,
                decreases rooms@.len() - j,
            {
                if rooms[j].get_id() == rooms[i].get_id() {
                    assert(views[i as int].id == views[j as int].id);
                    return false;
                }
                j = j + 1;
            }
            let exits: &Vec<Exit> = rooms[i].get_exits();
            let mut k: usize = 0;
            while k < exits.len()
                invariant
                    i < rooms@.len(),
                    k <= exits@.len(),
                    views == room_views(rooms@),
                    exits@ == views[i as int].exits,
                    forall|c: int|
                        0 <= c < k ==> room_position(
                            views,
                            (#[trigger] views[i as int].exits[c]).destination,
                        ) is Some,
                decreases exits@.len() - k,
            {
                if find_room(rooms, exits[k].id()).is_none() {
                    return false;
                }
                k = k + 1;
            }
            i = i + 1;
        }
        true
    }

    /// Makes a world of the given rooms, enemies and player. The player
    /// stands in the first room, and the dice are real.
    pub fn new(rooms: Vec<Room>, enemies: Vec<Enemy>, player: Player) -> (world: World)
        requires
            rooms@.len() > 0,
            rooms_consistent(room_views(rooms@)),
            player@.wf(),
        ensures
            world@ == (WorldView {
                rooms: room_views(rooms@),
                enemies: enemy_views(enemies@),
                player: player@,
                current_room: rooms@[0]@.id,
                dice: Dice::Random,
            }),
            world@.wf(),
    {
        let current_room: RoomId = rooms[0].get_id();
        World { rooms, enemies, player, current_room, dice: Dice::Random }
    }

    /// Changes the dice that the world rolls.
    pub fn set_dice(&mut self, dice: Dice)
        ensures
            final(self)@ == (WorldView { dice, ..old(self)@ }),
    {
        self.dice = dice;
    }

    /// The room in which the player stands.
    pub fn get_current_room(&self) -> (room: &Room)
        requires
            self@.wf(),
        ensures
            room@ == self@.current(),
    {
        let at: usize = find_room(&self.rooms, self.current_room).unwrap();
        &self.rooms[at]
    }

    /// The room in which the player stands, to be changed. Its number and
    /// its exits the caller has to leave as they are.
    pub fn get_current_room_mut(&mut self) -> (room: &mut Room)
        requires
            old(self)@.wf(),
        ensures
            room@ == old(self)@.current(),
            final(self)@ =~~= old(self)@.with_current(final(room)@),
    {
        let at: usize = find_room(&self.rooms, self.current_room).unwrap();
        &mut self.rooms[at]
    }

    /// The player.
    pub fn get_player(&self) -> (player: &Player)
        ensures
            player@ == self@.player,
    {
        &self.player
    }

    /// The player, to be changed.
    pub fn get_player_mut(&mut self) -> (player: &mut Player)
        ensures
            player@ == old(self)@.player,
            final(self)@ == old(self)@.with_player(final(player)@),
    {
        &mut self.player
    }

    /// Puts the player into the room `new_room`.
    pub fn goto_next_room(&mut self, new_room: RoomId)
        ensures
            final(self)@ == old(self)@.moved_to(new_room),
    {
        self.current_room = new_room;
    }

    /// The number of the room in which the player stands.
    pub fn current_room_id(&self) -> (id: RoomId)
        ensures
            id == self@.current_room,
    {
        self.current_room
    }

    /// The rooms.
    pub fn rooms(&self) -> (rooms: &Vec<Room>)
        ensures
            room_views(rooms@) == self@.rooms,
    {
        &self.rooms
    }

    /// The enemies.
    pub fn enemies(&self) -> (enemies: &Vec<Enemy>)
        ensures
            enemy_views(enemies@) == self@.enemies,
    {
        &self.enemies
    }

    /// The dice that the world rolls.
    pub fn dice(&self) -> (dice: Dice)
        ensures
            dice == self@.dice,
    {
        self.dice
    }

    /// Shows where the player stands: the room, then each enemy in it.
    pub fn show(&self) -> (out: String)
        requires
            self@.wf(),
        ensures
            out@ == self@.show_text(),
    {
        let mut out: String = self.get_current_room().show();
        let ghost head = out@;
        let mut i: usize = 0;
        while i < self.enemies.len()
            invariant
                i <= self.enemies@.len(),
                out@ == head + enemies_text(
                    enemy_views(self.enemies@).take(i as int),
                    self.current_room,
                ),
            decreases self.enemies@.len() - i,
        {
            let ghost done = enemy_views(self.enemies@).take(i as int);
            let ghost next = enemy_views(self.enemies@).take(i + 1);
            assert(next.drop_last() =~= done);
            if self.enemies[i].room_id() == self.current_room {
                out.append(self.enemies[i].show().as_str());
            }
            i = i + 1;
        }
        assert(enemy_views(self.enemies@).take(i as int) =~= enemy_views(self.enemies@));
        out
    }

    /// A movement pass: every enemy in turn goes through an exit of its
    /// room, picked by the dice among all the exits of that room. An enemy
    /// stays where its room has no exit; a dead enemy always stays.
    pub fn enemies_move(&mut self)
        ensures
            old(self)@.may_move_to(final(self)@),
            old(self)@.dice matches Dice::Loaded { roll, .. } ==> final(self)@ == old(
                self,
            )@.enemies_moved(loaded_picks(old(self)@.enemies.len(), roll)),
            old(self)@.wf() ==> final(self)@.wf(),
    {
        let ghost before = self@;
        let ghost mut picks: Seq<int> = match before.dice {
            Dice::Loaded { roll, .. } => loaded_picks(before.enemies.len(), roll),
            Dice::Random => Seq::new(before.enemies.len(), |i: int| 0int),
        };
        let mut i: usize = 0;
        while i < self.enemies.len()
            invariant
                i <= self.enemies@.len(),
                self@ == (WorldView { enemies: self@.enemies, ..before }),
                self@.enemies.len() == before.enemies.len(),
                picks.len() == before.enemies.len(),
                forall|j: int|
                    0 <= j < i ==> #[trigger] self@.enemies[j] == moved(
                        before.rooms,
                        before.enemies[j],
                        picks[j],
                    ),
                forall|j: int|
                    i <= j < self@.enemies.len() ==> #[trigger] self@.enemies[j] == before.enemies[j],
                before.dice matches Dice::Loaded { roll, .. } ==> picks == loaded_picks(
                    before.enemies.len(),
                    roll,
                ),
            decreases self.enemies@.len() - i,
        {
            let ghost prior = self@;
            let ghost exits = exits_of(before.rooms, before.enemies[i as int].room);
            let id: RoomId = self.enemies[i].room_id();
            assert(self@.enemies[i as int] == self.enemies@[i as int]@);
            match find_room(&self.rooms, id) {
                Some(at) => {
                    match self.dice.pick(self.rooms[at].get_exits()) {
                        Some(exit) => {
                            let destination: RoomId = exit.id();
                            self.enemies[i].set_position(destination);
                            proof {
                                if before.dice is Random {
                                    let k = choose|k: int| 0 <= k < exits.len() && exits[k] == *exit;
                                    picks = picks.update(i as int, k);
                                }
                            }
                        },
                        None => {},
                    }
                },
                None => {},
            }
            assert(self@.enemies =~= prior.enemies.update(i as int, self@.enemies[i as int]));
            i = i + 1;
        }
        proof {
            assert(self@ == before.enemies_moved(picks));
        }
    }

    /// A retaliation pass: every enemy that stands where the player stands
    /// attacks in turn, and the player takes the damage of each attack.
    pub fn enemies_attack(&mut self) -> (out: String)
        requires
            old(self)@.wf(),
        ensures
            old(self)@.may_be_attacked(final(self)@, out@),
            old(self)@.dice matches Dice::Loaded { hit, roll } ==> final(self)@ == old(
                self,
            )@.attacked(loaded_rolls(old(self)@.enemies.len(), hit, roll)) && out@ == old(
                self,
            )@.attack_text(loaded_rolls(old(self)@.enemies.len(), hit, roll)),
            final(self)@.wf(),
    {
        let ghost before = self@;
        let ghost mut rolls: Seq<(bool, u32)> = match before.dice {
            Dice::Loaded { hit, roll } => loaded_rolls(before.enemies.len(), hit, roll),
            Dice::Random => Seq::new(before.enemies.len(), |i: int| (false, 0u32)),
        };
        let mut out: String = String::new();
        let mut i: usize = 0;
        while i < self.enemies.len()
            invariant
                i <= self.enemies@.len(),
                self@ == before.with_player(self@.player),
                self@.player.wf(),
                rolls.len() == before.enemies.len(),
                (self@.player, out@) == attack_round(
                    before.player,
                    before.enemies.take(i as int),
                    before.current_room,
                    rolls,
                ),
                before.dice matches Dice::Loaded { hit, roll } ==> rolls == loaded_rolls(
                    before.enemies.len(),
                    hit,
                    roll,
                ),
            decreases self.enemies@.len() - i,
        {
            let ghost done = before.enemies.take(i as int);
            let ghost next = before.enemies.take(i + 1);
            let ghost enemy = before.enemies[i as int];
            assert(next.drop_last() =~= done);
            if self.enemies[i].room_id() == self.current_room {
                let blow: (u32, String) = self.enemies[i].attack(&self.dice);
                out.append(blow.1.as_str());
                let told: String = self.player.take_dmg(blow.0);
                out.append(told.as_str());
                proof {
                    if before.dice is Random {
                        let roll = if enemy.hp != 0 && blow.1@ == enemy.attack_text(true, blow.0)
                            && enemy.minimum_damage <= blow.0 <= enemy.maximum_damage {
                            (true, blow.0)
                        } else {
                            (false, 0u32)
                        };
                        let wider = rolls.update(i as int, roll);
                        lemma_attack_round_rolls(
                            before.player,
                            done,
                            before.current_room,
                            rolls,
                            wider,
                        );
                        rolls = wider;
                    }
                }
            }
            i = i + 1;
        }
        assert(before.enemies.take(i as int) =~= before.enemies);
        assert(self@ == before.attacked(rolls));
        out
    }

    /// Deals a blow of `player_dmg` to the enemy called `name` that stands
    /// where the player stands, and says what came of it. Of several
    /// enemies of that name the first living one takes the blow.
    pub fn player_attack_enemy(&mut self, player_dmg: u32, name: &str) -> (out: String)
        ensures
            final(self)@ == old(self)@.struck(player_dmg, name@),
            out@ == old(self)@.strike_text(player_dmg, name@),
    {
        let target: Option<usize> = match self.find_living_enemy_here(name) {
            Some(at) => Some(at),
            None => self.find_enemy_here(name),
        };
        match target {
            Some(at) => {
                let out: String = self.enemies[at].take_dmg(player_dmg);
                assert(self@.enemies =~= old(self)@.enemies.update(
                    at as int,
                    old(self)@.enemies[at as int].after_damage(player_dmg),
                ));
                out
            },
            None => {
                let mut out: String = "No enemies found with that name: ".to_owned();
                out.append(name);
                out.append("\n");
                out
            },
        }
    }

    /// Lays what the first enemy called `name` in the player's room carries
    /// in sight in that room, whether the enemy is alive or dead.
    pub fn move_enemy_items_to_current_room(&mut self, name: &str) -> (out: String)
        requires
            old(self)@.wf(),
        ensures
            final(self)@ == old(self)@.looted(name@),
            out@ == old(self)@.loot_text(name@),
            final(self)@.wf(),
    {
        match self.find_enemy_here(name) {
            Some(at) => {
                let items = self.enemies[at].take_items();
                let here: usize = find_room(&self.rooms, self.current_room).unwrap();
                self.rooms[here].insert_items(items);
                proof {
                    lemma_same_layout_consistent(old(self)@.rooms, self@.rooms);
                    lemma_same_layout_position(old(self)@.rooms, self@.rooms, self.current_room);
                }
                String::new()
            },
            None => {
                let mut out: String = "No enemies found with that name: ".to_owned();
                out.append(name);
                out.append("\n");
                out
            },
        }
    }

    /// Looks for the first living enemy called `name` that stands where the
    /// player stands.
    fn find_living_enemy_here(&self, name: &str) -> (found: Option<usize>)
        ensures
            found matches Some(i) ==> i < self@.enemies.len() && living_position(
                self@.enemies,
                self@.current_room,
                name@,
            ) == Some(i as int),
            found is None ==> living_position(self@.enemies, self@.current_room, name@) is None,
    {
        let ghost room = self.current_room;
        let ghost wanted = |enemy: EnemyView|
            enemy.room == room && enemy.name == name@ && enemy.hp != 0;
        let mut i: usize = 0;
        while i < self.enemies.len()
            invariant
                i <= self.enemies@.len(),
                room == self.current_room,
                wanted == |enemy: EnemyView|
                    enemy.room == room && enemy.name == name@ && enemy.hp != 0,
                forall|j: int| 0 <= j < i ==> !wanted(#[trigger] enemy_views(self.enemies@)[j]),
            decreases self.enemies@.len() - i,
        {
            if self.enemies[i].room_id() == self.current_room && self.enemies[i].hp() != 0
                && same_text(self.enemies[i].name(), name) {
                proof {
                    lemma_first_where_is(enemy_views(self.enemies@), wanted, i as int);
                }
                return Some(i);
            }
            i = i + 1;
        }
        proof {
            lemma_first_where_none(enemy_views(self.enemies@), wanted);
        }
        None
    }

    /// Looks for the first enemy called `name` that stands where the player
    /// stands.
    fn find_enemy_here(&self, name: &str) -> (found: Option<usize>)
        ensures
            found matches Some(i) ==> i < self@.enemies.len() && self@.enemy_here(name@) == Some(
                i as int,
            ),
            found is None ==> self@.enemy_here(name@) is None,
    {
        let ghost room = self.current_room;
        let ghost wanted = |enemy: EnemyView| enemy.room == room && enemy.name == name@;
        let mut i: usize = 0;
        while i < self.enemies.len()
            invariant
                i <= self.enemies@.len(),
                room == self.current_room,
                wanted == |enemy: EnemyView| enemy.room == room && enemy.name == name@,
                forall|j: int| 0 <= j < i ==> !wanted(#[trigger] enemy_views(self.enemies@)[j]),
            decreases self.enemies@.len() - i,
        {
            if self.enemies[i].room_id() == self.current_room && same_text(
                self.enemies[i].name(),
                name,
            ) {
                proof {
                    lemma_first_where_is(enemy_views(self.enemies@), wanted, i as int);
                }
                return Some(i);
            }
            i = i + 1;
        }
        proof {
            lemma_first_where_none(enemy_views(self.enemies@), wanted);
        }
        None
    }
}

} // verus!
