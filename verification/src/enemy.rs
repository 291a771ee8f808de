//! Enemies: they stand in a room, strike the player who shares it, take
//! blows, and carry items that a look at them brings to light.

use crate::dice::clamp;
use crate::dice::loaded_chance;
use crate::dice::Dice;
use crate::objects::clone_items;
use crate::objects::debug_items;
use crate::objects::debug_list;
use crate::objects::item_views;
use crate::objects::Item;
use crate::objects::ItemView;
use crate::room::RoomId;
use crate::text::decimal;
use crate::text::decimal_text;
use vstd::prelude::*;
use vstd::string::StringExecFns;

verus! {

/// An enemy. With no hit points left it is dead for good: it deals no
/// damage, takes none and stays where it is.
#[derive(Debug)]
pub struct Enemy {
    id: RoomId,
    name: String,
    description: String,
    hp: u32,
    minimum_damage: u32,
    maximum_damage: u32,
    invisible_items: Vec<Item>,
}

/// An enemy as contracts see it.
#[verifier::ext_equal]
pub struct EnemyView {
    pub room: RoomId,
    pub name: Seq<char>,
    pub description: Seq<char>,
    pub hp: u32,
    pub minimum_damage: u32,
    pub maximum_damage: u32,
    pub items: Seq<ItemView>,
}

impl EnemyView {
    /// The damage of an attack, given whether it hits and what damage was
    /// rolled for a hit. A dead enemy deals none.
    pub open spec fn attack_damage(self, hit: bool, roll: u32) -> u32 {
        if self.hp == 0 || !hit {
            0
        } else {
            roll
        }
    }

    /// What is said of such an attack. Nothing is said of a dead enemy.
    pub open spec fn attack_text(self, hit: bool, roll: u32) -> Seq<char> {
        if self.hp == 0 {
            Seq::empty()
        } else if hit {
            self.name + " hits the player for "@ + decimal(roll as nat) + "\n"@
        } else {
            self.name + " misses the player\n"@
        }
    }

    /// The enemy after a blow of `damage`: it loses that many hit points,
    /// but not more than it has.
    pub open spec fn after_damage(self, damage: u32) -> EnemyView {
        EnemyView {
            hp: if self.hp > damage {
                (self.hp - damage) as u32
            } else {
                0
            },
            ..self
        }
    }

    /// What is said of a blow of `damage`.
    pub open spec fn damage_text(self, damage: u32) -> Seq<char> {
        if self.hp == 0 {
            "Enemy: "@ + self.name + " is already dead\n"@
        } else if damage == 0 {
            Seq::empty()
        } else if self.hp > damage {
            self.name + " took "@ + decimal(damage as nat) + " damage, "@ + decimal(
                (self.hp - damage) as nat,
            ) + " HP remaining.\n"@
        } else {
            self.name + " took "@ + decimal(damage as nat) + " damage and has died.\n"@
        }
    }

    /// The enemy after it was sent to `room`. A dead enemy stays.
    pub open spec fn moved_to(self, room: RoomId) -> EnemyView {
        if self.hp == 0 {
            self
        } else {
            EnemyView { room, ..self }
        }
    }

    /// The enemy without the items it carried.
    pub open spec fn looted(self) -> EnemyView {
        EnemyView { items: Seq::empty(), ..self }
    }

    /// The text that shows the enemy.
    pub open spec fn show_text(self) -> Seq<char> {
        "\n Enemy Details:\n--------------------\nName:           "@ + self.name
            + "\nDescription:    "@ + self.description + "\nHP:             "@ + decimal(
            self.hp as nat,
        ) + "\nDamage Range:   "@ + decimal(self.minimum_damage as nat) + " - "@ + decimal(
            self.maximum_damage as nat,
        ) + "\nRoom ID:        "@ + decimal(self.room as nat) + "\nInvisible Items: "@ + (if self.items.len()
            == 0 {
            "None"@
        } else {
            debug_list(self.items)
        }) + "\n--------------------\n\n"@
    }
}

/// A dead enemy deals no damage whatever is rolled, takes none whatever
/// the blow, and does not move.
pub proof fn lemma_dead_enemy(enemy: EnemyView, hit: bool, roll: u32, damage: u32, room: RoomId)
    requires
        enemy.hp == 0,
    ensures
        enemy.attack_damage(hit, roll) == 0,
        enemy.attack_text(hit, roll) == Seq::<char>::empty(),
        enemy.after_damage(damage) == enemy,
        enemy.moved_to(room) == enemy,
{
}

/// A blow never raises an enemy's hit points, and an enemy that has none
/// left stays dead.
pub proof fn lemma_damage_lowers(enemy: EnemyView, damage: u32)
    ensures
        enemy.after_damage(damage).hp <= enemy.hp,
        enemy.after_damage(damage).hp == if enemy.hp - damage > 0 {
            enemy.hp - damage
        } else {
            0
        },
        enemy.after_damage(damage) == (EnemyView { hp: enemy.after_damage(damage).hp, ..enemy }),
{
}

impl View for Enemy {
    type V = EnemyView;

    closed spec fn view(&self) -> EnemyView {
        EnemyView {
            room: self.id,
            name: self.name@,
            description: self.description@,
            hp: self.hp,
            minimum_damage: self.minimum_damage,
            maximum_damage: self.maximum_damage,
            items: item_views(self.invisible_items@),
        }
    }
}

impl Enemy {
    #[verifier::type_invariant]
    spec fn well_formed(&self) -> bool {
        self.minimum_damage <= self.maximum_damage
    }

    /// Makes an enemy that stands in the room `id` and deals a damage
    /// between `min_dmg` and `max_dmg`.
    pub fn new(
        id: RoomId,
        name: &str,
        description: &str,
        hp: u32,
        min_dmg: u32,
        max_dmg: u32,
        items: &[Item],
    ) -> (enemy: Enemy)
        requires
            min_dmg <= max_dmg,
        ensures
            enemy@ == (EnemyView {
                room: id,
                name: name@,
                description: description@,
                hp,
                minimum_damage: min_dmg,
                maximum_damage: max_dmg,
                items: item_views(items@),
            }),
    {
        Enemy {
            id,
            name: name.to_owned(),
            description: description.to_owned(),
            hp,
            minimum_damage: min_dmg,
            maximum_damage: max_dmg,
            invisible_items: clone_items(items),
        }
    }

    /// Attacks the player: a dead enemy deals 0; a living one hits one time
    /// in two, with a damage rolled between its bounds, and else deals 0.
    /// Gives the damage and what is said of the attack.
    pub fn attack(&self, dice: &Dice) -> (blow: (u32, String))
        ensures
            self@.hp == 0 ==> blow.0 == 0 && blow.1@ == Seq::<char>::empty(),
            self@.minimum_damage <= self@.maximum_damage,
            (blow.0 == 0 && blow.1@ == self@.attack_text(false, 0)) || (self@.hp != 0
                && self@.minimum_damage <= blow.0 <= self@.maximum_damage && blow.1@
                == self@.attack_text(true, blow.0)),
            *dice matches Dice::Loaded { hit, roll } ==> {
                let landed = loaded_chance(hit, 1, 2);
                let rolled = clamp(
                    roll as int,
                    self@.minimum_damage as int,
                    self@.maximum_damage as int,
                ) as u32;
                blow.0 == self@.attack_damage(landed, rolled) && blow.1@ == self@.attack_text(
                    landed,
                    rolled,
                )
            },
    {
        proof {
            use_type_invariant(self);
        }
        if self.hp == 0 {
            return (0, String::new());
        }
        if dice.chance(1, 2) {
            let damage: u32 = dice.range(self.minimum_damage, self.maximum_damage);
            let mut out: String = self.name.clone();
            out.append(" hits the player for ");
            out.append(decimal_text(damage).as_str());
            out.append("\n");
            (damage, out)
        } else {
            let mut out: String = self.name.clone();
            out.append(" misses the player\n");
            (0, out)
        }
    }

    /// Deals the enemy a blow of `dmg` and says what came of it. A dead
    /// enemy does not change.
    pub fn take_dmg(&mut self, dmg: u32) -> (out: String)
        ensures
            final(self)@ == old(self)@.after_damage(dmg),
            out@ == old(self)@.damage_text(dmg),
            old(self)@.hp == 0 ==> final(self)@ == old(self)@,
    {
        proof {
            use_type_invariant(&*self);
        }
        if self.hp == 0 {
            let mut out: String = "Enemy: ".to_owned();
            out.append(self.name.as_str());
            out.append(" is already dead\n");
            return out;
        } else if dmg == 0 {
            return String::new();
        }
        if self.hp > dmg {
            self.hp = self.hp - dmg;
            let mut out: String = self.name.clone();
            out.append(" took ");
            out.append(decimal_text(dmg).as_str());
            out.append(" damage, ");
            out.append(decimal_text(self.hp).as_str());
            out.append(" HP remaining.\n");
            out
        } else {
            self.hp = 0;
            let mut out: String = self.name.clone();
            out.append(" took ");
            out.append(decimal_text(dmg).as_str());
            out.append(" damage and has died.\n");
            out
        }
    }

    /// Shows the enemy.
    pub fn show(&self) -> (out: String)
        ensures
            out@ == self@.show_text(),
    {
        let mut out: String = "\n Enemy Details:\n--------------------\nName:           ".to_owned();
        out.append(self.name.as_str());
        out.append("\nDescription:    ");
        out.append(self.description.as_str());
        out.append("\nHP:             ");
        out.append(decimal_text(self.hp).as_str());
        out.append("\nDamage Range:   ");
        out.append(decimal_text(self.minimum_damage).as_str());
        out.append(" - ");
        out.append(decimal_text(self.maximum_damage).as_str());
        out.append("\nRoom ID:        ");
        out.append(decimal_text(self.id).as_str());
        out.append("\nInvisible Items: ");
        if self.invisible_items.len() == 0 {
            out.append("None");
        } else {
            out.append(debug_items(&self.invisible_items).as_str());
        }
        out.append("\n--------------------\n\n");
        out
    }

    /// Sends the enemy to `new_room`. A dead enemy stays where it is.
    pub fn set_position(&mut self, new_room: RoomId)
        ensures
            final(self)@ == old(self)@.moved_to(new_room),
    {
        proof {
            use_type_invariant(&*self);
        }
        if self.hp != 0 {
            self.id = new_room;
        }
    }

    /// Takes from the enemy the items it carries.
    pub fn take_items(&mut self) -> (items: Vec<Item>)
        ensures
            final(self)@ == old(self)@.looted(),
            item_views(items@) == old(self)@.items,
    {
        proof {
            use_type_invariant(&*self);
        }
        let mut items: Vec<Item> = Vec::new();
        std::mem::swap(&mut self.invisible_items, &mut items);
        items
    }

    /// The name of the enemy.
    pub fn name(&self) -> (name: &str)
        ensures
            name@ == self@.name,
    {
        self.name.as_str()
    }

    /// The number of the room in which the enemy stands.
    pub fn room_id(&self) -> (id: RoomId)
        ensures
            id == self@.room,
    {
        self.id
    }

    /// The hit points that the enemy has left.
    pub fn hp(&self) -> (hp: u32)
        ensures
            hp == self@.hp,
    {
        self.hp
    }

    /// The items that the enemy carries.
    pub fn items(&self) -> (items: &Vec<Item>)
        ensures
            item_views(items@) == self@.items,
    {
        &self.invisible_items
    }
}

} // verus!
