//! The player: hit points, gold, a weapon, an armor and a backpack.

use crate::dice::loaded_chance;
use crate::dice::Dice;
use crate::objects::debug_items;
use crate::objects::debug_list;
use crate::objects::find_item;
use crate::objects::item_views;
use crate::objects::position;
use crate::objects::GameObjectType;
use crate::objects::Item;
use crate::objects::ItemView;
use crate::search::lemma_first_where;
use crate::text::decimal;
use crate::text::decimal_text;
use crate::text::same_text;
use vstd::prelude::*;
use vstd::string::StringExecFns;

verus! {

/// How many times in a hundred the player's attack hits.
pub const ATTACK_CHANCE: u32 = 40;

/// The player.
#[derive(Debug)]
pub struct Player {
    name: String,
    hp: u32,
    gold: u32,
    weapon: Option<Item>,
    armor: Option<Item>,
    backpack: Vec<Item>,
    godmode: bool,
}

/// The player as contracts see it.
#[verifier::ext_equal]
pub struct PlayerView {
    pub name: Seq<char>,
    pub hp: u32,
    pub gold: u32,
    pub weapon: Option<ItemView>,
    pub armor: Option<ItemView>,
    pub backpack: Seq<ItemView>,
    pub godmode: bool,
}

/// What `{:?}` prints for the item in a slot; `None` for an empty slot.
pub open spec fn slot_text(slot: Option<ItemView>) -> Seq<char> {
    match slot {
        Some(item) => item.debug(),
        None => "None"@,
    }
}

impl PlayerView {
    /// Only a weapon is held as weapon, only an armor is worn as armor, and
    /// no coin lies in the backpack.
    pub open spec fn wf(self) -> bool {
        &&& self.weapon matches Some(w) ==> w.kind is Weapon
        &&& self.armor matches Some(a) ==> a.kind is Armor
        &&& forall|i: int| 0 <= i < self.backpack.len() ==> !((#[trigger] self.backpack[i]).kind is Coin)
    }

    /// How many items the player has: in the two slots and in the backpack.
    pub open spec fn item_count(self) -> nat {
        (if self.weapon is Some {
            1nat
        } else {
            0nat
        }) + (if self.armor is Some {
            1nat
        } else {
            0nat
        }) + self.backpack.len()
    }

    /// The player with godmode switched over.
    pub open spec fn toggled(self) -> PlayerView {
        PlayerView { godmode: !self.godmode, ..self }
    }

    /// Whether a blow with what the player holds can deal `damage`: bare
    /// hands deal none, a weapon a damage within its bounds.
    pub open spec fn may_strike(self, damage: u32) -> bool {
        match self.weapon {
            Some(w) => w.kind.may_give(damage),
            None => damage == 0,
        }
    }

    /// The damage of a blow for which `roll` was drawn.
    pub open spec fn strike_damage(self, roll: u32) -> u32 {
        match self.weapon {
            Some(w) => w.kind.rolled_value(roll),
            None => 0,
        }
    }

    /// What is said of a blow that deals `damage`.
    pub open spec fn strike_text(self, damage: u32) -> Seq<char> {
        if self.weapon is Some {
            "player does total damage "@ + decimal(damage as nat) + " \n"@
        } else {
            "player has no weapon does 0 damage \n"@
        }
    }

    /// The damage of an attack, given whether it lands where that is left
    /// to chance, and the roll for the damage of the blow. In godmode every
    /// attack lands.
    pub open spec fn hit_damage(self, landed: bool, roll: u32) -> u32 {
        if self.godmode || landed {
            self.strike_damage(roll)
        } else {
            0
        }
    }

    /// What is said of such an attack.
    pub open spec fn hit_text(self, landed: bool, roll: u32) -> Seq<char> {
        if self.godmode || landed {
            self.strike_text(self.strike_damage(roll))
        } else {
            "player misses\n"@
        }
    }

    /// The defense of the armor that the player wears; 0 without armor.
    pub open spec fn defense(self) -> u32 {
        match self.armor {
            Some(a) => match a.kind {
                GameObjectType::Armor(armor) => armor.defense,
                _ => 0,
            },
            None => 0,
        }
    }

    /// What is left of an incoming `damage` behind the player's armor.
    pub open spec fn effective_damage(self, damage: u32) -> u32 {
        if damage > self.defense() {
            (damage - self.defense()) as u32
        } else {
            0
        }
    }

    /// The player after an incoming `damage`. In godmode nothing changes;
    /// else the hit points go down by the effective damage, but not below 0.
    pub open spec fn after_damage(self, damage: u32) -> PlayerView {
        if self.godmode {
            self
        } else {
            PlayerView {
                hp: if self.hp > self.effective_damage(damage) {
                    (self.hp - self.effective_damage(damage)) as u32
                } else {
                    0
                },
                ..self
            }
        }
    }

    /// What is said of an incoming `damage`.
    pub open spec fn damage_text(self, damage: u32) -> Seq<char> {
        if self.godmode {
            "Player is in godmode. it cannot take damage in this state\n"@
        } else if damage == 0 {
            Seq::empty()
        } else if self.armor is Some {
            "You took "@ + decimal(self.effective_damage(damage) as nat)
                + " damage after armor mitigation. Your current HP: "@ + decimal(self.hp as nat)
                + "\n"@
        } else {
            "You took "@ + decimal(damage as nat) + " damage. Your current HP: "@ + decimal(
                self.after_damage(damage).hp as nat,
            ) + "\n"@
        }
    }

    /// Whether picking `item` up keeps the gold within what a `u32` holds.
    pub open spec fn can_pick_up(self, item: ItemView) -> bool {
        item.kind matches GameObjectType::Coin(c) ==> self.gold + c.value <= u32::MAX
    }

    /// The player after picking `item` up: a coin turns into gold at once,
    /// any other item goes into the backpack behind the others.
    pub open spec fn after_pickup(self, item: ItemView) -> PlayerView {
        match item.kind {
            GameObjectType::Coin(c) => PlayerView { gold: (self.gold + c.value) as u32, ..self },
            _ => PlayerView { backpack: self.backpack.push(item), ..self },
        }
    }

    /// What is said of picking `item` up.
    pub open spec fn pickup_text(self, item: ItemView) -> Seq<char> {
        match item.kind {
            GameObjectType::Coin(c) => "Coin pickup "@ + decimal(c.value as nat)
                + " player has now "@ + decimal((self.gold + c.value) as nat) + " \n"@,
            _ => Seq::empty(),
        }
    }

    /// Whether the weapon in hand is called `name`.
    pub open spec fn holds(self, name: Seq<char>) -> bool {
        self.weapon matches Some(w) && w.name == name
    }

    /// Whether the armor worn is called `name`.
    pub open spec fn wears(self, name: Seq<char>) -> bool {
        self.armor matches Some(a) && a.name == name
    }

    /// The item called `name` that the player would part with: the weapon
    /// in hand, else the armor worn, else the first such item in the
    /// backpack.
    pub open spec fn item_to_remove(self, name: Seq<char>) -> Option<ItemView> {
        if self.holds(name) {
            self.weapon
        } else if self.wears(name) {
            self.armor
        } else {
            match position(self.backpack, name) {
                Some(i) => Some(self.backpack[i]),
                None => None,
            }
        }
    }

    /// The player without that item.
    pub open spec fn without_item(self, name: Seq<char>) -> PlayerView {
        if self.holds(name) {
            PlayerView { weapon: None, ..self }
        } else if self.wears(name) {
            PlayerView { armor: None, ..self }
        } else {
            match position(self.backpack, name) {
                Some(i) => PlayerView { backpack: self.backpack.remove(i), ..self },
                None => self,
            }
        }
    }

    /// What is said of parting with the item called `name`.
    pub open spec fn remove_text(self, name: Seq<char>) -> Seq<char> {
        if self.holds(name) {
            "Weapon '"@ + name + "' has been removed from your hand.\n"@
        } else if self.wears(name) {
            "Armor '"@ + name + "' has been removed from your body.\n"@
        } else if position(self.backpack, name) is Some {
            "Item '"@ + name + "' has been removed from your backpack.\n"@
        } else {
            "Item '"@ + name + "' not found in weapon, armor, or backpack.\n"@
        }
    }

    /// The backpack once the item at `i` has left it for a slot and the
    /// item that was in that slot, if any, has come in behind the others.
    pub open spec fn swapped_backpack(self, i: int, displaced: Option<ItemView>) -> Seq<ItemView> {
        match displaced {
            Some(item) => self.backpack.remove(i).push(item),
            None => self.backpack.remove(i),
        }
    }

    /// The player after equipping the first item of the backpack called
    /// `name`. A weapon goes into the hand and an armor onto the body, and
    /// what was there before goes into the backpack. Nothing changes where
    /// the backpack has no such item or the item is neither.
    pub open spec fn equipped(self, name: Seq<char>) -> PlayerView {
        match position(self.backpack, name) {
            Some(i) => match self.backpack[i].kind {
                GameObjectType::Weapon(_) => PlayerView {
                    weapon: Some(self.backpack[i]),
                    backpack: self.swapped_backpack(i, self.weapon),
                    ..self
                },
                GameObjectType::Armor(_) => PlayerView {
                    armor: Some(self.backpack[i]),
                    backpack: self.swapped_backpack(i, self.armor),
                    ..self
                },
                _ => self,
            },
            None => self,
        }
    }

    /// What is said of equipping the item called `name`.
    pub open spec fn equip_text(self, name: Seq<char>) -> Seq<char> {
        match position(self.backpack, name) {
            Some(i) => match self.backpack[i].kind {
                GameObjectType::Weapon(_) => (if self.weapon is Some {
                    "Switched out weapon.\n"@
                } else {
                    Seq::empty()
                }) + "Equipping new weapon.\n"@ + self.backpack[i].show_text(),
                GameObjectType::Armor(_) => (if self.armor is Some {
                    "Switched out armor.\n"@
                } else {
                    Seq::empty()
                }) + "Equipped new armor \n"@ + self.backpack[i].show_text(),
                _ => "Item '"@ + name + "' is not equippable.\n"@,
            },
            None => "Item '"@ + name + "' not found in backpack.\n"@,
        }
    }

    /// Whether consuming the item called `name` keeps the hit points within
    /// what a `u32` holds.
    pub open spec fn can_consume(self, name: Seq<char>) -> bool {
        position(self.backpack, name) matches Some(i) ==> (self.backpack[i].kind matches GameObjectType::Consumable(
            c,
        ) ==> self.hp + c.heal_amount <= u32::MAX)
    }

    /// The player after consuming the first item of the backpack called
    /// `name`. A potion leaves the backpack and heals by its amount.
    /// Nothing changes where the backpack has no such item or the item is
    /// no potion.
    pub open spec fn after_consume(self, name: Seq<char>) -> PlayerView {
        match position(self.backpack, name) {
            Some(i) => match self.backpack[i].kind {
                GameObjectType::Consumable(c) => PlayerView {
                    hp: (self.hp + c.heal_amount) as u32,
                    backpack: self.backpack.remove(i),
                    ..self
                },
                _ => self,
            },
            None => self,
        }
    }

    /// What is said of consuming the item called `name`.
    pub open spec fn consume_text(self, name: Seq<char>) -> Seq<char> {
        match position(self.backpack, name) {
            Some(i) => match self.backpack[i].kind {
                GameObjectType::Consumable(c) => "Potion is consumed:\n"@
                    + self.backpack[i].show_text() + "New health: "@ + decimal(
                    (self.hp + c.heal_amount) as nat,
                ) + " \n"@,
                _ => "Item '"@ + name + "' is not equippable.\n"@,
            },
            None => "Item '"@ + name + "' not found in backpack.\n"@,
        }
    }

    /// The text that shows the player.
    pub open spec fn show_text(self) -> Seq<char> {
        "Player Information:\n--------------------\nName:           "@ + self.name
            + "\nHP:             "@ + decimal(self.hp as nat) + "\nGold:           "@ + decimal(
            self.gold as nat,
        ) + "\nAttack Chance:  "@ + decimal(ATTACK_CHANCE as nat) + "%\nWeapon:         "@
            + slot_text(self.weapon) + "\nArmor:          "@ + slot_text(self.armor)
            + "\nBackpack:       "@ + (if self.backpack.len() == 0 {
            "Empty"@
        } else {
            debug_list(self.backpack)
        }) + "\n--------------------\n"@
    }
}

/// Outside godmode, what is left of a blow behind the armor is the damage
/// less the defense, but not less than 0, and the hit points go down by
/// that, but not below 0.
pub proof fn lemma_damage_behind_armor(player: PlayerView, damage: u32)
    requires
        !player.godmode,
    ensures
        player.effective_damage(damage) == if damage - player.defense() > 0 {
            damage - player.defense()
        } else {
            0
        },
        player.after_damage(damage).hp == if player.hp - player.effective_damage(damage) > 0 {
            player.hp - player.effective_damage(damage)
        } else {
            0
        },
        player.after_damage(damage) == (PlayerView {
            hp: player.after_damage(damage).hp,
            ..player
        }),
{
}

/// In godmode no damage changes the player, however large it is.
pub proof fn lemma_godmode_ignores_damage(player: PlayerView, damage: u32)
    requires
        player.godmode,
    ensures
        player.after_damage(damage) == player,
{
}

/// In godmode every attack lands: whatever the roll for the chance, the
/// damage is the one that the weapon rolls.
pub proof fn lemma_godmode_always_lands(player: PlayerView, landed: bool, roll: u32)
    requires
        player.godmode,
    ensures
        player.hit_damage(landed, roll) == player.strike_damage(roll),
        player.hit_text(landed, roll) == player.strike_text(player.strike_damage(roll)),
        player.weapon matches Some(weapon) ==> (weapon.kind matches GameObjectType::Weapon(w)
            ==> (w.minimum_damage <= w.maximum_damage ==> w.minimum_damage <= player.hit_damage(
            landed,
            roll,
        ) <= w.maximum_damage)),
{
}

/// Picking up a coin raises the gold by just its value and leaves the
/// backpack as it is.
pub proof fn lemma_coin_pickup(player: PlayerView, item: ItemView)
    requires
        item.kind is Coin,
        player.can_pick_up(item),
    ensures
        player.after_pickup(item).gold == player.gold + item.kind->Coin_0.value,
        player.after_pickup(item).backpack == player.backpack,
        player.after_pickup(item) == (PlayerView {
            gold: player.after_pickup(item).gold,
            ..player
        }),
{
}

/// Consuming a potion that is in the backpack takes one item out of the
/// backpack and raises the hit points by just the potion's amount.
pub proof fn lemma_consume_potion(player: PlayerView, name: Seq<char>)
    requires
        position(player.backpack, name) matches Some(i) && player.backpack[i].kind is Consumable,
        player.can_consume(name),
    ensures
        player.after_consume(name).backpack.len() == player.backpack.len() - 1,
        player.after_consume(name).hp == player.hp + player.backpack[position(
            player.backpack,
            name,
        )->0].kind->Consumable_0.heal_amount,
{
    lemma_first_where(player.backpack, |item: ItemView| item.name == name);
}

/// Equipping never changes how many items the player has in the two slots
/// and the backpack together, whether the slot was taken or free.
pub proof fn lemma_equip_keeps_item_count(player: PlayerView, name: Seq<char>)
    ensures
        player.equipped(name).item_count() == player.item_count(),
{
    lemma_first_where(player.backpack, |item: ItemView| item.name == name);
}

/// Picking up, equipping, consuming and parting with an item keep the
/// player in order: only a weapon in hand, only an armor on the body, and
/// no coin in the backpack.
pub proof fn lemma_player_stays_in_order(player: PlayerView, name: Seq<char>, item: ItemView)
    requires
        player.wf(),
    ensures
        player.after_pickup(item).wf(),
        player.equipped(name).wf(),
        player.after_consume(name).wf(),
        player.without_item(name).wf(),
{
    lemma_first_where(player.backpack, |other: ItemView| other.name == name);
    let pack = player.backpack;
    match position(pack, name) {
        Some(i) => {
            assert forall|j: int| 0 <= j < pack.remove(i).len() implies !((
            #[trigger] pack.remove(i)[j]).kind is Coin) by {}
        },
        None => {},
    }
}

/// The view of what a slot holds.
pub open spec fn slot_view(slot: Option<Item>) -> Option<ItemView> {
    match slot {
        Some(item) => Some(item@),
        None => None,
    }
}

impl View for Player {
    type V = PlayerView;

    closed spec fn view(&self) -> PlayerView {
        PlayerView {
            name: self.name@,
            hp: self.hp,
            gold: self.gold,
            weapon: slot_view(self.weapon),
            armor: slot_view(self.armor),
            backpack: item_views(self.backpack@),
            godmode: self.godmode,
        }
    }
}

fn slot_string(slot: &Option<Item>) -> (out: String)
    ensures
        out@ == slot_text(slot_view(*slot)),
{
    match slot {
        Some(item) => item.debug_string(),
        None => "None".to_owned(),
    }
}

impl Player {
    /// Makes a player with 10 hit points, no gold, an empty backpack and a
    /// copy of `start_weapon` in hand.
    pub fn new(name: &str, start_weapon: &Item) -> (player: Player)
        requires
            start_weapon@.kind is Weapon,
        ensures
            player@ == (PlayerView {
                name: name@,
                hp: 10,
                gold: 0,
                weapon: Some(start_weapon@),
                armor: None,
                backpack: Seq::empty(),
                godmode: false,
            }),
            player@.wf(),
    {
        let player = Player {
            name: name.to_owned(),
            hp: 10,
            gold: 0,
            weapon: Some(start_weapon.clone()),
            armor: None,
            backpack: Vec::new(),
            godmode: false,
        };
        player
    }

    /// Switches godmode on if it is off, and off if it is on.
    pub fn toggle_godmode(&mut self)
        ensures
            final(self)@ == old(self)@.toggled(),
    {
        self.godmode = !self.godmode;
    }

    /// Shows the player.
    pub fn show(&self) -> (out: String)
        ensures
            out@ == self@.show_text(),
    {
        let mut out: String = "Player Information:\n--------------------\nName:           ".to_owned();
        out.append(self.name.as_str());
        out.append("\nHP:             ");
        out.append(decimal_text(self.hp).as_str());
        out.append("\nGold:           ");
        out.append(decimal_text(self.gold).as_str());
        out.append("\nAttack Chance:  ");
        out.append(decimal_text(ATTACK_CHANCE).as_str());
        out.append("%\nWeapon:         ");
        out.append(slot_string(&self.weapon).as_str());
        out.append("\nArmor:          ");
        out.append(slot_string(&self.armor).as_str());
        out.append("\nBackpack:       ");
        if self.backpack.len() == 0 {
            out.append("Empty");
        } else {
            out.append(debug_items(&self.backpack).as_str());
        }
        out.append("\n--------------------\n");
        out
    }

    /// Rolls the damage of a blow with what the player holds, and says what
    /// it is. Bare hands deal 0.
    pub fn get_weapon_dmg(&self, dice: &Dice) -> (blow: (u32, String))
        ensures
            self@.may_strike(blow.0),
            blow.1@ == self@.strike_text(blow.0),
            *dice matches Dice::Loaded { roll, .. } ==> blow.0 == self@.strike_damage(roll),
    {
        match &self.weapon {
            Some(weapon) => {
                let damage: u32 = weapon.do_action(dice);
                let mut out: String = "player does total damage ".to_owned();
                out.append(decimal_text(damage).as_str());
                out.append(" \n");
                (damage, out)
            },
            None => (0, "player has no weapon does 0 damage \n".to_owned()),
        }
    }

    /// Attacks. In godmode the attack always lands; else it lands
    /// `ATTACK_CHANCE` times in a hundred. An attack that lands deals the
    /// damage of a blow, one that misses deals 0.
    pub fn hit(&self, dice: &Dice) -> (blow: (u32, String))
        ensures
            (self@.may_strike(blow.0) && blow.1@ == self@.strike_text(blow.0)) || (!self@.godmode
                && blow.0 == 0 && blow.1@ == "player misses\n"@),
            self@.godmode ==> self@.may_strike(blow.0) && blow.1@ == self@.strike_text(blow.0),
            *dice matches Dice::Loaded { hit, roll } ==> blow.0 == self@.hit_damage(
                loaded_chance(hit, ATTACK_CHANCE, 100),
                roll,
            ) && blow.1@ == self@.hit_text(loaded_chance(hit, ATTACK_CHANCE, 100), roll),
    {
        if self.godmode {
            self.get_weapon_dmg(dice)
        } else {
            if dice.chance(ATTACK_CHANCE, 100) {
                return self.get_weapon_dmg(dice);
            }
            (0, "player misses\n".to_owned())
        }
    }

    /// Takes an incoming `damage` and says what came of it. In godmode the
    /// damage is lost. Else armor takes its defense off the damage, and the
    /// hit points go down by what is left, but not below 0.
    pub fn take_dmg(&mut self, damage: u32) -> (out: String)
        requires
            old(self)@.wf(),
        ensures
            final(self)@ == old(self)@.after_damage(damage),
            out@ == old(self)@.damage_text(damage),
            old(self)@.godmode ==> final(self)@ == old(self)@,
    {
        if self.godmode {
            "Player is in godmode. it cannot take damage in this state\n".to_owned()
        } else if damage != 0 {
            match &self.armor {
                Some(armor) => {
                    let defense: u32 = match armor.kind() {
                        GameObjectType::Armor(a) => a.defense,
                        _ => 0,
                    };
                    let actual_damage: u32 = if damage > defense {
                        damage - defense
                    } else {
                        0
                    };
                    let mut out: String = "You took ".to_owned();
                    out.append(decimal_text(actual_damage).as_str());
                    out.append(" damage after armor mitigation. Your current HP: ");
                    out.append(decimal_text(self.hp).as_str());
                    out.append("\n");
                    self.hp = if self.hp > actual_damage {
                        self.hp - actual_damage
                    } else {
                        0
                    };
                    out
                },
                None => {
                    self.hp = if self.hp > damage {
                        self.hp - damage
                    } else {
                        0
                    };
                    let mut out: String = "You took ".to_owned();
                    out.append(decimal_text(damage).as_str());
                    out.append(" damage. Your current HP: ");
                    out.append(decimal_text(self.hp).as_str());
                    out.append("\n");
                    out
                },
            }
        } else {
            String::new()
        }
    }

    /// Picks `item` up: a coin is added to the gold at once, any other item
    /// goes into the backpack.
    pub fn fill_backpack(&mut self, item: Item) -> (out: String)
        requires
            old(self)@.can_pick_up(item@),
        ensures
            final(self)@ == old(self)@.after_pickup(item@),
            out@ == old(self)@.pickup_text(item@),
            old(self)@.wf() ==> final(self)@.wf(),
    {
        let kind: GameObjectType = *item.kind();
        match kind {
            GameObjectType::Coin(coin) => {
                let amount: u32 = coin.value;
                self.gold = self.gold + amount;
                let mut out: String = "Coin pickup ".to_owned();
                out.append(decimal_text(amount).as_str());
                out.append(" player has now ");
                out.append(decimal_text(self.gold).as_str());
                out.append(" \n");
                out
            },
            _ => {
                self.backpack.push(item);
                assert(item_views(self.backpack@) =~= old(self)@.backpack.push(item@));
                String::new()
            },
        }
    }

    /// Parts with the item called `item_name`: the weapon in hand if it has
    /// that name, else the armor worn, else the first such item in the
    /// backpack. Gives the item, if there is one, and what is said.
    pub fn remove_item(&mut self, item_name: &str) -> (removed: (Option<Item>, String))
        ensures
            final(self)@ == old(self)@.without_item(item_name@),
            slot_view(removed.0) == old(self)@.item_to_remove(item_name@),
            removed.1@ == old(self)@.remove_text(item_name@),
            old(self)@.wf() ==> final(self)@.wf(),
    {
        let in_hand: bool = match &self.weapon {
            Some(weapon) => same_text(weapon.name(), item_name),
            None => false,
        };
        if in_hand {
            let removed_item: Option<Item> = self.weapon.take();
            let mut out: String = "Weapon '".to_owned();
            out.append(item_name);
            out.append("' has been removed from your hand.\n");
            return (removed_item, out);
        }
        let on_body: bool = match &self.armor {
            Some(armor) => same_text(armor.name(), item_name),
            None => false,
        };
        if on_body {
            let removed_item: Option<Item> = self.armor.take();
            let mut out: String = "Armor '".to_owned();
            out.append(item_name);
            out.append("' has been removed from your body.\n");
            return (removed_item, out);
        }
        match find_item(&self.backpack, item_name) {
            Some(at) => {
                let removed_item: Item = self.backpack.remove(at);
                assert(item_views(self.backpack@) =~= old(self)@.backpack.remove(at as int));
                let mut out: String = "Item '".to_owned();
                out.append(item_name);
                out.append("' has been removed from your backpack.\n");
                (Some(removed_item), out)
            },
            None => {
                let mut out: String = "Item '".to_owned();
                out.append(item_name);
                out.append("' not found in weapon, armor, or backpack.\n");
                (None, out)
            },
        }
    }

    /// Equips the first item of the backpack called `item_name`, if it is a
    /// weapon or an armor. What was in its slot goes into the backpack.
    pub fn equip_item(&mut self, item_name: &str) -> (out: String)
        ensures
            final(self)@ == old(self)@.equipped(item_name@),
            out@ == old(self)@.equip_text(item_name@),
            final(self)@.item_count() == old(self)@.item_count(),
            old(self)@.wf() ==> final(self)@.wf(),
    {
        match find_item(&self.backpack, item_name) {
            Some(at) => {
                let kind: GameObjectType = *self.backpack[at].kind();
                match kind {
                    GameObjectType::Weapon(_) => {
                        let item: Item = self.backpack.remove(at);
                        let mut out: String = String::new();
                        match self.weapon.take() {
                            Some(current_weapon) => {
                                self.backpack.push(current_weapon);
                                out.append("Switched out weapon.\n");
                            },
                            None => {},
                        }
                        out.append("Equipping new weapon.\n");
                        out.append(item.show().as_str());
                        self.weapon = Some(item);
                        assert(item_views(self.backpack@) =~= old(self)@.swapped_backpack(
                            at as int,
                            old(self)@.weapon,
                        ));
                        out
                    },
                    GameObjectType::Armor(_) => {
                        let item: Item = self.backpack.remove(at);
                        let mut out: String = String::new();
                        match self.armor.take() {
                            Some(current_armor) => {
                                self.backpack.push(current_armor);
                                out.append("Switched out armor.\n");
                            },
                            None => {},
                        }
                        out.append("Equipped new armor \n");
                        out.append(item.show().as_str());
                        self.armor = Some(item);
                        assert(item_views(self.backpack@) =~= old(self)@.swapped_backpack(
                            at as int,
                            old(self)@.armor,
                        ));
                        out
                    },
                    _ => {
                        let mut out: String = "Item '".to_owned();
                        out.append(item_name);
                        out.append("' is not equippable.\n");
                        out
                    },
                }
            },
            None => {
                let mut out: String = "Item '".to_owned();
                out.append(item_name);
                out.append("' not found in backpack.\n");
                out
            },
        }
    }

    /// Consumes the first item of the backpack called `item_name`, if it is
    /// a potion: the potion is gone and the hit points go up by its amount.
    pub fn consume_potion(&mut self, item_name: &str) -> (out: String)
        requires
            old(self)@.can_consume(item_name@),
        ensures
            final(self)@ == old(self)@.after_consume(item_name@),
            out@ == old(self)@.consume_text(item_name@),
            old(self)@.wf() ==> final(self)@.wf(),
    {
        match find_item(&self.backpack, item_name) {
            Some(at) => {
                let kind: GameObjectType = *self.backpack[at].kind();
                match kind {
                    GameObjectType::Consumable(potion) => {
                        let item: Item = self.backpack.remove(at);
                        assert(item_views(self.backpack@) =~= old(self)@.backpack.remove(
                            at as int,
                        ));
                        self.hp = self.hp + potion.heal_amount;
                        let mut out: String = "Potion is consumed:\n".to_owned();
                        out.append(item.show().as_str());
                        out.append("New health: ");
                        out.append(decimal_text(self.hp).as_str());
                        out.append(" \n");
                        out
                    },
                    _ => {
                        let mut out: String = "Item '".to_owned();
                        out.append(item_name);
                        out.append("' is not equippable.\n");
                        out
                    },
                }
            },
            None => {
                let mut out: String = "Item '".to_owned();
                out.append(item_name);
                out.append("' not found in backpack.\n");
                out
            },
        }
    }

    /// The hit points that the player has left.
    pub fn hp(&self) -> (hp: u32)
        ensures
            hp == self@.hp,
    {
        self.hp
    }

    /// The gold that the player has.
    pub fn gold(&self) -> (gold: u32)
        ensures
            gold == self@.gold,
    {
        self.gold
    }

    /// The name of the player.
    pub fn name(&self) -> (name: &str)
        ensures
            name@ == self@.name,
    {
        self.name.as_str()
    }

    /// Whether godmode is on.
    pub fn godmode(&self) -> (on: bool)
        ensures
            on == self@.godmode,
    {
        self.godmode
    }

    /// The weapon in hand.
    pub fn weapon(&self) -> (weapon: Option<&Item>)
        ensures
            self@.weapon == match weapon {
                Some(item) => Some(item@),
                None => None,
            },
    {
        self.weapon.as_ref()
    }

    /// The armor worn.
    pub fn armor(&self) -> (armor: Option<&Item>)
        ensures
            self@.armor == match armor {
                Some(item) => Some(item@),
                None => None,
            },
    {
        self.armor.as_ref()
    }

    /// The items in the backpack, in the order in which they came.
    pub fn backpack(&self) -> (backpack: &Vec<Item>)
        ensures
            item_views(backpack@) == self@.backpack,
    {
        &self.backpack
    }
}

} // verus!
