//! Items: coins, weapons, armor and consumables, and the factory that makes
//! them from catalog entries.

use crate::dice::clamp;
use crate::dice::Dice;
use crate::search::first_where;
use crate::search::lemma_first_where_is;
use crate::search::lemma_first_where_none;
use crate::text::debug_text;
use crate::text::decimal;
use crate::text::decimal_text;
use crate::text::quoted;
use crate::text::same_text;
use vstd::prelude::*;
use vstd::string::StringExecFns;

verus! {

/// What every item has: a name and a description.
#[derive(Debug)]
pub struct GameObject {
    name: String,
    description: String,
}

/// A pouch of gold.
#[derive(Clone, Copy, Debug, PartialEq, Eq, Structural)]
pub struct Coin {
    pub value: u32,
}

/// A weapon, which deals a damage between its two bounds.
#[derive(Clone, Copy, Debug, PartialEq, Eq, Structural)]
pub struct Weapon {
    pub minimum_damage: u32,
    pub maximum_damage: u32,
}

/// A piece of armor, which takes `defense` off every blow.
#[derive(Clone, Copy, Debug, PartialEq, Eq, Structural)]
pub struct Armor {
    pub defense: u32,
}

/// A potion, which heals by `heal_amount`.
#[derive(Clone, Copy, Debug, PartialEq, Eq, Structural)]
pub struct Consumable {
    pub heal_amount: u32,
}

/// The kind of an item, with what belongs to that kind.
#[derive(Clone, Copy, Debug, PartialEq, Eq, Structural)]
pub enum GameObjectType {
    Coin(Coin),
    Weapon(Weapon),
    Armor(Armor),
    Consumable(Consumable),
}

/// An item of the game. It never changes once made.
#[derive(Debug)]
pub struct Item {
    base: GameObject,
    kind: GameObjectType,
}

/// An item as contracts see it.
#[verifier::ext_equal]
pub struct ItemView {
    pub name: Seq<char>,
    pub description: Seq<char>,
    pub kind: GameObjectType,
}

impl GameObjectType {
    /// A weapon's lower bound is not above its upper bound.
    pub open spec fn ordered(self) -> bool {
        self matches GameObjectType::Weapon(w) ==> w.minimum_damage <= w.maximum_damage
    }

    /// Whether `value` is one that the item's action may give: a weapon
    /// gives any damage within its bounds, every other kind its one number.
    pub open spec fn may_give(self, value: u32) -> bool {
        match self {
            GameObjectType::Coin(c) => value == c.value,
            GameObjectType::Weapon(w) => w.minimum_damage <= value <= w.maximum_damage,
            GameObjectType::Armor(a) => value == a.defense,
            GameObjectType::Consumable(c) => value == c.heal_amount,
        }
    }

    /// What the item's action gives when `roll` was drawn for it: a weapon
    /// gives the damage within its bounds that is nearest to `roll`, every
    /// other kind its one number.
    pub open spec fn rolled_value(self, roll: u32) -> u32 {
        match self {
            GameObjectType::Coin(c) => c.value,
            GameObjectType::Weapon(w) => clamp(
                roll as int,
                w.minimum_damage as int,
                w.maximum_damage as int,
            ) as u32,
            GameObjectType::Armor(a) => a.defense,
            GameObjectType::Consumable(c) => c.heal_amount,
        }
    }

    /// The line that describes the kind.
    pub open spec fn show_text(self) -> Seq<char> {
        match self {
            GameObjectType::Coin(c) => "pouch has amount "@ + decimal(c.value as nat) + "\n"@,
            GameObjectType::Weapon(w) => "Weapon has damage range "@ + decimal(
                w.minimum_damage as nat,
            ) + "-"@ + decimal(w.maximum_damage as nat) + "\n"@,
            GameObjectType::Armor(a) => "Armor has defense of "@ + decimal(a.defense as nat)
                + "\n"@,
            GameObjectType::Consumable(c) => "Potion has heals "@ + decimal(c.heal_amount as nat)
                + "\n"@,
        }
    }

    /// What `{:?}` prints for the kind.
    pub open spec fn debug(self) -> Seq<char> {
        match self {
            GameObjectType::Coin(c) => "Coin(Coin { value: "@ + decimal(c.value as nat) + " })"@,
            GameObjectType::Weapon(w) => "Weapon(Weapon { minimum_damage: "@ + decimal(
                w.minimum_damage as nat,
            ) + ", maximum_damage: "@ + decimal(w.maximum_damage as nat) + " })"@,
            GameObjectType::Armor(a) => "Armor(Armor { defense: "@ + decimal(a.defense as nat)
                + " })"@,
            GameObjectType::Consumable(c) => "Consumable(Consumable { heal_amount: "@ + decimal(
                c.heal_amount as nat,
            ) + " })"@,
        }
    }

    /// The number that the kind acts with: a coin's value, a damage rolled
    /// within a weapon's bounds, an armor's defense, a potion's healing.
    pub fn do_action(&self, dice: &Dice) -> (value: u32)
        requires
            self.ordered(),
        ensures
            self.may_give(value),
            *dice matches Dice::Loaded { roll, .. } ==> value == self.rolled_value(roll),
    {
        match self {
            GameObjectType::Coin(c) => c.value,
            GameObjectType::Weapon(w) => dice.range(w.minimum_damage, w.maximum_damage),
            GameObjectType::Armor(a) => a.defense,
            GameObjectType::Consumable(c) => c.heal_amount,
        }
    }

    /// Describes the kind in one line.
    pub fn show(&self) -> (out: String)
        ensures
            out@ == self.show_text(),
    {
        match self {
            GameObjectType::Coin(c) => {
                let mut out: String = "pouch has amount ".to_owned();
                out.append(decimal_text(c.value).as_str());
                out.append("\n");
                out
            },
            GameObjectType::Weapon(w) => {
                let mut out: String = "Weapon has damage range ".to_owned();
                out.append(decimal_text(w.minimum_damage).as_str());
                out.append("-");
                out.append(decimal_text(w.maximum_damage).as_str());
                out.append("\n");
                out
            },
            GameObjectType::Armor(a) => {
                let mut out: String = "Armor has defense of ".to_owned();
                out.append(decimal_text(a.defense).as_str());
                out.append("\n");
                out
            },
            GameObjectType::Consumable(c) => {
                let mut out: String = "Potion has heals ".to_owned();
                out.append(decimal_text(c.heal_amount).as_str());
                out.append("\n");
                out
            },
        }
    }

    /// The kind as `{:?}` prints it.
    pub fn debug_string(&self) -> (out: String)
        ensures
            out@ == self.debug(),
    {
        match self {
            GameObjectType::Coin(c) => {
                let mut out: String = "Coin(Coin { value: ".to_owned();
                out.append(decimal_text(c.value).as_str());
                out.append(" })");
                out
            },
            GameObjectType::Weapon(w) => {
                let mut out: String = "Weapon(Weapon { minimum_damage: ".to_owned();
                out.append(decimal_text(w.minimum_damage).as_str());
                out.append(", maximum_damage: ");
                out.append(decimal_text(w.maximum_damage).as_str());
                out.append(" })");
                out
            },
            GameObjectType::Armor(a) => {
                let mut out: String = "Armor(Armor { defense: ".to_owned();
                out.append(decimal_text(a.defense).as_str());
                out.append(" })");
                out
            },
            GameObjectType::Consumable(c) => {
                let mut out: String = "Consumable(Consumable { heal_amount: ".to_owned();
                out.append(decimal_text(c.heal_amount).as_str());
                out.append(" })");
                out
            },
        }
    }
}

impl ItemView {
    /// The text that shows the item in full.
    pub open spec fn show_text(self) -> Seq<char> {
        "Item Details:\nName: "@ + self.name + "\nDescription: "@ + self.description
            + "\nDetails: "@ + self.kind.show_text()
    }

    /// What `{:?}` prints for the item.
    pub open spec fn debug(self) -> Seq<char> {
        "Item { base: GameObject { name: "@ + quoted(self.name) + ", description: "@ + quoted(
            self.description,
        ) + " }, kind: "@ + self.kind.debug() + " }"@
    }
}

/// What `{:?}` prints for a list of items, each followed by `after`.
pub open spec fn debug_each(items: Seq<ItemView>, before: Seq<char>, after: Seq<char>) -> Seq<char>
    decreases items.len(),
{
    if items.len() == 0 {
        Seq::empty()
    } else {
        debug_each(items.drop_last(), before, after) + before + items.last().debug() + after
    }
}

/// What `{:?}` prints for the items, with `", "` between neighbours.
pub open spec fn debug_list(items: Seq<ItemView>) -> Seq<char>
    decreases items.len(),
{
    if items.len() == 0 {
        Seq::empty()
    } else if items.len() == 1 {
        items[0].debug()
    } else {
        debug_list(items.drop_last()) + ", "@ + items.last().debug()
    }
}

/// The views of a list of items.
pub open spec fn item_views(items: Seq<Item>) -> Seq<ItemView> {
    items.map_values(|item: Item| item@)
}

/// The index of the first item called `name`, if there is one.
pub open spec fn position(items: Seq<ItemView>, name: Seq<char>) -> Option<int> {
    first_where(items, |item: ItemView| item.name == name)
}

impl View for Item {
    type V = ItemView;

    closed spec fn view(&self) -> ItemView {
        ItemView { name: self.base.name@, description: self.base.description@, kind: self.kind }
    }
}

impl Clone for Item {
    fn clone(&self) -> (copy: Self)
        ensures
            copy@ == self@,
    {
        proof {
            use_type_invariant(self);
        }
        Item {
            base: GameObject {
                name: self.base.name.clone(),
                description: self.base.description.clone(),
            },
            kind: self.kind,
        }
    }
}

impl Item {
    #[verifier::type_invariant]
    spec fn well_formed(&self) -> bool {
        self.kind.ordered()
    }

    /// The name of the item.
    pub fn name(&self) -> (name: &str)
        ensures
            name@ == self@.name,
    {
        self.base.name.as_str()
    }

    /// The description of the item.
    pub fn description(&self) -> (description: &str)
        ensures
            description@ == self@.description,
    {
        self.base.description.as_str()
    }

    /// The kind of the item. A weapon has its bounds in order.
    pub fn kind(&self) -> (kind: &GameObjectType)
        ensures
            *kind == self@.kind,
            kind.ordered(),
    {
        proof {
            use_type_invariant(self);
        }
        &self.kind
    }

    /// The number that the item acts with; see [`GameObjectType::do_action`].
    pub fn do_action(&self, dice: &Dice) -> (value: u32)
        ensures
            self@.kind.may_give(value),
            *dice matches Dice::Loaded { roll, .. } ==> value == self@.kind.rolled_value(roll),
    {
        proof {
            use_type_invariant(self);
        }
        self.kind.do_action(dice)
    }

    /// Describes the item in full.
    pub fn show(&self) -> (out: String)
        ensures
            out@ == self@.show_text(),
    {
        let mut out: String = "Item Details:\nName: ".to_owned();
        out.append(self.base.name.as_str());
        out.append("\nDescription: ");
        out.append(self.base.description.as_str());
        out.append("\nDetails: ");
        out.append(self.kind.show().as_str());
        out
    }

    /// The item as `{:?}` prints it.
    pub fn debug_string(&self) -> (out: String)
        ensures
            out@ == self@.debug(),
    {
        let mut out: String = "Item { base: GameObject { name: ".to_owned();
        out.append(debug_text(self.base.name.as_str()).as_str());
        out.append(", description: ");
        out.append(debug_text(self.base.description.as_str()).as_str());
        out.append(" }, kind: ");
        out.append(self.kind.debug_string().as_str());
        out.append(" }");
        out
    }
}

/// Copies a list of items.
pub fn clone_items(items: &[Item]) -> (copy: Vec<Item>)
    ensures
        item_views(copy@) == item_views(items@),
{
    let mut copy: Vec<Item> = Vec::new();
    let mut i: usize = 0;
    while i < items.len()
        invariant
            i <= items@.len(),
            item_views(copy@) == item_views(items@.take(i as int)),
        decreases items@.len() - i,
    {
        let ghost prior = copy@;
        let item: Item = items[i].clone();
        copy.push(item);
        assert(item_views(copy@) =~= item_views(prior).push(item@));
        i = i + 1;
    }
    copy
}

/// Looks for the first item called `name`.
pub fn find_item(items: &Vec<Item>, name: &str) -> (found: Option<usize>)
    ensures
        found matches Some(i) ==> i < items@.len() && items@[i as int]@.name == name@ && position(
            item_views(items@),
            name@,
        ) == Some(i as int),
        found is None ==> position(item_views(items@), name@) is None,
{
    let ghost wanted = |item: ItemView| item.name == name@;
    let mut i: usize = 0;
    while i < items.len()
        invariant
            i <= items@.len(),
            wanted == |item: ItemView| item.name == name@,
            forall|j: int| 0 <= j < i ==> !wanted(#[trigger] item_views(items@)[j]),
        decreases items@.len() - i,
    {
        if same_text(items[i].name(), name) {
            proof {
                lemma_first_where_is(item_views(items@), wanted, i as int);
            }
            return Some(i);
        }
        i = i + 1;
    }
    proof {
        lemma_first_where_none(item_views(items@), wanted);
    }
    None
}

/// Prints each item with `{:?}`, `before` in front of it and `after` behind.
pub fn debug_items_each(items: &Vec<Item>, before: &str, after: &str) -> (out: String)
    ensures
        out@ == debug_each(item_views(items@), before@, after@),
{
    let mut out: String = String::new();
    let mut i: usize = 0;
    while i < items.len()
        invariant
            i <= items@.len(),
            out@ == debug_each(item_views(items@).take(i as int), before@, after@),
        decreases items@.len() - i,
    {
        let ghost done = item_views(items@).take(i as int);
        let ghost next = item_views(items@).take(i + 1);
        assert(next.drop_last() =~= done);
        out.append(before);
        out.append(items[i].debug_string().as_str());
        out.append(after);
        i = i + 1;
    }
    assert(item_views(items@).take(i as int) =~= item_views(items@));
    out
}

/// Prints the items with `{:?}`, separated by `", "`.
pub fn debug_items(items: &Vec<Item>) -> (out: String)
    ensures
        out@ == debug_list(item_views(items@)),
{
    let mut out: String = String::new();
    let mut i: usize = 0;
    while i < items.len()
        invariant
            i <= items@.len(),
            out@ == debug_list(item_views(items@).take(i as int)),
        decreases items@.len() - i,
    {
        let ghost done = item_views(items@).take(i as int);
        let ghost next = item_views(items@).take(i + 1);
        assert(next.drop_last() =~= done);
        if i > 0 {
            out.append(", ");
        }
        out.append(items[i].debug_string().as_str());
        i = i + 1;
    }
    assert(item_views(items@).take(i as int) =~= item_views(items@));
    out
}

/// Whether catalog entries of type `obj_type` are potions.
pub open spec fn is_potion_type(obj_type: Seq<char>) -> bool {
    obj_type == "teleportatiedrank"@ || obj_type == "ervaringsdrink"@ || obj_type
        == "levenselixer"@
}

/// Whether making an item of type `obj_type` reads its first two numbers as
/// a range: potions and gold roll their amount in it, a weapon keeps it.
pub open spec fn uses_range(obj_type: Seq<char>) -> bool {
    is_potion_type(obj_type) || obj_type == "wapen"@ || obj_type == "goudstukken"@
}

/// The kind that a catalog entry of type `obj_type` with the numbers
/// `value` makes, where `roll` is what was rolled in the range from
/// `value.0` to `value.1`.
pub open spec fn kind_for(obj_type: Seq<char>, value: (u32, u32, u32), roll: u32) -> GameObjectType {
    if is_potion_type(obj_type) {
        GameObjectType::Consumable(Consumable { heal_amount: roll })
    } else if obj_type == "wapenrusting"@ {
        GameObjectType::Armor(Armor { defense: value.2 })
    } else if obj_type == "wapen"@ {
        GameObjectType::Weapon(Weapon { minimum_damage: value.0, maximum_damage: value.1 })
    } else if obj_type == "goudstukken"@ {
        GameObjectType::Coin(Coin { value: roll })
    } else {
        GameObjectType::Coin(Coin { value: value.0 })
    }
}

/// The number that `kind` holds where its maker rolls one: a potion's
/// healing, a coin's value.
pub open spec fn rolled_part(kind: GameObjectType) -> u32 {
    match kind {
        GameObjectType::Consumable(c) => c.heal_amount,
        GameObjectType::Coin(c) => c.value,
        _ => 0,
    }
}

/// No two of the type words that the factory knows are the same.
pub proof fn lemma_type_words_differ()
    ensures
        !is_potion_type("wapenrusting"@),
        !is_potion_type("wapen"@),
        !is_potion_type("goudstukken"@),
        "wapenrusting"@ != "wapen"@,
        "wapenrusting"@ != "goudstukken"@,
        "wapen"@ != "goudstukken"@,
{
    reveal_strlit("teleportatiedrank");
    reveal_strlit("ervaringsdrink");
    reveal_strlit("levenselixer");
    reveal_strlit("wapenrusting");
    reveal_strlit("wapen");
    reveal_strlit("goudstukken");
    assert("teleportatiedrank"@.len() == 17);
    assert("ervaringsdrink"@.len() == 14);
    assert("wapen"@.len() == 5);
    assert("levenselixer"@[0] != "wapenrusting"@[0]);
}

/// Makes items from catalog entries.
pub struct ItemFactory;

impl ItemFactory {
    /// Tells whether an item can be made of a catalog entry with this type
    /// word and these numbers: where the first two numbers are read as a
    /// range, the first is not above the second.
    pub fn accepts(obj_type: &str, value: (u32, u32, u32)) -> (ok: bool)
        ensures
            ok == (uses_range(obj_type@) ==> value.0 <= value.1),
    {
        if same_text(obj_type, "teleportatiedrank") || same_text(obj_type, "ervaringsdrink")
            || same_text(obj_type, "levenselixer") || same_text(obj_type, "wapen") || same_text(
            obj_type,
            "goudstukken",
        ) {
            value.0 <= value.1
        } else {
            true
        }
    }

    /// Makes the item that a catalog entry describes.
    ///
    /// The type word decides the kind. A potion heals by, and a pouch of
    /// gold holds, an amount rolled between `value.0` and `value.1`; a weapon
    /// keeps these two as the bounds of its damage; armor defends by
    /// `value.2`; any other type word makes a coin worth `value.0`.
    pub fn create_item(
        name: &str,
        description: &str,
        obj_type: &str,
        value: (u32, u32, u32),
        dice: &Dice,
    ) -> (item: Item)
        requires
            uses_range(obj_type@) ==> value.0 <= value.1,
        ensures
            item@.name == name@,
            item@.description == description@,
            item@.kind == kind_for(obj_type@, value, rolled_part(item@.kind)),
            uses_range(obj_type@) && !(obj_type@ == "wapen"@) ==> value.0 <= rolled_part(item@.kind)
                <= value.1,
            *dice matches Dice::Loaded { roll, .. } ==> item@.kind == kind_for(
                obj_type@,
                value,
                clamp(roll as int, value.0 as int, value.1 as int) as u32,
            ),
    {
        proof {
            lemma_type_words_differ();
        }
        let base: GameObject = GameObject {
            name: name.to_owned(),
            description: description.to_owned(),
        };
        let kind: GameObjectType = if same_text(obj_type, "teleportatiedrank") || same_text(
            obj_type,
            "ervaringsdrink",
        ) || same_text(obj_type, "levenselixer") {
            GameObjectType::Consumable(Consumable { heal_amount: dice.range(value.0, value.1) })
        } else if same_text(obj_type, "wapenrusting") {
            GameObjectType::Armor(Armor { defense: value.2 })
        } else if same_text(obj_type, "wapen") {
            GameObjectType::Weapon(Weapon { minimum_damage: value.0, maximum_damage: value.1 })
        } else if same_text(obj_type, "goudstukken") {
            GameObjectType::Coin(Coin { value: dice.range(value.0, value.1) })
        } else {
            GameObjectType::Coin(Coin { value: value.0 })
        };
        Item { base, kind }
    }
}

} // verus!
