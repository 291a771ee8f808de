//! Rooms and the exits that join them.

use crate::objects::clone_items;
use crate::objects::debug_each;
use crate::objects::debug_items_each;
use crate::objects::find_item;
use crate::objects::item_views;
use crate::objects::position;
use crate::objects::Item;
use crate::objects::ItemView;
use crate::text::decimal;
use crate::text::decimal_text;
use crate::text::same_text;
use vstd::prelude::*;
use vstd::string::StringExecFns;

verus! {

/// The number by which a room is known. No room has the number 0.
pub type RoomId = u32;

/// A way out of a room. `Nowhere` is no direction at all: no exit leads
/// there.
#[derive(Clone, Copy, Debug, PartialEq, Eq, Structural)]
pub enum Direction {
    North,
    South,
    East,
    West,
    Nowhere,
}

/// A way from a room into the room `destination`.
#[derive(Clone, Copy, Debug, PartialEq, Eq, Structural)]
pub struct Exit {
    pub direction: Direction,
    pub destination: RoomId,
}

/// A place of the game: its exits, the items that lie in sight and the items
/// that a search brings to light.
#[derive(Debug)]
pub struct Room {
    id: RoomId,
    name: String,
    description: String,
    exits: Vec<Exit>,
    visible_items: Vec<Item>,
    invisible_items: Vec<Item>,
}

/// A room as contracts see it.
#[verifier::ext_equal]
pub struct RoomView {
    pub id: RoomId,
    pub name: Seq<char>,
    pub description: Seq<char>,
    pub exits: Seq<Exit>,
    pub visible: Seq<ItemView>,
    pub hidden: Seq<ItemView>,
}

/// The direction that the word names; `Nowhere` for any word but the four.
pub open spec fn direction_of(word: Seq<char>) -> Direction {
    if word == "North"@ {
        Direction::North
    } else if word == "East"@ {
        Direction::East
    } else if word == "West"@ {
        Direction::West
    } else if word == "South"@ {
        Direction::South
    } else {
        Direction::Nowhere
    }
}

/// Where the first exit in `direction` leads; 0 where there is none. No
/// exit is looked for in the direction `Nowhere`.
pub open spec fn leads_to(exits: Seq<Exit>, direction: Direction) -> RoomId
    decreases exits.len(),
{
    if direction == Direction::Nowhere || exits.len() == 0 {
        0
    } else if exits[0].direction == direction {
        exits[0].destination
    } else {
        leads_to(exits.drop_first(), direction)
    }
}

/// The exits that a list of pairs, each a destination and a direction word,
/// gives a room. A pair makes no exit where its destination is 0, where its
/// word names no direction, or where an earlier pair has made an exit that
/// leads somewhere in that direction.
pub open spec fn exits_from(pairs: Seq<(RoomId, Seq<char>)>) -> Seq<Exit>
    decreases pairs.len(),
{
    if pairs.len() == 0 {
        Seq::empty()
    } else {
        let before = exits_from(pairs.drop_last());
        let direction = direction_of(pairs.last().1);
        if pairs.last().0 == 0 || direction == Direction::Nowhere || leads_to(before, direction)
            != 0 {
            before
        } else {
            before.push(Exit { direction, destination: pairs.last().0 })
        }
    }
}

/// The pairs as contracts see them.
pub open spec fn pair_views(pairs: Seq<(RoomId, String)>) -> Seq<(RoomId, Seq<char>)> {
    pairs.map_values(|pair: (RoomId, String)| (pair.0, pair.1@))
}

/// Whether no exit has the direction `Nowhere` or the destination 0, and no
/// two exits have the same direction.
pub open spec fn exits_distinct(exits: Seq<Exit>) -> bool {
    &&& forall|i: int|
        0 <= i < exits.len() ==> (#[trigger] exits[i]).direction != Direction::Nowhere && exits[i].destination
            != 0
    &&& forall|i: int, j: int|
        0 <= i < j < exits.len() ==> (#[trigger] exits[i]).direction != (#[trigger] exits[j]).direction
}

/// Where an exit leads in a direction, it is one of the exits.
pub proof fn lemma_leads_to_exit(exits: Seq<Exit>, direction: Direction)
    requires
        leads_to(exits, direction) != 0,
    ensures
        exists|k: int|
            0 <= k < exits.len() && (#[trigger] exits[k]).destination == leads_to(exits, direction),
    decreases exits.len(),
{
    if !(exits[0].direction == direction) {
        let rest = exits.drop_first();
        lemma_leads_to_exit(rest, direction);
    }
}

/// Where there is no exit in a direction, no exit has that direction,
/// provided that every exit leads somewhere.
pub proof fn lemma_leads_nowhere(exits: Seq<Exit>, direction: Direction)
    requires
        forall|i: int| 0 <= i < exits.len() ==> (#[trigger] exits[i]).destination != 0,
        leads_to(exits, direction) == 0,
        direction != Direction::Nowhere,
    ensures
        forall|i: int| 0 <= i < exits.len() ==> (#[trigger] exits[i]).direction != direction,
    decreases exits.len(),
{
    if exits.len() > 0 {
        let rest = exits.drop_first();
        assert forall|i: int| 0 <= i < rest.len() implies (#[trigger] rest[i]).destination
            != 0 by {}
        lemma_leads_nowhere(rest, direction);
        assert forall|i: int| 0 <= i < exits.len() implies (#[trigger] exits[i]).direction
            != direction by {
            if i > 0 {
                assert(exits[i] == rest[i - 1]);
            }
        }
    }
}

/// The exits of a new room are distinct: at most one for each direction,
/// none for `Nowhere`, and none that leads to the room 0.
pub proof fn lemma_exits_from_distinct(pairs: Seq<(RoomId, Seq<char>)>)
    ensures
        exits_distinct(exits_from(pairs)),
    decreases pairs.len(),
{
    if pairs.len() > 0 {
        lemma_exits_from_distinct(pairs.drop_last());
        let before = exits_from(pairs.drop_last());
        let direction = direction_of(pairs.last().1);
        if !(pairs.last().0 == 0 || direction == Direction::Nowhere || leads_to(before, direction)
            != 0) {
            lemma_leads_nowhere(before, direction);
        }
    }
}

impl Direction {
    /// The name of the direction.
    pub open spec fn name(self) -> Seq<char> {
        match self {
            Direction::North => "North"@,
            Direction::South => "South"@,
            Direction::East => "East"@,
            Direction::West => "West"@,
            Direction::Nowhere => "Nowhere"@,
        }
    }

    /// Reads a direction word. Any word but the four gives `Nowhere`.
    pub fn from_str(input: &str) -> (direction: Direction)
        ensures
            direction == direction_of(input@),
    {
        if same_text(input, "North") {
            Direction::North
        } else if same_text(input, "East") {
            Direction::East
        } else if same_text(input, "West") {
            Direction::West
        } else if same_text(input, "South") {
            Direction::South
        } else {
            Direction::Nowhere
        }
    }

    fn name_text(&self) -> (name: &'static str)
        ensures
            name@ == self.name(),
    {
        match self {
            Direction::North => "North",
            Direction::South => "South",
            Direction::East => "East",
            Direction::West => "West",
            Direction::Nowhere => "Nowhere",
        }
    }
}

impl Exit {
    /// What `{:?}` prints for the exit.
    pub open spec fn debug(self) -> Seq<char> {
        "Exit { direction: "@ + self.direction.name() + ", destination: "@ + decimal(
            self.destination as nat,
        ) + " }"@
    }

    /// The room that the exit leads to.
    pub fn id(&self) -> (id: RoomId)
        ensures
            id == self.destination,
    {
        self.destination
    }

    /// The exit as `{:?}` prints it.
    pub fn debug_string(&self) -> (out: String)
        ensures
            out@ == self.debug(),
    {
        let mut out: String = "Exit { direction: ".to_owned();
        out.append(self.direction.name_text());
        out.append(", destination: ");
        out.append(decimal_text(self.destination).as_str());
        out.append(" }");
        out
    }
}

/// What `{:?}` prints for each exit in turn, a space before and behind it.
pub open spec fn exits_text(exits: Seq<Exit>) -> Seq<char>
    decreases exits.len(),
{
    if exits.len() == 0 {
        Seq::empty()
    } else {
        exits_text(exits.drop_last()) + " "@ + exits.last().debug() + " "@
    }
}

impl RoomView {
    /// The room after a search: what was hidden lies in sight, behind what
    /// lay there before.
    pub open spec fn searched(self) -> RoomView {
        RoomView { visible: self.visible + self.hidden, hidden: Seq::empty(), ..self }
    }

    /// The room with one more item in sight.
    pub open spec fn with_item(self, item: ItemView) -> RoomView {
        RoomView { visible: self.visible.push(item), ..self }
    }

    /// The room with more items in sight.
    pub open spec fn with_items(self, items: Seq<ItemView>) -> RoomView {
        RoomView { visible: self.visible + items, ..self }
    }

    /// The room without the first item in sight that is called `name`.
    pub open spec fn without_item(self, name: Seq<char>) -> RoomView {
        match position(self.visible, name) {
            Some(i) => RoomView { visible: self.visible.remove(i), ..self },
            None => self,
        }
    }

    /// What is said when the item called `name` is taken from the room.
    pub open spec fn move_item_text(self, name: Seq<char>) -> Seq<char> {
        if position(self.visible, name) is Some {
            "Item '"@ + name + "' has been moved to your backpack.\n"@
        } else {
            "Item '"@ + name + "' not found in the room's visible items.\n"@
        }
    }

    /// The text that shows the room.
    pub open spec fn show_text(self) -> Seq<char> {
        self.name + "\n"@ + self.description + "\n"@ + "\nVisible items: "@ + debug_each(
            self.visible,
            " "@,
            " "@,
        ) + "\nAvailable exits: "@ + exits_text(self.exits)
    }
}

impl View for Room {
    type V = RoomView;

    closed spec fn view(&self) -> RoomView {
        RoomView {
            id: self.id,
            name: self.name@,
            description: self.description@,
            exits: self.exits@,
            visible: item_views(self.visible_items@),
            hidden: item_views(self.invisible_items@),
        }
    }
}

impl Room {
    /// Makes a room. Its exits are made from `exits_in`, a list of pairs of
    /// a destination and a direction word; see [`exits_from`].
    pub fn new(
        id: RoomId,
        name: &str,
        description: &str,
        vis_items: &[Item],
        invis_items: &[Item],
        exits_in: &[(RoomId, String)],
    ) -> (room: Room)
        ensures
            room@ == (RoomView {
                id,
                name: name@,
                description: description@,
                exits: exits_from(pair_views(exits_in@)),
                visible: item_views(vis_items@),
                hidden: item_views(invis_items@),
            }),
            exits_distinct(room@.exits),
    {
        proof {
            lemma_exits_from_distinct(pair_views(exits_in@));
        }
        let mut exits: Vec<Exit> = Vec::new();
        let mut i: usize = 0;
        while i < exits_in.len()
            invariant
                i <= exits_in@.len(),
                exits@ == exits_from(pair_views(exits_in@).take(i as int)),
            decreases exits_in@.len() - i,
        {
            let ghost done = pair_views(exits_in@).take(i as int);
            let ghost next = pair_views(exits_in@).take(i + 1);
            assert(next.drop_last() =~= done);
            let destination: RoomId = exits_in[i].0;
            let direction: Direction = Direction::from_str(exits_in[i].1.as_str());
            if destination != 0 && direction != Direction::Nowhere && first_exit(&exits, direction)
                == 0 {
                exits.push(Exit { direction, destination });
            }
            i = i + 1;
        }
        assert(pair_views(exits_in@).take(i as int) =~= pair_views(exits_in@));
        Room {
            id,
            name: name.to_owned(),
            description: description.to_owned(),
            exits,
            visible_items: clone_items(vis_items),
            invisible_items: clone_items(invis_items),
        }
    }

    /// Shows the room: its name, its description, the items in sight and the
    /// exits.
    pub fn show(&self) -> (out: String)
        ensures
            out@ == self@.show_text(),
    {
        let mut out: String = self.name.clone();
        out.append("\n");
        out.append(self.description.as_str());
        out.append("\n");
        out.append("\nVisible items: ");
        out.append(debug_items_each(&self.visible_items, " ", " ").as_str());
        out.append("\nAvailable exits: ");
        let mut i: usize = 0;
        let ghost head = out@;
        while i < self.exits.len()
            invariant
                i <= self.exits@.len(),
                out@ == head + exits_text(self.exits@.take(i as int)),
            decreases self.exits@.len() - i,
        {
            let ghost done = self.exits@.take(i as int);
            let ghost next = self.exits@.take(i + 1);
            assert(next.drop_last() =~= done);
            out.append(" ");
            out.append(self.exits[i].debug_string().as_str());
            out.append(" ");
            i = i + 1;
        }
        assert(self.exits@.take(i as int) =~= self.exits@);
        out
    }

    /// The number of the room.
    pub fn get_id(&self) -> (id: RoomId)
        ensures
            id == self@.id,
    {
        self.id
    }

    /// The exits of the room.
    pub fn get_exits(&self) -> (exits: &Vec<Exit>)
        ensures
            exits@ == self@.exits,
    {
        &self.exits
    }

    /// The items in sight.
    pub fn visible_items(&self) -> (items: &Vec<Item>)
        ensures
            item_views(items@) == self@.visible,
    {
        &self.visible_items
    }

    /// The items that a search would bring to light.
    pub fn invisible_items(&self) -> (items: &Vec<Item>)
        ensures
            item_views(items@) == self@.hidden,
    {
        &self.invisible_items
    }

    /// Brings the hidden items in sight.
    pub fn move_invis_to_visible_items(&mut self)
        ensures
            final(self)@ == old(self)@.searched(),
    {
        self.visible_items.append(&mut self.invisible_items);
    }

    /// The room to which the exit in `new_direction` leads, or 0 where the
    /// room has no such exit. There is never an exit in the direction
    /// `Nowhere`.
    pub fn check_direction(&self, new_direction: &Direction) -> (destination: RoomId)
        ensures
            destination == leads_to(self@.exits, *new_direction),
    {
        first_exit(&self.exits, *new_direction)
    }

    /// Lays an item in sight, behind the others.
    pub fn insert_item(&mut self, item: Item)
        ensures
            final(self)@ == old(self)@.with_item(item@),
    {
        self.visible_items.push(item);
    }

    /// Lays items in sight, behind the others and in their order.
    pub fn insert_items(&mut self, items: Vec<Item>)
        ensures
            final(self)@ == old(self)@.with_items(item_views(items@)),
    {
        let mut rest: Vec<Item> = items;
        self.visible_items.append(&mut rest);
    }

    /// Takes the first item in sight that is called `item_name` out of the
    /// room, and says what happened.
    pub fn move_item(&mut self, item_name: &str) -> (taken: (Option<Item>, String))
        ensures
            final(self)@ == old(self)@.without_item(item_name@),
            taken.1@ == old(self)@.move_item_text(item_name@),
            match position(old(self)@.visible, item_name@) {
                Some(i) => taken.0 is Some && taken.0->0@ == old(self)@.visible[i],
                None => taken.0 is None,
            },
    {
        match find_item(&self.visible_items, item_name) {
            Some(at) => {
                let item: Item = self.visible_items.remove(at);
                let mut out: String = "Item '".to_owned();
                out.append(item_name);
                out.append("' has been moved to your backpack.\n");
                (Some(item), out)
            },
            None => {
                let mut out: String = "Item '".to_owned();
                out.append(item_name);
                out.append("' not found in the room's visible items.\n");
                (None, out)
            },
        }
    }
}

/// Looks for the first exit in `direction`.
fn first_exit(exits: &Vec<Exit>, direction: Direction) -> (destination: RoomId)
    ensures
        destination == leads_to(exits@, direction),
{
    if direction == Direction::Nowhere {
        return 0;
    }
    let mut i: usize = 0;
    assert(exits@.skip(0) =~= exits@);
    while i < exits.len()
        invariant
            i <= exits@.len(),
            direction != Direction::Nowhere,
            leads_to(exits@, direction) == leads_to(exits@.skip(i as int), direction),
        decreases exits@.len() - i,
    {
        if exits[i].direction == direction {
            return exits[i].destination;
        }
        assert(exits@.skip(i as int).drop_first() =~= exits@.skip(i + 1));
        i = i + 1;
    }
    0
}

} // verus!
