//! The story: the locations of the game and the catalog, and how the rooms
//! and the enemies of a world are made of them.

use crate::database::object_position;
use crate::database::object_views;
use crate::database::template_position;
use crate::database::TemplateView;
use crate::enemy::Enemy;
use crate::enemy::EnemyView;
use crate::player::slot_view;
use crate::room::exits_from;
use crate::room::pair_views;
use crate::room::Room;
use crate::room::RoomId;
use crate::room::RoomView;
use crate::search::first_where;
use crate::search::lemma_first_where_is;
use crate::search::lemma_first_where_none;
use crate::text::same_text;
use crate::world::enemy_views;
use crate::world::room_views;
use vstd::string::StringExecFns;
use crate::database::Database;
use crate::database::DatabaseView;
use crate::database::Object;
use crate::database::ObjectView;
use crate::dice::clamp;
use crate::dice::Dice;
use crate::name_generator::bumped;
use crate::name_generator::numbered;
use crate::name_generator::Counts;
use crate::name_generator::NameGenerator;
use crate::objects::item_views;
use crate::objects::lemma_type_words_differ;
use crate::objects::rolled_part;
use crate::objects::kind_for;
use crate::objects::uses_range;
use crate::objects::Item;
use crate::objects::ItemFactory;
use crate::objects::ItemView;
use crate::text::number;
use crate::text::parse_number;
use crate::text::split_at;
use crate::text::split_on;
use crate::text::trim;
use crate::text::trimmed;
use crate::text::views;
use vstd::prelude::*;

verus! {

/// A location of the story: its number, the numbers of the locations that
/// lie in the four directions, the keys of the enemies that wait there and
/// of the objects that lie there hidden and in sight, each list with `;`
/// between the keys, its name and its description.
#[derive(Debug)]
pub struct Locatie {
    pub id: u32,
    pub noord: Option<u32>,
    pub oost: Option<u32>,
    pub zuid: Option<u32>,
    pub west: Option<u32>,
    pub vijand: Option<String>,
    pub objectenverborgen: Option<String>,
    pub objectenzichtbaar: Option<String>,
    pub naam: String,
    pub beschrijving: String,
}

/// A location as contracts see it.
#[verifier::ext_equal]
pub struct LocatieView {
    pub id: u32,
    pub noord: Option<u32>,
    pub oost: Option<u32>,
    pub zuid: Option<u32>,
    pub west: Option<u32>,
    pub vijand: Option<Seq<char>>,
    pub objectenverborgen: Option<Seq<char>>,
    pub objectenzichtbaar: Option<Seq<char>>,
    pub naam: Seq<char>,
    pub beschrijving: Seq<char>,
}

/// The view of a text that may be missing.
pub open spec fn text_view(text: Option<String>) -> Option<Seq<char>> {
    match text {
        Some(s) => Some(s@),
        None => None,
    }
}

impl View for Locatie {
    type V = LocatieView;

    open spec fn view(&self) -> LocatieView {
        LocatieView {
            id: self.id,
            noord: self.noord,
            oost: self.oost,
            zuid: self.zuid,
            west: self.west,
            vijand: text_view(self.vijand),
            objectenverborgen: text_view(self.objectenverborgen),
            objectenzichtbaar: text_view(self.objectenzichtbaar),
            naam: self.naam@,
            beschrijving: self.beschrijving@,
        }
    }
}

/// What a reader of markup comes upon, one after the other: the start of an
/// element with its attributes, text, the end of an element, the end of
/// the document, a fault, or anything else.
#[derive(Debug)]
pub enum XmlEvent {
    /// The start of the element `name`; each attribute is a key and a value.
    Start { name: String, attributes: Vec<(String, String)> },
    /// Text that is `len` bytes long as it stands in the document, and what
    /// it says once its escapes are resolved, if they can be.
    Text { len: usize, unescaped: Option<String> },
    /// The end of the element `name`.
    End { name: String },
    /// The end of the document.
    Eof,
    /// The document is at fault here.
    Failed,
    /// Anything else.
    Other,
}

/// An event as contracts see it.
pub enum XmlEventView {
    Start { name: Seq<char>, attributes: Seq<(Seq<char>, Seq<char>)> },
    Text { len: usize, unescaped: Option<Seq<char>> },
    End { name: Seq<char> },
    Eof,
    Failed,
    Other,
}

/// The views of a list of attributes.
pub open spec fn attribute_views(attributes: Seq<(String, String)>) -> Seq<
    (Seq<char>, Seq<char>),
> {
    attributes.map_values(|pair: (String, String)| (pair.0@, pair.1@))
}

impl View for XmlEvent {
    type V = XmlEventView;

    open spec fn view(&self) -> XmlEventView {
        match self {
            XmlEvent::Start { name, attributes } => XmlEventView::Start {
                name: name@,
                attributes: attribute_views(attributes@),
            },
            XmlEvent::Text { len, unescaped } => XmlEventView::Text {
                len: *len,
                unescaped: text_view(*unescaped),
            },
            XmlEvent::End { name } => XmlEventView::End { name: name@ },
            XmlEvent::Eof => XmlEventView::Eof,
            XmlEvent::Failed => XmlEventView::Failed,
            XmlEvent::Other => XmlEventView::Other,
        }
    }
}

/// The views of a list of events.
pub open spec fn event_views(events: Seq<XmlEvent>) -> Seq<XmlEventView> {
    events.map_values(|event: XmlEvent| event@)
}

/// A location of which nothing is known yet.
pub open spec fn blank() -> LocatieView {
    LocatieView {
        id: 0,
        noord: None,
        oost: None,
        zuid: None,
        west: None,
        vijand: None,
        objectenverborgen: None,
        objectenzichtbaar: None,
        naam: Seq::empty(),
        beschrijving: Seq::empty(),
    }
}

/// The number that an attribute's value writes; 0 where it writes none.
pub open spec fn number_or_zero(value: Seq<char>) -> u32 {
    match number(value) {
        Some(n) => n,
        None => 0,
    }
}

/// The location after one attribute was read. An attribute with any other
/// key than those of a location changes nothing.
pub open spec fn with_attribute(locatie: LocatieView, key: Seq<char>, value: Seq<char>) -> LocatieView {
    if key == "id"@ {
        LocatieView { id: number_or_zero(value), ..locatie }
    } else if key == "noord"@ {
        LocatieView { noord: Some(number_or_zero(value)), ..locatie }
    } else if key == "oost"@ {
        LocatieView { oost: Some(number_or_zero(value)), ..locatie }
    } else if key == "zuid"@ {
        LocatieView { zuid: Some(number_or_zero(value)), ..locatie }
    } else if key == "west"@ {
        LocatieView { west: Some(number_or_zero(value)), ..locatie }
    } else if key == "vijand"@ {
        LocatieView { vijand: Some(value), ..locatie }
    } else if key == "objectenverborgen"@ {
        LocatieView { objectenverborgen: Some(value), ..locatie }
    } else if key == "objectenzichtbaar"@ {
        LocatieView { objectenzichtbaar: Some(value), ..locatie }
    } else if key == "naam"@ {
        LocatieView { naam: value, ..locatie }
    } else {
        locatie
    }
}

/// The location after the attributes were read in their order.
pub open spec fn with_attributes(
    locatie: LocatieView,
    attributes: Seq<(Seq<char>, Seq<char>)>,
) -> LocatieView
    decreases attributes.len(),
{
    if attributes.len() == 0 {
        locatie
    } else {
        with_attribute(
            with_attributes(locatie, attributes.drop_last()),
            attributes.last().0,
            attributes.last().1,
        )
    }
}

/// How far the reading of a document has come: the location that is being
/// read, the locations that were read to their end, and whether the
/// reading is over.
#[verifier::ext_equal]
pub struct Reading {
    pub current: LocatieView,
    pub done: Seq<LocatieView>,
    pub over: bool,
}

/// The reading after one more event. The start of a `locatie` begins a new
/// location with the attributes of the element; text of more than 30 bytes
/// is the description of the location that is being read; the end of a
/// `locatie` puts that location behind those that were read; the end of
/// the document and a fault end the reading, and nothing that comes after
/// them is read.
pub open spec fn after_event(reading: Reading, event: XmlEventView) -> Reading {
    if reading.over {
        reading
    } else {
        match event {
            XmlEventView::Start { name, attributes } => if name == "locatie"@ {
                Reading { current: with_attributes(blank(), attributes), ..reading }
            } else {
                reading
            },
            XmlEventView::Text { len, unescaped } => match unescaped {
                Some(text) => if len > 30 {
                    Reading {
                        current: LocatieView { beschrijving: text, ..reading.current },
                        ..reading
                    }
                } else {
                    reading
                },
                None => reading,
            },
            XmlEventView::End { name } => if name == "locatie"@ {
                Reading { done: reading.done.push(reading.current), ..reading }
            } else {
                reading
            },
            XmlEventView::Eof => Reading { over: true, ..reading },
            XmlEventView::Failed => Reading { over: true, ..reading },
            XmlEventView::Other => reading,
        }
    }
}

/// The reading after the events were read in their order.
pub open spec fn read(events: Seq<XmlEventView>) -> Reading
    decreases events.len(),
{
    if events.len() == 0 {
        Reading { current: blank(), done: Seq::empty(), over: false }
    } else {
        after_event(read(events.drop_last()), events.last())
    }
}

/// The story.
pub struct Story {
    locaties: Vec<Locatie>,
    db: Database,
}

/// The story as contracts see it.
#[verifier::ext_equal]
pub struct StoryView {
    pub locaties: Seq<LocatieView>,
    pub db: DatabaseView,
}

/// The views of a list of locations.
pub open spec fn locatie_views(locaties: Seq<Locatie>) -> Seq<LocatieView> {
    locaties.map_values(|locatie: Locatie| locatie@)
}

/// The keys of a list of objects: the pieces between the `;` of the list
/// without the white space at its ends. A missing list has no keys.
pub open spec fn object_keys(list: Option<Seq<char>>) -> Seq<Seq<char>> {
    match list {
        Some(s) => split_on(trimmed(s), ';'),
        None => Seq::empty(),
    }
}

/// Whether an item can be made of the object when the names were asked for
/// as `counts` tells: where the first two numbers of the object are read as
/// a range, the first is not above the second, and its name can be asked
/// for once more.
pub open spec fn usable_object(object: ObjectView, counts: Counts) -> bool {
    &&& uses_range(object.type_obj) ==> object.extra_parameters.0 <= object.extra_parameters.1
    &&& counts(object.name) < u32::MAX
}

/// The item that is made of the object when the names were asked for as
/// `counts` tells and `roll` was drawn for it: its name is the object's,
/// numbered where it was handed out before, and where its kind holds a
/// rolled amount, that is the value of the object's range nearest to
/// `roll`.
pub open spec fn item_of(object: ObjectView, counts: Counts, roll: u32) -> ItemView {
    ItemView {
        name: numbered(object.name, counts(object.name)),
        description: object.description,
        kind: kind_for(
            object.type_obj,
            object.extra_parameters,
            clamp(
                roll as int,
                object.extra_parameters.0 as int,
                object.extra_parameters.1 as int,
            ) as u32,
        ),
    }
}

/// The object that the key names, where an item can be made of it: the
/// first object of the catalog that is called so, if it is usable.
pub open spec fn object_for(objects: Seq<ObjectView>, key: Seq<char>, counts: Counts) -> Option<
    ObjectView,
> {
    match object_position(objects, key) {
        Some(i) => if usable_object(objects[i], counts) {
            Some(objects[i])
        } else {
            None
        },
        None => None,
    }
}

/// What the dice gave at the place `i`.
pub open spec fn roll_at(rolls: spec_fn(int) -> u32, i: int) -> u32 {
    rolls(i)
}

/// The items made for the keys, in their order, and the counts of the names
/// afterwards. For the key at index `i` the dice gave `roll_at(rolls, i)`.
/// A key makes no item where the catalog has no usable object of that name.
pub open spec fn filled(
    objects: Seq<ObjectView>,
    keys: Seq<Seq<char>>,
    counts: Counts,
    rolls: spec_fn(int) -> u32,
) -> (Seq<ItemView>, Counts)
    decreases keys.len(),
{
    if keys.len() == 0 {
        (Seq::empty(), counts)
    } else {
        let before = filled(objects, keys.drop_last(), counts, rolls);
        match object_for(objects, keys.last(), before.1) {
            Some(object) => (
                before.0.push(item_of(object, before.1, roll_at(rolls, keys.len() - 1))),
                bumped(before.1, object.name),
            ),
            None => before,
        }
    }
}

/// The items made for keys depend on the rolls for these keys alone.
pub proof fn lemma_filled_rolls(
    objects: Seq<ObjectView>,
    keys: Seq<Seq<char>>,
    counts: Counts,
    rolls: spec_fn(int) -> u32,
    others: spec_fn(int) -> u32,
)
    requires
        forall|i: int| 0 <= i < keys.len() ==> #[trigger] roll_at(rolls, i) == roll_at(others, i),
    ensures
        filled(objects, keys, counts, rolls) == filled(objects, keys, counts, others),
    decreases keys.len(),
{
    if keys.len() > 0 {
        lemma_filled_rolls(objects, keys.drop_last(), counts, rolls, others);
    }
}

/// The rolls of dice that are loaded on `roll`.
pub open spec fn loaded(roll: u32) -> spec_fn(int) -> u32 {
    |i: int| roll
}

/// The number of the location in a direction; 0 where none lies there.
pub open spec fn way(target: Option<u32>) -> RoomId {
    match target {
        Some(id) => id,
        None => 0,
    }
}

/// The pairs of a destination and a direction word of which the exits of
/// the location's room are made.
pub open spec fn exit_pairs(locatie: LocatieView) -> Seq<(RoomId, Seq<char>)> {
    seq![
        (way(locatie.noord), "North"@),
        (way(locatie.oost), "East"@),
        (way(locatie.zuid), "South"@),
        (way(locatie.west), "West"@),
    ]
}

/// What the dice give while the items of one room are made: the rolls for
/// the items in sight and the rolls for the hidden items.
pub type RoomRolls = (spec_fn(int) -> u32, spec_fn(int) -> u32);

/// What the dice gave for the room of the location at index `i`.
pub open spec fn room_rolls_at(draws: spec_fn(int) -> RoomRolls, i: int) -> RoomRolls {
    draws(i)
}

/// The room made of a location when the names were asked for as `counts`
/// tells, and the counts afterwards: first the items in sight are made,
/// then the hidden ones, then the room is named. No room is made where the
/// name of the location cannot be asked for once more.
pub open spec fn room_of(
    objects: Seq<ObjectView>,
    locatie: LocatieView,
    counts: Counts,
    rolls: RoomRolls,
) -> (Option<RoomView>, Counts) {
    let visible = filled(objects, object_keys(locatie.objectenzichtbaar), counts, rolls.0);
    let hidden = filled(objects, object_keys(locatie.objectenverborgen), visible.1, rolls.1);
    if hidden.1(locatie.naam) < u32::MAX {
        (
            Some(
                RoomView {
                    id: locatie.id,
                    name: numbered(locatie.naam, hidden.1(locatie.naam)),
                    description: locatie.beschrijving,
                    exits: exits_from(exit_pairs(locatie)),
                    visible: visible.0,
                    hidden: hidden.0,
                },
            ),
            bumped(hidden.1, locatie.naam),
        )
    } else {
        (None, hidden.1)
    }
}

/// The rooms made of the first `n` locations, in their order, and the
/// counts of the names afterwards.
pub open spec fn rooms_made(
    story: StoryView,
    n: nat,
    counts: Counts,
    draws: spec_fn(int) -> RoomRolls,
) -> (Seq<RoomView>, Counts)
    decreases n,
{
    if n == 0 {
        (Seq::empty(), counts)
    } else {
        let before = rooms_made(story, (n - 1) as nat, counts, draws);
        let room = room_of(
            story.db.objects,
            story.locaties[n - 1],
            before.1,
            room_rolls_at(draws, n - 1),
        );
        match room.0 {
            Some(view) => (before.0.push(view), room.1),
            None => (before.0, room.1),
        }
    }
}

/// The rooms made of locations depend on the rolls for these locations
/// alone.
pub proof fn lemma_rooms_made_draws(
    story: StoryView,
    n: nat,
    counts: Counts,
    draws: spec_fn(int) -> RoomRolls,
    others: spec_fn(int) -> RoomRolls,
)
    requires
        forall|i: int| 0 <= i < n ==> #[trigger] room_rolls_at(draws, i) == room_rolls_at(others, i),
    ensures
        rooms_made(story, n, counts, draws) == rooms_made(story, n, counts, others),
    decreases n,
{
    if n > 0 {
        lemma_rooms_made_draws(story, (n - 1) as nat, counts, draws, others);
    }
}

/// What the dice give while the items that an enemy carries are made: the
/// roll for their number, and for each of them the roll that picks its
/// object and the roll for its amount.
pub struct LootDraws {
    pub count: u32,
    pub picks: spec_fn(int) -> int,
    pub rolls: spec_fn(int) -> u32,
}

/// The pick that the dice gave at the place `i`.
pub open spec fn pick_at(picks: spec_fn(int) -> int, i: int) -> int {
    picks(i)
}

/// The first `n` items that an enemy carries, and the counts of the names
/// afterwards. For each of them the dice pick an object among all the
/// objects of the catalog, the one whose index is nearest to the pick. An
/// object that is not usable makes no item, and an empty catalog makes
/// none at all.
pub open spec fn looted(objects: Seq<ObjectView>, counts: Counts, n: nat, draws: LootDraws) -> (
    Seq<ItemView>,
    Counts,
)
    decreases n,
{
    if n == 0 || objects.len() == 0 {
        (Seq::empty(), counts)
    } else {
        let before = looted(objects, counts, (n - 1) as nat, draws);
        let object = objects[clamp(pick_at(draws.picks, n - 1), 0, objects.len() - 1)];
        if usable_object(object, before.1) {
            (
                before.0.push(item_of(object, before.1, roll_at(draws.rolls, n - 1))),
                bumped(before.1, object.name),
            )
        } else {
            before
        }
    }
}

/// The items that an enemy carries when their number is to lie between
/// `range.0` and `range.1`: as many are tried as the value of that range
/// nearest to the roll for their number.
pub open spec fn loot(
    objects: Seq<ObjectView>,
    counts: Counts,
    range: (u32, u32),
    draws: LootDraws,
) -> (Seq<ItemView>, Counts) {
    looted(
        objects,
        counts,
        clamp(draws.count as int, range.0 as int, range.1 as int) as nat,
        draws,
    )
}

/// The first items that an enemy carries depend on the draws for these
/// items alone.
pub proof fn lemma_looted_draws(
    objects: Seq<ObjectView>,
    counts: Counts,
    n: nat,
    draws: LootDraws,
    others: LootDraws,
)
    requires
        forall|i: int| 0 <= i < n ==> #[trigger] pick_at(draws.picks, i) == pick_at(others.picks, i),
        forall|i: int| 0 <= i < n ==> #[trigger] roll_at(draws.rolls, i) == roll_at(others.rolls, i),
    ensures
        looted(objects, counts, n, draws) == looted(objects, counts, n, others),
    decreases n,
{
    if n > 0 && objects.len() > 0 {
        lemma_looted_draws(objects, counts, (n - 1) as nat, draws, others);
    }
}

/// The draws of dice that are loaded on `roll`.
pub open spec fn loaded_loot(roll: u32) -> LootDraws {
    LootDraws { count: roll, picks: |i: int| roll as int, rolls: |i: int| roll }
}

/// The keys of a list of enemies: the pieces between the `;` of the list.
/// A missing list has no keys.
pub open spec fn enemy_keys(list: Option<Seq<char>>) -> Seq<Seq<char>> {
    match list {
        Some(s) => split_on(s, ';'),
        None => Seq::empty(),
    }
}

/// Whether an enemy can be made of the catalog enemy when the names were
/// asked for as `counts` tells: its damage and the number of its items
/// each have their lower bound not above the upper one, and its name can
/// be asked for once more.
pub open spec fn usable_template(template: TemplateView, counts: Counts) -> bool {
    &&& template.minimum_damage <= template.maximum_damage
    &&& template.minimum_objects <= template.maximum_objects
    &&& counts(template.name) < u32::MAX
}

/// The catalog enemy that the key names, where an enemy can be made of it:
/// the first enemy of the catalog that is called so, if it is usable.
pub open spec fn template_for(enemies: Seq<TemplateView>, key: Seq<char>, counts: Counts) -> Option<
    TemplateView,
> {
    match template_position(enemies, key) {
        Some(i) => if usable_template(enemies[i], counts) {
            Some(enemies[i])
        } else {
            None
        },
        None => None,
    }
}

/// What the dice gave for the items of the enemy at the place `i`.
pub open spec fn loot_at(draws: spec_fn(int) -> LootDraws, i: int) -> LootDraws {
    draws(i)
}

/// The enemy made of a catalog enemy for the room `room`, and the counts
/// of the names afterwards: first the enemy is named, then the items that
/// it carries are made.
pub open spec fn enemy_of(
    objects: Seq<ObjectView>,
    template: TemplateView,
    room: RoomId,
    counts: Counts,
    draws: LootDraws,
) -> (EnemyView, Counts) {
    let items = loot(
        objects,
        bumped(counts, template.name),
        (template.minimum_objects, template.maximum_objects),
        draws,
    );
    (
        EnemyView {
            room,
            name: numbered(template.name, counts(template.name)),
            description: template.description,
            hp: template.hp,
            minimum_damage: template.minimum_damage,
            maximum_damage: template.maximum_damage,
            items: items.0,
        },
        items.1,
    )
}

/// The enemies made for the keys of one location, in their order, and the
/// counts of the names afterwards. A key makes no enemy where the catalog
/// has no usable enemy of that name.
pub open spec fn enemies_at(
    db: DatabaseView,
    room: RoomId,
    keys: Seq<Seq<char>>,
    counts: Counts,
    draws: spec_fn(int) -> LootDraws,
) -> (Seq<EnemyView>, Counts)
    decreases keys.len(),
{
    if keys.len() == 0 {
        (Seq::empty(), counts)
    } else {
        let before = enemies_at(db, room, keys.drop_last(), counts, draws);
        match template_for(db.enemies, keys.last(), before.1) {
            Some(template) => {
                let made = enemy_of(
                    db.objects,
                    template,
                    room,
                    before.1,
                    loot_at(draws, keys.len() - 1),
                );
                (before.0.push(made.0), made.1)
            },
            None => before,
        }
    }
}

/// The enemies of a location depend on the draws for its keys alone.
pub proof fn lemma_enemies_at_draws(
    db: DatabaseView,
    room: RoomId,
    keys: Seq<Seq<char>>,
    counts: Counts,
    draws: spec_fn(int) -> LootDraws,
    others: spec_fn(int) -> LootDraws,
)
    requires
        forall|i: int| 0 <= i < keys.len() ==> #[trigger] loot_at(draws, i) == loot_at(others, i),
    ensures
        enemies_at(db, room, keys, counts, draws) == enemies_at(db, room, keys, counts, others),
    decreases keys.len(),
{
    if keys.len() > 0 {
        lemma_enemies_at_draws(db, room, keys.drop_last(), counts, draws, others);
    }
}

/// What the dice gave for the enemies of the location at index `i`.
pub open spec fn row_at(draws: spec_fn(int) -> spec_fn(int) -> LootDraws, i: int) -> spec_fn(
    int,
) -> LootDraws {
    draws(i)
}

/// The enemies made of the first `n` locations, in their order, and the
/// counts of the names afterwards.
pub open spec fn enemies_made(
    story: StoryView,
    n: nat,
    counts: Counts,
    draws: spec_fn(int) -> spec_fn(int) -> LootDraws,
) -> (Seq<EnemyView>, Counts)
    decreases n,
{
    if n == 0 {
        (Seq::empty(), counts)
    } else {
        let before = enemies_made(story, (n - 1) as nat, counts, draws);
        let here = enemies_at(
            story.db,
            story.locaties[n - 1].id,
            enemy_keys(story.locaties[n - 1].vijand),
            before.1,
            row_at(draws, n - 1),
        );
        (before.0 + here.0, here.1)
    }
}

/// The enemies made of locations depend on the draws for these locations
/// alone.
pub proof fn lemma_enemies_made_draws(
    story: StoryView,
    n: nat,
    counts: Counts,
    draws: spec_fn(int) -> spec_fn(int) -> LootDraws,
    others: spec_fn(int) -> spec_fn(int) -> LootDraws,
)
    requires
        forall|i: int| 0 <= i < n ==> #[trigger] row_at(draws, i) == row_at(others, i),
    ensures
        enemies_made(story, n, counts, draws) == enemies_made(story, n, counts, others),
    decreases n,
{
    if n > 0 {
        lemma_enemies_made_draws(story, (n - 1) as nat, counts, draws, others);
    }
}

/// The index of the first weapon of the catalog, if there is one.
pub open spec fn first_weapon(objects: Seq<ObjectView>) -> Option<int> {
    first_where(objects, |object: ObjectView| object.type_obj == "wapen"@)
}

impl View for Story {
    type V = StoryView;

    closed spec fn view(&self) -> StoryView {
        StoryView { locaties: locatie_views(self.locaties@), db: self.db@ }
    }
}

impl StoryView {
    /// Whether making the rooms can lead from the counts `counts` to the
    /// rooms `rooms` and the counts `after`.
    pub open spec fn may_make_rooms(self, counts: Counts, rooms: Seq<RoomView>, after: Counts) -> bool {
        exists|draws: spec_fn(int) -> RoomRolls|
            (rooms, after) == #[trigger] rooms_made(self, self.locaties.len(), counts, draws)
    }

    /// Whether making the items that an enemy carries, their number between
    /// `range.0` and `range.1`, can lead from the counts `counts` to the
    /// items `items` and the counts `after`.
    pub open spec fn may_loot(
        self,
        range: (u32, u32),
        counts: Counts,
        items: Seq<ItemView>,
        after: Counts,
    ) -> bool {
        exists|draws: LootDraws|
            (items, after) == #[trigger] loot(self.db.objects, counts, range, draws)
    }

    /// Whether making the enemies of one location can lead from the counts
    /// `counts` to the enemies `enemies` and the counts `after`.
    pub open spec fn may_make_enemies_at(
        self,
        locatie: LocatieView,
        counts: Counts,
        enemies: Seq<EnemyView>,
        after: Counts,
    ) -> bool {
        exists|draws: spec_fn(int) -> LootDraws|
            (enemies, after) == #[trigger] enemies_at(
                self.db,
                locatie.id,
                enemy_keys(locatie.vijand),
                counts,
                draws,
            )
    }

    /// Whether making the enemies can lead from the counts `counts` to the
    /// enemies `enemies` and the counts `after`.
    pub open spec fn may_make_enemies(
        self,
        counts: Counts,
        enemies: Seq<EnemyView>,
        after: Counts,
    ) -> bool {
        exists|draws: spec_fn(int) -> spec_fn(int) -> LootDraws|
            (enemies, after) == #[trigger] enemies_made(self, self.locaties.len(), counts, draws)
    }

    /// The weapon with which the player starts, when the names were asked
    /// for as `counts` tells: the item made of the first weapon of the
    /// catalog, if that is usable.
    pub open spec fn starting_weapon(self, counts: Counts) -> Option<ItemView> {
        match first_weapon(self.db.objects) {
            Some(i) => if usable_object(self.db.objects[i], counts) {
                Some(item_of(self.db.objects[i], counts, 0))
            } else {
                None
            },
            None => None,
        }
    }

    /// Whether making the items for a list of object keys can lead from
    /// the counts `counts` to the items `items` and the counts `after`.
    pub open spec fn may_fill(
        self,
        list: Option<Seq<char>>,
        counts: Counts,
        items: Seq<ItemView>,
        after: Counts,
    ) -> bool {
        exists|rolls: spec_fn(int) -> u32|
            (items, after) == #[trigger] filled(self.db.objects, object_keys(list), counts, rolls)
    }
}

impl Story {
    /// Reads the locations of a document from its events, in the order in
    /// which their elements end.
    pub fn read_locaties(events: &Vec<XmlEvent>) -> (locaties: Vec<Locatie>)
        ensures
            locatie_views(locaties@) == read(event_views(events@)).done,
    {
        let mut locaties: Vec<Locatie> = Vec::new();
        let mut current: Locatie = empty_locatie();
        let mut over: bool = false;
        let mut i: usize = 0;
        while i < events.len()
            invariant
                i <= events@.len(),
                read(event_views(events@).take(i as int)) == (Reading {
                    current: current@,
                    done: locatie_views(locaties@),
                    over,
                }),
            decreases events@.len() - i,
        {
            let ghost done = event_views(events@).take(i as int);
            let ghost next = event_views(events@).take(i + 1);
            assert(next.drop_last() =~= done);
            if !over {
                match &events[i] {
                    XmlEvent::Start { name, attributes } => {
                        if same_text(name.as_str(), "locatie") {
                            current = locatie_with(attributes);
                        }
                    },
                    XmlEvent::Text { len, unescaped } => {
                        match unescaped {
                            Some(text) => {
                                if *len > 30 {
                                    current.beschrijving = text.clone();
                                }
                            },
                            None => {},
                        }
                    },
                    XmlEvent::End { name } => {
                        if same_text(name.as_str(), "locatie") {
                            let copy: Locatie = copy_locatie(&current);
                            locaties.push(copy);
                        }
                    },
                    XmlEvent::Eof => {
                        over = true;
                    },
                    XmlEvent::Failed => {
                        over = true;
                    },
                    XmlEvent::Other => {},
                }
            }
            i = i + 1;
        }
        assert(event_views(events@).take(i as int) =~= event_views(events@));
        locaties
    }

    /// Makes a story of the given locations and catalog.
    pub fn new(locaties: Vec<Locatie>, db: Database) -> (story: Story)
        ensures
            story@ == (StoryView { locaties: locatie_views(locaties@), db: db@ }),
    {
        Story { locaties, db }
    }

    /// The locations.
    pub fn locaties(&self) -> (locaties: &Vec<Locatie>)
        ensures
            locatie_views(locaties@) == self@.locaties,
    {
        &self.locaties
    }

    /// The catalog.
    pub fn db(&self) -> (db: &Database)
        ensures
            db@ == self@.db,
    {
        &self.db
    }

    /// Makes the items that a list of object keys names, in the order of
    /// the keys. A key for which the catalog has no usable object makes no
    /// item.
    pub fn fill_items(
        &self,
        objects: &Option<String>,
        unique_name: &mut NameGenerator,
        dice: &Dice,
    ) -> (items: Vec<Item>)
        ensures
            self@.may_fill(
                text_view(*objects),
                old(unique_name).counts(),
                item_views(items@),
                final(unique_name).counts(),
            ),
            *dice matches Dice::Loaded { roll, .. } ==> (
                item_views(items@),
                final(unique_name).counts(),
            ) == filled(
                self@.db.objects,
                object_keys(text_view(*objects)),
                old(unique_name).counts(),
                loaded(roll),
            ),
    {
        let ghost start = unique_name.counts();
        let ghost catalog = self@.db.objects;
        let ghost keys = object_keys(text_view(*objects));
        let ghost mut rolls: spec_fn(int) -> u32 = match *dice {
            Dice::Loaded { roll, .. } => loaded(roll),
            Dice::Random => |i: int| 0u32,
        };
        let mut items: Vec<Item> = Vec::new();
        match objects {
            Some(list) => {
                let parts: Vec<&str> = split_at(trim(list.as_str()), ';');
                let mut i: usize = 0;
                while i < parts.len()
                    invariant
                        i <= parts@.len(),
                        views(parts@) == keys,
                        catalog == self@.db.objects,
                        (item_views(items@), unique_name.counts()) == filled(
                            catalog,
                            keys.take(i as int),
                            start,
                            rolls,
                        ),
                        *dice matches Dice::Loaded { roll, .. } ==> rolls == loaded(roll),
                    decreases parts@.len() - i,
                {
                    let ghost done = keys.take(i as int);
                    let ghost next = keys.take(i + 1);
                    assert(next.drop_last() =~= done);
                    match self.db.get_object(parts[i]) {
                        Some(obj) => {
                            if ItemFactory::accepts(obj.type_obj.as_str(), obj.extra_parameters)
                                && unique_name.has_room(obj.name.as_str()) {
                                let name: String = unique_name.generate_name(obj.name.as_str());
                                let item: Item = ItemFactory::create_item(
                                    name.as_str(),
                                    obj.description.as_str(),
                                    obj.type_obj.as_str(),
                                    obj.extra_parameters,
                                    dice,
                                );
                                items.push(item);
                                proof {
                                    if *dice is Random {
                                        let roll = rolled_part(item@.kind);
                                        let wider = |k: int|
                                            if k == i as int {
                                                roll
                                            } else {
                                                rolls(k)
                                            };
                                        lemma_filled_rolls(catalog, done, start, rolls, wider);
                                        rolls = wider;
                                        lemma_type_words_differ();
                                    }
                                }
                            }
                        },
                        None => {},
                    }
                    i = i + 1;
                }
                assert(keys.take(i as int) =~= keys);
            },
            None => {},
        }
        assert((item_views(items@), unique_name.counts()) == filled(catalog, keys, start, rolls));
        items
    }

    /// Makes the rooms of the locations, in their order: for each location
    /// the items in sight, then the hidden items, then the room under the
    /// name of the location.
    pub fn create_rooms(&self, unique_name: &mut NameGenerator, dice: &Dice) -> (rooms: Vec<Room>)
        ensures
            self@.may_make_rooms(
                old(unique_name).counts(),
                room_views(rooms@),
                final(unique_name).counts(),
            ),
            *dice matches Dice::Loaded { roll, .. } ==> (
                room_views(rooms@),
                final(unique_name).counts(),
            ) == rooms_made(
                self@,
                self@.locaties.len(),
                old(unique_name).counts(),
                |i: int| (loaded(roll), loaded(roll)),
            ),
    {
        let ghost start = unique_name.counts();
        let ghost story = self@;
        let ghost mut draws: spec_fn(int) -> RoomRolls = match *dice {
            Dice::Loaded { roll, .. } => |i: int| (loaded(roll), loaded(roll)),
            Dice::Random => |i: int| (loaded(0), loaded(0)),
        };
        let mut rooms: Vec<Room> = Vec::new();
        let mut i: usize = 0;
        while i < self.locaties.len()
            invariant
                i <= self.locaties@.len(),
                story == self@,
                (room_views(rooms@), unique_name.counts()) == rooms_made(
                    story,
                    i as nat,
                    start,
                    draws,
                ),
                *dice matches Dice::Loaded { roll, .. } ==> draws == |k: int|
                    (loaded(roll), loaded(roll)),
            decreases self.locaties@.len() - i,
        {
            let ghost counts = unique_name.counts();
            let locatie: &Locatie = &self.locaties[i];
            let visible_items: Vec<Item> = self.fill_items(
                &locatie.objectenzichtbaar,
                unique_name,
                dice,
            );
            let ghost seen = unique_name.counts();
            let invisible_items: Vec<Item> = self.fill_items(
                &locatie.objectenverborgen,
                unique_name,
                dice,
            );
            proof {
                if *dice is Random {
                    let first = choose|rolls: spec_fn(int) -> u32|
                        (item_views(visible_items@), seen) == #[trigger] filled(
                            story.db.objects,
                            object_keys(locatie@.objectenzichtbaar),
                            counts,
                            rolls,
                        );
                    let second = choose|rolls: spec_fn(int) -> u32|
                        (item_views(invisible_items@), unique_name.counts()) == #[trigger] filled(
                            story.db.objects,
                            object_keys(locatie@.objectenverborgen),
                            seen,
                            rolls,
                        );
                    let wider = |k: int|
                        if k == i as int {
                            (first, second)
                        } else {
                            draws(k)
                        };
                    assert forall|k: int| 0 <= k < i implies #[trigger] room_rolls_at(draws, k)
                        == room_rolls_at(wider, k) by {}
                    lemma_rooms_made_draws(story, i as nat, start, draws, wider);
                    draws = wider;
                }
            }
            if unique_name.has_room(locatie.naam.as_str()) {
                let name: String = unique_name.generate_name(locatie.naam.as_str());
                let exits: Vec<(RoomId, String)> = vec![
                    (way_of(locatie.noord), "North".to_owned()),
                    (way_of(locatie.oost), "East".to_owned()),
                    (way_of(locatie.zuid), "South".to_owned()),
                    (way_of(locatie.west), "West".to_owned()),
                ];
                assert(pair_views(exits@) =~= exit_pairs(locatie@));
                let room: Room = Room::new(
                    locatie.id,
                    name.as_str(),
                    locatie.beschrijving.as_str(),
                    visible_items.as_slice(),
                    invisible_items.as_slice(),
                    exits.as_slice(),
                );
                rooms.push(room);
            }
            i = i + 1;
        }
        assert((room_views(rooms@), unique_name.counts()) == rooms_made(
            story,
            story.locaties.len(),
            start,
            draws,
        ));
        rooms
    }

    /// Makes the items that an enemy carries: as many as the dice roll
    /// between `range.0` and `range.1`, each of an object that the dice
    /// pick among all the objects of the catalog.
    pub fn generate_random_items(
        &self,
        unique_name: &mut NameGenerator,
        range: &(u32, u32),
        dice: &Dice,
    ) -> (items: Vec<Item>)
        requires
            range.0 <= range.1,
        ensures
            self@.may_loot(
                *range,
                old(unique_name).counts(),
                item_views(items@),
                final(unique_name).counts(),
            ),
            *dice matches Dice::Loaded { roll, .. } ==> (
                item_views(items@),
                final(unique_name).counts(),
            ) == loot(self@.db.objects, old(unique_name).counts(), *range, loaded_loot(roll)),
    {
        let ghost start = unique_name.counts();
        let ghost catalog = self@.db.objects;
        let mut items: Vec<Item> = Vec::new();
        let max_len: u32 = dice.range(range.0, range.1);
        let ghost mut draws: LootDraws = match *dice {
            Dice::Loaded { roll, .. } => loaded_loot(roll),
            Dice::Random => LootDraws { count: max_len, picks: |i: int| 0int, rolls: |i: int| 0u32 },
        };
        let objects: &Vec<Object> = self.db.get_all_objects();
        let mut idx: u32 = 0;
        while idx != max_len
            invariant
                idx <= max_len,
                catalog == self@.db.objects,
                object_views(objects@) == catalog,
                max_len == clamp(draws.count as int, range.0 as int, range.1 as int),
                (item_views(items@), unique_name.counts()) == looted(
                    catalog,
                    start,
                    idx as nat,
                    draws,
                ),
                *dice matches Dice::Loaded { roll, .. } ==> draws == loaded_loot(roll),
            decreases max_len - idx,
        {
            match dice.pick(objects) {
                Some(enemy_obj) => {
                    proof {
                        let k = if *dice is Random {
                            choose|k: int| 0 <= k < objects@.len() && objects@[k] == *enemy_obj
                        } else {
                            clamp(pick_at(draws.picks, idx as int), 0, objects@.len() - 1)
                        };
                        if *dice is Random {
                            let wider = LootDraws {
                                picks: |j: int|
                                    if j == idx as int {
                                        k
                                    } else {
                                        pick_at(draws.picks, j)
                                    },
                                ..draws
                            };
                            lemma_looted_draws(catalog, start, idx as nat, draws, wider);
                            draws = wider;
                        }
                    }
                    if ItemFactory::accepts(
                        enemy_obj.type_obj.as_str(),
                        enemy_obj.extra_parameters,
                    ) && unique_name.has_room(enemy_obj.name.as_str()) {
                        let name: String = unique_name.generate_name(enemy_obj.name.as_str());
                        let item: Item = ItemFactory::create_item(
                            name.as_str(),
                            enemy_obj.description.as_str(),
                            enemy_obj.type_obj.as_str(),
                            enemy_obj.extra_parameters,
                            dice,
                        );
                        items.push(item);
                        proof {
                            if *dice is Random {
                                let roll = rolled_part(item@.kind);
                                let wider = LootDraws {
                                    rolls: |j: int|
                                        if j == idx as int {
                                            roll
                                        } else {
                                            roll_at(draws.rolls, j)
                                        },
                                    ..draws
                                };
                                lemma_looted_draws(catalog, start, idx as nat, draws, wider);
                                draws = wider;
                                lemma_type_words_differ();
                            }
                        }
                    }
                },
                None => {},
            }
            idx = idx + 1;
        }
        assert((item_views(items@), unique_name.counts()) == loot(catalog, start, *range, draws));
        items
    }

    /// Makes the enemies of one location, in the order of its keys.
    pub fn enemies_of(
        &self,
        locatie: &Locatie,
        unique_name: &mut NameGenerator,
        dice: &Dice,
    ) -> (enemies: Vec<Enemy>)
        ensures
            self@.may_make_enemies_at(
                locatie@,
                old(unique_name).counts(),
                enemy_views(enemies@),
                final(unique_name).counts(),
            ),
            *dice matches Dice::Loaded { roll, .. } ==> (
                enemy_views(enemies@),
                final(unique_name).counts(),
            ) == enemies_at(
                self@.db,
                locatie@.id,
                enemy_keys(locatie@.vijand),
                old(unique_name).counts(),
                |k: int| loaded_loot(roll),
            ),
    {
        let ghost start = unique_name.counts();
        let ghost db = self@.db;
        let ghost keys = enemy_keys(locatie@.vijand);
        let ghost mut draws: spec_fn(int) -> LootDraws = match *dice {
            Dice::Loaded { roll, .. } => |k: int| loaded_loot(roll),
            Dice::Random => |k: int| loaded_loot(0),
        };
        let mut enemies: Vec<Enemy> = Vec::new();
        match &locatie.vijand {
            Some(enemy) => {
                let multiple_enemies: Vec<&str> = split_at(enemy.as_str(), ';');
                let mut i: usize = 0;
                while i < multiple_enemies.len()
                    invariant
                        i <= multiple_enemies@.len(),
                        views(multiple_enemies@) == keys,
                        db == self@.db,
                        (enemy_views(enemies@), unique_name.counts()) == enemies_at(
                            db,
                            locatie@.id,
                            keys.take(i as int),
                            start,
                            draws,
                        ),
                        *dice matches Dice::Loaded { roll, .. } ==> draws == |k: int|
                            loaded_loot(roll),
                    decreases multiple_enemies@.len() - i,
                {
                    let ghost done = keys.take(i as int);
                    let ghost next = keys.take(i + 1);
                    assert(next.drop_last() =~= done);
                    match self.db.get_enemy(multiple_enemies[i]) {
                        Some(found_enemy) => {
                            if found_enemy.minimum_damage <= found_enemy.maximum_damage
                                && found_enemy.minimum_objects <= found_enemy.maximum_objects
                                && unique_name.has_room(found_enemy.name.as_str()) {
                                let name: String = unique_name.generate_name(
                                    found_enemy.name.as_str(),
                                );
                                let ghost named = unique_name.counts();
                                let range: (u32, u32) = (
                                    found_enemy.minimum_objects,
                                    found_enemy.maximum_objects,
                                );
                                let items: Vec<Item> = self.generate_random_items(
                                    unique_name,
                                    &range,
                                    dice,
                                );
                                let made_enemy: Enemy = Enemy::new(
                                    locatie.id,
                                    name.as_str(),
                                    found_enemy.description.as_str(),
                                    found_enemy.hp,
                                    found_enemy.minimum_damage,
                                    found_enemy.maximum_damage,
                                    items.as_slice(),
                                );
                                enemies.push(made_enemy);
                                proof {
                                    if *dice is Random {
                                        let got = choose|got: LootDraws|
                                            (item_views(items@), unique_name.counts())
                                                == #[trigger] loot(db.objects, named, range, got);
                                        let wider = |k: int|
                                            if k == i as int {
                                                got
                                            } else {
                                                draws(k)
                                            };
                                        assert forall|k: int| 0 <= k < i implies #[trigger] loot_at(
                                            draws,
                                            k,
                                        ) == loot_at(wider, k) by {}
                                        lemma_enemies_at_draws(
                                            db,
                                            locatie@.id,
                                            done,
                                            start,
                                            draws,
                                            wider,
                                        );
                                        draws = wider;
                                    }
                                }
                            }
                        },
                        None => {},
                    }
                    i = i + 1;
                }
                assert(keys.take(i as int) =~= keys);
            },
            None => {},
        }
        assert((enemy_views(enemies@), unique_name.counts()) == enemies_at(
            db,
            locatie@.id,
            keys,
            start,
            draws,
        ));
        enemies
    }

    /// Makes the enemies of all the locations, in the order of the
    /// locations and, within a location, of its keys.
    pub fn create_enemies(&self, unique_name: &mut NameGenerator, dice: &Dice) -> (enemies: Vec<
        Enemy,
    >)
        ensures
            self@.may_make_enemies(
                old(unique_name).counts(),
                enemy_views(enemies@),
                final(unique_name).counts(),
            ),
            *dice matches Dice::Loaded { roll, .. } ==> (
                enemy_views(enemies@),
                final(unique_name).counts(),
            ) == enemies_made(
                self@,
                self@.locaties.len(),
                old(unique_name).counts(),
                |i: int| |k: int| loaded_loot(roll),
            ),
    {
        let ghost start = unique_name.counts();
        let ghost story = self@;
        let ghost mut draws: spec_fn(int) -> spec_fn(int) -> LootDraws = match *dice {
            Dice::Loaded { roll, .. } => |i: int| |k: int| loaded_loot(roll),
            Dice::Random => |i: int| |k: int| loaded_loot(0),
        };
        let mut enemies: Vec<Enemy> = Vec::new();
        let mut i: usize = 0;
        while i < self.locaties.len()
            invariant
                i <= self.locaties@.len(),
                story == self@,
                (enemy_views(enemies@), unique_name.counts()) == enemies_made(
                    story,
                    i as nat,
                    start,
                    draws,
                ),
                *dice matches Dice::Loaded { roll, .. } ==> draws == |a: int|
                    |k: int| loaded_loot(roll),
            decreases self.locaties@.len() - i,
        {
            let ghost counts = unique_name.counts();
            let locatie: &Locatie = &self.locaties[i];
            let mut here: Vec<Enemy> = self.enemies_of(locatie, unique_name, dice);
            let ghost added = enemy_views(here@);
            proof {
                if *dice is Random {
                    let got = choose|got: spec_fn(int) -> LootDraws|
                        (added, unique_name.counts()) == #[trigger] enemies_at(
                            story.db,
                            locatie@.id,
                            enemy_keys(locatie@.vijand),
                            counts,
                            got,
                        );
                    let wider = |a: int|
                        if a == i as int {
                            got
                        } else {
                            draws(a)
                        };
                    assert forall|a: int| 0 <= a < i implies #[trigger] row_at(draws, a) == row_at(
                        wider,
                        a,
                    ) by {}
                    lemma_enemies_made_draws(story, i as nat, start, draws, wider);
                    draws = wider;
                }
            }
            enemies.append(&mut here);
            i = i + 1;
        }
        assert((enemy_views(enemies@), unique_name.counts()) == enemies_made(
            story,
            story.locaties.len(),
            start,
            draws,
        ));
        enemies
    }

    /// Makes the weapon with which the player starts: an item of the first
    /// weapon of the catalog.
    pub fn get_player_starting_weapen(&self, unique_name: &mut NameGenerator) -> (weapon: Option<
        Item,
    >)
        ensures
            slot_view(weapon) == self@.starting_weapon(old(unique_name).counts()),
            weapon is Some ==> weapon->0@.kind is Weapon && final(unique_name).counts() == bumped(
                old(unique_name).counts(),
                self@.db.objects[first_weapon(self@.db.objects)->0].name,
            ),
            weapon is None ==> final(unique_name).counts() == old(unique_name).counts(),
    {
        let objects: &Vec<Object> = self.db.get_all_objects();
        let ghost wanted = |object: ObjectView| object.type_obj == "wapen"@;
        let mut i: usize = 0;
        while i < objects.len()
            invariant
                i <= objects@.len(),
                object_views(objects@) == self@.db.objects,
                wanted == |object: ObjectView| object.type_obj == "wapen"@,
                unique_name.counts() == old(unique_name).counts(),
                forall|j: int| 0 <= j < i ==> !wanted(#[trigger] object_views(objects@)[j]),
            decreases objects@.len() - i,
        {
            let object: &Object = &objects[i];
            if same_text(object.type_obj.as_str(), "wapen") {
                proof {
                    lemma_first_where_is(object_views(objects@), wanted, i as int);
                    lemma_type_words_differ();
                }
                if object.extra_parameters.0 <= object.extra_parameters.1 && unique_name.has_room(
                    object.name.as_str(),
                ) {
                    let name: String = unique_name.generate_name(object.name.as_str());
                    let item: Item = ItemFactory::create_item(
                        name.as_str(),
                        object.description.as_str(),
                        object.type_obj.as_str(),
                        object.extra_parameters,
                        &Dice::Random,
                    );
                    return Some(item);
                }
                return None;
            }
            i = i + 1;
        }
        proof {
            lemma_first_where_none(object_views(objects@), wanted);
        }
        None
    }
}

/// A location of which nothing is known yet.
fn empty_locatie() -> (locatie: Locatie)
    ensures
        locatie@ == blank(),
{
    Locatie {
        id: 0,
        noord: None,
        oost: None,
        zuid: None,
        west: None,
        vijand: None,
        objectenverborgen: None,
        objectenzichtbaar: None,
        naam: String::new(),
        beschrijving: String::new(),
    }
}

/// Copies a text that may be missing.
fn copy_text(text: &Option<String>) -> (copy: Option<String>)
    ensures
        text_view(copy) == text_view(*text),
{
    match text {
        Some(s) => Some(s.clone()),
        None => None,
    }
}

/// Copies a location.
fn copy_locatie(locatie: &Locatie) -> (copy: Locatie)
    ensures
        copy@ == locatie@,
{
    Locatie {
        id: locatie.id,
        noord: locatie.noord,
        oost: locatie.oost,
        zuid: locatie.zuid,
        west: locatie.west,
        vijand: copy_text(&locatie.vijand),
        objectenverborgen: copy_text(&locatie.objectenverborgen),
        objectenzichtbaar: copy_text(&locatie.objectenzichtbaar),
        naam: locatie.naam.clone(),
        beschrijving: locatie.beschrijving.clone(),
    }
}

/// The number that the text writes; 0 where it writes none.
fn parse_or_zero(value: &str) -> (n: u32)
    ensures
        n == number_or_zero(value@),
{
    match parse_number(value) {
        Some(n) => n,
        None => 0,
    }
}

/// The location that the attributes of its element describe.
fn locatie_with(attributes: &Vec<(String, String)>) -> (locatie: Locatie)
    ensures
        locatie@ == with_attributes(blank(), attribute_views(attributes@)),
{
    let mut locatie: Locatie = empty_locatie();
    let mut i: usize = 0;
    while i < attributes.len()
        invariant
            i <= attributes@.len(),
            locatie@ == with_attributes(blank(), attribute_views(attributes@).take(i as int)),
        decreases attributes@.len() - i,
    {
        let ghost done = attribute_views(attributes@).take(i as int);
        let ghost next = attribute_views(attributes@).take(i + 1);
        assert(next.drop_last() =~= done);
        let key: &str = attributes[i].0.as_str();
        let value: &str = attributes[i].1.as_str();
        if same_text(key, "id") {
            locatie.id = parse_or_zero(value);
        } else if same_text(key, "noord") {
            locatie.noord = Some(parse_or_zero(value));
        } else if same_text(key, "oost") {
            locatie.oost = Some(parse_or_zero(value));
        } else if same_text(key, "zuid") {
            locatie.zuid = Some(parse_or_zero(value));
        } else if same_text(key, "west") {
            locatie.west = Some(parse_or_zero(value));
        } else if same_text(key, "vijand") {
            locatie.vijand = Some(value.to_owned());
        } else if same_text(key, "objectenverborgen") {
            locatie.objectenverborgen = Some(value.to_owned());
        } else if same_text(key, "objectenzichtbaar") {
            locatie.objectenzichtbaar = Some(value.to_owned());
        } else if same_text(key, "naam") {
            locatie.naam = value.to_owned();
        }
        i = i + 1;
    }
    assert(attribute_views(attributes@).take(i as int) =~= attribute_views(attributes@));
    locatie
}

/// The number of the location in a direction; 0 where none lies there.
fn way_of(target: Option<u32>) -> (id: RoomId)
    ensures
        id == way(target),
{
    match target {
        Some(id) => id,
        None => 0,
    }
}

} // verus!
