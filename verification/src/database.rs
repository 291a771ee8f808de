//! The catalog: the objects and the enemies that the locations of a story
//! name by their keys.

use crate::search::first_where;
use crate::search::lemma_first_where_is;
use crate::search::lemma_first_where_none;
use crate::text::same_text;
use vstd::prelude::*;

verus! {

/// An object of the catalog, from which items are made. The first two of
/// its numbers are a range and the third is a defense; what they mean
/// depends on the type word.
pub struct Object {
    pub name: String,
    pub description: String,
    pub type_obj: String,
    pub extra_parameters: (u32, u32, u32),
}

/// An enemy of the catalog, from which the enemies of the game are made.
pub struct Enemy {
    pub name: String,
    pub description: String,
    pub minimum_objects: u32,
    pub maximum_objects: u32,
    pub hp: u32,
    pub attack_chance: u32,
    pub minimum_damage: u32,
    pub maximum_damage: u32,
}

/// An object of the catalog as contracts see it.
#[verifier::ext_equal]
pub struct ObjectView {
    pub name: Seq<char>,
    pub description: Seq<char>,
    pub type_obj: Seq<char>,
    pub extra_parameters: (u32, u32, u32),
}

/// An enemy of the catalog as contracts see it.
#[verifier::ext_equal]
pub struct TemplateView {
    pub name: Seq<char>,
    pub description: Seq<char>,
    pub minimum_objects: u32,
    pub maximum_objects: u32,
    pub hp: u32,
    pub attack_chance: u32,
    pub minimum_damage: u32,
    pub maximum_damage: u32,
}

impl View for Object {
    type V = ObjectView;

    open spec fn view(&self) -> ObjectView {
        ObjectView {
            name: self.name@,
            description: self.description@,
            type_obj: self.type_obj@,
            extra_parameters: self.extra_parameters,
        }
    }
}

impl View for Enemy {
    type V = TemplateView;

    open spec fn view(&self) -> TemplateView {
        TemplateView {
            name: self.name@,
            description: self.description@,
            minimum_objects: self.minimum_objects,
            maximum_objects: self.maximum_objects,
            hp: self.hp,
            attack_chance: self.attack_chance,
            minimum_damage: self.minimum_damage,
            maximum_damage: self.maximum_damage,
        }
    }
}

/// The catalog.
pub struct Database {
    objects: Vec<Object>,
    enemies: Vec<Enemy>,
}

/// The catalog as contracts see it.
#[verifier::ext_equal]
pub struct DatabaseView {
    pub objects: Seq<ObjectView>,
    pub enemies: Seq<TemplateView>,
}

/// The views of a list of objects.
pub open spec fn object_views(objects: Seq<Object>) -> Seq<ObjectView> {
    objects.map_values(|object: Object| object@)
}

/// The views of a list of catalog enemies.
pub open spec fn template_views(enemies: Seq<Enemy>) -> Seq<TemplateView> {
    enemies.map_values(|enemy: Enemy| enemy@)
}

/// The index of the first object called `name`, if there is one.
pub open spec fn object_position(objects: Seq<ObjectView>, name: Seq<char>) -> Option<int> {
    first_where(objects, |object: ObjectView| object.name == name)
}

/// The index of the first catalog enemy called `name`, if there is one.
pub open spec fn template_position(enemies: Seq<TemplateView>, name: Seq<char>) -> Option<int> {
    first_where(enemies, |enemy: TemplateView| enemy.name == name)
}

impl View for Database {
    type V = DatabaseView;

    closed spec fn view(&self) -> DatabaseView {
        DatabaseView {
            objects: object_views(self.objects@),
            enemies: template_views(self.enemies@),
        }
    }
}

impl Database {
    /// Makes a catalog of the given objects and enemies.
    pub fn new(objects: Vec<Object>, enemies: Vec<Enemy>) -> (db: Database)
        ensures
            db@ == (DatabaseView {
                objects: object_views(objects@),
                enemies: template_views(enemies@),
            }),
    {
        Database { objects, enemies }
    }

    /// The first object called `name`.
    pub fn get_object(&self, name: &str) -> (found: Option<&Object>)
        ensures
            match object_position(self@.objects, name@) {
                Some(i) => found is Some && found->0@ == self@.objects[i],
                None => found is None,
            },
    {
        let ghost wanted = |object: ObjectView| object.name == name@;
        let mut i: usize = 0;
        while i < self.objects.len()
            invariant
                i <= self.objects@.len(),
                wanted == |object: ObjectView| object.name == name@,
                forall|j: int| 0 <= j < i ==> !wanted(#[trigger] object_views(self.objects@)[j]),
            decreases self.objects@.len() - i,
        {
            if same_text(self.objects[i].name.as_str(), name) {
                proof {
                    lemma_first_where_is(object_views(self.objects@), wanted, i as int);
                }
                return Some(&self.objects[i]);
            }
            i = i + 1;
        }
        proof {
            lemma_first_where_none(object_views(self.objects@), wanted);
        }
        None
    }

    /// The first catalog enemy called `name`.
    pub fn get_enemy(&self, name: &str) -> (found: Option<&Enemy>)
        ensures
            match template_position(self@.enemies, name@) {
                Some(i) => found is Some && found->0@ == self@.enemies[i],
                None => found is None,
            },
    {
        let ghost wanted = |enemy: TemplateView| enemy.name == name@;
        let mut i: usize = 0;
        while i < self.enemies.len()
            invariant
                i <= self.enemies@.len(),
                wanted == |enemy: TemplateView| enemy.name == name@,
                forall|j: int| 0 <= j < i ==> !wanted(#[trigger] template_views(self.enemies@)[j]),
            decreases self.enemies@.len() - i,
        {
            if same_text(self.enemies[i].name.as_str(), name) {
                proof {
                    lemma_first_where_is(template_views(self.enemies@), wanted, i as int);
                }
                return Some(&self.enemies[i]);
            }
            i = i + 1;
        }
        proof {
            lemma_first_where_none(template_views(self.enemies@), wanted);
        }
        None
    }

    /// All the objects, in the order of the catalog.
    pub fn get_all_objects(&self) -> (objects: &Vec<Object>)
        ensures
            object_views(objects@) == self@.objects,
    {
        &self.objects
    }
}

} // verus!
