//! A character as the accounting rules read it: its items with their
//! attributes, its characteristics, its energy pools and its experience
//! record.

use crate::lexical::{lemma_lex_le_total, lemma_lex_le_transitive, lex_le, text_le};
use crate::sorting::{
    is_sorted, lemma_stable_sort_map, lemma_stable_sort_permutes, lemma_stable_sort_sorted,
    sort_by, stable_sort,
};
use vstd::prelude::*;
use vstd::string::*;

verus! {

/// What an attribute holds.
#[derive(Clone, Debug)]
pub enum AttributeValue {
    /// A text.
    Text(String),
    /// A number, as the decimal text that stands for it.
    Number(String),
    /// A truth value.
    Flag(bool),
    /// Anything else: nothing, a list or a record.
    Other,
}

/// One attribute of an item: a key and what is held under it.
#[derive(Clone, Debug)]
pub struct Attribute {
    pub key: String,
    pub value: AttributeValue,
}

/// The attributes of an item. Where a key occurs twice, the first counts.
#[derive(Clone, Debug)]
pub struct ItemSystem {
    pub data: Vec<Attribute>,
}

/// One thing that a character owns or has learned.
#[derive(Clone, Debug)]
pub struct Item {
    pub _id: String,
    pub name: String,
    pub item_type: String,
    pub img: Option<String>,
    pub system: ItemSystem,
}

/// One of the eight characteristics.
#[derive(Clone, Debug)]
pub struct CharacteristicValue {
    pub initial: i32,
    pub species: i32,
    pub modifier: i32,
    pub advances: i32,
}

/// The eight characteristics of a character.
#[derive(Clone, Debug)]
pub struct Characteristics {
    pub mu: Option<CharacteristicValue>,
    pub kl: Option<CharacteristicValue>,
    pub in_: Option<CharacteristicValue>,
    pub ch: Option<CharacteristicValue>,
    pub ff: Option<CharacteristicValue>,
    pub ge: Option<CharacteristicValue>,
    pub ko: Option<CharacteristicValue>,
    pub kk: Option<CharacteristicValue>,
}

/// Life points.
#[derive(Clone, Debug)]
pub struct WoundValue {
    pub initial: i32,
    pub value: i32,
    pub advances: i32,
    pub modifier: i32,
    pub current: i32,
    pub max: i32,
}

/// Astral energy.
#[derive(Clone, Debug)]
pub struct AstralEnergyValue {
    pub initial: i32,
    pub value: i32,
    pub advances: i32,
    pub modifier: i32,
    pub current: i32,
    pub max: i32,
    pub permanent_loss: i32,
    pub rebuy: i32,
}

/// Karma energy.
#[derive(Clone, Debug)]
pub struct KarmaEnergyValue {
    pub initial: i32,
    pub value: i32,
    pub advances: i32,
    pub modifier: i32,
    pub current: i32,
    pub max: i32,
    pub permanent_loss: i32,
    pub rebuy: i32,
}

/// The three energy pools.
#[derive(Clone, Debug)]
pub struct StatusValues {
    pub wounds: Option<WoundValue>,
    pub astralenergy: Option<AstralEnergyValue>,
    pub karmaenergy: Option<KarmaEnergyValue>,
}

/// The experience points that were recorded for a character.
#[derive(Clone, Debug)]
pub struct Experience {
    pub total: i32,
    pub spent: i32,
}

/// Details of a character.
#[derive(Clone, Debug)]
pub struct Details {
    pub experience: Option<Experience>,
}

/// What a character has besides its items.
#[derive(Clone, Debug)]
pub struct CharacterSystem {
    pub characteristics: Option<Characteristics>,
    pub status: Option<StatusValues>,
    pub details: Option<Details>,
}

/// A character.
#[derive(Clone, Debug)]
pub struct Character {
    pub name: String,
    pub character_type: String,
    pub img: Option<String>,
    pub items: Vec<Item>,
    pub system: Option<CharacterSystem>,
}

/// What is held under the first attribute with this key.
pub open spec fn lookup(entries: Seq<Attribute>, key: Seq<char>) -> Option<AttributeValue>
    decreases entries.len(),
{
    if entries.len() == 0 {
        None
    } else if entries[0].key@ == key {
        Some(entries[0].value)
    } else {
        lookup(entries.skip(1), key)
    }
}

/// The items behind a sequence of references.
pub open spec fn deref_all(items: Seq<&Item>) -> Seq<Item> {
    items.map_values(|item: &Item| *item)
}

/// The texts behind a sequence of string slices.
pub open spec fn texts_of(slices: Seq<&str>) -> Seq<Seq<char>> {
    slices.map_values(|slice: &str| slice@)
}

/// The order of items by name.
pub open spec fn by_name() -> spec_fn(Item, Item) -> bool {
    |a: Item, b: Item| lex_le(a.name@, b.name@)
}

/// The items whose type is one of `types`.
pub open spec fn of_types(types: Seq<Seq<char>>) -> spec_fn(Item) -> bool {
    |item: Item| types.contains(item.item_type@)
}

/// The items whose type is one of `types`, sorted by name; items of one name
/// stay in the order in which the character holds them.
pub open spec fn items_of_types(items: Seq<Item>, types: Seq<Seq<char>>) -> Seq<Item> {
    stable_sort(items.filter(of_types(types)), by_name())
}

/// The items of given types are in the order of their names, and they are
/// the items of the character that have one of the types, each as often as
/// the character holds it.
pub proof fn lemma_items_of_types_are_sorted(items: Seq<Item>, types: Seq<Seq<char>>)
    ensures
        is_sorted(items_of_types(items, types), by_name()),
        items_of_types(items, types).to_multiset() == items.filter(of_types(types)).to_multiset(),
{
    let order = by_name();
    assert forall|a: Item, b: Item| #[trigger] order(a, b) || order(b, a) by {
        lemma_lex_le_total(a.name@, b.name@);
    }
    assert forall|a: Item, b: Item, c: Item| #[trigger] order(a, b) && #[trigger] order(
        b,
        c,
    ) implies order(a, c) by {
        lemma_lex_le_transitive(a.name@, b.name@, c.name@);
    }
    lemma_stable_sort_sorted(items.filter(of_types(types)), order);
    lemma_stable_sort_permutes(items.filter(of_types(types)), order);
}

impl AttributeValue {
    /// The value as a text: a text or a number as it stands, a truth value
    /// as `true` or `false`.
    pub open spec fn as_text(self) -> Option<Seq<char>> {
        match self {
            AttributeValue::Text(s) => Some(s@),
            AttributeValue::Number(n) => Some(n@),
            AttributeValue::Flag(b) => Some(
                if b {
                    "true"@
                } else {
                    "false"@
                },
            ),
            AttributeValue::Other => None,
        }
    }

    /// The value as a text, where it is a text or a number.
    pub open spec fn as_text_or_number(self) -> Option<Seq<char>> {
        match self {
            AttributeValue::Text(s) => Some(s@),
            AttributeValue::Number(n) => Some(n@),
            _ => None,
        }
    }

    /// The value as a text, where it is a text.
    pub open spec fn as_plain_text(self) -> Option<Seq<char>> {
        match self {
            AttributeValue::Text(s) => Some(s@),
            _ => None,
        }
    }
}

impl CharacteristicValue {
    /// The nominal value: the initial value and the advances together.
    pub open spec fn spec_nominal_value(&self) -> int {
        self.initial + self.advances
    }

    /// The nominal value: the initial value and the advances together.
    pub fn nominal_value(&self) -> (r: i32)
        requires
            i32::MIN <= self.spec_nominal_value() <= i32::MAX,
        ensures
            r == self.spec_nominal_value(),
    {
        self.initial + self.advances
    }

    pub fn initial_value(&self) -> (r: i32)
        ensures
            r == self.initial,
    {
        self.initial
    }

    pub fn advances(&self) -> (r: i32)
        ensures
            r == self.advances,
    {
        self.advances
    }

    pub fn species_bonus(&self) -> (r: i32)
        ensures
            r == self.species,
    {
        self.species
    }

    pub fn modifier(&self) -> (r: i32)
        ensures
            r == self.modifier,
    {
        self.modifier
    }
}

impl WoundValue {
    pub fn base_value(&self) -> (r: i32)
        ensures
            r == self.value,
    {
        self.value
    }

    pub fn advances(&self) -> (r: i32)
        ensures
            r == self.advances,
    {
        self.advances
    }
}

impl AstralEnergyValue {
    pub fn base_value(&self) -> (r: i32)
        ensures
            r == self.value,
    {
        self.value
    }

    pub fn advances(&self) -> (r: i32)
        ensures
            r == self.advances,
    {
        self.advances
    }

    pub fn permanent_loss(&self) -> (r: i32)
        ensures
            r == self.permanent_loss,
    {
        self.permanent_loss
    }

    pub fn rebuy_points(&self) -> (r: i32)
        ensures
            r == self.rebuy,
    {
        self.rebuy
    }
}

impl KarmaEnergyValue {
    pub fn base_value(&self) -> (r: i32)
        ensures
            r == self.value,
    {
        self.value
    }

    pub fn advances(&self) -> (r: i32)
        ensures
            r == self.advances,
    {
        self.advances
    }

    pub fn permanent_loss(&self) -> (r: i32)
        ensures
            r == self.permanent_loss,
    {
        self.permanent_loss
    }

    pub fn rebuy_points(&self) -> (r: i32)
        ensures
            r == self.rebuy,
    {
        self.rebuy
    }
}

impl Experience {
    pub fn total(&self) -> (r: i32)
        ensures
            r == self.total,
    {
        self.total
    }

    pub fn spent(&self) -> (r: i32)
        ensures
            r == self.spent,
    {
        self.spent
    }
}

impl ItemSystem {
    /// An attribute bag without attributes.
    pub fn new() -> (r: Self)
        ensures
            r.data@.len() == 0,
    {
        ItemSystem { data: Vec::new() }
    }

    /// What is held under `key`.
    pub open spec fn entry(&self, key: Seq<char>) -> Option<AttributeValue> {
        lookup(self.data@, key)
    }

    /// The text of what is held under `key`.
    pub open spec fn text_at(&self, key: Seq<char>) -> Option<Seq<char>> {
        match self.entry(key) {
            Some(value) => value.as_text(),
            None => None,
        }
    }

    /// The cost field of the item: the text or number under `APValue`.
    pub open spec fn ap_value(&self) -> Option<Seq<char>> {
        match self.entry("APValue"@) {
            Some(value) => value.as_text_or_number(),
            None => None,
        }
    }

    /// The text under `key` where a text is held there.
    pub open spec fn plain_text_at(&self, key: Seq<char>) -> Option<Seq<char>> {
        match self.entry(key) {
            Some(value) => value.as_plain_text(),
            None => None,
        }
    }

    /// What is held under `key`: the first attribute with that key.
    pub fn get(&self, key: &str) -> (r: Option<&AttributeValue>)
        ensures
            r is Some <==> self.entry(key@) is Some,
            r matches Some(value) ==> *value == self.entry(key@)->0,
    {
        let wanted = String::from_str(key);
        let mut i: usize = 0;
        assert(self.data@.skip(0) =~= self.data@);
        while i < self.data.len()
            invariant
                i <= self.data.len(),
                wanted@ == key@,
                lookup(self.data@, key@) == lookup(self.data@.skip(i as int), key@),
            decreases self.data.len() - i,
        {
            if self.data[i].key == wanted {
                return Some(&self.data[i].value);
            }
            assert(self.data@.skip(i as int).skip(1) =~= self.data@.skip(i + 1));
            i = i + 1;
        }
        None
    }

    /// Puts `value` under `key`, behind the attributes already held.
    pub fn push(&mut self, key: &str, value: AttributeValue)
        ensures
            final(self).data@.len() == old(self).data@.len() + 1,
            final(self).data@.drop_last() == old(self).data@,
            final(self).data@.last().key@ == key@,
            final(self).data@.last().value == value,
    {
        self.data.push(Attribute { key: String::from_str(key), value });
    }

    pub fn get_ap_value(&self) -> (r: Option<String>)
        ensures
            r.deep_view() == self.ap_value(),
    {
        match self.get("APValue") {
            Some(AttributeValue::Text(s)) => Some(s.clone()),
            Some(AttributeValue::Number(n)) => Some(n.clone()),
            _ => None,
        }
    }

    pub fn get_description(&self) -> (r: Option<String>)
        ensures
            r.deep_view() == self.plain_text_at("description"@),
    {
        self.get_plain_text("description")
    }

    pub fn get_gm_description(&self) -> (r: Option<String>)
        ensures
            r.deep_view() == self.plain_text_at("gmdescription"@),
    {
        self.get_plain_text("gmdescription")
    }

    /// The text under `key` where a text is held there.
    pub fn get_plain_text(&self, key: &str) -> (r: Option<String>)
        ensures
            r.deep_view() == self.plain_text_at(key@),
    {
        match self.get(key) {
            Some(AttributeValue::Text(s)) => Some(s.clone()),
            _ => None,
        }
    }

    /// The text of what is held under `key`: a text or a number as it
    /// stands, a truth value as `true` or `false`.
    pub fn get_value_as_string(&self, key: &str) -> (r: Option<String>)
        ensures
            r.deep_view() == self.text_at(key@),
    {
        match self.get(key) {
            Some(AttributeValue::Text(s)) => Some(s.clone()),
            Some(AttributeValue::Number(n)) => Some(n.clone()),
            Some(AttributeValue::Flag(b)) => Some(
                if *b {
                    String::from_str("true")
                } else {
                    String::from_str("false")
                },
            ),
            _ => None,
        }
    }

    pub fn get_price(&self) -> (r: Option<String>)
        ensures
            r.deep_view() == self.text_at("price"@),
    {
        self.get_value_as_string("price")
    }

    pub fn get_quantity(&self) -> (r: Option<String>)
        ensures
            r.deep_view() == self.text_at("quantity"@),
    {
        self.get_value_as_string("quantity")
    }

    pub fn get_weight(&self) -> (r: Option<String>)
        ensures
            r.deep_view() == self.text_at("weight"@),
    {
        self.get_value_as_string("weight")
    }

    pub fn get_group(&self) -> (r: Option<String>)
        ensures
            r.deep_view() == self.text_at("group"@),
    {
        self.get_value_as_string("group")
    }

    pub fn get_talent_value(&self) -> (r: Option<String>)
        ensures
            r.deep_view() == self.text_at("talentValue"@),
    {
        self.get_value_as_string("talentValue")
    }

    /// The three characteristics that a check is rolled on, where all three
    /// are held.
    pub fn get_characteristic_values(&self) -> (r: Option<(String, String, String)>)
        ensures
            r is Some <==> self.text_at("characteristic1"@) is Some && self.text_at(
                "characteristic2"@,
            ) is Some && self.text_at("characteristic3"@) is Some,
            r matches Some(found) ==> Some(found.0@) == self.text_at("characteristic1"@) && Some(
                found.1@,
            ) == self.text_at("characteristic2"@) && Some(found.2@) == self.text_at(
                "characteristic3"@,
            ),
    {
        let c1 = match self.get_value_as_string("characteristic1") {
            Some(c) => c,
            None => {
                return None;
            },
        };
        let c2 = match self.get_value_as_string("characteristic2") {
            Some(c) => c,
            None => {
                return None;
            },
        };
        let c3 = match self.get_value_as_string("characteristic3") {
            Some(c) => c,
            None => {
                return None;
            },
        };
        Some((c1, c2, c3))
    }

    pub fn get_guidevalue_value(&self) -> (r: Option<String>)
        ensures
            r.deep_view() == self.text_at("guidevalue"@),
    {
        self.get_value_as_string("guidevalue")
    }

    pub fn get_st_f_value(&self) -> (r: Option<String>)
        ensures
            r.deep_view() == self.text_at("StF"@),
    {
        self.get_value_as_string("StF")
    }

    pub fn get_step_value(&self) -> (r: Option<String>)
        ensures
            r.deep_view() == self.text_at("step"@),
    {
        self.get_value_as_string("step")
    }
}

impl Item {
    /// Whether the item's type is one of `types`.
    pub fn has_type_in(&self, types: &[&str]) -> (r: bool)
        ensures
            r == texts_of(types@).contains(self.item_type@),
    {
        let ghost wanted = texts_of(types@);
        let mut i: usize = 0;
        while i < types.len()
            invariant
                i <= types.len(),
                wanted == texts_of(types@),
                forall|j: int| 0 <= j < i ==> wanted[j] != self.item_type@,
            decreases types.len() - i,
        {
            let candidate = String::from_str(types[i]);
            assert(wanted[i as int] == types@[i as int]@);
            if candidate == self.item_type {
                return true;
            }
            i = i + 1;
        }
        false
    }
}

impl Character {
    /// The items that carry a cost field, in the order in which the character
    /// holds them.
    pub open spec fn ap_items(&self) -> Seq<Item> {
        self.items@.filter(|item: Item| item.system.ap_value() is Some)
    }

    /// The items that carry a cost field, in the order in which the character
    /// holds them.
    pub fn get_ap_items(&self) -> (r: Vec<&Item>)
        ensures
            deref_all(r@) == self.ap_items(),
    {
        let ghost keep = |item: Item| item.system.ap_value() is Some;
        let mut found: Vec<&Item> = Vec::new();
        let mut i: usize = 0;
        while i < self.items.len()
            invariant
                i <= self.items.len(),
                keep == |item: Item| item.system.ap_value() is Some,
                deref_all(found@) == self.items@.take(i as int).filter(keep),
            decreases self.items.len() - i,
        {
            let item = &self.items[i];
            let ghost prefix = self.items@.take(i + 1);
            assert(prefix.drop_last() =~= self.items@.take(i as int));
            proof {
                reveal(Seq::filter);
            }
            let ghost before = found@;
            if item.system.get_ap_value().is_some() {
                found.push(item);
            }
            i = i + 1;
        }
        assert(self.items@.take(i as int) =~= self.items@);
        found
    }

    /// The items whose type is one of `types`, in the order in which the
    /// character holds them.
    pub fn select_by_types(&self, types: &[&str]) -> (r: Vec<&Item>)
        ensures
            deref_all(r@) == self.items@.filter(of_types(texts_of(types@))),
    {
        let ghost keep = of_types(texts_of(types@));
        let mut found: Vec<&Item> = Vec::new();
        let mut i: usize = 0;
        while i < self.items.len()
            invariant
                i <= self.items.len(),
                keep == of_types(texts_of(types@)),
                deref_all(found@) == self.items@.take(i as int).filter(keep),
            decreases self.items.len() - i,
        {
            let item = &self.items[i];
            let ghost prefix = self.items@.take(i + 1);
            assert(prefix.drop_last() =~= self.items@.take(i as int));
            proof {
                reveal(Seq::filter);
            }
            let ghost before = found@;
            if item.has_type_in(types) {
                found.push(item);
            }
            i = i + 1;
        }
        assert(self.items@.take(i as int) =~= self.items@);
        found
    }

    /// The items whose type is one of `types`, sorted by name.
    pub fn get_items_by_types(&self, types: &[&str]) -> (r: Vec<&Item>)
        ensures
            deref_all(r@) == items_of_types(self.items@, texts_of(types@)),
    {
        let found = self.select_by_types(types);
        let ghost unsorted = found@;
        let ghost by_name_of_refs = |a: &Item, b: &Item| lex_le(a.name@, b.name@);
        let name_le = |a: &&Item, b: &&Item| -> (le: bool)
            ensures
                le == lex_le(a.name@, b.name@),
            { text_le(a.name.as_str(), b.name.as_str()) };
        let sorted = sort_by(found, name_le, Ghost(by_name_of_refs));
        proof {
            lemma_stable_sort_map(unsorted, |item: &Item| *item, by_name_of_refs, by_name());
        }
        sorted
    }

    pub fn get_skills(&self) -> (r: Vec<&Item>)
        ensures
            deref_all(r@) == items_of_types(self.items@, seq!["skill"@]),
    {
        let types = ["skill"];
        assert(texts_of(types@) =~= seq!["skill"@]);
        self.get_items_by_types(&types)
    }

    pub fn get_combat_skills(&self) -> (r: Vec<&Item>)
        ensures
            deref_all(r@) == items_of_types(self.items@, seq!["combatskill"@]),
    {
        let types = ["combatskill"];
        assert(texts_of(types@) =~= seq!["combatskill"@]);
        self.get_items_by_types(&types)
    }

    pub fn get_spells(&self) -> (r: Vec<&Item>)
        ensures
            deref_all(r@) == items_of_types(self.items@, seq!["spell"@]),
    {
        let types = ["spell"];
        assert(texts_of(types@) =~= seq!["spell"@]);
        self.get_items_by_types(&types)
    }

    pub fn get_rituals(&self) -> (r: Vec<&Item>)
        ensures
            deref_all(r@) == items_of_types(self.items@, seq!["ritual"@]),
    {
        let types = ["ritual"];
        assert(texts_of(types@) =~= seq!["ritual"@]);
        self.get_items_by_types(&types)
    }

    pub fn get_spells_and_rituals(&self) -> (r: Vec<&Item>)
        ensures
            deref_all(r@) == items_of_types(self.items@, seq!["spell"@, "ritual"@]),
    {
        let types = ["spell", "ritual"];
        assert(texts_of(types@) =~= seq!["spell"@, "ritual"@]);
        self.get_items_by_types(&types)
    }

    pub fn get_magic_tricks(&self) -> (r: Vec<&Item>)
        ensures
            deref_all(r@) == items_of_types(self.items@, seq!["magictrick"@]),
    {
        let types = ["magictrick"];
        assert(texts_of(types@) =~= seq!["magictrick"@]);
        self.get_items_by_types(&types)
    }

    pub fn get_liturgies(&self) -> (r: Vec<&Item>)
        ensures
            deref_all(r@) == items_of_types(self.items@, seq!["liturgy"@]),
    {
        let types = ["liturgy"];
        assert(texts_of(types@) =~= seq!["liturgy"@]);
        self.get_items_by_types(&types)
    }

    pub fn get_ceremonies(&self) -> (r: Vec<&Item>)
        ensures
            deref_all(r@) == items_of_types(self.items@, seq!["ceremony"@]),
    {
        let types = ["ceremony"];
        assert(texts_of(types@) =~= seq!["ceremony"@]);
        self.get_items_by_types(&types)
    }

    pub fn get_liturgies_and_ceremonies(&self) -> (r: Vec<&Item>)
        ensures
            deref_all(r@) == items_of_types(self.items@, seq!["liturgy"@, "ceremony"@]),
    {
        let types = ["liturgy", "ceremony"];
        assert(texts_of(types@) =~= seq!["liturgy"@, "ceremony"@]);
        self.get_items_by_types(&types)
    }

    pub fn get_blessings(&self) -> (r: Vec<&Item>)
        ensures
            deref_all(r@) == items_of_types(self.items@, seq!["blessing"@]),
    {
        let types = ["blessing"];
        assert(texts_of(types@) =~= seq!["blessing"@]);
        self.get_items_by_types(&types)
    }

    pub fn get_advantages(&self) -> (r: Vec<&Item>)
        ensures
            deref_all(r@) == items_of_types(self.items@, seq!["advantage"@]),
    {
        let types = ["advantage"];
        assert(texts_of(types@) =~= seq!["advantage"@]);
        self.get_items_by_types(&types)
    }

    pub fn get_disadvantages(&self) -> (r: Vec<&Item>)
        ensures
            deref_all(r@) == items_of_types(self.items@, seq!["disadvantage"@]),
    {
        let types = ["disadvantage"];
        assert(texts_of(types@) =~= seq!["disadvantage"@]);
        self.get_items_by_types(&types)
    }

    /// Whether the character has a picture: an address that is not empty.
    pub fn has_image(&self) -> (r: bool)
        ensures
            r == (self.img matches Some(address) && address@.len() > 0),
    {
        match &self.img {
            Some(address) => !address.as_str().is_empty(),
            None => false,
        }
    }

    /// The address of the character's picture.
    pub fn get_image_url(&self) -> (r: Option<&str>)
        ensures
            r is Some <==> self.img is Some,
            r matches Some(address) ==> address@ == self.img->0@,
    {
        match &self.img {
            Some(address) => Some(address.as_str()),
            None => None,
        }
    }
}

} // verus!
