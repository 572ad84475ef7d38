use dsa5_analyzer::character::{
    AstralEnergyValue, Attribute, AttributeValue, Character, CharacteristicValue, Experience,
    Item, ItemSystem, KarmaEnergyValue, WoundValue,
};

fn bag(entries: Vec<(&str, AttributeValue)>) -> ItemSystem {
    let mut system = ItemSystem::new();
    for (key, value) in entries {
        system.push(key, value);
    }
    system
}

fn text(value: &str) -> AttributeValue {
    AttributeValue::Text(value.to_string())
}

fn number(value: &str) -> AttributeValue {
    AttributeValue::Number(value.to_string())
}

fn item(name: &str, item_type: &str, system: ItemSystem) -> Item {
    Item {
        _id: format!("id-{}", name),
        name: name.to_string(),
        item_type: item_type.to_string(),
        img: None,
        system,
    }
}

fn character(items: Vec<Item>) -> Character {
    Character {
        name: "Alrik".to_string(),
        character_type: "character".to_string(),
        img: None,
        items,
        system: None,
    }
}

fn names(items: &[&Item]) -> Vec<String> {
    items.iter().map(|item| item.name.clone()).collect()
}

#[test]
fn a_new_bag_is_empty() {
    let system = ItemSystem::new();
    assert!(system.data.is_empty());
    assert!(system.get("APValue").is_none());
    assert_eq!(system.get_ap_value(), None);
}

#[test]
fn push_puts_an_attribute_at_the_end() {
    let mut system = ItemSystem::new();
    system.push("a", text("1"));
    system.push("b", AttributeValue::Flag(true));
    assert_eq!(system.data.len(), 2);
    assert_eq!(system.data[0].key, "a");
    assert_eq!(system.data[1].key, "b");
    assert!(matches!(system.data[1].value, AttributeValue::Flag(true)));
}

#[test]
fn values_are_read_as_text() {
    let system = bag(vec![
        ("price", text("3 Silbertaler")),
        ("quantity", number("2")),
        ("weight", number("1.5")),
        ("group", AttributeValue::Flag(true)),
        ("guidevalue", AttributeValue::Flag(false)),
        ("talentValue", AttributeValue::Other),
    ]);
    assert_eq!(system.get_price(), Some("3 Silbertaler".to_string()));
    assert_eq!(system.get_quantity(), Some("2".to_string()));
    assert_eq!(system.get_weight(), Some("1.5".to_string()));
    assert_eq!(system.get_group(), Some("true".to_string()));
    assert_eq!(system.get_guidevalue_value(), Some("false".to_string()));
    assert_eq!(system.get_talent_value(), None);
    assert_eq!(system.get_st_f_value(), None);
    assert_eq!(system.get_value_as_string("quantity"), Some("2".to_string()));
    assert_eq!(system.get_value_as_string("Quantity"), None);
}

#[test]
fn the_cost_field_is_a_text_or_a_number() {
    assert_eq!(bag(vec![("APValue", text("3;5"))]).get_ap_value(), Some("3;5".to_string()));
    assert_eq!(bag(vec![("APValue", number("10"))]).get_ap_value(), Some("10".to_string()));
    assert_eq!(bag(vec![("APValue", AttributeValue::Flag(true))]).get_ap_value(), None);
    assert_eq!(bag(vec![("APValue", AttributeValue::Other)]).get_ap_value(), None);
    assert_eq!(bag(vec![("apvalue", text("3"))]).get_ap_value(), None);
}

#[test]
fn descriptions_are_texts_only() {
    let system = bag(vec![
        ("description", text("<p>Hello</p>")),
        ("gmdescription", number("5")),
    ]);
    assert_eq!(system.get_description(), Some("<p>Hello</p>".to_string()));
    assert_eq!(system.get_gm_description(), None);
    assert_eq!(system.get_plain_text("description"), Some("<p>Hello</p>".to_string()));
    assert_eq!(system.get_plain_text("missing"), None);
}

#[test]
fn the_first_attribute_with_a_key_counts() {
    let system = bag(vec![("step", number("2")), ("step", number("5"))]);
    assert_eq!(system.get_step_value(), Some("2".to_string()));
    let hidden = bag(vec![("step", AttributeValue::Other), ("step", number("5"))]);
    assert_eq!(hidden.get_step_value(), None);
}

#[test]
fn characteristic_values_need_all_three() {
    let full = bag(vec![
        ("characteristic1", text("mu")),
        ("characteristic2", text("kl")),
        ("characteristic3", text("in")),
    ]);
    assert_eq!(
        full.get_characteristic_values(),
        Some(("mu".to_string(), "kl".to_string(), "in".to_string()))
    );
    let partial = bag(vec![("characteristic1", text("mu")), ("characteristic3", text("in"))]);
    assert_eq!(partial.get_characteristic_values(), None);
}

#[test]
fn items_are_selected_by_type_and_sorted_by_name() {
    let c = character(vec![
        item("Zechen", "skill", ItemSystem::new()),
        item("Dolche", "combatskill", ItemSystem::new()),
        item("Alchimie", "skill", ItemSystem::new()),
        item("Ignifaxius", "spell", ItemSystem::new()),
        item("alchimie", "skill", ItemSystem::new()),
        item("Bannbaladin", "ritual", ItemSystem::new()),
        item("\u{c4}ngste", "disadvantage", ItemSystem::new()),
        item("Segen", "blessing", ItemSystem::new()),
        item("Trick", "magictrick", ItemSystem::new()),
        item("Objektweihe", "ceremony", ItemSystem::new()),
        item("Bann", "liturgy", ItemSystem::new()),
        item("Reich", "advantage", ItemSystem::new()),
    ]);
    assert_eq!(names(&c.get_skills()), ["Alchimie", "Zechen", "alchimie"]);
    assert_eq!(names(&c.get_combat_skills()), ["Dolche"]);
    assert_eq!(names(&c.get_spells()), ["Ignifaxius"]);
    assert_eq!(names(&c.get_rituals()), ["Bannbaladin"]);
    assert_eq!(names(&c.get_spells_and_rituals()), ["Bannbaladin", "Ignifaxius"]);
    assert_eq!(names(&c.get_magic_tricks()), ["Trick"]);
    assert_eq!(names(&c.get_liturgies()), ["Bann"]);
    assert_eq!(names(&c.get_ceremonies()), ["Objektweihe"]);
    assert_eq!(names(&c.get_liturgies_and_ceremonies()), ["Bann", "Objektweihe"]);
    assert_eq!(names(&c.get_blessings()), ["Segen"]);
    assert_eq!(names(&c.get_advantages()), ["Reich"]);
    assert_eq!(names(&c.get_disadvantages()), ["\u{c4}ngste"]);
    assert_eq!(names(&c.get_items_by_types(&["armor"])), Vec::<String>::new());
    assert_eq!(
        names(&c.select_by_types(&["skill", "spell"])),
        ["Zechen", "Alchimie", "Ignifaxius", "alchimie"]
    );
}

#[test]
fn items_of_one_name_keep_their_order() {
    let c = character(vec![
        item("B", "skill", bag(vec![("step", number("1"))])),
        item("A", "skill", bag(vec![("step", number("2"))])),
        item("B", "skill", bag(vec![("step", number("3"))])),
        item("A", "skill", bag(vec![("step", number("4"))])),
    ]);
    let steps: Vec<Option<String>> =
        c.get_skills().iter().map(|item| item.system.get_step_value()).collect();
    assert_eq!(
        steps,
        [
            Some("2".to_string()),
            Some("4".to_string()),
            Some("1".to_string()),
            Some("3".to_string())
        ]
    );
}

#[test]
fn items_with_a_cost_field_are_found() {
    let c = character(vec![
        item("Reich", "advantage", bag(vec![("APValue", text("10"))])),
        item("Schwert", "meleeweapon", bag(vec![("price", text("10"))])),
        item("Arm", "disadvantage", bag(vec![("APValue", number("-5"))])),
        item("Seltsam", "advantage", bag(vec![("APValue", AttributeValue::Flag(true))])),
    ]);
    assert_eq!(names(&c.get_ap_items()), ["Reich", "Arm"]);
}

#[test]
fn has_type_in_compares_the_whole_type() {
    let skill = item("Zechen", "skill", ItemSystem::new());
    assert!(skill.has_type_in(&["skill"]));
    assert!(skill.has_type_in(&["spell", "skill"]));
    assert!(!skill.has_type_in(&["skills", "Skill", "combatskill"]));
    assert!(!skill.has_type_in(&[]));
}

#[test]
fn a_picture_needs_an_address() {
    let mut c = character(vec![]);
    assert!(!c.has_image());
    assert_eq!(c.get_image_url(), None);
    c.img = Some(String::new());
    assert!(!c.has_image());
    assert_eq!(c.get_image_url(), Some(""));
    c.img = Some("https://example.org/alrik.png".to_string());
    assert!(c.has_image());
    assert_eq!(c.get_image_url(), Some("https://example.org/alrik.png"));
}

#[test]
fn values_give_their_fields() {
    let value = CharacteristicValue { initial: 8, species: 1, modifier: -1, advances: 5 };
    assert_eq!(value.nominal_value(), 13);
    assert_eq!(value.initial_value(), 8);
    assert_eq!(value.advances(), 5);
    assert_eq!(value.species_bonus(), 1);
    assert_eq!(value.modifier(), -1);
    let wounds =
        WoundValue { initial: 5, value: 31, advances: 2, modifier: 0, current: 30, max: 33 };
    assert_eq!(wounds.base_value(), 31);
    assert_eq!(wounds.advances(), 2);
    let astral = AstralEnergyValue {
        initial: 20,
        value: 35,
        advances: 3,
        modifier: 0,
        current: 30,
        max: 36,
        permanent_loss: 2,
        rebuy: 1,
    };
    assert_eq!(astral.base_value(), 35);
    assert_eq!(astral.advances(), 3);
    assert_eq!(astral.permanent_loss(), 2);
    assert_eq!(astral.rebuy_points(), 1);
    let karma = KarmaEnergyValue {
        initial: 20,
        value: 25,
        advances: 4,
        modifier: 0,
        current: 20,
        max: 26,
        permanent_loss: 3,
        rebuy: 2,
    };
    assert_eq!(karma.base_value(), 25);
    assert_eq!(karma.advances(), 4);
    assert_eq!(karma.permanent_loss(), 3);
    assert_eq!(karma.rebuy_points(), 2);
    let experience = Experience { total: 1200, spent: 1100 };
    assert_eq!(experience.total(), 1200);
    assert_eq!(experience.spent(), 1100);
}

#[test]
fn attributes_can_be_written_directly() {
    let system = ItemSystem {
        data: vec![Attribute { key: "StF".to_string(), value: AttributeValue::Text("B".into()) }],
    };
    assert_eq!(system.get_st_f_value(), Some("B".to_string()));
}
