use dsa5_analyzer::character::{
    ApCalculator, AttributeValue, Character, CharacterSystem, Details, Experience, Item,
    ItemSystem,
};
use dsa5_analyzer::report::{ApAnalysis, ApVerdict};

fn character(cost: &str, experience: Option<Experience>) -> Character {
    let mut system = ItemSystem::new();
    system.push("APValue", AttributeValue::Text(cost.to_string()));
    Character {
        name: "Alrik".to_string(),
        character_type: "character".to_string(),
        img: None,
        items: vec![Item {
            _id: "1".to_string(),
            name: "Reich".to_string(),
            item_type: "advantage".to_string(),
            img: None,
            system,
        }],
        system: Some(CharacterSystem {
            characteristics: None,
            status: None,
            details: Some(Details { experience }),
        }),
    }
}

fn categories(entries: &[(&str, i32)]) -> Vec<(String, i32)> {
    entries.iter().map(|(label, amount)| (label.to_string(), *amount)).collect()
}

#[test]
fn computed_total_that_equals_the_record_gives_no_difference() {
    let analysis = ApAnalysis::new();
    let c = character("100", Some(Experience { total: 120, spent: 100 }));
    let computed = ApCalculator::calculate_total_spent_ap(&c);
    assert_eq!(computed, 100);
    let comparison = analysis.compare(computed, &c);
    assert_eq!(comparison.computed, 100);
    assert_eq!(comparison.recorded, 100);
    assert_eq!(comparison.difference, 0);
    assert!(matches!(analysis.verdict(&comparison), ApVerdict::Match));
}

#[test]
fn character_without_experience_record_has_recorded_nothing() {
    let analysis = ApAnalysis::new();
    let c = character("100", None);
    assert_eq!(analysis.recorded_spent_ap(&c), 0);
    let mut bare = character("100", None);
    bare.system = None;
    assert_eq!(analysis.recorded_spent_ap(&bare), 0);
    let mut without_details = character("100", None);
    without_details.system =
        Some(CharacterSystem { characteristics: None, status: None, details: None });
    assert_eq!(analysis.recorded_spent_ap(&without_details), 0);
    let comparison = analysis.try_compare_totals(&bare).unwrap();
    assert_eq!(comparison.computed, 100);
    assert_eq!(comparison.recorded, 0);
    assert_eq!(comparison.difference, 100);
}

#[test]
fn difference_is_computed_less_recorded() {
    let analysis = ApAnalysis::new();
    let c = character("90", Some(Experience { total: 120, spent: 100 }));
    let comparison = analysis.try_compare_totals(&c).unwrap();
    assert_eq!(comparison.difference, -10);
    assert!(matches!(analysis.verdict(&comparison), ApVerdict::RecordShowsMore));
    let d = character("130", Some(Experience { total: 120, spent: 100 }));
    let comparison = analysis.try_compare_totals(&d).unwrap();
    assert_eq!(comparison.difference, 30);
    assert!(matches!(analysis.verdict(&comparison), ApVerdict::RecordShowsLess));
}

#[test]
fn difference_is_exact_at_the_limits() {
    let analysis = ApAnalysis::new();
    let c = character("0", Some(Experience { total: 0, spent: i32::MIN }));
    let comparison = analysis.compare(i32::MAX, &c);
    assert_eq!(comparison.difference, 4294967295);
    let d = character("0", Some(Experience { total: 0, spent: i32::MAX }));
    let comparison = analysis.compare(i32::MIN, &d);
    assert_eq!(comparison.difference, -4294967295);
}

#[test]
fn comparison_of_a_total_that_does_not_fit_is_refused() {
    let analysis = ApAnalysis::new();
    let c = character("99999999999", None);
    assert_eq!(ApCalculator::try_calculate_total_spent_ap(&c), Some(0));
    let mut d = character("2147483647", None);
    d.items.push(d.items[0].clone());
    assert!(analysis.try_compare_totals(&d).is_none());
}

#[test]
fn categories_are_sorted_by_amount_then_label() {
    let analysis = ApAnalysis::new();
    let sorted = analysis.sort_categories(categories(&[
        ("Skills", 20),
        ("advantage", 5),
        ("Blessings", 20),
        ("disadvantage", -30),
        ("Spells/Rituals", 100),
        ("Characteristics", 20),
    ]));
    assert_eq!(
        sorted,
        categories(&[
            ("Spells/Rituals", 100),
            ("Blessings", 20),
            ("Characteristics", 20),
            ("Skills", 20),
            ("advantage", 5),
            ("disadvantage", -30),
        ])
    );
    assert_eq!(analysis.categories_total(&sorted), 135);
    assert_eq!(analysis.categories_total(&Vec::new()), 0);
}

#[test]
fn pie_shows_the_three_largest_and_the_rest() {
    let analysis = ApAnalysis::new();
    let slices = analysis.pie_slices(categories(&[
        ("Skills", 20),
        ("advantage", 5),
        ("Blessings", 3),
        ("Spells/Rituals", 100),
        ("Characteristics", 40),
    ]));
    let shown: Vec<(String, i128, usize)> =
        slices.iter().map(|slice| (slice.label.clone(), slice.value, slice.slot)).collect();
    assert_eq!(
        shown,
        [
            ("Spells/Rituals".to_string(), 100, 0),
            ("Characteristics".to_string(), 40, 1),
            ("Skills".to_string(), 20, 2),
            ("Others".to_string(), 8, 3),
        ]
    );
}

#[test]
fn pie_has_no_rest_without_need() {
    let analysis = ApAnalysis::new();
    let two = analysis.pie_slices(categories(&[("a", 1), ("b", 2)]));
    let shown: Vec<(String, i128, usize)> =
        two.iter().map(|slice| (slice.label.clone(), slice.value, slice.slot)).collect();
    assert_eq!(shown, [("b".to_string(), 2, 0), ("a".to_string(), 1, 1)]);
    let negative_rest =
        analysis.pie_slices(categories(&[("a", 10), ("b", 9), ("c", 8), ("d", 1), ("e", -1)]));
    assert_eq!(negative_rest.len(), 3);
    let with_rest =
        analysis.pie_slices(categories(&[("a", 10), ("b", 9), ("c", 8), ("d", 2), ("e", -1)]));
    assert_eq!(with_rest.len(), 4);
    assert_eq!(with_rest[3].value, 1);
}

#[test]
fn pie_of_nothing_is_empty() {
    let analysis = ApAnalysis::new();
    assert!(analysis.pie_slices(Vec::new()).is_empty());
    assert!(analysis.pie_slices(categories(&[("a", 5), ("b", -5)])).is_empty());
}

#[test]
fn slots_follow_the_order_of_the_report() {
    let analysis = ApAnalysis::new();
    let sorted = analysis.sort_categories(categories(&[
        ("Skills", 20),
        ("advantage", 5),
        ("Blessings", 3),
        ("Spells/Rituals", 100),
        ("Characteristics", 40),
    ]));
    assert_eq!(analysis.slot_of_category("Spells/Rituals", &sorted), 0);
    assert_eq!(analysis.slot_of_category("Characteristics", &sorted), 1);
    assert_eq!(analysis.slot_of_category("Skills", &sorted), 2);
    assert_eq!(analysis.slot_of_category("advantage", &sorted), 3);
    assert_eq!(analysis.slot_of_category("Blessings", &sorted), 3);
    assert_eq!(analysis.slot_of_category("Unknown", &sorted), 4);
    assert_eq!(analysis.slot_of_category("Skills", &Vec::new()), 4);
}

#[test]
fn slots_have_their_colours() {
    let analysis = ApAnalysis::new();
    assert_eq!(analysis.slice_color(0), (52, 152, 219));
    assert_eq!(analysis.slice_color(1), (46, 204, 113));
    assert_eq!(analysis.slice_color(2), (231, 76, 60));
    assert_eq!(analysis.slice_color(3), (149, 165, 166));
    assert_eq!(analysis.slice_color(4), (127, 140, 141));
    assert_eq!(analysis.slice_color(99), (127, 140, 141));
}

#[test]
fn item_types_are_surveyed_by_type() {
    let analysis = ApAnalysis::new();
    let mut c = character("10", None);
    let plain = |name: &str, item_type: &str| Item {
        _id: name.to_string(),
        name: name.to_string(),
        item_type: item_type.to_string(),
        img: None,
        system: ItemSystem::new(),
    };
    c.items.push(plain("Zechen", "skill"));
    c.items.push(plain("Schwert", "meleeweapon"));
    c.items.push(plain("Klettern", "skill"));
    c.items.push(plain("Arm", "advantage"));
    c.items.push(plain("Dolche", "Combatskill"));
    assert_eq!(
        analysis.item_type_survey(&c),
        [
            ("Combatskill".to_string(), 1, false),
            ("advantage".to_string(), 2, true),
            ("meleeweapon".to_string(), 1, false),
            ("skill".to_string(), 2, false),
        ]
    );
    c.items.clear();
    assert!(analysis.item_type_survey(&c).is_empty());
}
