use dsa5_analyzer::character::{
    ApCalculator, AstralEnergyValue, AttributeValue, Character, CharacterSystem,
    CharacteristicValue, Characteristics, CostCurve, Details, Experience, Item, ItemSystem,
    KarmaEnergyValue, StatusValues, WoundValue,
};

fn text(value: &str) -> AttributeValue {
    AttributeValue::Text(value.to_string())
}

fn number(value: &str) -> AttributeValue {
    AttributeValue::Number(value.to_string())
}

fn item(name: &str, item_type: &str, entries: Vec<(&str, AttributeValue)>) -> Item {
    let mut system = ItemSystem::new();
    for (key, value) in entries {
        system.push(key, value);
    }
    Item {
        _id: format!("id-{}", name),
        name: name.to_string(),
        item_type: item_type.to_string(),
        img: None,
        system,
    }
}

fn rated(name: &str, item_type: &str, value: &str, grade: &str) -> Item {
    item(name, item_type, vec![("talentValue", number(value)), ("StF", text(grade))])
}

fn characteristic(initial: i32, advances: i32) -> Option<CharacteristicValue> {
    Some(CharacteristicValue { initial, species: 0, modifier: 0, advances })
}

fn no_characteristics() -> Characteristics {
    Characteristics { mu: None, kl: None, in_: None, ch: None, ff: None, ge: None, ko: None, kk: None }
}

fn wounds(advances: i32) -> WoundValue {
    WoundValue { initial: 5, value: 30, advances, modifier: 0, current: 30, max: 30 }
}

fn astral(advances: i32, rebuy: i32) -> AstralEnergyValue {
    AstralEnergyValue {
        initial: 20,
        value: 30,
        advances,
        modifier: 0,
        current: 30,
        max: 30,
        permanent_loss: 0,
        rebuy,
    }
}

fn karma(advances: i32, rebuy: i32) -> KarmaEnergyValue {
    KarmaEnergyValue {
        initial: 20,
        value: 30,
        advances,
        modifier: 0,
        current: 30,
        max: 30,
        permanent_loss: 0,
        rebuy,
    }
}

fn character(items: Vec<Item>, system: Option<CharacterSystem>) -> Character {
    Character {
        name: "Alrik".to_string(),
        character_type: "character".to_string(),
        img: None,
        items,
        system,
    }
}

fn with_status(status: StatusValues) -> Character {
    character(
        vec![],
        Some(CharacterSystem { characteristics: None, status: Some(status), details: None }),
    )
}

fn with_characteristics(characteristics: Characteristics) -> Character {
    character(
        vec![],
        Some(CharacterSystem {
            characteristics: Some(characteristics),
            status: None,
            details: None,
        }),
    )
}

fn sample() -> Character {
    character(
        vec![
            rated("Zechen", "skill", "13", "A"),
            rated("Alchimie", "skill", "4", "C"),
            rated("Klettern", "skill", "0", "B"),
            rated("Dolche", "combatskill", "8", "B"),
            rated("Schwerter", "combatskill", "6", "C"),
            rated("Ignifaxius", "spell", "5", "C"),
            rated("Bannkreis", "ritual", "0", "B"),
            rated("Bann", "liturgy", "2", "B"),
            rated("Weihe", "ceremony", "1", "A"),
            item("Feuerfinger", "magictrick", vec![]),
            item("Lichtlein", "magictrick", vec![]),
            item("Segen", "blessing", vec![]),
            item("Reich", "advantage", vec![("APValue", text("1")), ("step", number("5"))]),
            item("Arm", "disadvantage", vec![("APValue", number("-7"))]),
            item(
                "Prinzipientreue (A)",
                "disadvantage",
                vec![("APValue", text("-10")), ("step", number("1"))],
            ),
            item(
                "Prinzipientreue (B)",
                "disadvantage",
                vec![("APValue", text("-10")), ("step", number("2"))],
            ),
            item("Schwert", "meleeweapon", vec![("price", text("10"))]),
        ],
        Some(CharacterSystem {
            characteristics: Some(Characteristics {
                mu: characteristic(8, 2),
                kl: characteristic(10, 5),
                in_: characteristic(8, 0),
                ch: characteristic(7, 0),
                ff: None,
                ge: characteristic(14, 0),
                ko: characteristic(12, 4),
                kk: characteristic(3, 0),
            }),
            status: Some(StatusValues {
                wounds: Some(wounds(2)),
                astralenergy: Some(astral(13, 3)),
                karmaenergy: Some(karma(0, 1)),
            }),
            details: Some(Details { experience: Some(Experience { total: 1500, spent: 1400 }) }),
        }),
    )
}

#[test]
fn skills_cost_by_the_talent_curve() {
    assert_eq!(ApCalculator::calculate_skills_ap(&sample()), 14 + 12 + 0);
    assert_eq!(ApCalculator::checked_skills_ap(&sample()), Some(26));
}

#[test]
fn combat_skills_cost_above_six() {
    assert_eq!(ApCalculator::calculate_combat_skills_ap(&sample()), 4 + 0);
}

#[test]
fn spells_and_rituals_cost_learning_and_rating() {
    assert_eq!(ApCalculator::calculate_spells_and_rituals_ap(&sample()), (3 + 15) + (2 + 0));
}

#[test]
fn liturgies_and_ceremonies_cost_learning_and_rating() {
    assert_eq!(ApCalculator::calculate_liturgies_and_ceremonies_ap(&sample()), (2 + 4) + (1 + 1));
}

#[test]
fn learned_abilities_are_summed_whatever_their_type() {
    let c = sample();
    let items: Vec<&Item> = c.items.iter().take(5).collect();
    // 13 at A: 1 + 14; 4 at C: 3 + 12; 0 at B: 2; 8 at B: 2 + 16; 6 at C: 3 + 18
    assert_eq!(ApCalculator::calculate_learned_abilities_ap(&items), 15 + 15 + 2 + 18 + 21);
    assert_eq!(ApCalculator::calculate_learned_abilities_ap(&[]), 0);
}

#[test]
fn magic_tricks_and_blessings_cost_one_each() {
    assert_eq!(ApCalculator::calculate_magic_tricks_ap(&sample()), 2);
    assert_eq!(ApCalculator::calculate_blessings_ap(&sample()), 1);
    assert_eq!(ApCalculator::calculate_magic_tricks_ap(&character(vec![], None)), 0);
}

#[test]
fn traits_without_rating_or_grade_are_left_out() {
    let c = character(
        vec![
            rated("Zechen", "skill", "5", "B"),
            item("Klettern", "skill", vec![("talentValue", number("5"))]),
            item("Reiten", "skill", vec![("StF", text("B"))]),
            rated("Singen", "skill", "5", "X"),
            rated("Tanzen", "skill", "five", "B"),
            rated("Schwimmen", "skill", "1.5", "B"),
            item("Fliegen", "skill", vec![("talentValue", AttributeValue::Flag(true)), ("StF", text("B"))]),
            rated("Zeichnen", "Skill", "5", "B"),
        ],
        None,
    );
    assert_eq!(ApCalculator::calculate_skills_ap(&c), 10);
    assert_eq!(ApCalculator::calculate_combat_skills_ap(&c), 0);
    let item = &c.items[1];
    assert_eq!(ApCalculator::item_talent_value(item), Some(5));
    assert_eq!(ApCalculator::item_multiplier(item), None);
    assert_eq!(ApCalculator::checked_rated_amount(item, CostCurve::Talent), Some(0));
    assert_eq!(ApCalculator::checked_rated_amount(&c.items[0], CostCurve::LearnedAbility), Some(12));
}

#[test]
fn life_points_cost_by_the_talent_curve_at_four() {
    let c = with_status(StatusValues { wounds: Some(wounds(13)), astralenergy: None, karmaenergy: None });
    assert_eq!(ApCalculator::calculate_lep_ap(&c), 56);
    assert_eq!(ApCalculator::calculate_asp_ap(&c), 0);
    assert_eq!(ApCalculator::calculate_kap_ap(&c), 0);
    assert_eq!(ApCalculator::calculate_energy_values_ap(&c), 56);
    let none = with_status(StatusValues { wounds: Some(wounds(-3)), astralenergy: None, karmaenergy: None });
    assert_eq!(ApCalculator::calculate_lep_ap(&none), 0);
}

#[test]
fn astral_and_karma_energy_add_the_points_bought_back() {
    let c = with_status(StatusValues {
        wounds: Some(wounds(2)),
        astralenergy: Some(astral(13, 3)),
        karmaenergy: Some(karma(0, 1)),
    });
    assert_eq!(ApCalculator::calculate_lep_ap(&c), 8);
    assert_eq!(ApCalculator::calculate_asp_ap(&c), 56 + 6);
    assert_eq!(ApCalculator::calculate_kap_ap(&c), 2);
    assert_eq!(ApCalculator::calculate_energy_values_ap(&c), 8 + 62 + 2);
    let negative = with_status(StatusValues {
        wounds: None,
        astralenergy: Some(astral(-2, -5)),
        karmaenergy: Some(karma(1, -1)),
    });
    assert_eq!(ApCalculator::calculate_asp_ap(&negative), 0);
    assert_eq!(ApCalculator::calculate_kap_ap(&negative), 4);
}

#[test]
fn energy_that_does_not_fit_is_reported() {
    let c = with_status(StatusValues {
        wounds: None,
        astralenergy: Some(astral(12, i32::MAX)),
        karmaenergy: Some(karma(i32::MAX, 0)),
    });
    assert_eq!(ApCalculator::checked_lep_ap(&c), Some(0));
    assert_eq!(ApCalculator::checked_asp_ap(&c), None);
    assert_eq!(ApCalculator::checked_kap_ap(&c), None);
    assert_eq!(ApCalculator::checked_energy_values_ap(&c), None);
    assert_eq!(ApCalculator::try_calculate_total_spent_ap(&c), None);
}

#[test]
fn characteristics_cost_by_their_nominal_value() {
    // 10 -> 30, 15 -> 120, 8 -> 0, 7 -> nothing, 14 -> 90, 16 -> 165, 3 -> nothing
    assert_eq!(ApCalculator::calculate_characteristics_ap(&sample()), 30 + 120 + 90 + 165);
    assert_eq!(ApCalculator::calculate_characteristics_ap(&character(vec![], None)), 0);
    assert_eq!(
        ApCalculator::calculate_characteristics_ap(&with_characteristics(no_characteristics())),
        0
    );
}

#[test]
fn characteristics_are_listed_from_eight_on() {
    assert_eq!(
        ApCalculator::get_characteristics_ap_breakdown(&sample()),
        [
            ("Mut".to_string(), 10, 30),
            ("Klugheit".to_string(), 15, 120),
            ("Intuition".to_string(), 8, 0),
            ("Gewandtheit".to_string(), 14, 90),
            ("Konstitution".to_string(), 16, 165),
        ]
    );
    let mut all = no_characteristics();
    all.kk = characteristic(9, 0);
    all.ff = characteristic(4, 4);
    assert_eq!(
        ApCalculator::get_characteristics_ap_breakdown(&with_characteristics(all)),
        [("Fingerfertigkeit".to_string(), 8, 0), ("K\u{f6}rperkraft".to_string(), 9, 15)]
    );
}

#[test]
fn characteristics_that_do_not_fit_are_reported() {
    let mut huge = no_characteristics();
    huge.mu = characteristic(i32::MAX, i32::MAX);
    let c = with_characteristics(huge);
    assert_eq!(ApCalculator::checked_characteristics_ap(&c), None);
    assert!(ApCalculator::try_get_characteristics_ap_breakdown(&c).is_none());
    let mut low = no_characteristics();
    low.mu = characteristic(i32::MIN, i32::MIN);
    let c = with_characteristics(low);
    assert_eq!(ApCalculator::checked_characteristics_ap(&c), Some(0));
    assert_eq!(ApCalculator::try_get_characteristics_ap_breakdown(&c), Some(vec![]));
}

#[test]
fn skills_are_listed_by_name_where_they_cost() {
    assert_eq!(
        ApCalculator::get_skills_ap_breakdown(&sample()),
        [
            ("Alchimie".to_string(), 4, "C".to_string(), 12),
            ("Zechen".to_string(), 13, "A".to_string(), 14),
        ]
    );
}

#[test]
fn combat_skills_are_listed_by_name() {
    assert_eq!(
        ApCalculator::get_combat_skills_ap_breakdown(&sample()),
        [
            ("Dolche".to_string(), 8, "B".to_string(), 4),
            ("Schwerter".to_string(), 6, "C".to_string(), 0),
        ]
    );
}

#[test]
fn learned_abilities_are_listed_by_name() {
    assert_eq!(
        ApCalculator::get_spells_and_rituals_ap_breakdown(&sample()),
        [
            ("Bannkreis".to_string(), 0, "B".to_string(), 2),
            ("Ignifaxius".to_string(), 5, "C".to_string(), 18),
        ]
    );
    assert_eq!(
        ApCalculator::get_liturgies_and_ceremonies_ap_breakdown(&sample()),
        [
            ("Bann".to_string(), 2, "B".to_string(), 6),
            ("Weihe".to_string(), 1, "A".to_string(), 2),
        ]
    );
    let c = sample();
    let first_two: Vec<&Item> = c.items.iter().take(2).collect();
    assert_eq!(
        ApCalculator::get_learned_abilities_ap_breakdown(&first_two),
        [
            ("Zechen".to_string(), 13, "A".to_string(), 15),
            ("Alchimie".to_string(), 4, "C".to_string(), 15),
        ]
    );
}

#[test]
fn rows_keep_the_grade_as_it_is_written() {
    let c = character(vec![rated("Zechen", "skill", "+3", "b")], None);
    assert_eq!(
        ApCalculator::get_skills_ap_breakdown(&c),
        [("Zechen".to_string(), 3, "b".to_string(), 6)]
    );
    let items: Vec<&Item> = c.items.iter().collect();
    assert_eq!(
        ApCalculator::rated_rows_of(&items, CostCurve::CombatSkill, true),
        Vec::<(String, i32, String, i32)>::new()
    );
    assert_eq!(
        ApCalculator::rated_rows_of(&items, CostCurve::CombatSkill, false),
        [("Zechen".to_string(), 3, "b".to_string(), 0)]
    );
}

#[test]
fn rows_that_do_not_fit_are_reported() {
    let c = character(vec![rated("Zechen", "skill", "2147483647", "D")], None);
    let items: Vec<&Item> = c.items.iter().collect();
    assert!(ApCalculator::try_rated_rows_of(&items, CostCurve::Talent, true).is_none());
    assert_eq!(ApCalculator::checked_skills_ap(&c), None);
    assert_eq!(ApCalculator::checked_rated_total(&items, CostCurve::Talent), None);
    assert_eq!(ApCalculator::try_calculate_total_spent_ap(&c), None);
}

#[test]
fn sums_that_do_not_fit_are_reported() {
    // each skill costs 12 * 4 + 4 * (32766 * 32769 / 2) = 2147418156
    let c = character(
        vec![rated("A", "skill", "32778", "D"), rated("B", "skill", "32778", "D")],
        None,
    );
    let items: Vec<&Item> = c.items.iter().collect();
    assert_eq!(
        ApCalculator::checked_rated_amount(items[0], CostCurve::Talent),
        Some(2147418156)
    );
    assert_eq!(ApCalculator::checked_skills_ap(&c), None);
    assert!(ApCalculator::try_rated_rows_of(&items, CostCurve::Talent, true).is_some());
}

#[test]
fn total_is_the_sum_of_all_parts() {
    let c = sample();
    let items = 5 - 7 - 20;
    let skills = 26;
    let combat_skills = 4;
    let spells = 20;
    let magic_tricks = 2;
    let liturgies = 8;
    let blessings = 1;
    let characteristics = 405;
    let energies = 72;
    assert_eq!(
        ApCalculator::calculate_total_spent_ap(&c),
        items + skills + combat_skills + spells + magic_tricks + liturgies + blessings
            + characteristics + energies
    );
    assert_eq!(ApCalculator::try_calculate_total_spent_ap(&c), Some(516));
}

#[test]
fn total_of_an_empty_character_is_zero() {
    let c = character(vec![], None);
    assert_eq!(ApCalculator::calculate_total_spent_ap(&c), 0);
    assert_eq!(ApCalculator::get_ap_by_category(&c), Vec::<(String, i32)>::new());
    assert!(ApCalculator::get_ap_items_breakdown(&c).is_empty());
}

#[test]
fn categories_list_item_types_and_kinds_of_traits() {
    assert_eq!(
        ApCalculator::get_ap_by_category(&sample()),
        [
            ("advantage".to_string(), 5),
            ("disadvantage".to_string(), -27),
            ("Skills".to_string(), 26),
            ("Combat Skills".to_string(), 4),
            ("Spells/Rituals".to_string(), 20),
            ("Magic Tricks".to_string(), 2),
            ("Liturgies/Ceremonies".to_string(), 8),
            ("Blessings".to_string(), 1),
            ("Energies (LeP/AsP/KaP)".to_string(), 72),
            ("Characteristics".to_string(), 405),
        ]
    );
}

#[test]
fn categories_without_cost_are_left_out() {
    let c = character(
        vec![
            item("Reich", "advantage", vec![("APValue", text("5"))]),
            item("Arm", "advantage", vec![("APValue", text("-5"))]),
            item("Blind", "disadvantage", vec![("APValue", text("0"))]),
            item("Taub", "disadvantage", vec![("APValue", text("x"))]),
            item("Stumm", "special", vec![("APValue", text("3"))]),
            rated("Klettern", "skill", "0", "B"),
            rated("Dolche", "combatskill", "6", "B"),
        ],
        None,
    );
    assert_eq!(ApCalculator::get_ap_by_category(&c), [("special".to_string(), 3)]);
    assert_eq!(ApCalculator::calculate_total_spent_ap(&c), 3);
}

#[test]
fn a_kind_of_trait_takes_the_place_of_an_item_type_of_its_label() {
    let c = character(
        vec![
            item("Seltsam", "Skills", vec![("APValue", text("100"))]),
            item("Reich", "advantage", vec![("APValue", text("5"))]),
            rated("Klettern", "skill", "3", "B"),
        ],
        None,
    );
    assert_eq!(
        ApCalculator::get_ap_by_category(&c),
        [("Skills".to_string(), 6), ("advantage".to_string(), 5)]
    );
    assert_eq!(ApCalculator::calculate_total_spent_ap(&c), 111);
}

#[test]
fn excluded_lines_do_not_count_in_categories() {
    let c = character(
        vec![
            item(
                "Verpflichtungen (A)",
                "disadvantage",
                vec![("APValue", text("-10;-20")), ("step", number("1"))],
            ),
            item(
                "Verpflichtungen (B)",
                "disadvantage",
                vec![("APValue", text("-10;-20")), ("step", number("2"))],
            ),
        ],
        None,
    );
    assert_eq!(ApCalculator::get_ap_by_category(&c), [("disadvantage".to_string(), -30)]);
    assert_eq!(ApCalculator::calculate_total_spent_ap(&c), -30);
    let lines = ApCalculator::get_ap_items_breakdown(&c);
    assert_eq!(lines.len(), 2);
    assert_eq!(lines[0].name, "Verpflichtungen (A)");
    assert!(lines[0].was_excluded);
    assert_eq!(lines[0].ap_cost, -10);
    assert_eq!(lines[1].name, "Verpflichtungen (B)");
    assert!(!lines[1].was_excluded);
    assert_eq!(lines[1].ap_cost, -30);
}

#[test]
fn a_total_that_does_not_fit_is_reported() {
    let c = character(
        vec![
            item("A", "advantage", vec![("APValue", text("2147483647"))]),
            item("B", "advantage", vec![("APValue", text("1"))]),
            item("C", "other", vec![("APValue", text("-1"))]),
        ],
        None,
    );
    assert!(ApCalculator::try_get_ap_items_breakdown(&c).is_some());
    assert!(ApCalculator::try_get_ap_by_category(&c).is_none());
    assert_eq!(ApCalculator::try_calculate_total_spent_ap(&c), Some(2147483647));
    let d = character(
        vec![
            item("A", "advantage", vec![("APValue", text("2147483647"))]),
            item("B", "other", vec![("APValue", text("1"))]),
        ],
        None,
    );
    assert_eq!(
        ApCalculator::try_get_ap_by_category(&d),
        Some(vec![("advantage".to_string(), 2147483647), ("other".to_string(), 1)])
    );
    assert_eq!(ApCalculator::try_calculate_total_spent_ap(&d), None);
}
