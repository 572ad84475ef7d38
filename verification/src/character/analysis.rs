//! The cost of a character's purchases, item by item.

use crate::character::data::Item;
use crate::character::curves::lemma_product_bound;
use crate::fields::{
    find_char_in, first_index_of, has_char, lemma_split_step, split, trim, trim_bounds,
};
use crate::sequences::checked_i32;
use crate::text::{
    chars_of, decimal_text, fits_i32, int_to_string, nat_to_string, parse_i32, parse_int,
    parse_int_in,
};
use vstd::prelude::*;
use vstd::string::*;

verus! {

/// The rules by which experience points are counted.
pub struct ApCalculator;

/// One priced line of the breakdown.
#[derive(Clone, Debug)]
pub struct ApItem {
    pub name: String,
    pub item_type: String,
    pub raw_value: String,
    pub step: Option<i32>,
    pub calculation: String,
    pub ap_cost: i32,
    pub was_excluded: bool,
}

/// What a priced line says.
pub struct ApItemView {
    pub name: Seq<char>,
    pub item_type: Seq<char>,
    pub raw_value: Seq<char>,
    pub step: Option<int>,
    pub calculation: Seq<char>,
    pub ap_cost: int,
    pub was_excluded: bool,
}

impl View for ApItem {
    type V = ApItemView;

    open spec fn view(&self) -> ApItemView {
        ApItemView {
            name: self.name@,
            item_type: self.item_type@,
            raw_value: self.raw_value@,
            step: match self.step {
                Some(step) => Some(step as int),
                None => None,
            },
            calculation: self.calculation@,
            ap_cost: self.ap_cost as int,
            was_excluded: self.was_excluded,
        }
    }
}

/// The step from a priced line to what it says.
pub open spec fn view_of() -> spec_fn(ApItem) -> ApItemView {
    |item: ApItem| item@
}

/// What a list of priced lines says.
pub open spec fn views(items: Seq<ApItem>) -> Seq<ApItemView> {
    items.map_values(view_of())
}

/// What a cost field says.
pub enum ApValue {
    /// One cost, due once for each step.
    Single(int),
    /// One cost for each step in turn.
    Multiple(Seq<int>),
    /// Nothing that can be read as a cost.
    Malformed,
}

/// A cost field as it was read.
#[derive(Clone, Debug)]
pub enum ApValueParseResult {
    SingleValue(i32),
    MultipleValues(Vec<i32>),
    ParseError,
}

/// The integers of a list of machine integers.
pub open spec fn ints(values: Seq<i32>) -> Seq<int> {
    values.map_values(|value: i32| value as int)
}

impl View for ApValueParseResult {
    type V = ApValue;

    open spec fn view(&self) -> ApValue {
        match self {
            ApValueParseResult::SingleValue(value) => ApValue::Single(*value as int),
            ApValueParseResult::MultipleValues(values) => ApValue::Multiple(ints(values@)),
            ApValueParseResult::ParseError => ApValue::Malformed,
        }
    }
}

/// The number that one part of a cost field stands for, white space around
/// it set aside.
pub open spec fn part_value(part: Seq<char>) -> Option<int> {
    parse_i32(trim(part))
}

/// Whether every part stands for a number.
pub open spec fn all_parts_parse(parts: Seq<Seq<char>>) -> bool {
    forall|i: int| 0 <= i < parts.len() ==> part_value(#[trigger] parts[i]) is Some
}

/// The numbers that the parts stand for.
pub open spec fn part_values(parts: Seq<Seq<char>>) -> Seq<int> {
    Seq::new(parts.len(), |i: int| part_value(parts[i])->0)
}

/// What a cost field says. Without a semicolon it is one integer, read as it
/// stands. With one or more it is a list of integers between the semicolons,
/// each with white space around it set aside. It is read as a whole or not at
/// all.
pub open spec fn parse_ap_text(text: Seq<char>) -> ApValue {
    if has_char(text, ';') {
        if all_parts_parse(split(text, ';')) {
            ApValue::Multiple(part_values(split(text, ';')))
        } else {
            ApValue::Malformed
        }
    } else {
        match parse_i32(text) {
            Some(value) => ApValue::Single(value),
            None => ApValue::Malformed,
        }
    }
}

/// The sum of a list of integers.
pub open spec fn seq_sum(values: Seq<int>) -> int
    decreases values.len(),
{
    if values.len() == 0 {
        0
    } else {
        seq_sum(values.drop_last()) + values.last()
    }
}

/// The cost of one value bought `step` times.
pub open spec fn single_value_cost(value: int, step: int) -> int {
    value * step
}

/// The cost of the first `step` steps of a list of costs, where the list has
/// that many and `step` is at least 1.
pub open spec fn multiple_values_cost(values: Seq<int>, step: int) -> Option<int> {
    if 1 <= step <= values.len() {
        Some(seq_sum(values.take(step)))
    } else {
        None
    }
}

/// What is wrong with a step for which a list of `count` costs has no cost.
pub open spec fn step_error(count: int, step: int) -> Seq<char> {
    if step > count {
        "Step "@ + decimal_text(step) + " exceeds available values ("@ + decimal_text(count)
            + ")"@
    } else {
        "Step must be at least 1"@
    }
}

/// The cost that a cost field gives at a step: nothing where the field or
/// the step is in error.
pub open spec fn value_cost(value: ApValue, step: int) -> int {
    match value {
        ApValue::Single(v) => single_value_cost(v, step),
        ApValue::Multiple(values) => match multiple_values_cost(values, step) {
            Some(cost) => cost,
            None => 0,
        },
        ApValue::Malformed => 0,
    }
}

/// The numbers of a list, written with ` + ` between them.
pub open spec fn joined_by_plus(values: Seq<int>) -> Seq<char>
    decreases values.len(),
{
    if values.len() == 0 {
        Seq::empty()
    } else if values.len() == 1 {
        decimal_text(values[0])
    } else {
        joined_by_plus(values.drop_last()) + " + "@ + decimal_text(values.last())
    }
}

/// How the cost of a cost field at a step comes about, for a reader.
pub open spec fn calculation_text(value: ApValue, step: int) -> Seq<char> {
    match value {
        ApValue::Single(v) => if step == 1 {
            decimal_text(v)
        } else {
            decimal_text(v) + " \u{d7} "@ + decimal_text(step)
        },
        ApValue::Multiple(values) => if multiple_values_cost(values, step) is Some {
            if step > 1 {
                "Sum: "@ + joined_by_plus(values.take(step))
            } else {
                decimal_text(values[0])
            }
        } else {
            "ERROR: "@ + step_error(values.len() as int, step)
        },
        ApValue::Malformed => "Parse error"@,
    }
}

/// A name without what follows its first opening parenthesis, and without
/// white space around what is left.
pub open spec fn base_name(name: Seq<char>) -> Seq<char> {
    if has_char(name, '(') {
        trim(name.take(first_index_of(name, '(')))
    } else {
        name
    }
}

impl Item {
    /// The step of the item, where it holds one that is an integer.
    pub open spec fn step_option(&self) -> Option<int> {
        match self.system.text_at("step"@) {
            Some(text) => parse_i32(text),
            None => None,
        }
    }

    /// The step of the item; 1 where it holds none that is an integer.
    pub open spec fn step(&self) -> int {
        match self.step_option() {
            Some(step) => step,
            None => 1,
        }
    }

    /// What the item costs by its cost field and its step; nothing where it
    /// has no cost field.
    pub open spec fn ap_cost(&self) -> int {
        match self.system.ap_value() {
            Some(text) => value_cost(parse_ap_text(text), self.step()),
            None => 0,
        }
    }

    /// The cost field of the item as it stands; empty where it has none.
    pub open spec fn raw_ap_value(&self) -> Seq<char> {
        match self.system.ap_value() {
            Some(text) => text,
            None => Seq::empty(),
        }
    }

    /// The priced line of the item.
    pub open spec fn priced(&self) -> ApItemView {
        ApItemView {
            name: self.name@,
            item_type: self.item_type@,
            raw_value: self.raw_ap_value(),
            step: self.step_option(),
            calculation: calculation_text(parse_ap_text(self.raw_ap_value()), self.step()),
            ap_cost: self.ap_cost(),
            was_excluded: false,
        }
    }
}

/// `x` as a 32-bit machine integer, where it is one.
pub fn narrow(x: i128) -> (r: Option<i32>)
    ensures
        r == checked_i32(x as int),
{
    if -0x8000_0000 <= x && x <= 0x7fff_ffff {
        Some(x as i32)
    } else {
        None
    }
}

impl ApCalculator {
    /// The base name of a full name: `Foo (Bar)` gives `Foo`.
    pub fn extract_base_name(full_name: &str) -> (r: String)
        ensures
            r@ == base_name(full_name@),
    {
        let chars = chars_of(full_name);
        let n = chars.len();
        assert(chars@.subrange(0, n as int) =~= chars@);
        let k = find_char_in(&chars, 0, n, '(');
        if k < n {
            let (a, b) = trim_bounds(&chars, 0, k);
            String::from_str(full_name.substring_char(a, b))
        } else {
            String::from_str(full_name)
        }
    }

    /// Reads a cost field.
    pub fn parse_ap_value(ap_value_str: &str) -> (r: ApValueParseResult)
        ensures
            r@ == parse_ap_text(ap_value_str@),
    {
        let chars = chars_of(ap_value_str);
        let n = chars.len();
        let ghost s = chars@;
        assert(s.subrange(0, n as int) =~= s);
        let first = find_char_in(&chars, 0, n, ';');
        if first == n {
            return match parse_int_in(&chars, 0, n) {
                Some(value) => ApValueParseResult::SingleValue(value),
                None => ApValueParseResult::ParseError,
            };
        }
        let ghost parts = split(s, ';');
        let mut values: Vec<i32> = Vec::new();
        let mut start: usize = 0;
        let ghost mut done: Seq<Seq<char>> = Seq::empty();
        loop
            invariant
                start <= n,
                n == chars.len(),
                s == chars@,
                s == ap_value_str@,
                parts == split(s, ';'),
                has_char(s, ';'),
                parts == done + split(s.subrange(start as int, n as int), ';'),
                values@.len() == done.len(),
                forall|i: int|
                    0 <= i < done.len() ==> part_value(#[trigger] done[i]) == Some(
                        values@[i] as int,
                    ),
            decreases n - start,
        {
            let k = find_char_in(&chars, start, n, ';');
            let (a, b) = trim_bounds(&chars, start, k);
            let ghost part = s.subrange(start as int, k as int);
            proof {
                lemma_split_step(s, ';', start as int, k as int);
            }
            match parse_int_in(&chars, a, b) {
                None => {
                    assert(part_value(parts[done.len() as int]) is None);
                    return ApValueParseResult::ParseError;
                },
                Some(value) => {
                    values.push(value);
                    proof {
                        done = done.push(part);
                    }
                },
            }
            if k == n {
                proof {
                    assert(ints(values@) =~= part_values(parts));
                }
                return ApValueParseResult::MultipleValues(values);
            }
            start = k + 1;
        }
    }

    /// The cost of one value bought `step` times.
    pub fn calculate_single_value_cost(value: i32, step: i32) -> (cost: i32)
        requires
            fits_i32(single_value_cost(value as int, step as int)),
        ensures
            cost == single_value_cost(value as int, step as int),
    {
        value * step
    }

    /// The sum of the first `count` of `values`.
    fn sum_of_first(values: &[i32], count: usize) -> (total: i64)
        requires
            count <= values@.len(),
            count <= 0x8000_0000,
        ensures
            total == seq_sum(ints(values@).take(count as int)),
    {
        let ghost all = ints(values@);
        let mut total: i64 = 0;
        let mut i: usize = 0;
        while i < count
            invariant
                i <= count <= values.len(),
                count <= 0x8000_0000,
                all == ints(values@),
                total == seq_sum(all.take(i as int)),
                -0x8000_0000 * i <= total <= 0x8000_0000 * i,
            decreases count - i,
        {
            assert(all.take(i + 1).drop_last() =~= all.take(i as int));
            total = total + values[i] as i64;
            i = i + 1;
        }
        total
    }

    /// The cost of the first `step` steps of a list of costs. A step beyond
    /// the list or below 1 is an error.
    pub fn calculate_multiple_values_cost(values: &[i32], step: i32) -> (r: Result<i32, String>)
        requires
            multiple_values_cost(ints(values@), step as int) matches Some(cost) ==> fits_i32(cost),
        ensures
            r matches Ok(cost) ==> multiple_values_cost(ints(values@), step as int) == Some(
                cost as int,
            ),
            r matches Err(message) ==> multiple_values_cost(ints(values@), step as int) is None
                && message@ == step_error(values@.len() as int, step as int),
    {
        if step > 0 && step as usize > values.len() {
            let mut message = String::from_str("Step ");
            message.append(int_to_string(step as i64).as_str());
            message.append(" exceeds available values (");
            message.append(nat_to_string(values.len() as u64).as_str());
            message.append(")");
            return Err(message);
        }
        if step < 1 {
            return Err(String::from_str("Step must be at least 1"));
        }
        let total = Self::sum_of_first(values, step as usize);
        Ok(total as i32)
    }

    /// The numbers of `values[..count]`, written with ` + ` between them.
    fn join_by_plus(values: &Vec<i32>, count: usize) -> (r: String)
        requires
            count <= values.len(),
        ensures
            r@ == joined_by_plus(ints(values@).take(count as int)),
    {
        let ghost all = ints(values@);
        let mut out = String::new();
        let mut i: usize = 0;
        while i < count
            invariant
                i <= count <= values.len(),
                all == ints(values@),
                out@ == joined_by_plus(all.take(i as int)),
            decreases count - i,
        {
            let ghost next = all.take(i + 1);
            assert(next.drop_last() =~= all.take(i as int));
            if i > 0 {
                out.append(" + ");
            }
            out.append(int_to_string(values[i] as i64).as_str());
            i = i + 1;
        }
        out
    }

    /// How the cost of a cost field at a step comes about, for a reader.
    pub fn explain_calculation(parsed: &ApValueParseResult, step: i32) -> (r: String)
        ensures
            r@ == calculation_text(parsed@, step as int),
    {
        match parsed {
            ApValueParseResult::SingleValue(value) => {
                let mut out = int_to_string(*value as i64);
                if step != 1 {
                    out.append(" \u{d7} ");
                    out.append(int_to_string(step as i64).as_str());
                }
                out
            },
            ApValueParseResult::MultipleValues(values) => {
                if step >= 1 && step as usize <= values.len() {
                    if step > 1 {
                        let mut out = String::from_str("Sum: ");
                        out.append(Self::join_by_plus(values, step as usize).as_str());
                        out
                    } else {
                        int_to_string(values[0] as i64)
                    }
                } else {
                    let mut out = String::from_str("ERROR: ");
                    if step > 0 {
                        out.append("Step ");
                        out.append(int_to_string(step as i64).as_str());
                        out.append(" exceeds available values (");
                        out.append(nat_to_string(values.len() as u64).as_str());
                        out.append(")");
                    } else {
                        out.append("Step must be at least 1");
                    }
                    out
                }
            },
            ApValueParseResult::ParseError => String::from_str("Parse error"),
        }
    }

    /// The step of an item, where it holds one that is an integer.
    pub fn item_step(item: &Item) -> (r: Option<i32>)
        ensures
            r is Some <==> item.step_option() is Some,
            r matches Some(step) ==> step == item.step_option()->0,
    {
        match item.system.get_step_value() {
            Some(text) => parse_int(text.as_str()),
            None => None,
        }
    }

    /// What a cost field costs at a step, where that is a machine integer.
    pub fn checked_cost_at_step(parsed: &ApValueParseResult, step: i32) -> (r: Option<i32>)
        ensures
            r == checked_i32(value_cost(parsed@, step as int)),
    {
        match parsed {
            ApValueParseResult::SingleValue(value) => {
                proof {
                    lemma_product_bound(*value as int, step as int, 0x8000_0000, 0x8000_0000);
                }
                let cost: i64 = (*value as i64) * (step as i64);
                narrow(cost as i128)
            },
            ApValueParseResult::MultipleValues(values) => {
                if step >= 1 && step as usize <= values.len() {
                    narrow(Self::sum_of_first(values.as_slice(), step as usize) as i128)
                } else {
                    Some(0)
                }
            },
            ApValueParseResult::ParseError => Some(0),
        }
    }

    /// What a cost field costs at a step.
    pub fn cost_at_step(parsed: &ApValueParseResult, step: i32) -> (cost: i32)
        requires
            fits_i32(value_cost(parsed@, step as int)),
        ensures
            cost == value_cost(parsed@, step as int),
    {
        match Self::checked_cost_at_step(parsed, step) {
            Some(cost) => cost,
            None => unreached(),
        }
    }

    /// What an item costs by its cost field and its step, where that is a
    /// machine integer.
    pub fn checked_item_ap_cost(item: &Item) -> (r: Option<i32>)
        ensures
            r == checked_i32(item.ap_cost()),
    {
        let text = match item.system.get_ap_value() {
            Some(text) => text,
            None => {
                return Some(0);
            },
        };
        let step = match Self::item_step(item) {
            Some(step) => step,
            None => 1,
        };
        let parsed = Self::parse_ap_value(text.as_str());
        Self::checked_cost_at_step(&parsed, step)
    }

    /// What an item costs by its cost field and its step.
    pub fn calculate_item_ap_cost(item: &Item) -> (cost: i32)
        requires
            fits_i32(item.ap_cost()),
        ensures
            cost == item.ap_cost(),
    {
        match Self::checked_item_ap_cost(item) {
            Some(cost) => cost,
            None => unreached(),
        }
    }

    /// The priced line of an item, where its cost is a machine integer.
    pub fn try_price_item(item: &Item) -> (r: Option<ApItem>)
        ensures
            r is Some <==> fits_i32(item.ap_cost()),
            r matches Some(line) ==> line@ == item.priced(),
    {
        let raw_value = match item.system.get_ap_value() {
            Some(text) => text,
            None => String::new(),
        };
        let step_option = Self::item_step(item);
        let step = match step_option {
            Some(step) => step,
            None => 1,
        };
        let parsed = Self::parse_ap_value(raw_value.as_str());
        let calculation = Self::explain_calculation(&parsed, step);
        let ap_cost = match Self::checked_item_ap_cost(item) {
            Some(cost) => cost,
            None => {
                return None;
            },
        };
        Some(
            ApItem {
                name: item.name.clone(),
                item_type: item.item_type.clone(),
                raw_value,
                step: step_option,
                calculation,
                ap_cost,
                was_excluded: false,
            },
        )
    }

    /// The priced line of an item.
    pub fn price_item(item: &Item) -> (line: ApItem)
        requires
            fits_i32(item.ap_cost()),
        ensures
            line@ == item.priced(),
    {
        match Self::try_price_item(item) {
            Some(line) => line,
            None => unreached(),
        }
    }
}

} // verus!
