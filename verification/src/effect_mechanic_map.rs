use vstd::prelude::*;

use crate::attacks::{BenchSide, CopyAttackSource, Mechanic};
use crate::card_ids::CardId;
use crate::models::{CardEffect, EnergyType, StatusCondition, TrainerType, TurnEffect};

verus! {

/// The mechanic of the last of the first `n` entries whose text is `text`, if any.
pub open spec fn lookup_upto(entries: Seq<(String, Mechanic)>, text: Seq<char>, n: int) -> Option<
    Mechanic,
>
    decreases n,
{
    if n <= 0 {
        None
    } else if entries[n - 1].0@ == text {
        Some(entries[n - 1].1)
    } else {
        lookup_upto(entries, text, n - 1)
    }
}

/// Attack effect texts, each with the mechanic that implements it. A text listed twice means
/// its last entry.
pub struct EffectMechanicMap {
    pub entries: Vec<(String, Mechanic)>,
}

impl EffectMechanicMap {
    /// The mechanic that implements the attack effect `text`, if any.
    pub open spec fn lookup(&self, text: Seq<char>) -> Option<Mechanic> {
        lookup_upto(self.entries@, text, self.entries@.len() as int)
    }

    /// The table of every attack effect text that has an implementation.
    pub fn new() -> (r: Self)
        ensures
            effect_mechanic_table(r.entries@),
    {
        let mut entries: Vec<(String, Mechanic)> = Vec::new();
        let ghost before = entries@;
        push_entries_0(&mut entries);
        proof {
            assert(entries@.subrange(0, 0) == before);
            assert(entries@.subrange(0, 10) == entries@.subrange(before.len() as int, entries@.len() as int));
        }
        let ghost before = entries@;
        push_entries_1(&mut entries);
        proof {
            assert(entries@.subrange(0, 10) == before);
            assert(entries@.subrange(10, 20) == entries@.subrange(before.len() as int, entries@.len() as int));
        }
        let ghost before = entries@;
        push_entries_2(&mut entries);
        proof {
            assert(entries@.subrange(0, 20) == before);
            assert(entries@.subrange(20, 30) == entries@.subrange(before.len() as int, entries@.len() as int));
        }
        let ghost before = entries@;
        push_entries_3(&mut entries);
        proof {
            assert(entries@.subrange(0, 30) == before);
            assert(entries@.subrange(30, 40) == entries@.subrange(before.len() as int, entries@.len() as int));
        }
        let ghost before = entries@;
        push_entries_4(&mut entries);
        proof {
            assert(entries@.subrange(0, 40) == before);
            assert(entries@.subrange(40, 50) == entries@.subrange(before.len() as int, entries@.len() as int));
        }
        let ghost before = entries@;
        push_entries_5(&mut entries);
        proof {
            assert(entries@.subrange(0, 50) == before);
            assert(entries@.subrange(50, 60) == entries@.subrange(before.len() as int, entries@.len() as int));
        }
        let ghost before = entries@;
        push_entries_6(&mut entries);
        proof {
            assert(entries@.subrange(0, 60) == before);
            assert(entries@.subrange(60, 70) == entries@.subrange(before.len() as int, entries@.len() as int));
        }
        let ghost before = entries@;
        push_entries_7(&mut entries);
        proof {
            assert(entries@.subrange(0, 70) == before);
            assert(entries@.subrange(70, 80) == entries@.subrange(before.len() as int, entries@.len() as int));
        }
        let ghost before = entries@;
        push_entries_8(&mut entries);
        proof {
            assert(entries@.subrange(0, 80) == before);
            assert(entries@.subrange(80, 90) == entries@.subrange(before.len() as int, entries@.len() as int));
        }
        let ghost before = entries@;
        push_entries_9(&mut entries);
        proof {
            assert(entries@.subrange(0, 90) == before);
            assert(entries@.subrange(90, 100) == entries@.subrange(before.len() as int, entries@.len() as int));
        }
        let ghost before = entries@;
        push_entries_10(&mut entries);
        proof {
            assert(entries@.subrange(0, 100) == before);
            assert(entries@.subrange(100, 110) == entries@.subrange(before.len() as int, entries@.len() as int));
        }
        let ghost before = entries@;
        push_entries_11(&mut entries);
        proof {
            assert(entries@.subrange(0, 110) == before);
            assert(entries@.subrange(110, 120) == entries@.subrange(before.len() as int, entries@.len() as int));
        }
        let ghost before = entries@;
        push_entries_12(&mut entries);
        proof {
            assert(entries@.subrange(0, 120) == before);
            assert(entries@.subrange(120, 130) == entries@.subrange(before.len() as int, entries@.len() as int));
        }
        let ghost before = entries@;
        push_entries_13(&mut entries);
        proof {
            assert(entries@.subrange(0, 130) == before);
            assert(entries@.subrange(130, 140) == entries@.subrange(before.len() as int, entries@.len() as int));
        }
        let ghost before = entries@;
        push_entries_14(&mut entries);
        proof {
            assert(entries@.subrange(0, 140) == before);
            assert(entries@.subrange(140, 150) == entries@.subrange(before.len() as int, entries@.len() as int));
        }
        let ghost before = entries@;
        push_entries_15(&mut entries);
        proof {
            assert(entries@.subrange(0, 150) == before);
            assert(entries@.subrange(150, 160) == entries@.subrange(before.len() as int, entries@.len() as int));
        }
        let ghost before = entries@;
        push_entries_16(&mut entries);
        proof {
            assert(entries@.subrange(0, 160) == before);
            assert(entries@.subrange(160, 170) == entries@.subrange(before.len() as int, entries@.len() as int));
        }
        let ghost before = entries@;
        push_entries_17(&mut entries);
        proof {
            assert(entries@.subrange(0, 170) == before);
            assert(entries@.subrange(170, 180) == entries@.subrange(before.len() as int, entries@.len() as int));
        }
        let ghost before = entries@;
        push_entries_18(&mut entries);
        proof {
            assert(entries@.subrange(0, 180) == before);
            assert(entries@.subrange(180, 190) == entries@.subrange(before.len() as int, entries@.len() as int));
        }
        let ghost before = entries@;
        push_entries_19(&mut entries);
        proof {
            assert(entries@.subrange(0, 190) == before);
            assert(entries@.subrange(190, 200) == entries@.subrange(before.len() as int, entries@.len() as int));
        }
        let ghost before = entries@;
        push_entries_20(&mut entries);
        proof {
            assert(entries@.subrange(0, 200) == before);
            assert(entries@.subrange(200, 210) == entries@.subrange(before.len() as int, entries@.len() as int));
        }
        let ghost before = entries@;
        push_entries_21(&mut entries);
        proof {
            assert(entries@.subrange(0, 210) == before);
            assert(entries@.subrange(210, 220) == entries@.subrange(before.len() as int, entries@.len() as int));
        }
        let ghost before = entries@;
        push_entries_22(&mut entries);
        proof {
            assert(entries@.subrange(0, 220) == before);
            assert(entries@.subrange(220, 230) == entries@.subrange(before.len() as int, entries@.len() as int));
        }
        let ghost before = entries@;
        push_entries_23(&mut entries);
        proof {
            assert(entries@.subrange(0, 230) == before);
            assert(entries@.subrange(230, 240) == entries@.subrange(before.len() as int, entries@.len() as int));
        }
        let ghost before = entries@;
        push_entries_24(&mut entries);
        proof {
            assert(entries@.subrange(0, 240) == before);
            assert(entries@.subrange(240, 250) == entries@.subrange(before.len() as int, entries@.len() as int));
        }
        let ghost before = entries@;
        push_entries_25(&mut entries);
        proof {
            assert(entries@.subrange(0, 250) == before);
            assert(entries@.subrange(250, 260) == entries@.subrange(before.len() as int, entries@.len() as int));
        }
        let ghost before = entries@;
        push_entries_26(&mut entries);
        proof {
            assert(entries@.subrange(0, 260) == before);
            assert(entries@.subrange(260, 270) == entries@.subrange(before.len() as int, entries@.len() as int));
        }
        let ghost before = entries@;
        push_entries_27(&mut entries);
        proof {
            assert(entries@.subrange(0, 270) == before);
            assert(entries@.subrange(270, 280) == entries@.subrange(before.len() as int, entries@.len() as int));
        }
        let ghost before = entries@;
        push_entries_28(&mut entries);
        proof {
            assert(entries@.subrange(0, 280) == before);
            assert(entries@.subrange(280, 290) == entries@.subrange(before.len() as int, entries@.len() as int));
        }
        let ghost before = entries@;
        push_entries_29(&mut entries);
        proof {
            assert(entries@.subrange(0, 290) == before);
            assert(entries@.subrange(290, 300) == entries@.subrange(before.len() as int, entries@.len() as int));
        }
        let ghost before = entries@;
        push_entries_30(&mut entries);
        proof {
            assert(entries@.subrange(0, 300) == before);
            assert(entries@.subrange(300, 310) == entries@.subrange(before.len() as int, entries@.len() as int));
        }
        let ghost before = entries@;
        push_entries_31(&mut entries);
        proof {
            assert(entries@.subrange(0, 310) == before);
            assert(entries@.subrange(310, 320) == entries@.subrange(before.len() as int, entries@.len() as int));
        }
        let ghost before = entries@;
        push_entries_32(&mut entries);
        proof {
            assert(entries@.subrange(0, 320) == before);
            assert(entries@.subrange(320, 330) == entries@.subrange(before.len() as int, entries@.len() as int));
        }
        let ghost before = entries@;
        push_entries_33(&mut entries);
        proof {
            assert(entries@.subrange(0, 330) == before);
            assert(entries@.subrange(330, 340) == entries@.subrange(before.len() as int, entries@.len() as int));
        }
        let ghost before = entries@;
        push_entries_34(&mut entries);
        proof {
            assert(entries@.subrange(0, 340) == before);
            assert(entries@.subrange(340, 350) == entries@.subrange(before.len() as int, entries@.len() as int));
        }
        let ghost before = entries@;
        push_entries_35(&mut entries);
        proof {
            assert(entries@.subrange(0, 350) == before);
            assert(entries@.subrange(350, 360) == entries@.subrange(before.len() as int, entries@.len() as int));
        }
        let ghost before = entries@;
        push_entries_36(&mut entries);
        proof {
            assert(entries@.subrange(0, 360) == before);
            assert(entries@.subrange(360, 370) == entries@.subrange(before.len() as int, entries@.len() as int));
        }
        let ghost before = entries@;
        push_entries_37(&mut entries);
        proof {
            assert(entries@.subrange(0, 370) == before);
            assert(entries@.subrange(370, 380) == entries@.subrange(before.len() as int, entries@.len() as int));
        }
        let ghost before = entries@;
        push_entries_38(&mut entries);
        proof {
            assert(entries@.subrange(0, 380) == before);
            assert(entries@.subrange(380, 390) == entries@.subrange(before.len() as int, entries@.len() as int));
        }
        let ghost before = entries@;
        push_entries_39(&mut entries);
        proof {
            assert(entries@.subrange(0, 390) == before);
            assert(entries@.subrange(390, 400) == entries@.subrange(before.len() as int, entries@.len() as int));
        }
        let ghost before = entries@;
        push_entries_40(&mut entries);
        proof {
            assert(entries@.subrange(0, 400) == before);
            assert(entries@.subrange(400, 410) == entries@.subrange(before.len() as int, entries@.len() as int));
        }
        let ghost before = entries@;
        push_entries_41(&mut entries);
        proof {
            assert(entries@.subrange(0, 410) == before);
            assert(entries@.subrange(410, 420) == entries@.subrange(before.len() as int, entries@.len() as int));
        }
        let ghost before = entries@;
        push_entries_42(&mut entries);
        proof {
            assert(entries@.subrange(0, 420) == before);
            assert(entries@.subrange(420, 430) == entries@.subrange(before.len() as int, entries@.len() as int));
        }
        let ghost before = entries@;
        push_entries_43(&mut entries);
        proof {
            assert(entries@.subrange(0, 430) == before);
            assert(entries@.subrange(430, 440) == entries@.subrange(before.len() as int, entries@.len() as int));
        }
        let ghost before = entries@;
        push_entries_44(&mut entries);
        proof {
            assert(entries@.subrange(0, 440) == before);
            assert(entries@.subrange(440, 450) == entries@.subrange(before.len() as int, entries@.len() as int));
        }
        let ghost before = entries@;
        push_entries_45(&mut entries);
        proof {
            assert(entries@.subrange(0, 450) == before);
            assert(entries@.subrange(450, 453) == entries@.subrange(before.len() as int, entries@.len() as int));
        }
        EffectMechanicMap { entries }
    }

    /// The mechanic that implements the attack effect `text`, if any.
    pub fn get(&self, text: &str) -> (r: Option<&Mechanic>)
        ensures
            match r {
                Some(m) => self.lookup(text@) == Some(*m),
                None => self.lookup(text@) is None,
            },
    {
        let key = text.to_owned();
        let mut n: usize = self.entries.len();
        while n > 0
            invariant
                n <= self.entries@.len(),
                key@ == text@,
                self.lookup(text@) == lookup_upto(self.entries@, text@, n as int),
            decreases n,
        {
            if self.entries[n - 1].0 == key {
                return Some(&self.entries[n - 1].1);
            }
            n = n - 1;
        }
        None
    }
}

/// A list of one item.
fn list1<T>(a: T) -> (r: Vec<T>)
    ensures
        r@ == seq![a],
{
    let mut r: Vec<T> = Vec::new();
    r.push(a);
    proof {
        assert(r@ =~= seq![a]);
    }
    r
}

/// A list of two items, in order.
fn list2<T>(a: T, b: T) -> (r: Vec<T>)
    ensures
        r@ == seq![a, b],
{
    let mut r: Vec<T> = Vec::new();
    r.push(a);
    r.push(b);
    proof {
        assert(r@ =~= seq![a, b]);
    }
    r
}

/// A list of three items, in order.
fn list3<T>(a: T, b: T, c: T) -> (r: Vec<T>)
    ensures
        r@ == seq![a, b, c],
{
    let mut r: Vec<T> = Vec::new();
    r.push(a);
    r.push(b);
    r.push(c);
    proof {
        assert(r@ =~= seq![a, b, c]);
    }
    r
}

/// A list of four items, in order.
fn list4<T>(a: T, b: T, c: T, d: T) -> (r: Vec<T>)
    ensures
        r@ == seq![a, b, c, d],
{
    let mut r: Vec<T> = Vec::new();
    r.push(a);
    r.push(b);
    r.push(c);
    r.push(d);
    proof {
        assert(r@ =~= seq![a, b, c, d]);
    }
    r
}

/// The first 0 entries of the effect table are in place.
pub open spec fn table_upto_0(es: Seq<(String, Mechanic)>) -> bool {
    es.len() == 0
}

/// The first 10 entries of the effect table are in place.
pub open spec fn table_upto_1(es: Seq<(String, Mechanic)>) -> bool {
    &&& es.len() == 10
    &&& table_upto_0(es.subrange(0, 0))
    &&& table_part_0(es.subrange(0, 10))
}

/// The first 20 entries of the effect table are in place.
pub open spec fn table_upto_2(es: Seq<(String, Mechanic)>) -> bool {
    &&& es.len() == 20
    &&& table_upto_1(es.subrange(0, 10))
    &&& table_part_1(es.subrange(10, 20))
}

/// The first 30 entries of the effect table are in place.
pub open spec fn table_upto_3(es: Seq<(String, Mechanic)>) -> bool {
    &&& es.len() == 30
    &&& table_upto_2(es.subrange(0, 20))
    &&& table_part_2(es.subrange(20, 30))
}

/// The first 40 entries of the effect table are in place.
pub open spec fn table_upto_4(es: Seq<(String, Mechanic)>) -> bool {
    &&& es.len() == 40
    &&& table_upto_3(es.subrange(0, 30))
    &&& table_part_3(es.subrange(30, 40))
}

/// The first 50 entries of the effect table are in place.
pub open spec fn table_upto_5(es: Seq<(String, Mechanic)>) -> bool {
    &&& es.len() == 50
    &&& table_upto_4(es.subrange(0, 40))
    &&& table_part_4(es.subrange(40, 50))
}

/// The first 60 entries of the effect table are in place.
pub open spec fn table_upto_6(es: Seq<(String, Mechanic)>) -> bool {
    &&& es.len() == 60
    &&& table_upto_5(es.subrange(0, 50))
    &&& table_part_5(es.subrange(50, 60))
}

/// The first 70 entries of the effect table are in place.
pub open spec fn table_upto_7(es: Seq<(String, Mechanic)>) -> bool {
    &&& es.len() == 70
    &&& table_upto_6(es.subrange(0, 60))
    &&& table_part_6(es.subrange(60, 70))
}

/// The first 80 entries of the effect table are in place.
pub open spec fn table_upto_8(es: Seq<(String, Mechanic)>) -> bool {
    &&& es.len() == 80
    &&& table_upto_7(es.subrange(0, 70))
    &&& table_part_7(es.subrange(70, 80))
}

/// The first 90 entries of the effect table are in place.
pub open spec fn table_upto_9(es: Seq<(String, Mechanic)>) -> bool {
    &&& es.len() == 90
    &&& table_upto_8(es.subrange(0, 80))
    &&& table_part_8(es.subrange(80, 90))
}

/// The first 100 entries of the effect table are in place.
pub open spec fn table_upto_10(es: Seq<(String, Mechanic)>) -> bool {
    &&& es.len() == 100
    &&& table_upto_9(es.subrange(0, 90))
    &&& table_part_9(es.subrange(90, 100))
}

/// The first 110 entries of the effect table are in place.
pub open spec fn table_upto_11(es: Seq<(String, Mechanic)>) -> bool {
    &&& es.len() == 110
    &&& table_upto_10(es.subrange(0, 100))
    &&& table_part_10(es.subrange(100, 110))
}

/// The first 120 entries of the effect table are in place.
pub open spec fn table_upto_12(es: Seq<(String, Mechanic)>) -> bool {
    &&& es.len() == 120
    &&& table_upto_11(es.subrange(0, 110))
    &&& table_part_11(es.subrange(110, 120))
}

/// The first 130 entries of the effect table are in place.
pub open spec fn table_upto_13(es: Seq<(String, Mechanic)>) -> bool {
    &&& es.len() == 130
    &&& table_upto_12(es.subrange(0, 120))
    &&& table_part_12(es.subrange(120, 130))
}

/// The first 140 entries of the effect table are in place.
pub open spec fn table_upto_14(es: Seq<(String, Mechanic)>) -> bool {
    &&& es.len() == 140
    &&& table_upto_13(es.subrange(0, 130))
    &&& table_part_13(es.subrange(130, 140))
}

/// The first 150 entries of the effect table are in place.
pub open spec fn table_upto_15(es: Seq<(String, Mechanic)>) -> bool {
    &&& es.len() == 150
    &&& table_upto_14(es.subrange(0, 140))
    &&& table_part_14(es.subrange(140, 150))
}

/// The first 160 entries of the effect table are in place.
pub open spec fn table_upto_16(es: Seq<(String, Mechanic)>) -> bool {
    &&& es.len() == 160
    &&& table_upto_15(es.subrange(0, 150))
    &&& table_part_15(es.subrange(150, 160))
}

/// The first 170 entries of the effect table are in place.
pub open spec fn table_upto_17(es: Seq<(String, Mechanic)>) -> bool {
    &&& es.len() == 170
    &&& table_upto_16(es.subrange(0, 160))
    &&& table_part_16(es.subrange(160, 170))
}

/// The first 180 entries of the effect table are in place.
pub open spec fn table_upto_18(es: Seq<(String, Mechanic)>) -> bool {
    &&& es.len() == 180
    &&& table_upto_17(es.subrange(0, 170))
    &&& table_part_17(es.subrange(170, 180))
}

/// The first 190 entries of the effect table are in place.
pub open spec fn table_upto_19(es: Seq<(String, Mechanic)>) -> bool {
    &&& es.len() == 190
    &&& table_upto_18(es.subrange(0, 180))
    &&& table_part_18(es.subrange(180, 190))
}

/// The first 200 entries of the effect table are in place.
pub open spec fn table_upto_20(es: Seq<(String, Mechanic)>) -> bool {
    &&& es.len() == 200
    &&& table_upto_19(es.subrange(0, 190))
    &&& table_part_19(es.subrange(190, 200))
}

/// The first 210 entries of the effect table are in place.
pub open spec fn table_upto_21(es: Seq<(String, Mechanic)>) -> bool {
    &&& es.len() == 210
    &&& table_upto_20(es.subrange(0, 200))
    &&& table_part_20(es.subrange(200, 210))
}

/// The first 220 entries of the effect table are in place.
pub open spec fn table_upto_22(es: Seq<(String, Mechanic)>) -> bool {
    &&& es.len() == 220
    &&& table_upto_21(es.subrange(0, 210))
    &&& table_part_21(es.subrange(210, 220))
}

/// The first 230 entries of the effect table are in place.
pub open spec fn table_upto_23(es: Seq<(String, Mechanic)>) -> bool {
    &&& es.len() == 230
    &&& table_upto_22(es.subrange(0, 220))
    &&& table_part_22(es.subrange(220, 230))
}

/// The first 240 entries of the effect table are in place.
pub open spec fn table_upto_24(es: Seq<(String, Mechanic)>) -> bool {
    &&& es.len() == 240
    &&& table_upto_23(es.subrange(0, 230))
    &&& table_part_23(es.subrange(230, 240))
}

/// The first 250 entries of the effect table are in place.
pub open spec fn table_upto_25(es: Seq<(String, Mechanic)>) -> bool {
    &&& es.len() == 250
    &&& table_upto_24(es.subrange(0, 240))
    &&& table_part_24(es.subrange(240, 250))
}

/// The first 260 entries of the effect table are in place.
pub open spec fn table_upto_26(es: Seq<(String, Mechanic)>) -> bool {
    &&& es.len() == 260
    &&& table_upto_25(es.subrange(0, 250))
    &&& table_part_25(es.subrange(250, 260))
}

/// The first 270 entries of the effect table are in place.
pub open spec fn table_upto_27(es: Seq<(String, Mechanic)>) -> bool {
    &&& es.len() == 270
    &&& table_upto_26(es.subrange(0, 260))
    &&& table_part_26(es.subrange(260, 270))
}

/// The first 280 entries of the effect table are in place.
pub open spec fn table_upto_28(es: Seq<(String, Mechanic)>) -> bool {
    &&& es.len() == 280
    &&& table_upto_27(es.subrange(0, 270))
    &&& table_part_27(es.subrange(270, 280))
}

/// The first 290 entries of the effect table are in place.
pub open spec fn table_upto_29(es: Seq<(String, Mechanic)>) -> bool {
    &&& es.len() == 290
    &&& table_upto_28(es.subrange(0, 280))
    &&& table_part_28(es.subrange(280, 290))
}

/// The first 300 entries of the effect table are in place.
pub open spec fn table_upto_30(es: Seq<(String, Mechanic)>) -> bool {
    &&& es.len() == 300
    &&& table_upto_29(es.subrange(0, 290))
    &&& table_part_29(es.subrange(290, 300))
}

/// The first 310 entries of the effect table are in place.
pub open spec fn table_upto_31(es: Seq<(String, Mechanic)>) -> bool {
    &&& es.len() == 310
    &&& table_upto_30(es.subrange(0, 300))
    &&& table_part_30(es.subrange(300, 310))
}

/// The first 320 entries of the effect table are in place.
pub open spec fn table_upto_32(es: Seq<(String, Mechanic)>) -> bool {
    &&& es.len() == 320
    &&& table_upto_31(es.subrange(0, 310))
    &&& table_part_31(es.subrange(310, 320))
}

/// The first 330 entries of the effect table are in place.
pub open spec fn table_upto_33(es: Seq<(String, Mechanic)>) -> bool {
    &&& es.len() == 330
    &&& table_upto_32(es.subrange(0, 320))
    &&& table_part_32(es.subrange(320, 330))
}

/// The first 340 entries of the effect table are in place.
pub open spec fn table_upto_34(es: Seq<(String, Mechanic)>) -> bool {
    &&& es.len() == 340
    &&& table_upto_33(es.subrange(0, 330))
    &&& table_part_33(es.subrange(330, 340))
}

/// The first 350 entries of the effect table are in place.
pub open spec fn table_upto_35(es: Seq<(String, Mechanic)>) -> bool {
    &&& es.len() == 350
    &&& table_upto_34(es.subrange(0, 340))
    &&& table_part_34(es.subrange(340, 350))
}

/// The first 360 entries of the effect table are in place.
pub open spec fn table_upto_36(es: Seq<(String, Mechanic)>) -> bool {
    &&& es.len() == 360
    &&& table_upto_35(es.subrange(0, 350))
    &&& table_part_35(es.subrange(350, 360))
}

/// The first 370 entries of the effect table are in place.
pub open spec fn table_upto_37(es: Seq<(String, Mechanic)>) -> bool {
    &&& es.len() == 370
    &&& table_upto_36(es.subrange(0, 360))
    &&& table_part_36(es.subrange(360, 370))
}

/// The first 380 entries of the effect table are in place.
pub open spec fn table_upto_38(es: Seq<(String, Mechanic)>) -> bool {
    &&& es.len() == 380
    &&& table_upto_37(es.subrange(0, 370))
    &&& table_part_37(es.subrange(370, 380))
}

/// The first 390 entries of the effect table are in place.
pub open spec fn table_upto_39(es: Seq<(String, Mechanic)>) -> bool {
    &&& es.len() == 390
    &&& table_upto_38(es.subrange(0, 380))
    &&& table_part_38(es.subrange(380, 390))
}

/// The first 400 entries of the effect table are in place.
pub open spec fn table_upto_40(es: Seq<(String, Mechanic)>) -> bool {
    &&& es.len() == 400
    &&& table_upto_39(es.subrange(0, 390))
    &&& table_part_39(es.subrange(390, 400))
}

/// The first 410 entries of the effect table are in place.
pub open spec fn table_upto_41(es: Seq<(String, Mechanic)>) -> bool {
    &&& es.len() == 410
    &&& table_upto_40(es.subrange(0, 400))
    &&& table_part_40(es.subrange(400, 410))
}

/// The first 420 entries of the effect table are in place.
pub open spec fn table_upto_42(es: Seq<(String, Mechanic)>) -> bool {
    &&& es.len() == 420
    &&& table_upto_41(es.subrange(0, 410))
    &&& table_part_41(es.subrange(410, 420))
}

/// The first 430 entries of the effect table are in place.
pub open spec fn table_upto_43(es: Seq<(String, Mechanic)>) -> bool {
    &&& es.len() == 430
    &&& table_upto_42(es.subrange(0, 420))
    &&& table_part_42(es.subrange(420, 430))
}

/// The first 440 entries of the effect table are in place.
pub open spec fn table_upto_44(es: Seq<(String, Mechanic)>) -> bool {
    &&& es.len() == 440
    &&& table_upto_43(es.subrange(0, 430))
    &&& table_part_43(es.subrange(430, 440))
}

/// The first 450 entries of the effect table are in place.
pub open spec fn table_upto_45(es: Seq<(String, Mechanic)>) -> bool {
    &&& es.len() == 450
    &&& table_upto_44(es.subrange(0, 440))
    &&& table_part_44(es.subrange(440, 450))
}

/// The first 453 entries of the effect table are in place.
pub open spec fn table_upto_46(es: Seq<(String, Mechanic)>) -> bool {
    &&& es.len() == 453
    &&& table_upto_45(es.subrange(0, 450))
    &&& table_part_45(es.subrange(450, 453))
}

/// The whole effect table: its 453 (text, mechanic) entries, in order.
pub open spec fn effect_mechanic_table(es: Seq<(String, Mechanic)>) -> bool {
    table_upto_46(es)
}

/// Entries 0 to 9 of the effect table, in order.
pub open spec fn table_part_0(es: Seq<(String, Mechanic)>) -> bool {
    &&& es.len() == 10
    &&& es[0].0@ == "1 of your opponent's Benched Pokémon is chosen at random 3 times. For each time a Pokémon was chosen, also do 20 damage to it."@
    &&& es[0].1 == Mechanic::MegaAmpharosExLightningLancer
    &&& es[1].0@ == "1 of your opponent's Pokémon is chosen at random 3 times. For each time a Pokémon was chosen, do 50 damage to it."@
    &&& es[1].1 == Mechanic::RandomSpreadDamage { times: 3, damage_per_hit: 50, include_own_bench: false }
    &&& es[2].0@ == "1 of your opponent's Pokémon is chosen at random 4 times. For each time a Pokémon was chosen, do 40 damage to it."@
    &&& es[2].1 == Mechanic::RandomSpreadDamage { times: 4, damage_per_hit: 40, include_own_bench: false }
    &&& es[3].0@ == "1 of your opponent's Pokémon is chosen at random 4 times. For each time a Pokémon was chosen, do 50 damage to it."@
    &&& es[3].1 == Mechanic::RandomSpreadDamage { times: 4, damage_per_hit: 50, include_own_bench: false }
    &&& es[4].0@ == "1 of your opponent's Pokémon is chosen at random. Do 30 damage to it."@
    &&& es[4].1 == Mechanic::RandomSpreadDamage { times: 1, damage_per_hit: 30, include_own_bench: false }
    &&& es[5].0@ == "1 other Pokémon (either yours or your opponent's) is chosen at random 3 times. For each time a Pokémon was chosen, do 50 damage to it."@
    &&& es[5].1 == Mechanic::RandomSpreadDamage { times: 3, damage_per_hit: 50, include_own_bench: true }
    &&& es[6].0@ == "At the end of your opponent's next turn, do 90 damage to the Defending Pokémon."@
    &&& es[6].1 == Mechanic::DamageAndCardEffect { opponent: true, effect: CardEffect::DelayedDamage { amount: 90 }, duration: 1, coin_flip: false }
    &&& es[7].0@ == "Before doing damage, discard all Pokémon Tools from your opponent's Active Pokémon."@
    &&& es[7].1 == Mechanic::DiscardOpponentActiveToolsBeforeDamage
    &&& es[8].0@ == "Both Active Pokémon are now Confused."@
    &&& (es[8].1 matches Mechanic::InflictStatusConditionsOnBothActive { conditions: x1 } && (x1@ == seq![StatusCondition::Confused]))
    &&& es[9].0@ == "Change the type of the next Energy that will be generated for your opponent to 1 of the following at random: [G], [R], [W], [L], [P], [F], [D], or [M]."@
    &&& es[9].1 == Mechanic::RandomizeOpponentNextEnergy
}

/// Pushes entries 0 to 9 of the effect table.
fn push_entries_0(entries: &mut Vec<(String, Mechanic)>)
    ensures
        final(entries)@.len() == old(entries)@.len() + 10,
        final(entries)@.subrange(0, old(entries)@.len() as int) == old(entries)@,
        table_part_0(final(entries)@.subrange(old(entries)@.len() as int, final(entries)@.len() as int)),
{
    let ghost before = entries@;
    entries.push(("1 of your opponent's Benched Pokémon is chosen at random 3 times. For each time a Pokémon was chosen, also do 20 damage to it.".to_string(), Mechanic::MegaAmpharosExLightningLancer));
    entries.push(("1 of your opponent's Pokémon is chosen at random 3 times. For each time a Pokémon was chosen, do 50 damage to it.".to_string(), Mechanic::RandomSpreadDamage { times: 3, damage_per_hit: 50, include_own_bench: false }));
    entries.push(("1 of your opponent's Pokémon is chosen at random 4 times. For each time a Pokémon was chosen, do 40 damage to it.".to_string(), Mechanic::RandomSpreadDamage { times: 4, damage_per_hit: 40, include_own_bench: false }));
    entries.push(("1 of your opponent's Pokémon is chosen at random 4 times. For each time a Pokémon was chosen, do 50 damage to it.".to_string(), Mechanic::RandomSpreadDamage { times: 4, damage_per_hit: 50, include_own_bench: false }));
    entries.push(("1 of your opponent's Pokémon is chosen at random. Do 30 damage to it.".to_string(), Mechanic::RandomSpreadDamage {
        times: 1,
        damage_per_hit: 30,
        include_own_bench: false,
        }));
    entries.push(("1 other Pokémon (either yours or your opponent's) is chosen at random 3 times. For each time a Pokémon was chosen, do 50 damage to it.".to_string(), Mechanic::RandomSpreadDamage { times: 3, damage_per_hit: 50, include_own_bench: true }));
    entries.push(("At the end of your opponent's next turn, do 90 damage to the Defending Pokémon.".to_string(), Mechanic::DamageAndCardEffect {
        opponent: true,
        effect: CardEffect::DelayedDamage { amount: 90 },
        duration: 1,
        coin_flip: false,
        }));
    entries.push(("Before doing damage, discard all Pokémon Tools from your opponent's Active Pokémon.".to_string(), Mechanic::DiscardOpponentActiveToolsBeforeDamage));
    entries.push(("Both Active Pokémon are now Confused.".to_string(), Mechanic::InflictStatusConditionsOnBothActive {
        conditions: list1(StatusCondition::Confused),
        }));
    entries.push(("Change the type of the next Energy that will be generated for your opponent to 1 of the following at random: [G], [R], [W], [L], [P], [F], [D], or [M].".to_string(), Mechanic::RandomizeOpponentNextEnergy));
    proof {
        assert(entries@.subrange(0, before.len() as int) =~= before);
    }
}

/// Entries 10 to 19 of the effect table, in order.
pub open spec fn table_part_1(es: Seq<(String, Mechanic)>) -> bool {
    &&& es.len() == 10
    &&& es[0].0@ == "Choose 1 of your opponent's Active Pokémon's attacks and use it as this attack."@
    &&& es[0].1 == Mechanic::CopyAttack { source: CopyAttackSource::OpponentActive, require_attacker_energy_match: false }
    &&& es[1].0@ == "Choose 1 of your opponent's Pokémon's attacks and use it as this attack. If this Pokémon doesn't have the necessary Energy to use that attack, this attack does nothing."@
    &&& es[1].1 == Mechanic::CopyAttack { source: CopyAttackSource::OpponentInPlay, require_attacker_energy_match: true }
    &&& es[2].0@ == "Choose 2 of your Benched Pokémon. For each of those Pokémon, take a [W] Energy from your Energy Zone and attach it to that Pokémon."@
    &&& es[2].1 == Mechanic::AttachEnergyFromZoneToTwoBenched { energy_type: EnergyType::Water }
    &&& es[3].0@ == "Choose 2 of your Benched Pokémon. For each of those Pokémon, take a [P] Energy from your Energy Zone and attach it to that Pokémon."@
    &&& es[3].1 == Mechanic::AttachEnergyFromZoneToTwoBenched { energy_type: EnergyType::Psychic }
    &&& es[4].0@ == "Choose either Poisoned or Confused. Your opponent's Active Pokémon is now affected by that Special Condition."@
    &&& (es[4].1 matches Mechanic::ChooseStatusToInflict { options: x1 } && (x1@ == seq![StatusCondition::Poisoned, StatusCondition::Confused]))
    &&& es[5].0@ == "Discard 2 [L] Energy from this Pokémon."@
    &&& (es[5].1 matches Mechanic::SelfDiscardEnergy { energies: x1 } && (x1@ == seq![EnergyType::Lightning, EnergyType::Lightning]))
    &&& es[6].0@ == "Discard 2 [M] Energy from this Pokémon. During your opponent's next turn, this Pokémon takes -50 damage from attacks."@
    &&& (es[6].1 matches Mechanic::SelfDiscardEnergyAndCardEffect { energies: x1, effect: x2, duration: x3 } && (x1@ == seq![EnergyType::Metal, EnergyType::Metal]) && (x2 == CardEffect::ReducedDamage { amount: 50 }) && (x3 == 1))
    &&& es[7].0@ == "Discard 2 [P] Energy from this Pokémon."@
    &&& (es[7].1 matches Mechanic::SelfDiscardEnergy { energies: x1 } && (x1@ == seq![EnergyType::Psychic, EnergyType::Psychic]))
    &&& es[8].0@ == "Discard 2 [R] Energy from this Pokémon."@
    &&& (es[8].1 matches Mechanic::SelfDiscardEnergy { energies: x1 } && (x1@ == seq![EnergyType::Fire, EnergyType::Fire]))
    &&& es[9].0@ == "Discard 2 cards from your hand. If you can't discard 2 cards, this attack does nothing."@
    &&& es[9].1 == Mechanic::DiscardHandCards { count: 2 }
}

/// Pushes entries 10 to 19 of the effect table.
fn push_entries_1(entries: &mut Vec<(String, Mechanic)>)
    ensures
        final(entries)@.len() == old(entries)@.len() + 10,
        final(entries)@.subrange(0, old(entries)@.len() as int) == old(entries)@,
        table_part_1(final(entries)@.subrange(old(entries)@.len() as int, final(entries)@.len() as int)),
{
    let ghost before = entries@;
    entries.push(("Choose 1 of your opponent's Active Pokémon's attacks and use it as this attack.".to_string(), Mechanic::CopyAttack {
        source: CopyAttackSource::OpponentActive,
        require_attacker_energy_match: false,
        }));
    entries.push(("Choose 1 of your opponent's Pokémon's attacks and use it as this attack. If this Pokémon doesn't have the necessary Energy to use that attack, this attack does nothing.".to_string(), Mechanic::CopyAttack {
        source: CopyAttackSource::OpponentInPlay,
        require_attacker_energy_match: true,
        }));
    entries.push(("Choose 2 of your Benched Pokémon. For each of those Pokémon, take a [W] Energy from your Energy Zone and attach it to that Pokémon.".to_string(), Mechanic::AttachEnergyFromZoneToTwoBenched { energy_type: EnergyType::Water }));
    entries.push(("Choose 2 of your Benched Pokémon. For each of those Pokémon, take a [P] Energy from your Energy Zone and attach it to that Pokémon.".to_string(), Mechanic::AttachEnergyFromZoneToTwoBenched { energy_type: EnergyType::Psychic }));
    entries.push(("Choose either Poisoned or Confused. Your opponent's Active Pokémon is now affected by that Special Condition.".to_string(), Mechanic::ChooseStatusToInflict {
        options: list2(StatusCondition::Poisoned, StatusCondition::Confused),
        }));
    entries.push(("Discard 2 [L] Energy from this Pokémon.".to_string(), Mechanic::SelfDiscardEnergy {
        energies: list2(EnergyType::Lightning, EnergyType::Lightning),
        }));
    entries.push(("Discard 2 [M] Energy from this Pokémon. During your opponent's next turn, this Pokémon takes -50 damage from attacks.".to_string(), Mechanic::SelfDiscardEnergyAndCardEffect {
        energies: list2(EnergyType::Metal, EnergyType::Metal),
        effect: CardEffect::ReducedDamage { amount: 50 },
        duration: 1,
        }));
    entries.push(("Discard 2 [P] Energy from this Pokémon.".to_string(), Mechanic::SelfDiscardEnergy {
        energies: list2(EnergyType::Psychic, EnergyType::Psychic),
        }));
    entries.push(("Discard 2 [R] Energy from this Pokémon.".to_string(), Mechanic::SelfDiscardEnergy {
        energies: list2(EnergyType::Fire, EnergyType::Fire),
        }));
    entries.push(("Discard 2 cards from your hand. If you can't discard 2 cards, this attack does nothing.".to_string(), Mechanic::DiscardHandCards { count: 2 }));
    proof {
        assert(entries@.subrange(0, before.len() as int) =~= before);
    }
}

/// Entries 20 to 29 of the effect table, in order.
pub open spec fn table_part_2(es: Seq<(String, Mechanic)>) -> bool {
    &&& es.len() == 10
    &&& es[0].0@ == "Discard 2 random Energy from this Pokémon."@
    &&& es[0].1 == Mechanic::SelfDiscardRandomEnergy { count: 2 }
    &&& es[1].0@ == "Discard 3 [W] Energy from this Pokémon. This attack also does 20 damage to each of your opponent's Benched Pokémon."@
    &&& es[1].1 == Mechanic::PalkiaExDimensionalStorm
    &&& es[2].0@ == "Discard Fire[R] Energy from this Pokémon. Your opponent's Active Pokémon is now Burned."@
    &&& (es[2].1 matches Mechanic::SelfDiscardEnergyAndInflictStatus { energies: x1, conditions: x2 } && (x1@ == seq![EnergyType::Fire]) && (x2@ == seq![StatusCondition::Burned]))
    &&& es[3].0@ == "Discard a [F] Energy from this Pokémon."@
    &&& (es[3].1 matches Mechanic::SelfDiscardEnergy { energies: x1 } && (x1@ == seq![EnergyType::Fighting]))
    &&& es[4].0@ == "Discard a [L] Energy from this Pokémon."@
    &&& (es[4].1 matches Mechanic::SelfDiscardEnergy { energies: x1 } && (x1@ == seq![EnergyType::Lightning]))
    &&& es[5].0@ == "Discard a [L] Energy from your opponent's Active Pokémon."@
    &&& es[5].1 == Mechanic::DiscardOpponentActiveEnergyOfType { energy_type: EnergyType::Lightning }
    &&& es[6].0@ == "Discard a [M] Energy from this Pokémon."@
    &&& (es[6].1 matches Mechanic::SelfDiscardEnergy { energies: x1 } && (x1@ == seq![EnergyType::Metal]))
    &&& es[7].0@ == "Discard a [R] Energy from this Pokémon."@
    &&& (es[7].1 matches Mechanic::SelfDiscardEnergy { energies: x1 } && (x1@ == seq![EnergyType::Fire]))
    &&& es[8].0@ == "Discard a [R], [W], and [L] Energy from this Pokémon."@
    &&& (es[8].1 matches Mechanic::SelfDiscardEnergy { energies: x1 } && (x1@ == seq![EnergyType::Fire, EnergyType::Water, EnergyType::Lightning]))
    &&& es[9].0@ == "Discard a card from your hand. If you can't, this attack does nothing."@
    &&& es[9].1 == Mechanic::DiscardHandCards { count: 1 }
}

/// Pushes entries 20 to 29 of the effect table.
fn push_entries_2(entries: &mut Vec<(String, Mechanic)>)
    ensures
        final(entries)@.len() == old(entries)@.len() + 10,
        final(entries)@.subrange(0, old(entries)@.len() as int) == old(entries)@,
        table_part_2(final(entries)@.subrange(old(entries)@.len() as int, final(entries)@.len() as int)),
{
    let ghost before = entries@;
    entries.push(("Discard 2 random Energy from this Pokémon.".to_string(), Mechanic::SelfDiscardRandomEnergy { count: 2 }));
    entries.push(("Discard 3 [W] Energy from this Pokémon. This attack also does 20 damage to each of your opponent's Benched Pokémon.".to_string(), Mechanic::PalkiaExDimensionalStorm));
    entries.push(("Discard Fire[R] Energy from this Pokémon. Your opponent's Active Pokémon is now Burned.".to_string(), Mechanic::SelfDiscardEnergyAndInflictStatus {
        energies: list1(EnergyType::Fire),
        conditions: list1(StatusCondition::Burned),
        }));
    entries.push(("Discard a [F] Energy from this Pokémon.".to_string(), Mechanic::SelfDiscardEnergy {
        energies: list1(EnergyType::Fighting),
        }));
    entries.push(("Discard a [L] Energy from this Pokémon.".to_string(), Mechanic::SelfDiscardEnergy {
        energies: list1(EnergyType::Lightning),
        }));
    entries.push(("Discard a [L] Energy from your opponent's Active Pokémon.".to_string(), Mechanic::DiscardOpponentActiveEnergyOfType {
        energy_type: EnergyType::Lightning,
        }));
    entries.push(("Discard a [M] Energy from this Pokémon.".to_string(), Mechanic::SelfDiscardEnergy {
        energies: list1(EnergyType::Metal),
        }));
    entries.push(("Discard a [R] Energy from this Pokémon.".to_string(), Mechanic::SelfDiscardEnergy {
        energies: list1(EnergyType::Fire),
        }));
    entries.push(("Discard a [R], [W], and [L] Energy from this Pokémon.".to_string(), Mechanic::SelfDiscardEnergy {
        energies: list3(EnergyType::Fire, EnergyType::Water, EnergyType::Lightning),
        }));
    entries.push(("Discard a card from your hand. If you can't, this attack does nothing.".to_string(), Mechanic::DiscardHandCards { count: 1 }));
    proof {
        assert(entries@.subrange(0, before.len() as int) =~= before);
    }
}

/// Entries 30 to 39 of the effect table, in order.
pub open spec fn table_part_3(es: Seq<(String, Mechanic)>) -> bool {
    &&& es.len() == 10
    &&& es[0].0@ == "Discard a random Energy from both Active Pokémon."@
    &&& es[0].1 == Mechanic::DiscardRandomEnergyBothActive
    &&& es[1].0@ == "Discard a random Energy from this Pokémon."@
    &&& es[1].1 == Mechanic::SelfDiscardRandomEnergy { count: 1 }
    &&& es[2].0@ == "Discard a random Energy from your opponent's Active Pokémon."@
    &&& es[2].1 == Mechanic::DiscardEnergyFromOpponentActive
    &&& es[3].0@ == "Discard a random card from your opponent's hand."@
    &&& es[3].1 == Mechanic::DiscardRandomOpponentHandCard
    &&& es[4].0@ == "Discard all Energy from this Pokémon."@
    &&& es[4].1 == Mechanic::SelfDiscardAllEnergy
    &&& es[5].0@ == "Discard all [L] Energy from this Pokémon. This attack does 120 damage to 1 of your opponent's Pokémon."@
    &&& es[5].1 == Mechanic::SelfDiscardAllTypeEnergyAndDamageAnyOpponentPokemon { energy_type: EnergyType::Lightning, damage: 120 }
    &&& es[6].0@ == "Discard all [R] Energy from this Pokémon."@
    &&& es[6].1 == Mechanic::SelfDiscardAllTypeEnergy { energy_type: EnergyType::Fire }
    &&& es[7].0@ == "Discard the top 3 cards of your deck."@
    &&& es[7].1 == Mechanic::DiscardTopSelfDeck { count: 3 }
    &&& es[8].0@ == "Discard the top 3 cards of your opponent's deck."@
    &&& es[8].1 == Mechanic::DamageAndDiscardOpponentDeck { discard_count: 3 }
    &&& es[9].0@ == "Discard the top card of your opponent's deck."@
    &&& es[9].1 == Mechanic::DamageAndDiscardOpponentDeck { discard_count: 1 }
}

/// Pushes entries 30 to 39 of the effect table.
fn push_entries_3(entries: &mut Vec<(String, Mechanic)>)
    ensures
        final(entries)@.len() == old(entries)@.len() + 10,
        final(entries)@.subrange(0, old(entries)@.len() as int) == old(entries)@,
        table_part_3(final(entries)@.subrange(old(entries)@.len() as int, final(entries)@.len() as int)),
{
    let ghost before = entries@;
    entries.push(("Discard a random Energy from both Active Pokémon.".to_string(), Mechanic::DiscardRandomEnergyBothActive));
    entries.push(("Discard a random Energy from this Pokémon.".to_string(), Mechanic::SelfDiscardRandomEnergy { count: 1 }));
    entries.push(("Discard a random Energy from your opponent's Active Pokémon.".to_string(), Mechanic::DiscardEnergyFromOpponentActive));
    entries.push(("Discard a random card from your opponent's hand.".to_string(), Mechanic::DiscardRandomOpponentHandCard));
    entries.push(("Discard all Energy from this Pokémon.".to_string(), Mechanic::SelfDiscardAllEnergy));
    entries.push(("Discard all [L] Energy from this Pokémon. This attack does 120 damage to 1 of your opponent's Pokémon.".to_string(), Mechanic::SelfDiscardAllTypeEnergyAndDamageAnyOpponentPokemon {
        energy_type: EnergyType::Lightning,
        damage: 120,
        }));
    entries.push(("Discard all [R] Energy from this Pokémon.".to_string(), Mechanic::SelfDiscardAllTypeEnergy {
        energy_type: EnergyType::Fire,
        }));
    entries.push(("Discard the top 3 cards of your deck.".to_string(), Mechanic::DiscardTopSelfDeck { count: 3 }));
    entries.push(("Discard the top 3 cards of your opponent's deck.".to_string(), Mechanic::DamageAndDiscardOpponentDeck { discard_count: 3 }));
    entries.push(("Discard the top card of your opponent's deck.".to_string(), Mechanic::DamageAndDiscardOpponentDeck { discard_count: 1 }));
    proof {
        assert(entries@.subrange(0, before.len() as int) =~= before);
    }
}

/// Entries 40 to 49 of the effect table, in order.
pub open spec fn table_part_4(es: Seq<(String, Mechanic)>) -> bool {
    &&& es.len() == 10
    &&& es[0].0@ == "Draw a card."@
    &&& es[0].1 == Mechanic::DrawCard { amount: 1 }
    &&& es[1].0@ == "Draw a card for each Poochyena you have in play."@
    &&& (es[1].1 matches Mechanic::DrawPerPokemonWithName { name: x1 } && (x1@ == "Poochyena"@))
    &&& es[2].0@ == "During your next turn, this Pokémon can't attack."@
    &&& es[2].1 == Mechanic::DamageAndCardEffect { opponent: false, effect: CardEffect::CannotAttack, duration: 2, coin_flip: false }
    &&& es[3].0@ == "During your next turn, this Pokémon can't use Big Beat."@
    &&& (es[3].1 matches Mechanic::DamageAndCardEffect { opponent: x1, effect: x2, duration: x3, coin_flip: x4 } && (x1 == false) && ((x2 matches CardEffect::CannotUseAttack(x5) && (x5@ == "Big Beat"@))) && (x3 == 2) && (x4 == false))
    &&& es[4].0@ == "During your opponent's next turn, this Pokémon has no Weakness."@
    &&& es[4].1 == Mechanic::DamageAndCardEffect { opponent: false, effect: CardEffect::NoWeakness, duration: 1, coin_flip: false }
    &&& es[5].0@ == "During your next turn, this Pokémon can't use Frenzy Plant."@
    &&& (es[5].1 matches Mechanic::DamageAndCardEffect { opponent: x1, effect: x2, duration: x3, coin_flip: x4 } && (x1 == false) && ((x2 matches CardEffect::CannotUseAttack(x5) && (x5@ == "Frenzy Plant"@))) && (x3 == 2) && (x4 == false))
    &&& es[6].0@ == "During your next turn, this Pokémon can't use Sacred Sword."@
    &&& (es[6].1 matches Mechanic::DamageAndCardEffect { opponent: x1, effect: x2, duration: x3, coin_flip: x4 } && (x1 == false) && ((x2 matches CardEffect::CannotUseAttack(x5) && (x5@ == "Sacred Sword"@))) && (x3 == 2) && (x4 == false))
    &&& es[7].0@ == "During your next turn, this Pokémon's Gear Spinner attack does +70 damage."@
    &&& (es[7].1 matches Mechanic::DamageAndCardEffect { opponent: x1, effect: x2, duration: x3, coin_flip: x4 } && (x1 == false) && ((x2 matches CardEffect::IncreasedDamageForAttack { attack_name: x5, amount: x6 } && (x5@ == "Gear Spinner"@) && (x6 == 70))) && (x3 == 2) && (x4 == false))
    &&& es[8].0@ == "During your next turn, this Pokémon's Insatiable Striking attack does +40 damage."@
    &&& (es[8].1 matches Mechanic::DamageAndCardEffect { opponent: x1, effect: x2, duration: x3, coin_flip: x4 } && (x1 == false) && ((x2 matches CardEffect::IncreasedDamageForAttack { attack_name: x5, amount: x6 } && (x5@ == "Insatiable Striking"@) && (x6 == 40))) && (x3 == 2) && (x4 == false))
    &&& es[9].0@ == "During your next turn, this Pokémon's Overacceleration attack does +20 damage."@
    &&& (es[9].1 matches Mechanic::DamageAndCardEffect { opponent: x1, effect: x2, duration: x3, coin_flip: x4 } && (x1 == false) && ((x2 matches CardEffect::IncreasedDamageForAttack { attack_name: x5, amount: x6 } && (x5@ == "Overacceleration"@) && (x6 == 20))) && (x3 == 2) && (x4 == false))
}

/// Pushes entries 40 to 49 of the effect table.
fn push_entries_4(entries: &mut Vec<(String, Mechanic)>)
    ensures
        final(entries)@.len() == old(entries)@.len() + 10,
        final(entries)@.subrange(0, old(entries)@.len() as int) == old(entries)@,
        table_part_4(final(entries)@.subrange(old(entries)@.len() as int, final(entries)@.len() as int)),
{
    let ghost before = entries@;
    entries.push(("Draw a card.".to_string(), Mechanic::DrawCard { amount: 1 }));
    entries.push(("Draw a card for each Poochyena you have in play.".to_string(), Mechanic::DrawPerPokemonWithName {
        name: "Poochyena".to_string(),
        }));
    entries.push(("During your next turn, this Pokémon can't attack.".to_string(), Mechanic::DamageAndCardEffect {
        opponent: false,
        effect: CardEffect::CannotAttack,
        duration: 2,
        coin_flip: false,
        }));
    entries.push(("During your next turn, this Pokémon can't use Big Beat.".to_string(), Mechanic::DamageAndCardEffect {
        opponent: false,
        effect: CardEffect::CannotUseAttack("Big Beat".to_string()),
        duration: 2,
        coin_flip: false,
        }));
    entries.push(("During your opponent's next turn, this Pokémon has no Weakness.".to_string(), Mechanic::DamageAndCardEffect {
        opponent: false,
        effect: CardEffect::NoWeakness,
        duration: 1,
        coin_flip: false,
        }));
    entries.push(("During your next turn, this Pokémon can't use Frenzy Plant.".to_string(), Mechanic::DamageAndCardEffect {
        opponent: false,
        effect: CardEffect::CannotUseAttack("Frenzy Plant".to_string()),
        duration: 2,
        coin_flip: false,
        }));
    entries.push(("During your next turn, this Pokémon can't use Sacred Sword.".to_string(), Mechanic::DamageAndCardEffect {
        opponent: false,
        effect: CardEffect::CannotUseAttack("Sacred Sword".to_string()),
        duration: 2,
        coin_flip: false,
        }));
    entries.push(("During your next turn, this Pokémon's Gear Spinner attack does +70 damage.".to_string(), Mechanic::DamageAndCardEffect {
        opponent: false,
        effect: CardEffect::IncreasedDamageForAttack {
        attack_name: "Gear Spinner".to_string(),
        amount: 70,
        },
        duration: 2,
        coin_flip: false,
        }));
    entries.push(("During your next turn, this Pokémon's Insatiable Striking attack does +40 damage.".to_string(), Mechanic::DamageAndCardEffect {
        opponent: false,
        effect: CardEffect::IncreasedDamageForAttack {
        attack_name: "Insatiable Striking".to_string(),
        amount: 40,
        },
        duration: 2,
        coin_flip: false,
        }));
    entries.push(("During your next turn, this Pokémon's Overacceleration attack does +20 damage.".to_string(), Mechanic::DamageAndCardEffect {
        opponent: false,
        effect: CardEffect::IncreasedDamageForAttack {
        attack_name: "Overacceleration".to_string(),
        amount: 20,
        },
        duration: 2,
        coin_flip: false,
        }));
    proof {
        assert(entries@.subrange(0, before.len() as int) =~= before);
    }
}

/// Entries 50 to 59 of the effect table, in order.
pub open spec fn table_part_5(es: Seq<(String, Mechanic)>) -> bool {
    &&& es.len() == 10
    &&& es[0].0@ == "During your next turn, this Pokémon's Overdrive Smash attack does +30 damage."@
    &&& (es[0].1 matches Mechanic::DamageAndCardEffect { opponent: x1, effect: x2, duration: x3, coin_flip: x4 } && (x1 == false) && ((x2 matches CardEffect::IncreasedDamageForAttack { attack_name: x5, amount: x6 } && (x5@ == "Overdrive Smash"@) && (x6 == 30))) && (x3 == 2) && (x4 == false))
    &&& es[1].0@ == "During your next turn, this Pokémon's Overdrive Smash attack does +60 damage."@
    &&& (es[1].1 matches Mechanic::DamageAndCardEffect { opponent: x1, effect: x2, duration: x3, coin_flip: x4 } && (x1 == false) && ((x2 matches CardEffect::IncreasedDamageForAttack { attack_name: x5, amount: x6 } && (x5@ == "Overdrive Smash"@) && (x6 == 60))) && (x3 == 2) && (x4 == false))
    &&& es[2].0@ == "During your next turn, this Pokémon's Rolling Spin attack does +60 damage."@
    &&& (es[2].1 matches Mechanic::DamageAndCardEffect { opponent: x1, effect: x2, duration: x3, coin_flip: x4 } && (x1 == false) && ((x2 matches CardEffect::IncreasedDamageForAttack { attack_name: x5, amount: x6 } && (x5@ == "Rolling Spin"@) && (x6 == 60))) && (x3 == 2) && (x4 == false))
    &&& es[3].0@ == "During your opponent's next turn, attacks used by the Defending Pokémon cost 1 [C] more."@
    &&& es[3].1 == Mechanic::DamageAndCardEffect { opponent: true, effect: CardEffect::IncreasedAttackCost { amount: 1 }, duration: 1, coin_flip: false }
    &&& es[4].0@ == "During your opponent's next turn, attacks used by the Defending Pokémon do -20 damage."@
    &&& es[4].1 == Mechanic::DamageAndCardEffect { opponent: false, effect: CardEffect::ReducedDamage { amount: 20 }, duration: 1, coin_flip: false }
    &&& es[5].0@ == "During your opponent's next turn, attacks used by the Defending Pokémon do -30 damage."@
    &&& es[5].1 == Mechanic::DamageAndCardEffect { opponent: false, effect: CardEffect::ReducedDamage { amount: 30 }, duration: 1, coin_flip: false }
    &&& es[6].0@ == "During your opponent's next turn, if this Pokémon is damaged by an attack, do 20 damage to the Attacking Pokémon."@
    &&& es[6].1 == Mechanic::DamageAndCardEffect { opponent: false, effect: CardEffect::Counterattack { amount: 20 }, duration: 1, coin_flip: false }
    &&& es[7].0@ == "During your opponent's next turn, if this Pokémon is damaged by an attack, do 30 damage to the Attacking Pokémon."@
    &&& es[7].1 == Mechanic::DamageAndCardEffect { opponent: false, effect: CardEffect::Counterattack { amount: 30 }, duration: 1, coin_flip: false }
    &&& es[8].0@ == "During your opponent's next turn, if this Pokémon is damaged by an attack, do 40 damage to the Attacking Pokémon."@
    &&& es[8].1 == Mechanic::DamageAndCardEffect { opponent: false, effect: CardEffect::Counterattack { amount: 40 }, duration: 1, coin_flip: false }
    &&& es[9].0@ == "During your opponent's next turn, prevent all damage done to this Pokémon by attacks if that damage is 40 or less."@
    &&& es[9].1 == Mechanic::DamageAndCardEffect { opponent: false, effect: CardEffect::PreventDamageIfLessOrEqual { threshold: 40 }, duration: 1, coin_flip: false }
}

/// Pushes entries 50 to 59 of the effect table.
fn push_entries_5(entries: &mut Vec<(String, Mechanic)>)
    ensures
        final(entries)@.len() == old(entries)@.len() + 10,
        final(entries)@.subrange(0, old(entries)@.len() as int) == old(entries)@,
        table_part_5(final(entries)@.subrange(old(entries)@.len() as int, final(entries)@.len() as int)),
{
    let ghost before = entries@;
    entries.push(("During your next turn, this Pokémon's Overdrive Smash attack does +30 damage.".to_string(), Mechanic::DamageAndCardEffect {
        opponent: false,
        effect: CardEffect::IncreasedDamageForAttack {
        attack_name: "Overdrive Smash".to_string(),
        amount: 30,
        },
        duration: 2,
        coin_flip: false,
        }));
    entries.push(("During your next turn, this Pokémon's Overdrive Smash attack does +60 damage.".to_string(), Mechanic::DamageAndCardEffect {
        opponent: false,
        effect: CardEffect::IncreasedDamageForAttack {
        attack_name: "Overdrive Smash".to_string(),
        amount: 60,
        },
        duration: 2,
        coin_flip: false,
        }));
    entries.push(("During your next turn, this Pokémon's Rolling Spin attack does +60 damage.".to_string(), Mechanic::DamageAndCardEffect {
        opponent: false,
        effect: CardEffect::IncreasedDamageForAttack {
        attack_name: "Rolling Spin".to_string(),
        amount: 60,
        },
        duration: 2,
        coin_flip: false,
        }));
    entries.push(("During your opponent's next turn, attacks used by the Defending Pokémon cost 1 [C] more.".to_string(), Mechanic::DamageAndCardEffect {
        opponent: true,
        effect: CardEffect::IncreasedAttackCost { amount: 1 },
        duration: 1,
        coin_flip: false,
        }));
    entries.push(("During your opponent's next turn, attacks used by the Defending Pokémon do -20 damage.".to_string(), Mechanic::DamageAndCardEffect {
        opponent: false,
        effect: CardEffect::ReducedDamage { amount: 20 },
        duration: 1,
        coin_flip: false,
        }));
    entries.push(("During your opponent's next turn, attacks used by the Defending Pokémon do -30 damage.".to_string(), Mechanic::DamageAndCardEffect {
        opponent: false,
        effect: CardEffect::ReducedDamage { amount: 30 },
        duration: 1,
        coin_flip: false,
        }));
    entries.push(("During your opponent's next turn, if this Pokémon is damaged by an attack, do 20 damage to the Attacking Pokémon.".to_string(), Mechanic::DamageAndCardEffect {
        opponent: false,
        effect: CardEffect::Counterattack { amount: 20 },
        duration: 1,
        coin_flip: false,
        }));
    entries.push(("During your opponent's next turn, if this Pokémon is damaged by an attack, do 30 damage to the Attacking Pokémon.".to_string(), Mechanic::DamageAndCardEffect {
        opponent: false,
        effect: CardEffect::Counterattack { amount: 30 },
        duration: 1,
        coin_flip: false,
        }));
    entries.push(("During your opponent's next turn, if this Pokémon is damaged by an attack, do 40 damage to the Attacking Pokémon.".to_string(), Mechanic::DamageAndCardEffect {
        opponent: false,
        effect: CardEffect::Counterattack { amount: 40 },
        duration: 1,
        coin_flip: false,
        }));
    entries.push(("During your opponent's next turn, prevent all damage done to this Pokémon by attacks if that damage is 40 or less.".to_string(), Mechanic::DamageAndCardEffect {
        opponent: false,
        effect: CardEffect::PreventDamageIfLessOrEqual { threshold: 40 },
        duration: 1,
        coin_flip: false,
        }));
    proof {
        assert(entries@.subrange(0, before.len() as int) =~= before);
    }
}

/// Entries 60 to 69 of the effect table, in order.
pub open spec fn table_part_6(es: Seq<(String, Mechanic)>) -> bool {
    &&& es.len() == 10
    &&& es[0].0@ == "During your opponent's next turn, the Defending Pokémon can't attack."@
    &&& es[0].1 == Mechanic::DamageAndCardEffect { opponent: true, effect: CardEffect::CannotAttack, duration: 1, coin_flip: false }
    &&& es[1].0@ == "During your opponent's next turn, the Defending Pokémon can't retreat."@
    &&& es[1].1 == Mechanic::DamageAndCardEffect { opponent: true, effect: CardEffect::NoRetreat, duration: 1, coin_flip: false }
    &&& es[2].0@ == "During your opponent's next turn, they can't play any Item cards from their hand."@
    &&& es[2].1 == Mechanic::DamageAndTurnEffect { effect: TurnEffect::NoItemCards, duration: 1 }
    &&& es[3].0@ == "During your opponent's next turn, they can't take any Energy from their Energy Zone to attach to their Active Pokémon."@
    &&& es[3].1 == Mechanic::DamageAndTurnEffect { effect: TurnEffect::NoEnergyFromZoneToActive, duration: 1 }
    &&& es[4].0@ == "During your opponent's next turn, this Pokémon takes +30 damage from attacks."@
    &&& es[4].1 == Mechanic::DamageAndCardEffect { opponent: false, effect: CardEffect::IncreasedVulnerability { amount: 30 }, duration: 1, coin_flip: false }
    &&& es[5].0@ == "During your opponent's next turn, this Pokémon takes +50 damage from attacks."@
    &&& es[5].1 == Mechanic::DamageAndCardEffect { opponent: false, effect: CardEffect::IncreasedVulnerability { amount: 50 }, duration: 1, coin_flip: false }
    &&& es[6].0@ == "During your opponent's next turn, this Pokémon takes -20 damage from attacks."@
    &&& es[6].1 == Mechanic::DamageAndCardEffect { opponent: false, effect: CardEffect::ReducedDamage { amount: 20 }, duration: 1, coin_flip: false }
    &&& es[7].0@ == "During your opponent's next turn, this Pokémon takes -30 damage from attacks."@
    &&& es[7].1 == Mechanic::DamageAndCardEffect { opponent: false, effect: CardEffect::ReducedDamage { amount: 30 }, duration: 1, coin_flip: false }
    &&& es[8].0@ == "During your opponent's next turn, this Pokémon takes -50 damage from attacks."@
    &&& es[8].1 == Mechanic::DamageAndCardEffect { opponent: false, effect: CardEffect::ReducedDamage { amount: 50 }, duration: 1, coin_flip: false }
    &&& es[9].0@ == "Flip 2 coins. For each heads, discard a random Energy from your opponent's Active Pokémon. If both of them are tails, this attack does nothing."@
    &&& es[9].1 == Mechanic::CoinFlipsDiscardEnergyFromOpponentActiveOrNothing { num_coins: 2 }
}

/// Pushes entries 60 to 69 of the effect table.
fn push_entries_6(entries: &mut Vec<(String, Mechanic)>)
    ensures
        final(entries)@.len() == old(entries)@.len() + 10,
        final(entries)@.subrange(0, old(entries)@.len() as int) == old(entries)@,
        table_part_6(final(entries)@.subrange(old(entries)@.len() as int, final(entries)@.len() as int)),
{
    let ghost before = entries@;
    entries.push(("During your opponent's next turn, the Defending Pokémon can't attack.".to_string(), Mechanic::DamageAndCardEffect {
        opponent: true,
        effect: CardEffect::CannotAttack,
        duration: 1,
        coin_flip: false,
        }));
    entries.push(("During your opponent's next turn, the Defending Pokémon can't retreat.".to_string(), Mechanic::DamageAndCardEffect {
        opponent: true,
        effect: CardEffect::NoRetreat,
        duration: 1,
        coin_flip: false,
        }));
    entries.push(("During your opponent's next turn, they can't play any Item cards from their hand.".to_string(), Mechanic::DamageAndTurnEffect {
        effect: TurnEffect::NoItemCards,
        duration: 1,
        }));
    entries.push(("During your opponent's next turn, they can't take any Energy from their Energy Zone to attach to their Active Pokémon.".to_string(), Mechanic::DamageAndTurnEffect {
        effect: TurnEffect::NoEnergyFromZoneToActive,
        duration: 1,
        }));
    entries.push(("During your opponent's next turn, this Pokémon takes +30 damage from attacks.".to_string(), Mechanic::DamageAndCardEffect {
        opponent: false,
        effect: CardEffect::IncreasedVulnerability { amount: 30 },
        duration: 1,
        coin_flip: false,
        }));
    entries.push(("During your opponent's next turn, this Pokémon takes +50 damage from attacks.".to_string(), Mechanic::DamageAndCardEffect {
        opponent: false,
        effect: CardEffect::IncreasedVulnerability { amount: 50 },
        duration: 1,
        coin_flip: false,
        }));
    entries.push(("During your opponent's next turn, this Pokémon takes -20 damage from attacks.".to_string(), Mechanic::DamageAndCardEffect {
        opponent: false,
        effect: CardEffect::ReducedDamage { amount: 20 },
        duration: 1,
        coin_flip: false,
        }));
    entries.push(("During your opponent's next turn, this Pokémon takes -30 damage from attacks.".to_string(), Mechanic::DamageAndCardEffect {
        opponent: false,
        effect: CardEffect::ReducedDamage { amount: 30 },
        duration: 1,
        coin_flip: false,
        }));
    entries.push(("During your opponent's next turn, this Pokémon takes -50 damage from attacks.".to_string(), Mechanic::DamageAndCardEffect {
        opponent: false,
        effect: CardEffect::ReducedDamage { amount: 50 },
        duration: 1,
        coin_flip: false,
        }));
    entries.push(("Flip 2 coins. For each heads, discard a random Energy from your opponent's Active Pokémon. If both of them are tails, this attack does nothing.".to_string(), Mechanic::CoinFlipsDiscardEnergyFromOpponentActiveOrNothing { num_coins: 2 }));
    proof {
        assert(entries@.subrange(0, before.len() as int) =~= before);
    }
}

/// Entries 70 to 79 of the effect table, in order.
pub open spec fn table_part_7(es: Seq<(String, Mechanic)>) -> bool {
    &&& es.len() == 10
    &&& es[0].0@ == "Flip 2 coins. If both of them are heads, this attack does 70 more damage."@
    &&& es[0].1 == Mechanic::ExtraDamageIfBothHeads { extra_damage: 70 }
    &&& es[1].0@ == "Flip 2 coins. If both of them are heads, this attack does 80 more damage."@
    &&& es[1].1 == Mechanic::ExtraDamageIfBothHeads { extra_damage: 80 }
    &&& es[2].0@ == "Flip 2 coins. If both of them are heads, this attack does 100 more damage."@
    &&& es[2].1 == Mechanic::ExtraDamageIfBothHeads { extra_damage: 100 }
    &&& es[3].0@ == "Flip 2 coins. This attack does 100 damage for each heads."@
    &&& es[3].1 == Mechanic::ExtraDamageForEachHeads { include_fixed_damage: false, damage_per_head: 100, num_coins: 2 }
    &&& es[4].0@ == "Flip 2 coins. This attack does 20 damage for each heads."@
    &&& es[4].1 == Mechanic::ExtraDamageForEachHeads { include_fixed_damage: false, damage_per_head: 20, num_coins: 2 }
    &&& es[5].0@ == "Flip 2 coins. This attack does 20 more damage for each heads."@
    &&& es[5].1 == Mechanic::ExtraDamageForEachHeads { include_fixed_damage: true, damage_per_head: 20, num_coins: 2 }
    &&& es[6].0@ == "Flip 2 coins. This attack does 30 damage for each heads."@
    &&& es[6].1 == Mechanic::ExtraDamageForEachHeads { include_fixed_damage: false, damage_per_head: 30, num_coins: 2 }
    &&& es[7].0@ == "Flip 2 coins. This attack does 30 damage for each heads. If this Pokémon has Lucky Mittens attached, flip 4 coins instead."@
    &&& es[7].1 == Mechanic::ExtraDamageForEachHeadsWithToolBoost { num_coins: 2, damage_per_head: 30, boosted_num_coins: 4, tool: CardId::B1220LuckyMittens }
    &&& es[8].0@ == "Flip 2 coins. This attack does 30 more damage for each heads."@
    &&& es[8].1 == Mechanic::ExtraDamageForEachHeads { include_fixed_damage: true, damage_per_head: 30, num_coins: 2 }
    &&& es[9].0@ == "Flip 2 coins. This attack does 40 damage for each heads."@
    &&& es[9].1 == Mechanic::ExtraDamageForEachHeads { include_fixed_damage: false, damage_per_head: 40, num_coins: 2 }
}

/// Pushes entries 70 to 79 of the effect table.
fn push_entries_7(entries: &mut Vec<(String, Mechanic)>)
    ensures
        final(entries)@.len() == old(entries)@.len() + 10,
        final(entries)@.subrange(0, old(entries)@.len() as int) == old(entries)@,
        table_part_7(final(entries)@.subrange(old(entries)@.len() as int, final(entries)@.len() as int)),
{
    let ghost before = entries@;
    entries.push(("Flip 2 coins. If both of them are heads, this attack does 70 more damage.".to_string(), Mechanic::ExtraDamageIfBothHeads { extra_damage: 70 }));
    entries.push(("Flip 2 coins. If both of them are heads, this attack does 80 more damage.".to_string(), Mechanic::ExtraDamageIfBothHeads { extra_damage: 80 }));
    entries.push(("Flip 2 coins. If both of them are heads, this attack does 100 more damage.".to_string(), Mechanic::ExtraDamageIfBothHeads { extra_damage: 100 }));
    entries.push(("Flip 2 coins. This attack does 100 damage for each heads.".to_string(), Mechanic::ExtraDamageForEachHeads {
        include_fixed_damage: false,
        damage_per_head: 100,
        num_coins: 2,
        }));
    entries.push(("Flip 2 coins. This attack does 20 damage for each heads.".to_string(), Mechanic::ExtraDamageForEachHeads {
        include_fixed_damage: false,
        damage_per_head: 20,
        num_coins: 2,
        }));
    entries.push(("Flip 2 coins. This attack does 20 more damage for each heads.".to_string(), Mechanic::ExtraDamageForEachHeads {
        include_fixed_damage: true,
        damage_per_head: 20,
        num_coins: 2,
        }));
    entries.push(("Flip 2 coins. This attack does 30 damage for each heads.".to_string(), Mechanic::ExtraDamageForEachHeads {
        include_fixed_damage: false,
        damage_per_head: 30,
        num_coins: 2,
        }));
    entries.push(("Flip 2 coins. This attack does 30 damage for each heads. If this Pokémon has Lucky Mittens attached, flip 4 coins instead.".to_string(), Mechanic::ExtraDamageForEachHeadsWithToolBoost {
        num_coins: 2,
        damage_per_head: 30,
        boosted_num_coins: 4,
        tool: CardId::B1220LuckyMittens
        }));
    entries.push(("Flip 2 coins. This attack does 30 more damage for each heads.".to_string(), Mechanic::ExtraDamageForEachHeads {
        include_fixed_damage: true,
        damage_per_head: 30,
        num_coins: 2,
        }));
    entries.push(("Flip 2 coins. This attack does 40 damage for each heads.".to_string(), Mechanic::ExtraDamageForEachHeads {
        include_fixed_damage: false,
        damage_per_head: 40,
        num_coins: 2,
        }));
    proof {
        assert(entries@.subrange(0, before.len() as int) =~= before);
    }
}

/// Entries 80 to 89 of the effect table, in order.
pub open spec fn table_part_8(es: Seq<(String, Mechanic)>) -> bool {
    &&& es.len() == 10
    &&& es[0].0@ == "Flip 2 coins. This attack does 50 damage for each heads."@
    &&& es[0].1 == Mechanic::ExtraDamageForEachHeads { include_fixed_damage: false, damage_per_head: 50, num_coins: 2 }
    &&& es[1].0@ == "Flip 2 coins. This attack does 70 damage for each heads. If at least 1 of them is heads, your opponent's Active Pokémon is now Burned."@
    &&& es[1].1 == Mechanic::ExtraDamageForEachHeadsWithStatusAtLeast { num_coins: 2, damage_per_head: 70, status: StatusCondition::Burned, min_heads: 1 }
    &&& es[2].0@ == "Flip 2 coins. This attack does 70 damage for each heads."@
    &&& es[2].1 == Mechanic::ExtraDamageForEachHeads { include_fixed_damage: false, damage_per_head: 70, num_coins: 2 }
    &&& es[3].0@ == "Flip 2 coins. This attack does 80 damage for each heads."@
    &&& es[3].1 == Mechanic::ExtraDamageForEachHeads { include_fixed_damage: false, damage_per_head: 80, num_coins: 2 }
    &&& es[4].0@ == "Flip 2 coins. This attack does 60 damage for each heads."@
    &&& es[4].1 == Mechanic::ExtraDamageForEachHeads { include_fixed_damage: false, damage_per_head: 60, num_coins: 2 }
    &&& es[5].0@ == "Flip 3 coins. This attack does 80 damage for each heads."@
    &&& es[5].1 == Mechanic::ExtraDamageForEachHeads { include_fixed_damage: false, damage_per_head: 80, num_coins: 3 }
    &&& es[6].0@ == "Flip 3 coins. For each heads, a card is chosen at random from your opponent's hand. Your opponent reveals that card and shuffles it into their deck."@
    &&& es[6].1 == Mechanic::CoinFlipsShuffleOpponentHandCards { num_coins: 3 }
    &&& es[7].0@ == "Flip 3 coins. Take an amount of [R] Energy from your Energy Zone equal to the number of heads and attach it to your Benched [R] Pokémon in any way you like."@
    &&& es[7].1 == Mechanic::MoltresExInfernoDance
    &&& es[8].0@ == "Flip 3 coins. For each heads, produce a [R] Energy from your Energy Zone and attach it to this Pokémon."@
    &&& es[8].1 == Mechanic::CoinFlipsAttachEnergyToSelf { num_coins: 3, energy_type: EnergyType::Fire }
    &&& es[9].0@ == "Flip 3 coins. This attack does 10 damage for each heads."@
    &&& es[9].1 == Mechanic::ExtraDamageForEachHeads { include_fixed_damage: false, damage_per_head: 10, num_coins: 3 }
}

/// Pushes entries 80 to 89 of the effect table.
fn push_entries_8(entries: &mut Vec<(String, Mechanic)>)
    ensures
        final(entries)@.len() == old(entries)@.len() + 10,
        final(entries)@.subrange(0, old(entries)@.len() as int) == old(entries)@,
        table_part_8(final(entries)@.subrange(old(entries)@.len() as int, final(entries)@.len() as int)),
{
    let ghost before = entries@;
    entries.push(("Flip 2 coins. This attack does 50 damage for each heads.".to_string(), Mechanic::ExtraDamageForEachHeads {
        include_fixed_damage: false,
        damage_per_head: 50,
        num_coins: 2,
        }));
    entries.push(("Flip 2 coins. This attack does 70 damage for each heads. If at least 1 of them is heads, your opponent's Active Pokémon is now Burned.".to_string(), Mechanic::ExtraDamageForEachHeadsWithStatusAtLeast { num_coins: 2, damage_per_head: 70, status: StatusCondition::Burned, min_heads: 1 }));
    entries.push(("Flip 2 coins. This attack does 70 damage for each heads.".to_string(), Mechanic::ExtraDamageForEachHeads {
        include_fixed_damage: false,
        damage_per_head: 70,
        num_coins: 2,
        }));
    entries.push(("Flip 2 coins. This attack does 80 damage for each heads.".to_string(), Mechanic::ExtraDamageForEachHeads {
        include_fixed_damage: false,
        damage_per_head: 80,
        num_coins: 2,
        }));
    entries.push(("Flip 2 coins. This attack does 60 damage for each heads.".to_string(), Mechanic::ExtraDamageForEachHeads {
        include_fixed_damage: false,
        damage_per_head: 60,
        num_coins: 2,
        }));
    entries.push(("Flip 3 coins. This attack does 80 damage for each heads.".to_string(), Mechanic::ExtraDamageForEachHeads {
        include_fixed_damage: false,
        damage_per_head: 80,
        num_coins: 3,
        }));
    entries.push(("Flip 3 coins. For each heads, a card is chosen at random from your opponent's hand. Your opponent reveals that card and shuffles it into their deck.".to_string(), Mechanic::CoinFlipsShuffleOpponentHandCards { num_coins: 3 }));
    entries.push(("Flip 3 coins. Take an amount of [R] Energy from your Energy Zone equal to the number of heads and attach it to your Benched [R] Pokémon in any way you like.".to_string(), Mechanic::MoltresExInfernoDance));
    entries.push(("Flip 3 coins. For each heads, produce a [R] Energy from your Energy Zone and attach it to this Pokémon.".to_string(), Mechanic::CoinFlipsAttachEnergyToSelf {
        num_coins: 3,
        energy_type: EnergyType::Fire,
        }));
    entries.push(("Flip 3 coins. This attack does 10 damage for each heads.".to_string(), Mechanic::ExtraDamageForEachHeads {
        include_fixed_damage: false,
        damage_per_head: 10,
        num_coins: 3,
        }));
    proof {
        assert(entries@.subrange(0, before.len() as int) =~= before);
    }
}

/// Entries 90 to 99 of the effect table, in order.
pub open spec fn table_part_9(es: Seq<(String, Mechanic)>) -> bool {
    &&& es.len() == 10
    &&& es[0].0@ == "Flip 3 coins. This attack does 20 damage for each heads."@
    &&& es[0].1 == Mechanic::ExtraDamageForEachHeads { include_fixed_damage: false, damage_per_head: 20, num_coins: 3 }
    &&& es[1].0@ == "Flip 3 coins. This attack does 40 damage for each heads."@
    &&& es[1].1 == Mechanic::ExtraDamageForEachHeads { include_fixed_damage: false, damage_per_head: 40, num_coins: 3 }
    &&& es[2].0@ == "Flip 3 coins. This attack does 50 damage for each heads."@
    &&& es[2].1 == Mechanic::ExtraDamageForEachHeads { include_fixed_damage: false, damage_per_head: 50, num_coins: 3 }
    &&& es[3].0@ == "Flip 3 coins. This attack does 50 more damage for each heads."@
    &&& es[3].1 == Mechanic::ExtraDamageForEachHeads { include_fixed_damage: true, damage_per_head: 50, num_coins: 3 }
    &&& es[4].0@ == "Flip 3 coins. This attack does 60 damage for each heads."@
    &&& es[4].1 == Mechanic::ExtraDamageForEachHeads { include_fixed_damage: false, damage_per_head: 60, num_coins: 3 }
    &&& es[5].0@ == "Flip 3 coins. This attack does 60 damage for each heads. This Pokémon is now Confused."@
    &&& es[5].1 == Mechanic::ExtraDamageForEachHeadsSelfStatus { num_coins: 3, damage_per_head: 60, status: StatusCondition::Confused }
    &&& es[6].0@ == "Flip 4 coins. This attack does 20 damage for each heads."@
    &&& es[6].1 == Mechanic::ExtraDamageForEachHeads { include_fixed_damage: false, damage_per_head: 20, num_coins: 4 }
    &&& es[7].0@ == "Flip 4 coins. This attack does 40 damage for each heads."@
    &&& es[7].1 == Mechanic::ExtraDamageForEachHeads { include_fixed_damage: false, damage_per_head: 40, num_coins: 4 }
    &&& es[8].0@ == "Flip 4 coins. This attack does 40 damage for each heads. If at least 2 of them are heads, your opponent's Active Pokémon is now Poisoned."@
    &&& es[8].1 == Mechanic::ExtraDamageForEachHeadsWithStatusAtLeast { num_coins: 4, damage_per_head: 40, status: StatusCondition::Poisoned, min_heads: 2 }
    &&& es[9].0@ == "Flip 4 coins. This attack does 50 damage for each heads."@
    &&& es[9].1 == Mechanic::ExtraDamageForEachHeads { include_fixed_damage: false, damage_per_head: 50, num_coins: 4 }
}

/// Pushes entries 90 to 99 of the effect table.
fn push_entries_9(entries: &mut Vec<(String, Mechanic)>)
    ensures
        final(entries)@.len() == old(entries)@.len() + 10,
        final(entries)@.subrange(0, old(entries)@.len() as int) == old(entries)@,
        table_part_9(final(entries)@.subrange(old(entries)@.len() as int, final(entries)@.len() as int)),
{
    let ghost before = entries@;
    entries.push(("Flip 3 coins. This attack does 20 damage for each heads.".to_string(), Mechanic::ExtraDamageForEachHeads {
        include_fixed_damage: false,
        damage_per_head: 20,
        num_coins: 3,
        }));
    entries.push(("Flip 3 coins. This attack does 40 damage for each heads.".to_string(), Mechanic::ExtraDamageForEachHeads {
        include_fixed_damage: false,
        damage_per_head: 40,
        num_coins: 3,
        }));
    entries.push(("Flip 3 coins. This attack does 50 damage for each heads.".to_string(), Mechanic::ExtraDamageForEachHeads {
        include_fixed_damage: false,
        damage_per_head: 50,
        num_coins: 3,
        }));
    entries.push(("Flip 3 coins. This attack does 50 more damage for each heads.".to_string(), Mechanic::ExtraDamageForEachHeads {
        include_fixed_damage: true,
        damage_per_head: 50,
        num_coins: 3,
        }));
    entries.push(("Flip 3 coins. This attack does 60 damage for each heads.".to_string(), Mechanic::ExtraDamageForEachHeads {
        include_fixed_damage: false,
        damage_per_head: 60,
        num_coins: 3,
        }));
    entries.push(("Flip 3 coins. This attack does 60 damage for each heads. This Pokémon is now Confused.".to_string(), Mechanic::ExtraDamageForEachHeadsSelfStatus {
        num_coins: 3,
        damage_per_head: 60,
        status: StatusCondition::Confused,
        }));
    entries.push(("Flip 4 coins. This attack does 20 damage for each heads.".to_string(), Mechanic::ExtraDamageForEachHeads {
        include_fixed_damage: false,
        damage_per_head: 20,
        num_coins: 4,
        }));
    entries.push(("Flip 4 coins. This attack does 40 damage for each heads.".to_string(), Mechanic::ExtraDamageForEachHeads {
        include_fixed_damage: false,
        damage_per_head: 40,
        num_coins: 4,
        }));
    entries.push(("Flip 4 coins. This attack does 40 damage for each heads. If at least 2 of them are heads, your opponent's Active Pokémon is now Poisoned.".to_string(), Mechanic::ExtraDamageForEachHeadsWithStatusAtLeast { num_coins: 4, damage_per_head: 40, status: StatusCondition::Poisoned, min_heads: 2 }));
    entries.push(("Flip 4 coins. This attack does 50 damage for each heads.".to_string(), Mechanic::ExtraDamageForEachHeads {
        include_fixed_damage: false,
        damage_per_head: 50,
        num_coins: 4,
        }));
    proof {
        assert(entries@.subrange(0, before.len() as int) =~= before);
    }
}

/// Entries 100 to 109 of the effect table, in order.
pub open spec fn table_part_10(es: Seq<(String, Mechanic)>) -> bool {
    &&& es.len() == 10
    &&& es[0].0@ == "Flip 9 coins. This attack does 20 damage for each heads."@
    &&& es[0].1 == Mechanic::ExtraDamageForEachHeads { include_fixed_damage: false, damage_per_head: 20, num_coins: 9 }
    &&& es[1].0@ == "Flip a coin for each Energy attached to this Pokémon. This attack does 50 damage for each heads."@
    &&& es[1].1 == Mechanic::CelebiExPowerfulBloom
    &&& es[2].0@ == "Flip a coin for each Pokémon you have in play. This attack does 20 damage for each heads."@
    &&& es[2].1 == Mechanic::CoinFlipPerPokemonInPlay { damage_per_head: 20 }
    &&& es[3].0@ == "Flip a coin for each Pokémon you have in play. This attack does 40 damage for each heads."@
    &&& es[3].1 == Mechanic::CoinFlipPerPokemonInPlay { damage_per_head: 40 }
    &&& es[4].0@ == "Flip a coin for each [M] Energy attached to this Pokémon. This attack does 50 damage for each heads."@
    &&& es[4].1 == Mechanic::CoinFlipPerSpecificEnergyType { energy_type: EnergyType::Metal, include_fixed_damage: false, damage_per_heads: 50 }
    &&& es[5].0@ == "Flip a coin until you get tails. For each heads, discard a random Energy from your opponent's Active Pokémon."@
    &&& es[5].1 == Mechanic::VaporeonHyperWhirlpool
    &&& es[6].0@ == "Flip a coin until you get tails. This attack does 20 damage for each heads."@
    &&& es[6].1 == Mechanic::FlipUntilTailsDamage { damage_per_heads: 20 }
    &&& es[7].0@ == "Flip a coin until you get tails. This attack does 30 more damage for each heads."@
    &&& es[7].1 == Mechanic::FlipUntilTailsBonusDamage { damage_per_heads: 30 }
    &&& es[8].0@ == "Flip a coin until you get tails. This attack does 40 damage for each heads."@
    &&& es[8].1 == Mechanic::FlipUntilTailsDamage { damage_per_heads: 40 }
    &&& es[9].0@ == "Flip a coin until you get tails. This attack does 40 more damage for each heads."@
    &&& es[9].1 == Mechanic::FlipUntilTailsBonusDamage { damage_per_heads: 40 }
}

/// Pushes entries 100 to 109 of the effect table.
fn push_entries_10(entries: &mut Vec<(String, Mechanic)>)
    ensures
        final(entries)@.len() == old(entries)@.len() + 10,
        final(entries)@.subrange(0, old(entries)@.len() as int) == old(entries)@,
        table_part_10(final(entries)@.subrange(old(entries)@.len() as int, final(entries)@.len() as int)),
{
    let ghost before = entries@;
    entries.push(("Flip 9 coins. This attack does 20 damage for each heads.".to_string(), Mechanic::ExtraDamageForEachHeads {
        include_fixed_damage: false,
        damage_per_head: 20,
        num_coins: 9,
        }));
    entries.push(("Flip a coin for each Energy attached to this Pokémon. This attack does 50 damage for each heads.".to_string(), Mechanic::CelebiExPowerfulBloom));
    entries.push(("Flip a coin for each Pokémon you have in play. This attack does 20 damage for each heads.".to_string(), Mechanic::CoinFlipPerPokemonInPlay {
        damage_per_head: 20,
        }));
    entries.push(("Flip a coin for each Pokémon you have in play. This attack does 40 damage for each heads.".to_string(), Mechanic::CoinFlipPerPokemonInPlay {
        damage_per_head: 40,
        }));
    entries.push(("Flip a coin for each [M] Energy attached to this Pokémon. This attack does 50 damage for each heads.".to_string(), Mechanic::CoinFlipPerSpecificEnergyType {
        energy_type: EnergyType::Metal,
        include_fixed_damage: false,
        damage_per_heads: 50,
        }));
    entries.push(("Flip a coin until you get tails. For each heads, discard a random Energy from your opponent's Active Pokémon.".to_string(), Mechanic::VaporeonHyperWhirlpool));
    entries.push(("Flip a coin until you get tails. This attack does 20 damage for each heads.".to_string(), Mechanic::FlipUntilTailsDamage {
        damage_per_heads: 20,
        }));
    entries.push(("Flip a coin until you get tails. This attack does 30 more damage for each heads.".to_string(), Mechanic::FlipUntilTailsBonusDamage {
        damage_per_heads: 30,
        }));
    entries.push(("Flip a coin until you get tails. This attack does 40 damage for each heads.".to_string(), Mechanic::FlipUntilTailsDamage {
        damage_per_heads: 40,
        }));
    entries.push(("Flip a coin until you get tails. This attack does 40 more damage for each heads.".to_string(), Mechanic::FlipUntilTailsBonusDamage {
        damage_per_heads: 40,
        }));
    proof {
        assert(entries@.subrange(0, before.len() as int) =~= before);
    }
}

/// Entries 110 to 119 of the effect table, in order.
pub open spec fn table_part_11(es: Seq<(String, Mechanic)>) -> bool {
    &&& es.len() == 10
    &&& es[0].0@ == "Flip a coin until you get tails. This attack does 60 damage for each heads."@
    &&& es[0].1 == Mechanic::FlipUntilTailsDamage { damage_per_heads: 60 }
    &&& es[1].0@ == "Flip a coin until you get tails. This attack does 70 damage for each heads."@
    &&& es[1].1 == Mechanic::FlipUntilTailsDamage { damage_per_heads: 70 }
    &&& es[2].0@ == "Flip a coin. If heads, discard a random Energy from your opponent's Active Pokémon."@
    &&& es[2].1 == Mechanic::CoinFlipDiscardEnergyFromOpponentActive
    &&& es[3].0@ == "Flip a coin. If heads, discard a random card from your opponent's hand."@
    &&& es[3].1 == Mechanic::CoinFlipDiscardRandomOpponentHandCard
    &&& es[4].0@ == "Flip a coin. If heads, during your opponent's next turn, prevent all damage done to this Pokémon by attacks."@
    &&& es[4].1 == Mechanic::DamageAndCardEffect { opponent: false, effect: CardEffect::PreventAllDamageAndEffects, duration: 1, coin_flip: true }
    &&& es[5].0@ == "Flip a coin. If heads, during your opponent's next turn, prevent all damage from—and effects of—attacks done to this Pokémon."@
    &&& es[5].1 == Mechanic::DamageAndCardEffect { opponent: false, effect: CardEffect::PreventAllDamageAndEffects, duration: 1, coin_flip: true }
    &&& es[6].0@ == "Flip a coin. If heads, your opponent shuffles their Active Pokémon into their deck."@
    &&& es[6].1 == Mechanic::ShuffleOpponentActiveIntoDeck
    &&& es[7].0@ == "Flip a coin. If heads, the Defending Pokémon can't attack during your opponent's next turn."@
    &&& es[7].1 == Mechanic::DamageAndCardEffect { opponent: true, effect: CardEffect::CannotAttack, duration: 1, coin_flip: true }
    &&& es[8].0@ == "Flip a coin. If heads, this attack does 20 more damage."@
    &&& es[8].1 == Mechanic::CoinFlipExtraDamage { extra_damage: 20 }
    &&& es[9].0@ == "Flip a coin. If heads, this attack does 30 more damage."@
    &&& es[9].1 == Mechanic::CoinFlipExtraDamage { extra_damage: 30 }
}

/// Pushes entries 110 to 119 of the effect table.
fn push_entries_11(entries: &mut Vec<(String, Mechanic)>)
    ensures
        final(entries)@.len() == old(entries)@.len() + 10,
        final(entries)@.subrange(0, old(entries)@.len() as int) == old(entries)@,
        table_part_11(final(entries)@.subrange(old(entries)@.len() as int, final(entries)@.len() as int)),
{
    let ghost before = entries@;
    entries.push(("Flip a coin until you get tails. This attack does 60 damage for each heads.".to_string(), Mechanic::FlipUntilTailsDamage {
        damage_per_heads: 60,
        }));
    entries.push(("Flip a coin until you get tails. This attack does 70 damage for each heads.".to_string(), Mechanic::FlipUntilTailsDamage {
        damage_per_heads: 70,
        }));
    entries.push(("Flip a coin. If heads, discard a random Energy from your opponent's Active Pokémon.".to_string(), Mechanic::CoinFlipDiscardEnergyFromOpponentActive));
    entries.push(("Flip a coin. If heads, discard a random card from your opponent's hand.".to_string(), Mechanic::CoinFlipDiscardRandomOpponentHandCard));
    entries.push(("Flip a coin. If heads, during your opponent's next turn, prevent all damage done to this Pokémon by attacks.".to_string(), Mechanic::DamageAndCardEffect {
        opponent: false,
        effect: CardEffect::PreventAllDamageAndEffects,
        duration: 1,
        coin_flip: true,
        }));
    entries.push(("Flip a coin. If heads, during your opponent's next turn, prevent all damage from—and effects of—attacks done to this Pokémon.".to_string(), Mechanic::DamageAndCardEffect {
        opponent: false,
        effect: CardEffect::PreventAllDamageAndEffects,
        duration: 1,
        coin_flip: true,
        }));
    entries.push(("Flip a coin. If heads, your opponent shuffles their Active Pokémon into their deck.".to_string(), Mechanic::ShuffleOpponentActiveIntoDeck));
    entries.push(("Flip a coin. If heads, the Defending Pokémon can't attack during your opponent's next turn.".to_string(), Mechanic::DamageAndCardEffect {
        opponent: true,
        effect: CardEffect::CannotAttack,
        duration: 1,
        coin_flip: true,
        }));
    entries.push(("Flip a coin. If heads, this attack does 20 more damage.".to_string(), Mechanic::CoinFlipExtraDamage { extra_damage: 20 }));
    entries.push(("Flip a coin. If heads, this attack does 30 more damage.".to_string(), Mechanic::CoinFlipExtraDamage { extra_damage: 30 }));
    proof {
        assert(entries@.subrange(0, before.len() as int) =~= before);
    }
}

/// Entries 120 to 129 of the effect table, in order.
pub open spec fn table_part_12(es: Seq<(String, Mechanic)>) -> bool {
    &&& es.len() == 10
    &&& es[0].0@ == "Flip a coin. If heads, this attack does 40 more damage."@
    &&& es[0].1 == Mechanic::CoinFlipExtraDamage { extra_damage: 40 }
    &&& es[1].0@ == "Flip a coin. If heads, this attack does 40 more damage. If tails, this Pokémon also does 20 damage to itself."@
    &&& es[1].1 == Mechanic::CoinFlipExtraDamageOrSelfDamage { extra_damage: 40, self_damage: 20 }
    &&& es[2].0@ == "Flip a coin. If heads, this attack does 50 more damage. If tails, this Pokémon also does 50 damage to itself."@
    &&& es[2].1 == Mechanic::CoinFlipExtraDamageOrSelfDamage { extra_damage: 50, self_damage: 50 }
    &&& es[3].0@ == "Flip a coin. If heads, this attack does 50 more damage."@
    &&& es[3].1 == Mechanic::CoinFlipExtraDamage { extra_damage: 50 }
    &&& es[4].0@ == "Flip a coin. If heads, this attack does 60 more damage."@
    &&& es[4].1 == Mechanic::CoinFlipExtraDamage { extra_damage: 60 }
    &&& es[5].0@ == "Flip a coin. If heads, this attack does 60 more damage. If tails, this Pokémon also does 20 damage to itself."@
    &&& es[5].1 == Mechanic::CoinFlipExtraDamageOrSelfDamage { extra_damage: 60, self_damage: 20 }
    &&& es[6].0@ == "Flip a coin. If heads, this attack does 70 more damage."@
    &&& es[6].1 == Mechanic::CoinFlipExtraDamage { extra_damage: 70 }
    &&& es[7].0@ == "Flip a coin. If heads, this attack does 80 more damage."@
    &&& es[7].1 == Mechanic::CoinFlipExtraDamage { extra_damage: 80 }
    &&& es[8].0@ == "Flip a coin. If heads, your opponent reveals a random card from their hand and shuffles it into their deck."@
    &&& es[8].1 == Mechanic::CoinFlipShuffleRandomOpponentHandCardIntoDeck
    &&& es[9].0@ == "Flip a coin. If heads, your opponent reveals their hand. Choose a Supporter card you find there and discard it."@
    &&& es[9].1 == Mechanic::OminousClaw
}

/// Pushes entries 120 to 129 of the effect table.
fn push_entries_12(entries: &mut Vec<(String, Mechanic)>)
    ensures
        final(entries)@.len() == old(entries)@.len() + 10,
        final(entries)@.subrange(0, old(entries)@.len() as int) == old(entries)@,
        table_part_12(final(entries)@.subrange(old(entries)@.len() as int, final(entries)@.len() as int)),
{
    let ghost before = entries@;
    entries.push(("Flip a coin. If heads, this attack does 40 more damage.".to_string(), Mechanic::CoinFlipExtraDamage { extra_damage: 40 }));
    entries.push(("Flip a coin. If heads, this attack does 40 more damage. If tails, this Pokémon also does 20 damage to itself.".to_string(), Mechanic::CoinFlipExtraDamageOrSelfDamage {
        extra_damage: 40,
        self_damage: 20,
        }));
    entries.push(("Flip a coin. If heads, this attack does 50 more damage. If tails, this Pokémon also does 50 damage to itself.".to_string(), Mechanic::CoinFlipExtraDamageOrSelfDamage {
        extra_damage: 50,
        self_damage: 50,
        }));
    entries.push(("Flip a coin. If heads, this attack does 50 more damage.".to_string(), Mechanic::CoinFlipExtraDamage { extra_damage: 50 }));
    entries.push(("Flip a coin. If heads, this attack does 60 more damage.".to_string(), Mechanic::CoinFlipExtraDamage { extra_damage: 60 }));
    entries.push(("Flip a coin. If heads, this attack does 60 more damage. If tails, this Pokémon also does 20 damage to itself.".to_string(), Mechanic::CoinFlipExtraDamageOrSelfDamage {
        extra_damage: 60,
        self_damage: 20,
        }));
    entries.push(("Flip a coin. If heads, this attack does 70 more damage.".to_string(), Mechanic::CoinFlipExtraDamage { extra_damage: 70 }));
    entries.push(("Flip a coin. If heads, this attack does 80 more damage.".to_string(), Mechanic::CoinFlipExtraDamage { extra_damage: 80 }));
    entries.push(("Flip a coin. If heads, your opponent reveals a random card from their hand and shuffles it into their deck.".to_string(), Mechanic::CoinFlipShuffleRandomOpponentHandCardIntoDeck));
    entries.push(("Flip a coin. If heads, your opponent reveals their hand. Choose a Supporter card you find there and discard it.".to_string(), Mechanic::OminousClaw));
    proof {
        assert(entries@.subrange(0, before.len() as int) =~= before);
    }
}

/// Entries 130 to 139 of the effect table, in order.
pub open spec fn table_part_13(es: Seq<(String, Mechanic)>) -> bool {
    &&& es.len() == 10
    &&& es[0].0@ == "Flip a coin. If heads, your opponent's Active Pokémon is now Burned."@
    &&& es[0].1 == Mechanic::ChanceStatusAttack { condition: StatusCondition::Burned }
    &&& es[1].0@ == "Flip a coin. If heads, your opponent's Active Pokémon is now Confused."@
    &&& es[1].1 == Mechanic::ChanceStatusAttack { condition: StatusCondition::Confused }
    &&& es[2].0@ == "Flip a coin. If heads, your opponent's Active Pokémon is now Confused. If tails, this Pokémon is now Confused."@
    &&& es[2].1 == Mechanic::CoinFlipStatusSelfOrOpponent { status: StatusCondition::Confused }
    &&& es[3].0@ == "Flip a coin. If heads, your opponent's Active Pokémon is now Paralyzed."@
    &&& es[3].1 == Mechanic::ChanceStatusAttack { condition: StatusCondition::Paralyzed }
    &&& es[4].0@ == "Flip a coin. If heads, your opponent's Active Pokémon is now Paralyzed. If tails, your opponent's Active Pokémon is now Confused."@
    &&& es[4].1 == Mechanic::CoinFlipStatusOutcome { heads_status: StatusCondition::Paralyzed, tails_status: StatusCondition::Confused }
    &&& es[5].0@ == "Flip a coin. If heads, your opponent's Active Pokémon is now Poisoned and Paralyzed."@
    &&& (es[5].1 matches Mechanic::ChanceMultipleStatusAttack { conditions: x1 } && (x1@ == seq![StatusCondition::Poisoned, StatusCondition::Paralyzed]))
    &&& es[6].0@ == "Flip a coin. If heads, your opponent's Active Pokémon's remaining HP is now 10."@
    &&& es[6].1 == Mechanic::CoinFlipSetOpponentHpTo { hp: 10 }
    &&& es[7].0@ == "Flip a coin. If tails, discard 2 random Energy from this Pokémon."@
    &&& es[7].1 == Mechanic::CoinFlipSelfDiscardRandomEnergy { count: 2 }
    &&& es[8].0@ == "Flip a coin. If tails, this Pokémon also does 20 damage to itself."@
    &&& es[8].1 == Mechanic::CoinFlipSelfDamage { self_damage: 20 }
    &&& es[9].0@ == "Flip a coin. If tails, this Pokémon also does 30 damage to itself."@
    &&& es[9].1 == Mechanic::CoinFlipSelfDamage { self_damage: 30 }
}

/// Pushes entries 130 to 139 of the effect table.
fn push_entries_13(entries: &mut Vec<(String, Mechanic)>)
    ensures
        final(entries)@.len() == old(entries)@.len() + 10,
        final(entries)@.subrange(0, old(entries)@.len() as int) == old(entries)@,
        table_part_13(final(entries)@.subrange(old(entries)@.len() as int, final(entries)@.len() as int)),
{
    let ghost before = entries@;
    entries.push(("Flip a coin. If heads, your opponent's Active Pokémon is now Burned.".to_string(), Mechanic::ChanceStatusAttack {
        condition: StatusCondition::Burned,
        }));
    entries.push(("Flip a coin. If heads, your opponent's Active Pokémon is now Confused.".to_string(), Mechanic::ChanceStatusAttack {
        condition: StatusCondition::Confused,
        }));
    entries.push(("Flip a coin. If heads, your opponent's Active Pokémon is now Confused. If tails, this Pokémon is now Confused.".to_string(), Mechanic::CoinFlipStatusSelfOrOpponent {
        status: StatusCondition::Confused,
        }));
    entries.push(("Flip a coin. If heads, your opponent's Active Pokémon is now Paralyzed.".to_string(), Mechanic::ChanceStatusAttack {
        condition: StatusCondition::Paralyzed,
        }));
    entries.push(("Flip a coin. If heads, your opponent's Active Pokémon is now Paralyzed. If tails, your opponent's Active Pokémon is now Confused.".to_string(), Mechanic::CoinFlipStatusOutcome {
        heads_status: StatusCondition::Paralyzed,
        tails_status: StatusCondition::Confused,
        }));
    entries.push(("Flip a coin. If heads, your opponent's Active Pokémon is now Poisoned and Paralyzed.".to_string(), Mechanic::ChanceMultipleStatusAttack {
        conditions: list2(StatusCondition::Poisoned, StatusCondition::Paralyzed),
        }));
    entries.push(("Flip a coin. If heads, your opponent's Active Pokémon's remaining HP is now 10.".to_string(), Mechanic::CoinFlipSetOpponentHpTo { hp: 10 }));
    entries.push(("Flip a coin. If tails, discard 2 random Energy from this Pokémon.".to_string(), Mechanic::CoinFlipSelfDiscardRandomEnergy { count: 2 }));
    entries.push(("Flip a coin. If tails, this Pokémon also does 20 damage to itself.".to_string(), Mechanic::CoinFlipSelfDamage { self_damage: 20 }));
    entries.push(("Flip a coin. If tails, this Pokémon also does 30 damage to itself.".to_string(), Mechanic::CoinFlipSelfDamage { self_damage: 30 }));
    proof {
        assert(entries@.subrange(0, before.len() as int) =~= before);
    }
}

/// Entries 140 to 149 of the effect table, in order.
pub open spec fn table_part_14(es: Seq<(String, Mechanic)>) -> bool {
    &&& es.len() == 10
    &&& es[0].0@ == "Flip a coin. If tails, this attack does nothing."@
    &&& es[0].1 == Mechanic::CoinFlipNoEffect
    &&& es[1].0@ == "Flip a coin. If tails, this attack does nothing. If heads, during your opponent's next turn, prevent all damage from—and effects of—attacks done to this Pokémon."@
    &&& es[1].1 == Mechanic::CoinFlipNoDamageOrDamageAndCardEffect { opponent: false, effect: CardEffect::PreventAllDamageAndEffects, duration: 1 }
    &&& es[2].0@ == "Flip a coin. If tails, this attack does nothing. If heads, your opponent's Active Pokémon is now Paralyzed."@
    &&& es[2].1 == Mechanic::CoinFlipNoDamageOrStatusAttack { status: StatusCondition::Paralyzed }
    &&& es[3].0@ == "Heal 10 damage from this Pokémon."@
    &&& es[3].1 == Mechanic::SelfHeal { amount: 10 }
    &&& es[4].0@ == "Heal 20 damage from each of your Pokémon."@
    &&& es[4].1 == Mechanic::HealAllYourPokemon { amount: 20 }
    &&& es[5].0@ == "Heal 20 damage from this Pokémon."@
    &&& es[5].1 == Mechanic::SelfHeal { amount: 20 }
    &&& es[6].0@ == "Heal 30 damage from each of your Benched Basic Pokémon."@
    &&& es[6].1 == Mechanic::HealAllBenchedPokemon { amount: 30, only_basic: true }
    &&& es[7].0@ == "Heal 30 damage from this Pokémon."@
    &&& es[7].1 == Mechanic::SelfHeal { amount: 30 }
    &&& es[8].0@ == "Heal 30 damage from this Pokémon. During your opponent's next turn, the Defending Pokémon can't retreat."@
    &&& es[8].1 == Mechanic::SelfHealAndCardEffect { heal_amount: 30, opponent: true, effect: CardEffect::NoRetreat, duration: 1 }
    &&& es[9].0@ == "Heal 40 damage from this Pokémon."@
    &&& es[9].1 == Mechanic::SelfHeal { amount: 40 }
}

/// Pushes entries 140 to 149 of the effect table.
fn push_entries_14(entries: &mut Vec<(String, Mechanic)>)
    ensures
        final(entries)@.len() == old(entries)@.len() + 10,
        final(entries)@.subrange(0, old(entries)@.len() as int) == old(entries)@,
        table_part_14(final(entries)@.subrange(old(entries)@.len() as int, final(entries)@.len() as int)),
{
    let ghost before = entries@;
    entries.push(("Flip a coin. If tails, this attack does nothing.".to_string(), Mechanic::CoinFlipNoEffect));
    entries.push(("Flip a coin. If tails, this attack does nothing. If heads, during your opponent's next turn, prevent all damage from—and effects of—attacks done to this Pokémon.".to_string(), Mechanic::CoinFlipNoDamageOrDamageAndCardEffect {
        opponent: false,
        effect: CardEffect::PreventAllDamageAndEffects,
        duration: 1,
        }));
    entries.push(("Flip a coin. If tails, this attack does nothing. If heads, your opponent's Active Pokémon is now Paralyzed.".to_string(), Mechanic::CoinFlipNoDamageOrStatusAttack {
        status: StatusCondition::Paralyzed,
        }));
    entries.push(("Heal 10 damage from this Pokémon.".to_string(), Mechanic::SelfHeal { amount: 10 }));
    entries.push(("Heal 20 damage from each of your Pokémon.".to_string(), Mechanic::HealAllYourPokemon { amount: 20 }));
    entries.push(("Heal 20 damage from this Pokémon.".to_string(), Mechanic::SelfHeal { amount: 20 }));
    entries.push(("Heal 30 damage from each of your Benched Basic Pokémon.".to_string(), Mechanic::HealAllBenchedPokemon {
        amount: 30,
        only_basic: true,
        }));
    entries.push(("Heal 30 damage from this Pokémon.".to_string(), Mechanic::SelfHeal { amount: 30 }));
    entries.push(("Heal 30 damage from this Pokémon. During your opponent's next turn, the Defending Pokémon can't retreat.".to_string(), Mechanic::SelfHealAndCardEffect {
        heal_amount: 30,
        opponent: true,
        effect: CardEffect::NoRetreat,
        duration: 1,
        }));
    entries.push(("Heal 40 damage from this Pokémon.".to_string(), Mechanic::SelfHeal { amount: 40 }));
    proof {
        assert(entries@.subrange(0, before.len() as int) =~= before);
    }
}

/// Entries 150 to 159 of the effect table, in order.
pub open spec fn table_part_15(es: Seq<(String, Mechanic)>) -> bool {
    &&& es.len() == 10
    &&& es[0].0@ == "Heal 50 damage from 1 of your Benched Pokémon."@
    &&& es[0].1 == Mechanic::HealOneYourBenchedPokemon { amount: 50 }
    &&& es[1].0@ == "Heal from this Pokémon the same amount of damage you did to your opponent's Active Pokémon."@
    &&& es[1].1 == Mechanic::HealEqualToDamageDealt
    &&& es[2].0@ == "If 1 of your Pokémon used Sweets Relay during your last turn, this attack does 20 more damage."@
    &&& (es[2].1 matches Mechanic::ExtraDamageIfAttackUsedDuringOwnLastTurn { attack_name: x1, extra_damage: x2 } && (x1@ == "Sweets Relay"@) && (x2 == 20))
    &&& es[3].0@ == "If 1 of your Pokémon used Sweets Relay during your last turn, this attack does 30 more damage."@
    &&& (es[3].1 matches Mechanic::ExtraDamageIfAttackUsedDuringOwnLastTurn { attack_name: x1, extra_damage: x2 } && (x1@ == "Sweets Relay"@) && (x2 == 30))
    &&& es[4].0@ == "If 1 of your Pokémon used Sweets Relay during your last turn, this attack does 60 more damage."@
    &&& (es[4].1 matches Mechanic::ExtraDamageIfAttackUsedDuringOwnLastTurn { attack_name: x1, extra_damage: x2 } && (x1@ == "Sweets Relay"@) && (x2 == 60))
    &&& es[5].0@ == "If Durant is on your Bench, this attack does 40 more damage."@
    &&& (es[5].1 matches Mechanic::ExtraDamageIfPokemonOnBench { pokemon_name: x1, extra_damage: x2 } && (x1@ == "Durant"@) && (x2 == 40))
    &&& es[6].0@ == "If Latios is on your Bench, this attack does 20 more damage."@
    &&& (es[6].1 matches Mechanic::ExtraDamageIfPokemonOnBench { pokemon_name: x1, extra_damage: x2 } && (x1@ == "Latios"@) && (x2 == 20))
    &&& es[7].0@ == "If Passimian is on your Bench, this attack does 40 more damage."@
    &&& (es[7].1 matches Mechanic::ExtraDamageIfPokemonOnBench { pokemon_name: x1, extra_damage: x2 } && (x1@ == "Passimian"@) && (x2 == 40))
    &&& es[8].0@ == "If any of your Benched Pokémon have damage on them, this attack does 50 more damage."@
    &&& es[8].1 == Mechanic::ExtraDamageIfAnyBenchedDamaged { extra_damage: 50 }
    &&& es[9].0@ == "If any of your Pokémon were Knocked Out by damage from an attack during your opponent's last turn, this attack does 60 more damage."@
    &&& es[9].1 == Mechanic::ExtraDamageIfKnockedOutLastTurn { energy_type: None, extra_damage: 60 }
}

/// Pushes entries 150 to 159 of the effect table.
fn push_entries_15(entries: &mut Vec<(String, Mechanic)>)
    ensures
        final(entries)@.len() == old(entries)@.len() + 10,
        final(entries)@.subrange(0, old(entries)@.len() as int) == old(entries)@,
        table_part_15(final(entries)@.subrange(old(entries)@.len() as int, final(entries)@.len() as int)),
{
    let ghost before = entries@;
    entries.push(("Heal 50 damage from 1 of your Benched Pokémon.".to_string(), Mechanic::HealOneYourBenchedPokemon { amount: 50 }));
    entries.push(("Heal from this Pokémon the same amount of damage you did to your opponent's Active Pokémon.".to_string(), Mechanic::HealEqualToDamageDealt));
    entries.push(("If 1 of your Pokémon used Sweets Relay during your last turn, this attack does 20 more damage.".to_string(), Mechanic::ExtraDamageIfAttackUsedDuringOwnLastTurn {
        attack_name: "Sweets Relay".to_string(),
        extra_damage: 20,
        }));
    entries.push(("If 1 of your Pokémon used Sweets Relay during your last turn, this attack does 30 more damage.".to_string(), Mechanic::ExtraDamageIfAttackUsedDuringOwnLastTurn {
        attack_name: "Sweets Relay".to_string(),
        extra_damage: 30,
        }));
    entries.push(("If 1 of your Pokémon used Sweets Relay during your last turn, this attack does 60 more damage.".to_string(), Mechanic::ExtraDamageIfAttackUsedDuringOwnLastTurn {
        attack_name: "Sweets Relay".to_string(),
        extra_damage: 60,
        }));
    entries.push(("If Durant is on your Bench, this attack does 40 more damage.".to_string(), Mechanic::ExtraDamageIfPokemonOnBench {
        pokemon_name: "Durant".to_string(),
        extra_damage: 40,
        }));
    entries.push(("If Latios is on your Bench, this attack does 20 more damage.".to_string(), Mechanic::ExtraDamageIfPokemonOnBench {
        pokemon_name: "Latios".to_string(),
        extra_damage: 20,
        }));
    entries.push(("If Passimian is on your Bench, this attack does 40 more damage.".to_string(), Mechanic::ExtraDamageIfPokemonOnBench {
        pokemon_name: "Passimian".to_string(),
        extra_damage: 40,
        }));
    entries.push(("If any of your Benched Pokémon have damage on them, this attack does 50 more damage.".to_string(), Mechanic::ExtraDamageIfAnyBenchedDamaged { extra_damage: 50 }));
    entries.push(("If any of your Pokémon were Knocked Out by damage from an attack during your opponent's last turn, this attack does 60 more damage.".to_string(), Mechanic::ExtraDamageIfKnockedOutLastTurn { energy_type: None, extra_damage: 60 }));
    proof {
        assert(entries@.subrange(0, before.len() as int) =~= before);
    }
}

/// Entries 160 to 169 of the effect table, in order.
pub open spec fn table_part_16(es: Seq<(String, Mechanic)>) -> bool {
    &&& es.len() == 10
    &&& es[0].0@ == "If any of your Pokémon were Knocked Out by damage from an attack during your opponent's last turn, this attack does 40 more damage."@
    &&& es[0].1 == Mechanic::ExtraDamageIfKnockedOutLastTurn { energy_type: None, extra_damage: 40 }
    &&& es[1].0@ == "If any of your Pokémon were Knocked Out by damage from an attack during your opponent's last turn, this attack does 50 more damage."@
    &&& es[1].1 == Mechanic::ExtraDamageIfKnockedOutLastTurn { energy_type: None, extra_damage: 50 }
    &&& es[2].0@ == "If the Defending Pokémon is a Basic Pokémon, it can't attack during your opponent's next turn."@
    &&& es[2].1 == Mechanic::BlockBasicAttack
    &&& es[3].0@ == "If this Pokémon evolved during this turn, this attack does 20 more damage."@
    &&& es[3].1 == Mechanic::ExtraDamageIfEvolvedThisTurn { extra_damage: 20 }
    &&& es[4].0@ == "If this Pokémon has 2 or more different types of Energy attached, this attack does 60 more damage."@
    &&& es[4].1 == Mechanic::ExtraDamageIfDifferentEnergyTypesAttached { minimum_types: 2, extra_damage: 60 }
    &&& es[5].0@ == "If this Pokémon has a Pokémon Tool attached, this attack does 20 more damage."@
    &&& es[5].1 == Mechanic::ExtraDamageIfToolAttached { extra_damage: 20 }
    &&& es[6].0@ == "If this Pokémon has a Pokémon Tool attached, this attack does 30 more damage."@
    &&& es[6].1 == Mechanic::ExtraDamageIfToolAttached { extra_damage: 30 }
    &&& es[7].0@ == "If this Pokémon has a Pokémon Tool attached, this attack does 40 more damage."@
    &&& es[7].1 == Mechanic::ExtraDamageIfToolAttached { extra_damage: 40 }
    &&& es[8].0@ == "If this Pokémon has a Pokémon Tool attached, this attack does 50 more damage."@
    &&& es[8].1 == Mechanic::ExtraDamageIfToolAttached { extra_damage: 50 }
    &&& es[9].0@ == "This attack does 30 damage for each Pokémon Tool attached to all of your Pokémon."@
    &&& es[9].1 == Mechanic::DamagePerOwnToolAttached { damage_per: 30 }
}

/// Pushes entries 160 to 169 of the effect table.
fn push_entries_16(entries: &mut Vec<(String, Mechanic)>)
    ensures
        final(entries)@.len() == old(entries)@.len() + 10,
        final(entries)@.subrange(0, old(entries)@.len() as int) == old(entries)@,
        table_part_16(final(entries)@.subrange(old(entries)@.len() as int, final(entries)@.len() as int)),
{
    let ghost before = entries@;
    entries.push(("If any of your Pokémon were Knocked Out by damage from an attack during your opponent's last turn, this attack does 40 more damage.".to_string(), Mechanic::ExtraDamageIfKnockedOutLastTurn { energy_type: None, extra_damage: 40 }));
    entries.push(("If any of your Pokémon were Knocked Out by damage from an attack during your opponent's last turn, this attack does 50 more damage.".to_string(), Mechanic::ExtraDamageIfKnockedOutLastTurn { energy_type: None, extra_damage: 50 }));
    entries.push(("If the Defending Pokémon is a Basic Pokémon, it can't attack during your opponent's next turn.".to_string(), Mechanic::BlockBasicAttack));
    entries.push(("If this Pokémon evolved during this turn, this attack does 20 more damage.".to_string(), Mechanic::ExtraDamageIfEvolvedThisTurn { extra_damage: 20 }));
    entries.push(("If this Pokémon has 2 or more different types of Energy attached, this attack does 60 more damage.".to_string(), Mechanic::ExtraDamageIfDifferentEnergyTypesAttached {
        minimum_types: 2,
        extra_damage: 60,
        }));
    entries.push(("If this Pokémon has a Pokémon Tool attached, this attack does 20 more damage.".to_string(), Mechanic::ExtraDamageIfToolAttached { extra_damage: 20 }));
    entries.push(("If this Pokémon has a Pokémon Tool attached, this attack does 30 more damage.".to_string(), Mechanic::ExtraDamageIfToolAttached { extra_damage: 30 }));
    entries.push(("If this Pokémon has a Pokémon Tool attached, this attack does 40 more damage.".to_string(), Mechanic::ExtraDamageIfToolAttached { extra_damage: 40 }));
    entries.push(("If this Pokémon has a Pokémon Tool attached, this attack does 50 more damage.".to_string(), Mechanic::ExtraDamageIfToolAttached { extra_damage: 50 }));
    entries.push(("This attack does 30 damage for each Pokémon Tool attached to all of your Pokémon.".to_string(), Mechanic::DamagePerOwnToolAttached { damage_per: 30 }));
    proof {
        assert(entries@.subrange(0, before.len() as int) =~= before);
    }
}

/// Entries 170 to 179 of the effect table, in order.
pub open spec fn table_part_17(es: Seq<(String, Mechanic)>) -> bool {
    &&& es.len() == 10
    &&& es[0].0@ == "This attack does 40 damage for each Pokémon Tool attached to all of your Pokémon."@
    &&& es[0].1 == Mechanic::DamagePerOwnToolAttached { damage_per: 40 }
    &&& es[1].0@ == "If this Pokémon has any [W] Energy attached, this attack does 40 more damage."@
    &&& es[1].1 == Mechanic::ExtraDamageIfSelfHasTypeEnergy { energy_type: EnergyType::Water, extra_damage: 40 }
    &&& es[2].0@ == "If this Pokémon has at least 1 extra [W] Energy attached, this attack does 40 more damage."@
    &&& (es[2].1 matches Mechanic::ExtraDamageIfExtraEnergy { required_extra_energy: x1, extra_damage: x2 } && (x1@ == seq![EnergyType::Water]) && (x2 == 40))
    &&& es[3].0@ == "If this Pokémon has at least 2 extra [F] Energy attached, this attack does 50 more damage."@
    &&& (es[3].1 matches Mechanic::ExtraDamageIfExtraEnergy { required_extra_energy: x1, extra_damage: x2 } && (x1@ == seq![EnergyType::Fighting, EnergyType::Fighting]) && (x2 == 50))
    &&& es[4].0@ == "If this Pokémon has at least 2 extra [F] Energy attached, this attack does 60 more damage."@
    &&& (es[4].1 matches Mechanic::ExtraDamageIfExtraEnergy { required_extra_energy: x1, extra_damage: x2 } && (x1@ == seq![EnergyType::Fighting, EnergyType::Fighting]) && (x2 == 60))
    &&& es[5].0@ == "If this Pokémon has at least 2 extra [L] Energy attached, this attack does 80 more damage."@
    &&& (es[5].1 matches Mechanic::ExtraDamageIfExtraEnergy { required_extra_energy: x1, extra_damage: x2 } && (x1@ == seq![EnergyType::Lightning, EnergyType::Lightning]) && (x2 == 80))
    &&& es[6].0@ == "If this Pokémon has at least 2 extra [R] Energy attached, this attack does 60 more damage."@
    &&& (es[6].1 matches Mechanic::ExtraDamageIfExtraEnergy { required_extra_energy: x1, extra_damage: x2 } && (x1@ == seq![EnergyType::Fire, EnergyType::Fire]) && (x2 == 60))
    &&& es[7].0@ == "If this Pokémon has at least 2 extra [W] Energy attached, this attack does 60 more damage."@
    &&& (es[7].1 matches Mechanic::ExtraDamageIfExtraEnergy { required_extra_energy: x1, extra_damage: x2 } && (x1@ == seq![EnergyType::Water, EnergyType::Water]) && (x2 == 60))
    &&& es[8].0@ == "If this Pokémon has at least 3 extra [G] Energy attached, this attack does 70 more damage."@
    &&& (es[8].1 matches Mechanic::ExtraDamageIfExtraEnergy { required_extra_energy: x1, extra_damage: x2 } && (x1@ == seq![EnergyType::Grass, EnergyType::Grass, EnergyType::Grass]) && (x2 == 70))
    &&& es[9].0@ == "If this Pokémon has at least 3 extra [W] Energy attached, this attack does 70 more damage."@
    &&& (es[9].1 matches Mechanic::ExtraDamageIfExtraEnergy { required_extra_energy: x1, extra_damage: x2 } && (x1@ == seq![EnergyType::Water, EnergyType::Water, EnergyType::Water]) && (x2 == 70))
}

/// Pushes entries 170 to 179 of the effect table.
fn push_entries_17(entries: &mut Vec<(String, Mechanic)>)
    ensures
        final(entries)@.len() == old(entries)@.len() + 10,
        final(entries)@.subrange(0, old(entries)@.len() as int) == old(entries)@,
        table_part_17(final(entries)@.subrange(old(entries)@.len() as int, final(entries)@.len() as int)),
{
    let ghost before = entries@;
    entries.push(("This attack does 40 damage for each Pokémon Tool attached to all of your Pokémon.".to_string(), Mechanic::DamagePerOwnToolAttached { damage_per: 40 }));
    entries.push(("If this Pokémon has any [W] Energy attached, this attack does 40 more damage.".to_string(), Mechanic::ExtraDamageIfSelfHasTypeEnergy {
        energy_type: EnergyType::Water,
        extra_damage: 40,
        }));
    entries.push(("If this Pokémon has at least 1 extra [W] Energy attached, this attack does 40 more damage.".to_string(), Mechanic::ExtraDamageIfExtraEnergy {
        required_extra_energy: list1(EnergyType::Water),
        extra_damage: 40,
        }));
    entries.push(("If this Pokémon has at least 2 extra [F] Energy attached, this attack does 50 more damage.".to_string(), Mechanic::ExtraDamageIfExtraEnergy {
        required_extra_energy: list2(EnergyType::Fighting, EnergyType::Fighting),
        extra_damage: 50,
        }));
    entries.push(("If this Pokémon has at least 2 extra [F] Energy attached, this attack does 60 more damage.".to_string(), Mechanic::ExtraDamageIfExtraEnergy {
        required_extra_energy: list2(EnergyType::Fighting, EnergyType::Fighting),
        extra_damage: 60,
        }));
    entries.push(("If this Pokémon has at least 2 extra [L] Energy attached, this attack does 80 more damage.".to_string(), Mechanic::ExtraDamageIfExtraEnergy {
        required_extra_energy: list2(EnergyType::Lightning, EnergyType::Lightning),
        extra_damage: 80,
        }));
    entries.push(("If this Pokémon has at least 2 extra [R] Energy attached, this attack does 60 more damage.".to_string(), Mechanic::ExtraDamageIfExtraEnergy {
        required_extra_energy: list2(EnergyType::Fire, EnergyType::Fire),
        extra_damage: 60,
        }));
    entries.push(("If this Pokémon has at least 2 extra [W] Energy attached, this attack does 60 more damage.".to_string(), Mechanic::ExtraDamageIfExtraEnergy {
        required_extra_energy: list2(EnergyType::Water, EnergyType::Water),
        extra_damage: 60,
        }));
    entries.push(("If this Pokémon has at least 3 extra [G] Energy attached, this attack does 70 more damage.".to_string(), Mechanic::ExtraDamageIfExtraEnergy {
        required_extra_energy: list3(EnergyType::Grass, EnergyType::Grass, EnergyType::Grass),
        extra_damage: 70,
        }));
    entries.push(("If this Pokémon has at least 3 extra [W] Energy attached, this attack does 70 more damage.".to_string(), Mechanic::ExtraDamageIfExtraEnergy {
        required_extra_energy: list3(EnergyType::Water, EnergyType::Water, EnergyType::Water),
        extra_damage: 70,
        }));
    proof {
        assert(entries@.subrange(0, before.len() as int) =~= before);
    }
}

/// Entries 180 to 189 of the effect table, in order.
pub open spec fn table_part_18(es: Seq<(String, Mechanic)>) -> bool {
    &&& es.len() == 10
    &&& es[0].0@ == "If this Pokémon has damage on it, this attack does 40 more damage."@
    &&& es[0].1 == Mechanic::ExtraDamageIfHurt { extra_damage: 40, opponent: false }
    &&& es[1].0@ == "If this Pokémon has damage on it, this attack does 50 more damage."@
    &&& es[1].1 == Mechanic::ExtraDamageIfHurt { extra_damage: 50, opponent: false }
    &&& es[2].0@ == "If this Pokémon has damage on it, this attack does 60 more damage."@
    &&& es[2].1 == Mechanic::ExtraDamageIfHurt { extra_damage: 60, opponent: false }
    &&& es[3].0@ == "If this Pokémon has no damage on it, this attack does 40 more damage."@
    &&& es[3].1 == Mechanic::ExtraDamageIfUndamaged { extra_damage: 40 }
    &&& es[4].0@ == "If this Pokémon has damage on it, this attack does -100 damage."@
    &&& es[4].1 == Mechanic::ReducedDamageIfSelfDamaged { reduction: 100 }
    &&& es[5].0@ == "If this Pokémon moved from your Bench to the Active Spot this turn, this attack does 50 more damage."@
    &&& es[5].1 == Mechanic::ExtraDamageIfMovedFromBench { extra_damage: 50 }
    &&& es[6].0@ == "If this Pokémon moved from your Bench to the Active Spot this turn, this attack does 60 more damage."@
    &&& es[6].1 == Mechanic::ExtraDamageIfMovedFromBench { extra_damage: 60 }
    &&& es[7].0@ == "If this is the first time this Pokémon has used an attack after coming into play, this attack does 20 more damage, and your opponent's Active Pokémon is now Paralyzed."@
    &&& (es[7].1 matches Mechanic::FirstAttackBonusDamageAndStatus { extra_damage: x1, conditions: x2 } && (x1 == 20) && (x2@ == seq![StatusCondition::Paralyzed]))
    &&& es[8].0@ == "If this is the first time this Pokémon has used an attack after coming into play, during your opponent's next turn, they can't use any Trainer cards from their hand."@
    &&& es[8].1 == Mechanic::FirstAttackBonusTurnEffect { effect: TurnEffect::NoTrainerCards, duration: 1 }
    &&& es[9].0@ == "If this Pokémon's remaining HP is 30 or less, this attack does 60 more damage."@
    &&& es[9].1 == Mechanic::ExtraDamageIfSelfHpAtMost { threshold: 30, extra_damage: 60 }
}

/// Pushes entries 180 to 189 of the effect table.
fn push_entries_18(entries: &mut Vec<(String, Mechanic)>)
    ensures
        final(entries)@.len() == old(entries)@.len() + 10,
        final(entries)@.subrange(0, old(entries)@.len() as int) == old(entries)@,
        table_part_18(final(entries)@.subrange(old(entries)@.len() as int, final(entries)@.len() as int)),
{
    let ghost before = entries@;
    entries.push(("If this Pokémon has damage on it, this attack does 40 more damage.".to_string(), Mechanic::ExtraDamageIfHurt {
        extra_damage: 40,
        opponent: false,
        }));
    entries.push(("If this Pokémon has damage on it, this attack does 50 more damage.".to_string(), Mechanic::ExtraDamageIfHurt {
        extra_damage: 50,
        opponent: false,
        }));
    entries.push(("If this Pokémon has damage on it, this attack does 60 more damage.".to_string(), Mechanic::ExtraDamageIfHurt {
        extra_damage: 60,
        opponent: false,
        }));
    entries.push(("If this Pokémon has no damage on it, this attack does 40 more damage.".to_string(), Mechanic::ExtraDamageIfUndamaged { extra_damage: 40 }));
    entries.push(("If this Pokémon has damage on it, this attack does -100 damage.".to_string(), Mechanic::ReducedDamageIfSelfDamaged { reduction: 100 }));
    entries.push(("If this Pokémon moved from your Bench to the Active Spot this turn, this attack does 50 more damage.".to_string(), Mechanic::ExtraDamageIfMovedFromBench { extra_damage: 50 }));
    entries.push(("If this Pokémon moved from your Bench to the Active Spot this turn, this attack does 60 more damage.".to_string(), Mechanic::ExtraDamageIfMovedFromBench { extra_damage: 60 }));
    entries.push(("If this is the first time this Pokémon has used an attack after coming into play, this attack does 20 more damage, and your opponent's Active Pokémon is now Paralyzed.".to_string(), Mechanic::FirstAttackBonusDamageAndStatus {
        extra_damage: 20,
        conditions: list1(StatusCondition::Paralyzed),
        }));
    entries.push(("If this is the first time this Pokémon has used an attack after coming into play, during your opponent's next turn, they can't use any Trainer cards from their hand.".to_string(), Mechanic::FirstAttackBonusTurnEffect {
        effect: TurnEffect::NoTrainerCards,
        duration: 1,
        }));
    entries.push(("If this Pokémon's remaining HP is 30 or less, this attack does 60 more damage.".to_string(), Mechanic::ExtraDamageIfSelfHpAtMost {
        threshold: 30,
        extra_damage: 60,
        }));
    proof {
        assert(entries@.subrange(0, before.len() as int) =~= before);
    }
}

/// Entries 190 to 199 of the effect table, in order.
pub open spec fn table_part_19(es: Seq<(String, Mechanic)>) -> bool {
    &&& es.len() == 10
    &&& es[0].0@ == "If you played a Supporter card from your hand during this turn, this attack does 50 more damage."@
    &&& es[0].1 == Mechanic::ExtraDamageIfSupportPlayedThisTurn { extra_damage: 50 }
    &&& es[1].0@ == "If your opponent's Active Pokémon has an Ability, this attack does 40 more damage."@
    &&& es[1].1 == Mechanic::ExtraDamageIfOpponentActiveHasAbility { extra_damage: 40 }
    &&& es[2].0@ == "If your opponent's Active Pokémon has damage on it, this attack does 30 more damage."@
    &&& es[2].1 == Mechanic::ExtraDamageIfHurt { extra_damage: 30, opponent: true }
    &&& es[3].0@ == "If your opponent's Active Pokémon has damage on it, this attack does 40 more damage."@
    &&& es[3].1 == Mechanic::ExtraDamageIfHurt { extra_damage: 40, opponent: true }
    &&& es[4].0@ == "If your opponent's Active Pokémon has damage on it, this attack does 50 more damage."@
    &&& es[4].1 == Mechanic::ExtraDamageIfHurt { extra_damage: 50, opponent: true }
    &&& es[5].0@ == "If your opponent's Active Pokémon has damage on it, this attack does 60 more damage."@
    &&& es[5].1 == Mechanic::ExtraDamageIfHurt { extra_damage: 60, opponent: true }
    &&& es[6].0@ == "If your opponent's Active Pokémon has more remaining HP than this Pokémon, this attack does 50 more damage."@
    &&& es[6].1 == Mechanic::ExtraDamageIfOpponentHpMoreThanSelf { extra_damage: 50 }
    &&& es[7].0@ == "If your opponent's Active Pokémon is Poisoned, this attack does 40 more damage."@
    &&& es[7].1 == Mechanic::ExtraDamageIfDefenderPoisoned { extra_damage: 40 }
    &&& es[8].0@ == "If your opponent's Active Pokémon is Poisoned, this attack does 50 more damage."@
    &&& es[8].1 == Mechanic::ExtraDamageIfDefenderPoisoned { extra_damage: 50 }
    &&& es[9].0@ == "If your opponent's Active Pokémon is Poisoned, this attack does 60 more damage."@
    &&& es[9].1 == Mechanic::ExtraDamageIfDefenderPoisoned { extra_damage: 60 }
}

/// Pushes entries 190 to 199 of the effect table.
fn push_entries_19(entries: &mut Vec<(String, Mechanic)>)
    ensures
        final(entries)@.len() == old(entries)@.len() + 10,
        final(entries)@.subrange(0, old(entries)@.len() as int) == old(entries)@,
        table_part_19(final(entries)@.subrange(old(entries)@.len() as int, final(entries)@.len() as int)),
{
    let ghost before = entries@;
    entries.push(("If you played a Supporter card from your hand during this turn, this attack does 50 more damage.".to_string(), Mechanic::ExtraDamageIfSupportPlayedThisTurn { extra_damage: 50 }));
    entries.push(("If your opponent's Active Pokémon has an Ability, this attack does 40 more damage.".to_string(), Mechanic::ExtraDamageIfOpponentActiveHasAbility { extra_damage: 40 }));
    entries.push(("If your opponent's Active Pokémon has damage on it, this attack does 30 more damage.".to_string(), Mechanic::ExtraDamageIfHurt {
        extra_damage: 30,
        opponent: true,
        }));
    entries.push(("If your opponent's Active Pokémon has damage on it, this attack does 40 more damage.".to_string(), Mechanic::ExtraDamageIfHurt {
        extra_damage: 40,
        opponent: true,
        }));
    entries.push(("If your opponent's Active Pokémon has damage on it, this attack does 50 more damage.".to_string(), Mechanic::ExtraDamageIfHurt {
        extra_damage: 50,
        opponent: true,
        }));
    entries.push(("If your opponent's Active Pokémon has damage on it, this attack does 60 more damage.".to_string(), Mechanic::ExtraDamageIfHurt {
        extra_damage: 60,
        opponent: true,
        }));
    entries.push(("If your opponent's Active Pokémon has more remaining HP than this Pokémon, this attack does 50 more damage.".to_string(), Mechanic::ExtraDamageIfOpponentHpMoreThanSelf { extra_damage: 50 }));
    entries.push(("If your opponent's Active Pokémon is Poisoned, this attack does 40 more damage.".to_string(), Mechanic::ExtraDamageIfDefenderPoisoned { extra_damage: 40 }));
    entries.push(("If your opponent's Active Pokémon is Poisoned, this attack does 50 more damage.".to_string(), Mechanic::ExtraDamageIfDefenderPoisoned { extra_damage: 50 }));
    entries.push(("If your opponent's Active Pokémon is Poisoned, this attack does 60 more damage.".to_string(), Mechanic::ExtraDamageIfDefenderPoisoned { extra_damage: 60 }));
    proof {
        assert(entries@.subrange(0, before.len() as int) =~= before);
    }
}

/// Entries 200 to 209 of the effect table, in order.
pub open spec fn table_part_20(es: Seq<(String, Mechanic)>) -> bool {
    &&& es.len() == 10
    &&& es[0].0@ == "If your opponent's Active Pokémon is Poisoned, this attack does 70 more damage."@
    &&& es[0].1 == Mechanic::ExtraDamageIfDefenderPoisoned { extra_damage: 70 }
    &&& es[1].0@ == "If your opponent's Active Pokémon is a Pokémon ex, this attack does 30 more damage."@
    &&& es[1].1 == Mechanic::ExtraDamageIfEx { extra_damage: 30 }
    &&& es[2].0@ == "If your opponent's Active Pokémon is a Pokémon ex, this attack does 40 more damage."@
    &&& es[2].1 == Mechanic::ExtraDamageIfEx { extra_damage: 40 }
    &&& es[3].0@ == "If your opponent's Active Pokémon is a Pokémon ex, this attack does 70 more damage."@
    &&& es[3].1 == Mechanic::ExtraDamageIfEx { extra_damage: 70 }
    &&& es[4].0@ == "If your opponent's Active Pokémon is a Pokémon ex, this attack does 80 more damage."@
    &&& es[4].1 == Mechanic::ExtraDamageIfEx { extra_damage: 80 }
    &&& es[5].0@ == "If your opponent's Active Pokémon is a [D] Pokémon, this attack does 30 more damage."@
    &&& es[5].1 == Mechanic::ExtraDamageIfDefenderType { energy_type: EnergyType::Darkness, extra_damage: 30 }
    &&& es[6].0@ == "If your opponent's Active Pokémon is a [F] Pokémon, this attack does 30 more damage."@
    &&& es[6].1 == Mechanic::ExtraDamageIfDefenderType { energy_type: EnergyType::Fighting, extra_damage: 30 }
    &&& es[7].0@ == "If your opponent's Active Pokémon is a [G] Pokémon, this attack does 40 more damage."@
    &&& es[7].1 == Mechanic::ExtraDamageIfDefenderType { energy_type: EnergyType::Grass, extra_damage: 40 }
    &&& es[8].0@ == "If your opponent's Active Pokémon is a [G] Pokémon, this attack does 50 more damage."@
    &&& es[8].1 == Mechanic::ExtraDamageIfDefenderType { energy_type: EnergyType::Grass, extra_damage: 50 }
    &&& es[9].0@ == "If your opponent's Active Pokémon is a [M] Pokémon, this attack does 30 more damage."@
    &&& es[9].1 == Mechanic::ExtraDamageIfDefenderType { energy_type: EnergyType::Metal, extra_damage: 30 }
}

/// Pushes entries 200 to 209 of the effect table.
fn push_entries_20(entries: &mut Vec<(String, Mechanic)>)
    ensures
        final(entries)@.len() == old(entries)@.len() + 10,
        final(entries)@.subrange(0, old(entries)@.len() as int) == old(entries)@,
        table_part_20(final(entries)@.subrange(old(entries)@.len() as int, final(entries)@.len() as int)),
{
    let ghost before = entries@;
    entries.push(("If your opponent's Active Pokémon is Poisoned, this attack does 70 more damage.".to_string(), Mechanic::ExtraDamageIfDefenderPoisoned { extra_damage: 70 }));
    entries.push(("If your opponent's Active Pokémon is a Pokémon ex, this attack does 30 more damage.".to_string(), Mechanic::ExtraDamageIfEx { extra_damage: 30 }));
    entries.push(("If your opponent's Active Pokémon is a Pokémon ex, this attack does 40 more damage.".to_string(), Mechanic::ExtraDamageIfEx { extra_damage: 40 }));
    entries.push(("If your opponent's Active Pokémon is a Pokémon ex, this attack does 70 more damage.".to_string(), Mechanic::ExtraDamageIfEx { extra_damage: 70 }));
    entries.push(("If your opponent's Active Pokémon is a Pokémon ex, this attack does 80 more damage.".to_string(), Mechanic::ExtraDamageIfEx { extra_damage: 80 }));
    entries.push(("If your opponent's Active Pokémon is a [D] Pokémon, this attack does 30 more damage.".to_string(), Mechanic::ExtraDamageIfDefenderType {
        energy_type: EnergyType::Darkness,
        extra_damage: 30,
        }));
    entries.push(("If your opponent's Active Pokémon is a [F] Pokémon, this attack does 30 more damage.".to_string(), Mechanic::ExtraDamageIfDefenderType {
        energy_type: EnergyType::Fighting,
        extra_damage: 30,
        }));
    entries.push(("If your opponent's Active Pokémon is a [G] Pokémon, this attack does 40 more damage.".to_string(), Mechanic::ExtraDamageIfDefenderType {
        energy_type: EnergyType::Grass,
        extra_damage: 40,
        }));
    entries.push(("If your opponent's Active Pokémon is a [G] Pokémon, this attack does 50 more damage.".to_string(), Mechanic::ExtraDamageIfDefenderType {
        energy_type: EnergyType::Grass,
        extra_damage: 50,
        }));
    entries.push(("If your opponent's Active Pokémon is a [M] Pokémon, this attack does 30 more damage.".to_string(), Mechanic::ExtraDamageIfDefenderType {
        energy_type: EnergyType::Metal,
        extra_damage: 30,
        }));
    proof {
        assert(entries@.subrange(0, before.len() as int) =~= before);
    }
}

/// Entries 210 to 219 of the effect table, in order.
pub open spec fn table_part_21(es: Seq<(String, Mechanic)>) -> bool {
    &&& es.len() == 10
    &&& es[0].0@ == "If your opponent's Active Pokémon is affected by a Special Condition, this attack does 60 more damage."@
    &&& es[0].1 == Mechanic::ExtraDamageIfOpponentHasSpecialCondition { extra_damage: 60 }
    &&& es[1].0@ == "If your opponent's Pokémon is Knocked Out by damage from this attack, this Pokémon also does 50 damage to itself."@
    &&& es[1].1 == Mechanic::RecoilIfKo { self_damage: 50 }
    &&& es[2].0@ == "Move all [P] Energy from this Pokémon to 1 of your Benched Pokémon."@
    &&& es[2].1 == Mechanic::MoveAllEnergyTypeToBench { energy_type: EnergyType::Psychic }
    &&& es[3].0@ == "Prevent all damage done to this Pokémon by attacks from Basic Pokémon during your opponent's next turn."@
    &&& es[3].1 == Mechanic::DamageAndCardEffect { opponent: false, effect: CardEffect::PreventDamageFromBasic, duration: 1, coin_flip: false }
    &&& es[4].0@ == "Put 1 random Basic Pokémon from your deck onto your Bench."@
    &&& es[4].1 == Mechanic::SearchToBenchBasic
    &&& es[5].0@ == "Put 1 random Koffing from your deck onto your Bench."@
    &&& (es[5].1 matches Mechanic::SearchToBenchByName { name: x1 } && (x1@ == "Koffing"@))
    &&& es[6].0@ == "Put 1 random Nidoran♂ from your deck onto your Bench."@
    &&& (es[6].1 matches Mechanic::SearchToBenchByName { name: x1 } && (x1@ == "Nidoran♂"@))
    &&& es[7].0@ == "Put 1 random Poliwag from your deck onto your Bench."@
    &&& (es[7].1 matches Mechanic::SearchToBenchByName { name: x1 } && (x1@ == "Poliwag"@))
    &&& es[8].0@ == "Put 1 random Weedle from your deck onto your Bench."@
    &&& (es[8].1 matches Mechanic::SearchToBenchByName { name: x1 } && (x1@ == "Weedle"@))
    &&& es[9].0@ == "Put 1 random Starly from your deck onto your Bench."@
    &&& (es[9].1 matches Mechanic::SearchToBenchByName { name: x1 } && (x1@ == "Starly"@))
}

/// Pushes entries 210 to 219 of the effect table.
fn push_entries_21(entries: &mut Vec<(String, Mechanic)>)
    ensures
        final(entries)@.len() == old(entries)@.len() + 10,
        final(entries)@.subrange(0, old(entries)@.len() as int) == old(entries)@,
        table_part_21(final(entries)@.subrange(old(entries)@.len() as int, final(entries)@.len() as int)),
{
    let ghost before = entries@;
    entries.push(("If your opponent's Active Pokémon is affected by a Special Condition, this attack does 60 more damage.".to_string(), Mechanic::ExtraDamageIfOpponentHasSpecialCondition { extra_damage: 60 }));
    entries.push(("If your opponent's Pokémon is Knocked Out by damage from this attack, this Pokémon also does 50 damage to itself.".to_string(), Mechanic::RecoilIfKo { self_damage: 50 }));
    entries.push(("Move all [P] Energy from this Pokémon to 1 of your Benched Pokémon.".to_string(), Mechanic::MoveAllEnergyTypeToBench {
        energy_type: EnergyType::Psychic,
        }));
    entries.push(("Prevent all damage done to this Pokémon by attacks from Basic Pokémon during your opponent's next turn.".to_string(), Mechanic::DamageAndCardEffect {
        opponent: false,
        effect: CardEffect::PreventDamageFromBasic,
        duration: 1,
        coin_flip: false,
        }));
    entries.push(("Put 1 random Basic Pokémon from your deck onto your Bench.".to_string(), Mechanic::SearchToBenchBasic));
    entries.push(("Put 1 random Koffing from your deck onto your Bench.".to_string(), Mechanic::SearchToBenchByName {
        name: "Koffing".to_string(),
        }));
    entries.push(("Put 1 random Nidoran♂ from your deck onto your Bench.".to_string(), Mechanic::SearchToBenchByName {
        name: "Nidoran♂".to_string(),
        }));
    entries.push(("Put 1 random Poliwag from your deck onto your Bench.".to_string(), Mechanic::SearchToBenchByName {
        name: "Poliwag".to_string(),
        }));
    entries.push(("Put 1 random Weedle from your deck onto your Bench.".to_string(), Mechanic::SearchToBenchByName {
        name: "Weedle".to_string(),
        }));
    entries.push(("Put 1 random Starly from your deck onto your Bench.".to_string(), Mechanic::SearchToBenchByName {
        name: "Starly".to_string(),
        }));
    proof {
        assert(entries@.subrange(0, before.len() as int) =~= before);
    }
}

/// Entries 220 to 229 of the effect table, in order.
pub open spec fn table_part_22(es: Seq<(String, Mechanic)>) -> bool {
    &&& es.len() == 10
    &&& es[0].0@ == "Put 1 random [G] Pokémon from your deck into your hand."@
    &&& es[0].1 == Mechanic::SearchToHandByEnergy { energy_type: EnergyType::Grass }
    &&& es[1].0@ == "Put a random Supporter card from your deck into your hand."@
    &&& es[1].1 == Mechanic::SearchToHandSupporterCard
    &&& es[2].0@ == "Put a random Item card from your discard pile into your hand."@
    &&& es[2].1 == Mechanic::RecoverItemFromDiscardPile
    &&& es[3].0@ == "Put a random Pokémon from your deck into your hand."@
    &&& es[3].1 == Mechanic::SearchRandomPokemonToHand
    &&& es[4].0@ == "Put a random card from your deck that evolves from this Pokémon onto this Pokémon to evolve it."@
    &&& es[4].1 == Mechanic::MagikarpWaterfallEvolution
    &&& es[5].0@ == "Put a random card that evolves from Rockruff from your deck into your hand."@
    &&& (es[5].1 matches Mechanic::SearchToHandByEvolvesFrom { name: x1 } && (x1@ == "Rockruff"@))
    &&& es[6].0@ == "Switch out your opponent's Active Pokémon to the Bench. (Your opponent chooses the new Active Pokémon.)"@
    &&& es[6].1 == Mechanic::KnockBackOpponentActive
    &&& es[7].0@ == "Switch this Pokémon with 1 of your Benched Pokémon."@
    &&& es[7].1 == Mechanic::SwitchSelfWithBench
    &&& es[8].0@ == "You may switch this Pokémon with 1 of your Benched Pokémon."@
    &&& es[8].1 == Mechanic::MaySwitchSelfWithBench
    &&& es[9].0@ == "Take 2 [M] Energy from your Energy Zone and attach it to 1 of your Benched Pokémon."@
    &&& (es[9].1 matches Mechanic::ChargeBench { energies: x1, target_benched_type: x2 } && (x1@ == seq![EnergyType::Metal, EnergyType::Metal]) && (x2 is None))
}

/// Pushes entries 220 to 229 of the effect table.
fn push_entries_22(entries: &mut Vec<(String, Mechanic)>)
    ensures
        final(entries)@.len() == old(entries)@.len() + 10,
        final(entries)@.subrange(0, old(entries)@.len() as int) == old(entries)@,
        table_part_22(final(entries)@.subrange(old(entries)@.len() as int, final(entries)@.len() as int)),
{
    let ghost before = entries@;
    entries.push(("Put 1 random [G] Pokémon from your deck into your hand.".to_string(), Mechanic::SearchToHandByEnergy {
        energy_type: EnergyType::Grass,
        }));
    entries.push(("Put a random Supporter card from your deck into your hand.".to_string(), Mechanic::SearchToHandSupporterCard));
    entries.push(("Put a random Item card from your discard pile into your hand.".to_string(), Mechanic::RecoverItemFromDiscardPile));
    entries.push(("Put a random Pokémon from your deck into your hand.".to_string(), Mechanic::SearchRandomPokemonToHand));
    entries.push(("Put a random card from your deck that evolves from this Pokémon onto this Pokémon to evolve it.".to_string(), Mechanic::MagikarpWaterfallEvolution));
    entries.push(("Put a random card that evolves from Rockruff from your deck into your hand.".to_string(), Mechanic::SearchToHandByEvolvesFrom {
        name: "Rockruff".to_string(),
        }));
    entries.push(("Switch out your opponent's Active Pokémon to the Bench. (Your opponent chooses the new Active Pokémon.)".to_string(), Mechanic::KnockBackOpponentActive));
    entries.push(("Switch this Pokémon with 1 of your Benched Pokémon.".to_string(), Mechanic::SwitchSelfWithBench));
    entries.push(("You may switch this Pokémon with 1 of your Benched Pokémon.".to_string(), Mechanic::MaySwitchSelfWithBench));
    entries.push(("Take 2 [M] Energy from your Energy Zone and attach it to 1 of your Benched Pokémon.".to_string(), Mechanic::ChargeBench {
        energies: list2(EnergyType::Metal, EnergyType::Metal),
        target_benched_type: None,
        }));
    proof {
        assert(entries@.subrange(0, before.len() as int) =~= before);
    }
}

/// Entries 230 to 239 of the effect table, in order.
pub open spec fn table_part_23(es: Seq<(String, Mechanic)>) -> bool {
    &&& es.len() == 10
    &&& es[0].0@ == "Take 2 [G] Energy from your Energy Zone and attach it to this Pokémon."@
    &&& (es[0].1 matches Mechanic::SelfChargeActive { energies: x1 } && (x1@ == seq![EnergyType::Grass, EnergyType::Grass]))
    &&& es[1].0@ == "Take 3 [R] Energy from your Energy Zone and attach it to this Pokémon."@
    &&& (es[1].1 matches Mechanic::SelfChargeActive { energies: x1 } && (x1@ == seq![EnergyType::Fire, EnergyType::Fire, EnergyType::Fire]))
    &&& es[2].0@ == "Take a [C] Energy from your Energy Zone and attach it to 1 of your Benched Pokémon."@
    &&& (es[2].1 matches Mechanic::ChargeBench { energies: x1, target_benched_type: x2 } && (x1@ == seq![EnergyType::Colorless]) && (x2 is None))
    &&& es[3].0@ == "Take a [C] Energy from your Energy Zone and attach it to this Pokémon."@
    &&& (es[3].1 matches Mechanic::SelfChargeActive { energies: x1 } && (x1@ == seq![EnergyType::Colorless]))
    &&& es[4].0@ == "Take a [G] Energy from your Energy Zone and attach it to 1 of your Benched [G] Pokémon."@
    &&& (es[4].1 matches Mechanic::ChargeBench { energies: x1, target_benched_type: x2 } && (x1@ == seq![EnergyType::Grass]) && (x2 == Some(EnergyType::Grass)))
    &&& es[5].0@ == "Take a [G] Energy from your Energy Zone and attach it to this Pokémon."@
    &&& (es[5].1 matches Mechanic::SelfChargeActive { energies: x1 } && (x1@ == seq![EnergyType::Grass]))
    &&& es[6].0@ == "Take a [L] Energy from your Energy Zone and attach it to 1 of your Benched Basic Pokémon."@
    &&& (es[6].1 matches Mechanic::ChargeBench { energies: x1, target_benched_type: x2 } && (x1@ == seq![EnergyType::Lightning]) && (x2 is None))
    &&& es[7].0@ == "Take a [L] Energy from your Energy Zone and attach it to 1 of your Benched [L] Pokémon."@
    &&& (es[7].1 matches Mechanic::ChargeBench { energies: x1, target_benched_type: x2 } && (x1@ == seq![EnergyType::Lightning]) && (x2 == Some(EnergyType::Lightning)))
    &&& es[8].0@ == "Take a [L] Energy from your Energy Zone and attach it to this Pokémon."@
    &&& (es[8].1 matches Mechanic::SelfChargeActive { energies: x1 } && (x1@ == seq![EnergyType::Lightning]))
    &&& es[9].0@ == "Take a [M] Energy from your Energy Zone and attach it to this Pokémon."@
    &&& (es[9].1 matches Mechanic::SelfChargeActive { energies: x1 } && (x1@ == seq![EnergyType::Metal]))
}

/// Pushes entries 230 to 239 of the effect table.
fn push_entries_23(entries: &mut Vec<(String, Mechanic)>)
    ensures
        final(entries)@.len() == old(entries)@.len() + 10,
        final(entries)@.subrange(0, old(entries)@.len() as int) == old(entries)@,
        table_part_23(final(entries)@.subrange(old(entries)@.len() as int, final(entries)@.len() as int)),
{
    let ghost before = entries@;
    entries.push(("Take 2 [G] Energy from your Energy Zone and attach it to this Pokémon.".to_string(), Mechanic::SelfChargeActive {
        energies: list2(EnergyType::Grass, EnergyType::Grass),
        }));
    entries.push(("Take 3 [R] Energy from your Energy Zone and attach it to this Pokémon.".to_string(), Mechanic::SelfChargeActive {
        energies: list3(EnergyType::Fire, EnergyType::Fire, EnergyType::Fire),
        }));
    entries.push(("Take a [C] Energy from your Energy Zone and attach it to 1 of your Benched Pokémon.".to_string(), Mechanic::ChargeBench {
        energies: list1(EnergyType::Colorless),
        target_benched_type: None,
        }));
    entries.push(("Take a [C] Energy from your Energy Zone and attach it to this Pokémon.".to_string(), Mechanic::SelfChargeActive {
        energies: list1(EnergyType::Colorless),
        }));
    entries.push(("Take a [G] Energy from your Energy Zone and attach it to 1 of your Benched [G] Pokémon.".to_string(), Mechanic::ChargeBench {
        energies: list1(EnergyType::Grass),
        target_benched_type: Some(EnergyType::Grass),
        }));
    entries.push(("Take a [G] Energy from your Energy Zone and attach it to this Pokémon.".to_string(), Mechanic::SelfChargeActive {
        energies: list1(EnergyType::Grass),
        }));
    entries.push(("Take a [L] Energy from your Energy Zone and attach it to 1 of your Benched Basic Pokémon.".to_string(), Mechanic::ChargeBench {
        energies: list1(EnergyType::Lightning),
        target_benched_type: None,
        }));
    entries.push(("Take a [L] Energy from your Energy Zone and attach it to 1 of your Benched [L] Pokémon.".to_string(), Mechanic::ChargeBench {
        energies: list1(EnergyType::Lightning),
        target_benched_type: Some(EnergyType::Lightning),
        }));
    entries.push(("Take a [L] Energy from your Energy Zone and attach it to this Pokémon.".to_string(), Mechanic::SelfChargeActive {
        energies: list1(EnergyType::Lightning),
        }));
    entries.push(("Take a [M] Energy from your Energy Zone and attach it to this Pokémon.".to_string(), Mechanic::SelfChargeActive {
        energies: list1(EnergyType::Metal),
        }));
    proof {
        assert(entries@.subrange(0, before.len() as int) =~= before);
    }
}

/// Entries 240 to 249 of the effect table, in order.
pub open spec fn table_part_24(es: Seq<(String, Mechanic)>) -> bool {
    &&& es.len() == 10
    &&& es[0].0@ == "Take a [P] Energy from your Energy Zone and attach it to this Pokémon."@
    &&& (es[0].1 matches Mechanic::SelfChargeActive { energies: x1 } && (x1@ == seq![EnergyType::Psychic]))
    &&& es[1].0@ == "Take a [R] Energy from your Energy Zone and attach it to 1 of your Benched Basic Pokémon."@
    &&& es[1].1 == Mechanic::AttachEnergyToBenchedBasic { energy_type: EnergyType::Fire }
    &&& es[2].0@ == "Take a [R] Energy from your Energy Zone and attach it to 1 of your Benched Pokémon."@
    &&& (es[2].1 matches Mechanic::ChargeBench { energies: x1, target_benched_type: x2 } && (x1@ == seq![EnergyType::Fire]) && (x2 is None))
    &&& es[3].0@ == "Take a [R] Energy from your Energy Zone and attach it to this Pokémon."@
    &&& (es[3].1 matches Mechanic::SelfChargeActive { energies: x1 } && (x1@ == seq![EnergyType::Fire]))
    &&& es[4].0@ == "Take a [R], [W], and [L] Energy from your Energy Zone and attach them to your Benched Basic Pokémon in any way you like."@
    &&& (es[4].1 matches Mechanic::AttachEnergiesAnyWayToBenchedBasic { energies: x1 } && (x1@ == seq![EnergyType::Fire, EnergyType::Water, EnergyType::Lightning]))
    &&& es[5].0@ == "Take a [W] Energy from your Energy Zone and attach it to 1 of your Benched Basic Pokémon."@
    &&& es[5].1 == Mechanic::AttachEnergyToBenchedBasic { energy_type: EnergyType::Water }
    &&& es[6].0@ == "Take a [W] Energy from your Energy Zone and attach it to this Pokémon."@
    &&& (es[6].1 matches Mechanic::SelfChargeActive { energies: x1 } && (x1@ == seq![EnergyType::Water]))
    &&& es[7].0@ == "This Pokémon also does 10 damage to itself."@
    &&& es[7].1 == Mechanic::SelfDamage { amount: 10 }
    &&& es[8].0@ == "This Pokémon also does 20 damage to itself."@
    &&& es[8].1 == Mechanic::SelfDamage { amount: 20 }
    &&& es[9].0@ == "This Pokémon also does 30 damage to itself."@
    &&& es[9].1 == Mechanic::SelfDamage { amount: 30 }
}

/// Pushes entries 240 to 249 of the effect table.
fn push_entries_24(entries: &mut Vec<(String, Mechanic)>)
    ensures
        final(entries)@.len() == old(entries)@.len() + 10,
        final(entries)@.subrange(0, old(entries)@.len() as int) == old(entries)@,
        table_part_24(final(entries)@.subrange(old(entries)@.len() as int, final(entries)@.len() as int)),
{
    let ghost before = entries@;
    entries.push(("Take a [P] Energy from your Energy Zone and attach it to this Pokémon.".to_string(), Mechanic::SelfChargeActive {
        energies: list1(EnergyType::Psychic),
        }));
    entries.push(("Take a [R] Energy from your Energy Zone and attach it to 1 of your Benched Basic Pokémon.".to_string(), Mechanic::AttachEnergyToBenchedBasic {
        energy_type: EnergyType::Fire,
        }));
    entries.push(("Take a [R] Energy from your Energy Zone and attach it to 1 of your Benched Pokémon.".to_string(), Mechanic::ChargeBench {
        energies: list1(EnergyType::Fire),
        target_benched_type: None,
        }));
    entries.push(("Take a [R] Energy from your Energy Zone and attach it to this Pokémon.".to_string(), Mechanic::SelfChargeActive {
        energies: list1(EnergyType::Fire),
        }));
    entries.push(("Take a [R], [W], and [L] Energy from your Energy Zone and attach them to your Benched Basic Pokémon in any way you like.".to_string(), Mechanic::AttachEnergiesAnyWayToBenchedBasic {
        energies: list3(EnergyType::Fire, EnergyType::Water, EnergyType::Lightning),
        }));
    entries.push(("Take a [W] Energy from your Energy Zone and attach it to 1 of your Benched Basic Pokémon.".to_string(), Mechanic::AttachEnergyToBenchedBasic {
        energy_type: EnergyType::Water,
        }));
    entries.push(("Take a [W] Energy from your Energy Zone and attach it to this Pokémon.".to_string(), Mechanic::SelfChargeActive {
        energies: list1(EnergyType::Water),
        }));
    entries.push(("This Pokémon also does 10 damage to itself.".to_string(), Mechanic::SelfDamage { amount: 10 }));
    entries.push(("This Pokémon also does 20 damage to itself.".to_string(), Mechanic::SelfDamage { amount: 20 }));
    entries.push(("This Pokémon also does 30 damage to itself.".to_string(), Mechanic::SelfDamage { amount: 30 }));
    proof {
        assert(entries@.subrange(0, before.len() as int) =~= before);
    }
}

/// Entries 250 to 259 of the effect table, in order.
pub open spec fn table_part_25(es: Seq<(String, Mechanic)>) -> bool {
    &&& es.len() == 10
    &&& es[0].0@ == "This Pokémon also does 40 damage to itself."@
    &&& es[0].1 == Mechanic::SelfDamage { amount: 40 }
    &&& es[1].0@ == "This Pokémon also does 50 damage to itself."@
    &&& es[1].1 == Mechanic::SelfDamage { amount: 50 }
    &&& es[2].0@ == "This Pokémon also does 60 damage to itself."@
    &&& es[2].1 == Mechanic::SelfDamage { amount: 60 }
    &&& es[3].0@ == "This Pokémon also does 70 damage to itself."@
    &&& es[3].1 == Mechanic::SelfDamage { amount: 70 }
    &&& es[4].0@ == "This Pokémon is now Asleep."@
    &&& (es[4].1 matches Mechanic::InflictStatusConditions { conditions: x1, target_opponent: x2 } && (x1@ == seq![StatusCondition::Asleep]) && (x2 == false))
    &&& es[5].0@ == "This Pokémon is now Asleep. Heal 30 damage from it."@
    &&& es[5].1 == Mechanic::SelfAsleepAndHeal { amount: 30 }
    &&& es[6].0@ == "This Pokémon is now Confused."@
    &&& (es[6].1 matches Mechanic::InflictStatusConditions { conditions: x1, target_opponent: x2 } && (x1@ == seq![StatusCondition::Confused]) && (x2 == false))
    &&& es[7].0@ == "This attack also does 10 damage to 1 of your Benched Pokémon."@
    &&& es[7].1 == Mechanic::AlsoChoiceBenchDamage { opponent: false, damage: 10 }
    &&& es[8].0@ == "This attack also does 10 damage to 1 of your opponent's Benched Pokémon."@
    &&& es[8].1 == Mechanic::AlsoChoiceBenchDamage { opponent: true, damage: 10 }
    &&& es[9].0@ == "This attack also does 10 damage to each of your Benched Pokémon."@
    &&& es[9].1 == Mechanic::AlsoBenchDamage { opponent: false, damage: 10, must_have_energy: false }
}

/// Pushes entries 250 to 259 of the effect table.
fn push_entries_25(entries: &mut Vec<(String, Mechanic)>)
    ensures
        final(entries)@.len() == old(entries)@.len() + 10,
        final(entries)@.subrange(0, old(entries)@.len() as int) == old(entries)@,
        table_part_25(final(entries)@.subrange(old(entries)@.len() as int, final(entries)@.len() as int)),
{
    let ghost before = entries@;
    entries.push(("This Pokémon also does 40 damage to itself.".to_string(), Mechanic::SelfDamage { amount: 40 }));
    entries.push(("This Pokémon also does 50 damage to itself.".to_string(), Mechanic::SelfDamage { amount: 50 }));
    entries.push(("This Pokémon also does 60 damage to itself.".to_string(), Mechanic::SelfDamage { amount: 60 }));
    entries.push(("This Pokémon also does 70 damage to itself.".to_string(), Mechanic::SelfDamage { amount: 70 }));
    entries.push(("This Pokémon is now Asleep.".to_string(), Mechanic::InflictStatusConditions {
        conditions: list1(StatusCondition::Asleep),
        target_opponent: false,
        }));
    entries.push(("This Pokémon is now Asleep. Heal 30 damage from it.".to_string(), Mechanic::SelfAsleepAndHeal { amount: 30 }));
    entries.push(("This Pokémon is now Confused.".to_string(), Mechanic::InflictStatusConditions {
        conditions: list1(StatusCondition::Confused),
        target_opponent: false,
        }));
    entries.push(("This attack also does 10 damage to 1 of your Benched Pokémon.".to_string(), Mechanic::AlsoChoiceBenchDamage {
        opponent: false,
        damage: 10,
        }));
    entries.push(("This attack also does 10 damage to 1 of your opponent's Benched Pokémon.".to_string(), Mechanic::AlsoChoiceBenchDamage {
        opponent: true,
        damage: 10,
        }));
    entries.push(("This attack also does 10 damage to each of your Benched Pokémon.".to_string(), Mechanic::AlsoBenchDamage {
        opponent: false,
        damage: 10,
        must_have_energy: false,
        }));
    proof {
        assert(entries@.subrange(0, before.len() as int) =~= before);
    }
}

/// Entries 260 to 269 of the effect table, in order.
pub open spec fn table_part_26(es: Seq<(String, Mechanic)>) -> bool {
    &&& es.len() == 10
    &&& es[0].0@ == "This attack also does 10 damage to each of your opponent's Benched Pokémon."@
    &&& es[0].1 == Mechanic::AlsoBenchDamage { opponent: true, damage: 10, must_have_energy: false }
    &&& es[1].0@ == "This attack also does 20 damage to 1 of your Benched Pokémon."@
    &&& es[1].1 == Mechanic::AlsoChoiceBenchDamage { opponent: false, damage: 20 }
    &&& es[2].0@ == "This attack also does 20 damage to 1 of your opponent's Benched Pokémon."@
    &&& es[2].1 == Mechanic::AlsoChoiceBenchDamage { opponent: true, damage: 20 }
    &&& es[3].0@ == "This attack also does 20 damage to each of your Benched Pokémon."@
    &&& es[3].1 == Mechanic::AlsoBenchDamage { opponent: false, damage: 20, must_have_energy: false }
    &&& es[4].0@ == "This attack also does 20 damage to each of your opponent's Benched Pokémon that has any Energy attached."@
    &&& es[4].1 == Mechanic::AlsoBenchDamage { opponent: true, damage: 20, must_have_energy: true }
    &&& es[5].0@ == "This attack also does 20 damage to each of your opponent's Benched Pokémon."@
    &&& es[5].1 == Mechanic::AlsoBenchDamage { opponent: true, damage: 20, must_have_energy: false }
    &&& es[6].0@ == "This attack also does 30 damage to 1 of your Benched Pokémon."@
    &&& es[6].1 == Mechanic::AlsoChoiceBenchDamage { opponent: false, damage: 30 }
    &&& es[7].0@ == "This attack also does 30 damage to 1 of your opponent's Benched Pokémon."@
    &&& es[7].1 == Mechanic::AlsoChoiceBenchDamage { opponent: true, damage: 30 }
    &&& es[8].0@ == "This attack does 10 damage for each of your Benched [L] Pokémon."@
    &&& es[8].1 == Mechanic::BenchCountDamage { include_fixed_damage: false, damage_per: 10, energy_type: Some(EnergyType::Lightning), bench_side: BenchSide::YourBench }
    &&& es[9].0@ == "This attack does 10 damage to 1 of your opponent's Pokémon."@
    &&& es[9].1 == Mechanic::DirectDamage { damage: 10, bench_only: false }
}

/// Pushes entries 260 to 269 of the effect table.
fn push_entries_26(entries: &mut Vec<(String, Mechanic)>)
    ensures
        final(entries)@.len() == old(entries)@.len() + 10,
        final(entries)@.subrange(0, old(entries)@.len() as int) == old(entries)@,
        table_part_26(final(entries)@.subrange(old(entries)@.len() as int, final(entries)@.len() as int)),
{
    let ghost before = entries@;
    entries.push(("This attack also does 10 damage to each of your opponent's Benched Pokémon.".to_string(), Mechanic::AlsoBenchDamage {
        opponent: true,
        damage: 10,
        must_have_energy: false,
        }));
    entries.push(("This attack also does 20 damage to 1 of your Benched Pokémon.".to_string(), Mechanic::AlsoChoiceBenchDamage {
        opponent: false,
        damage: 20,
        }));
    entries.push(("This attack also does 20 damage to 1 of your opponent's Benched Pokémon.".to_string(), Mechanic::AlsoChoiceBenchDamage {
        opponent: true,
        damage: 20,
        }));
    entries.push(("This attack also does 20 damage to each of your Benched Pokémon.".to_string(), Mechanic::AlsoBenchDamage {
        opponent: false,
        damage: 20,
        must_have_energy: false,
        }));
    entries.push(("This attack also does 20 damage to each of your opponent's Benched Pokémon that has any Energy attached.".to_string(), Mechanic::AlsoBenchDamage {
        opponent: true,
        damage: 20,
        must_have_energy: true,
        }));
    entries.push(("This attack also does 20 damage to each of your opponent's Benched Pokémon.".to_string(), Mechanic::AlsoBenchDamage {
        opponent: true,
        damage: 20,
        must_have_energy: false,
        }));
    entries.push(("This attack also does 30 damage to 1 of your Benched Pokémon.".to_string(), Mechanic::AlsoChoiceBenchDamage {
        opponent: false,
        damage: 30,
        }));
    entries.push(("This attack also does 30 damage to 1 of your opponent's Benched Pokémon.".to_string(), Mechanic::AlsoChoiceBenchDamage {
        opponent: true,
        damage: 30,
        }));
    entries.push(("This attack does 10 damage for each of your Benched [L] Pokémon.".to_string(), Mechanic::BenchCountDamage {
        include_fixed_damage: false,
        damage_per: 10,
        energy_type: Some(EnergyType::Lightning),
        bench_side: BenchSide::YourBench,
        }));
    entries.push(("This attack does 10 damage to 1 of your opponent's Pokémon.".to_string(), Mechanic::DirectDamage {
        damage: 10,
        bench_only: false,
        }));
    proof {
        assert(entries@.subrange(0, before.len() as int) =~= before);
    }
}

/// Entries 270 to 279 of the effect table, in order.
pub open spec fn table_part_27(es: Seq<(String, Mechanic)>) -> bool {
    &&& es.len() == 10
    &&& es[0].0@ == "This attack does 10 damage to each of your opponent's Pokémon."@
    &&& es[0].1 == Mechanic::DamageAllOpponentPokemon { damage: 10 }
    &&& es[1].0@ == "This attack does 20 damage to each of your opponent's Pokémon."@
    &&& es[1].1 == Mechanic::DamageAllOpponentPokemon { damage: 20 }
    &&& es[2].0@ == "This attack does 10 more damage for each [W] Energy attached to this Pokémon."@
    &&& es[2].1 == Mechanic::ExtraDamagePerSpecificEnergy { energy_type: EnergyType::Water, damage_per_energy: 10 }
    &&& es[3].0@ == "This attack does 100 damage to 1 of your opponent's Pokémon that have damage on them."@
    &&& es[3].1 == Mechanic::DirectDamageIfDamaged { damage: 100 }
    &&& es[4].0@ == "This attack does 20 damage for each Benched Pokémon (both yours and your opponent's)."@
    &&& es[4].1 == Mechanic::BenchCountDamage { include_fixed_damage: false, damage_per: 20, energy_type: None, bench_side: BenchSide::BothBenches }
    &&& es[5].0@ == "This attack does 20 damage for each Energy attached to all of your opponent's Pokémon."@
    &&& es[5].1 == Mechanic::DamagePerEnergyAll { include_fixed_damage: false, opponent: true, damage_per_energy: 20 }
    &&& es[6].0@ == "This attack does 20 more damage for each Energy attached to all of your opponent's Pokémon."@
    &&& es[6].1 == Mechanic::DamagePerEnergyAll { include_fixed_damage: true, opponent: true, damage_per_energy: 20 }
    &&& es[7].0@ == "This attack does 20 damage for each of your Benched Pokémon."@
    &&& es[7].1 == Mechanic::BenchCountDamage { include_fixed_damage: false, damage_per: 20, energy_type: None, bench_side: BenchSide::YourBench }
    &&& es[8].0@ == "This attack does 20 damage to 1 of your opponent's Benched Pokémon."@
    &&& es[8].1 == Mechanic::DirectDamage { damage: 20, bench_only: true }
    &&& es[9].0@ == "This attack does 20 damage to 1 of your opponent's Pokémon for each Energy attached to that Pokémon."@
    &&& es[9].1 == Mechanic::DamageToAnyOpponentPerTargetEnergy { damage_per_energy: 20 }
}

/// Pushes entries 270 to 279 of the effect table.
fn push_entries_27(entries: &mut Vec<(String, Mechanic)>)
    ensures
        final(entries)@.len() == old(entries)@.len() + 10,
        final(entries)@.subrange(0, old(entries)@.len() as int) == old(entries)@,
        table_part_27(final(entries)@.subrange(old(entries)@.len() as int, final(entries)@.len() as int)),
{
    let ghost before = entries@;
    entries.push(("This attack does 10 damage to each of your opponent's Pokémon.".to_string(), Mechanic::DamageAllOpponentPokemon { damage: 10 }));
    entries.push(("This attack does 20 damage to each of your opponent's Pokémon.".to_string(), Mechanic::DamageAllOpponentPokemon { damage: 20 }));
    entries.push(("This attack does 10 more damage for each [W] Energy attached to this Pokémon.".to_string(), Mechanic::ExtraDamagePerSpecificEnergy {
        energy_type: EnergyType::Water,
        damage_per_energy: 10,
        }));
    entries.push(("This attack does 100 damage to 1 of your opponent's Pokémon that have damage on them.".to_string(), Mechanic::DirectDamageIfDamaged { damage: 100 }));
    entries.push(("This attack does 20 damage for each Benched Pokémon (both yours and your opponent's).".to_string(), Mechanic::BenchCountDamage {
        include_fixed_damage: false,
        damage_per: 20,
        energy_type: None,
        bench_side: BenchSide::BothBenches,
        }));
    entries.push(("This attack does 20 damage for each Energy attached to all of your opponent's Pokémon.".to_string(), Mechanic::DamagePerEnergyAll {
        include_fixed_damage: false,
        opponent: true,
        damage_per_energy: 20,
        }));
    entries.push(("This attack does 20 more damage for each Energy attached to all of your opponent's Pokémon.".to_string(), Mechanic::DamagePerEnergyAll {
        include_fixed_damage: true,
        opponent: true,
        damage_per_energy: 20,
        }));
    entries.push(("This attack does 20 damage for each of your Benched Pokémon.".to_string(), Mechanic::BenchCountDamage {
        include_fixed_damage: false,
        damage_per: 20,
        energy_type: None,
        bench_side: BenchSide::YourBench,
        }));
    entries.push(("This attack does 20 damage to 1 of your opponent's Benched Pokémon.".to_string(), Mechanic::DirectDamage {
        damage: 20,
        bench_only: true,
        }));
    entries.push(("This attack does 20 damage to 1 of your opponent's Pokémon for each Energy attached to that Pokémon.".to_string(), Mechanic::DamageToAnyOpponentPerTargetEnergy { damage_per_energy: 20 }));
    proof {
        assert(entries@.subrange(0, before.len() as int) =~= before);
    }
}

/// Entries 280 to 289 of the effect table, in order.
pub open spec fn table_part_28(es: Seq<(String, Mechanic)>) -> bool {
    &&& es.len() == 10
    &&& es[0].0@ == "This attack does 20 damage to 1 of your opponent's Pokémon."@
    &&& es[0].1 == Mechanic::DirectDamage { damage: 20, bench_only: false }
    &&& es[1].0@ == "This attack does 20 more damage for each type of Energy attached to this Pokémon."@
    &&& es[1].1 == Mechanic::ExtraDamagePerEnergyType { damage_per_type: 20 }
    &&& es[2].0@ == "This attack does 20 more damage for each Energy attached to this Pokémon."@
    &&& es[2].1 == Mechanic::ExtraDamagePerEnergy { include_fixed_damage: true, opponent: false, damage_per_energy: 20 }
    &&& es[3].0@ == "This attack does 20 damage for each Energy attached to your opponent's Active Pokémon."@
    &&& es[3].1 == Mechanic::ExtraDamagePerEnergy { include_fixed_damage: false, opponent: true, damage_per_energy: 20 }
    &&& es[4].0@ == "This attack does 20 more damage for each Energy attached to your opponent's Active Pokémon."@
    &&& es[4].1 == Mechanic::ExtraDamagePerEnergy { include_fixed_damage: true, opponent: true, damage_per_energy: 20 }
    &&& es[5].0@ == "This attack does 20 more damage for each [L] Energy attached to this Pokémon."@
    &&& es[5].1 == Mechanic::ExtraDamagePerSpecificEnergy { energy_type: EnergyType::Lightning, damage_per_energy: 20 }
    &&& es[6].0@ == "This attack does 20 more damage for each [M] Energy attached to this Pokémon."@
    &&& es[6].1 == Mechanic::ExtraDamagePerSpecificEnergy { energy_type: EnergyType::Metal, damage_per_energy: 20 }
    &&& es[7].0@ == "This attack does 20 more damage for each [G] Energy attached to this Pokémon."@
    &&& es[7].1 == Mechanic::ExtraDamagePerSpecificEnergy { energy_type: EnergyType::Grass, damage_per_energy: 20 }
    &&& es[8].0@ == "This attack does 20 more damage for each [P] Energy attached to all of your Pokémon."@
    &&& es[8].1 == Mechanic::ExtraDamagePerSpecificEnergyAllYours { energy_type: EnergyType::Psychic, damage_per_energy: 20 }
    &&& es[9].0@ == "This attack does 20 more damage for each of your Benched Pokémon."@
    &&& es[9].1 == Mechanic::BenchCountDamage { include_fixed_damage: true, damage_per: 20, energy_type: None, bench_side: BenchSide::YourBench }
}

/// Pushes entries 280 to 289 of the effect table.
fn push_entries_28(entries: &mut Vec<(String, Mechanic)>)
    ensures
        final(entries)@.len() == old(entries)@.len() + 10,
        final(entries)@.subrange(0, old(entries)@.len() as int) == old(entries)@,
        table_part_28(final(entries)@.subrange(old(entries)@.len() as int, final(entries)@.len() as int)),
{
    let ghost before = entries@;
    entries.push(("This attack does 20 damage to 1 of your opponent's Pokémon.".to_string(), Mechanic::DirectDamage {
        damage: 20,
        bench_only: false,
        }));
    entries.push(("This attack does 20 more damage for each type of Energy attached to this Pokémon.".to_string(), Mechanic::ExtraDamagePerEnergyType {
        damage_per_type: 20,
        }));
    entries.push(("This attack does 20 more damage for each Energy attached to this Pokémon.".to_string(), Mechanic::ExtraDamagePerEnergy {
        include_fixed_damage: true,
        opponent: false,
        damage_per_energy: 20,
        }));
    entries.push(("This attack does 20 damage for each Energy attached to your opponent's Active Pokémon.".to_string(), Mechanic::ExtraDamagePerEnergy {
        include_fixed_damage: false,
        opponent: true,
        damage_per_energy: 20,
        }));
    entries.push(("This attack does 20 more damage for each Energy attached to your opponent's Active Pokémon.".to_string(), Mechanic::ExtraDamagePerEnergy {
        include_fixed_damage: true,
        opponent: true,
        damage_per_energy: 20,
        }));
    entries.push(("This attack does 20 more damage for each [L] Energy attached to this Pokémon.".to_string(), Mechanic::ExtraDamagePerSpecificEnergy {
        energy_type: EnergyType::Lightning,
        damage_per_energy: 20,
        }));
    entries.push(("This attack does 20 more damage for each [M] Energy attached to this Pokémon.".to_string(), Mechanic::ExtraDamagePerSpecificEnergy {
        energy_type: EnergyType::Metal,
        damage_per_energy: 20,
        }));
    entries.push(("This attack does 20 more damage for each [G] Energy attached to this Pokémon.".to_string(), Mechanic::ExtraDamagePerSpecificEnergy {
        energy_type: EnergyType::Grass,
        damage_per_energy: 20,
        }));
    entries.push(("This attack does 20 more damage for each [P] Energy attached to all of your Pokémon.".to_string(), Mechanic::ExtraDamagePerSpecificEnergyAllYours {
        energy_type: EnergyType::Psychic,
        damage_per_energy: 20,
        }));
    entries.push(("This attack does 20 more damage for each of your Benched Pokémon.".to_string(), Mechanic::BenchCountDamage {
        include_fixed_damage: true,
        damage_per: 20,
        energy_type: None,
        bench_side: BenchSide::YourBench,
        }));
    proof {
        assert(entries@.subrange(0, before.len() as int) =~= before);
    }
}

/// Entries 290 to 299 of the effect table, in order.
pub open spec fn table_part_29(es: Seq<(String, Mechanic)>) -> bool {
    &&& es.len() == 10
    &&& es[0].0@ == "This attack does 20 more damage for each of your opponent's Benched Pokémon."@
    &&& es[0].1 == Mechanic::BenchCountDamage { include_fixed_damage: true, damage_per: 20, energy_type: None, bench_side: BenchSide::OpponentBench }
    &&& es[1].0@ == "This attack does 30 damage for each of your Benched Pokémon."@
    &&& es[1].1 == Mechanic::BenchCountDamage { include_fixed_damage: false, damage_per: 30, energy_type: None, bench_side: BenchSide::YourBench }
    &&& es[2].0@ == "This attack does 30 damage for each of your Benched [L] Pokémon."@
    &&& es[2].1 == Mechanic::BenchCountDamage { include_fixed_damage: false, damage_per: 30, energy_type: Some(EnergyType::Lightning), bench_side: BenchSide::YourBench }
    &&& es[3].0@ == "This attack does 30 damage to 1 of your opponent's Benched Pokémon."@
    &&& es[3].1 == Mechanic::DirectDamage { damage: 30, bench_only: true }
    &&& es[4].0@ == "This attack does 30 damage to 1 of your opponent's Pokémon."@
    &&& es[4].1 == Mechanic::DirectDamage { damage: 30, bench_only: false }
    &&& es[5].0@ == "This attack does 30 more damage for each Energy attached to your opponent's Active Pokémon."@
    &&& es[5].1 == Mechanic::ExtraDamagePerEnergy { include_fixed_damage: true, opponent: true, damage_per_energy: 30 }
    &&& es[6].0@ == "This attack does 30 more damage for each Energy in your opponent's Active Pokémon's Retreat Cost."@
    &&& es[6].1 == Mechanic::ExtraDamagePerRetreatCost { damage_per_energy: 30 }
    &&& es[7].0@ == "This attack does 30 more damage for each Evolution Pokémon on your Bench."@
    &&& es[7].1 == Mechanic::EvolutionBenchCountDamage { include_fixed_damage: true, damage_per: 30 }
    &&& es[8].0@ == "This attack does 30 more damage for each of your Benched Pokémon."@
    &&& es[8].1 == Mechanic::BenchCountDamage { include_fixed_damage: true, damage_per: 30, energy_type: None, bench_side: BenchSide::YourBench }
    &&& es[9].0@ == "This attack does 40 damage for each time your Pokémon used Sweets Relay during this game."@
    &&& (es[9].1 matches Mechanic::DamagePerAttackUsedThisGame { attack_name: x1, damage_per_use: x2 } && (x1@ == "Sweets Relay"@) && (x2 == 40))
}

/// Pushes entries 290 to 299 of the effect table.
fn push_entries_29(entries: &mut Vec<(String, Mechanic)>)
    ensures
        final(entries)@.len() == old(entries)@.len() + 10,
        final(entries)@.subrange(0, old(entries)@.len() as int) == old(entries)@,
        table_part_29(final(entries)@.subrange(old(entries)@.len() as int, final(entries)@.len() as int)),
{
    let ghost before = entries@;
    entries.push(("This attack does 20 more damage for each of your opponent's Benched Pokémon.".to_string(), Mechanic::BenchCountDamage {
        include_fixed_damage: true,
        damage_per: 20,
        energy_type: None,
        bench_side: BenchSide::OpponentBench,
        }));
    entries.push(("This attack does 30 damage for each of your Benched Pokémon.".to_string(), Mechanic::BenchCountDamage {
        include_fixed_damage: false,
        damage_per: 30,
        energy_type: None,
        bench_side: BenchSide::YourBench,
        }));
    entries.push(("This attack does 30 damage for each of your Benched [L] Pokémon.".to_string(), Mechanic::BenchCountDamage {
        include_fixed_damage: false,
        damage_per: 30,
        energy_type: Some(EnergyType::Lightning),
        bench_side: BenchSide::YourBench,
        }));
    entries.push(("This attack does 30 damage to 1 of your opponent's Benched Pokémon.".to_string(), Mechanic::DirectDamage {
        damage: 30,
        bench_only: true,
        }));
    entries.push(("This attack does 30 damage to 1 of your opponent's Pokémon.".to_string(), Mechanic::DirectDamage {
        damage: 30,
        bench_only: false,
        }));
    entries.push(("This attack does 30 more damage for each Energy attached to your opponent's Active Pokémon.".to_string(), Mechanic::ExtraDamagePerEnergy {
        include_fixed_damage: true,
        opponent: true,
        damage_per_energy: 30,
        }));
    entries.push(("This attack does 30 more damage for each Energy in your opponent's Active Pokémon's Retreat Cost.".to_string(), Mechanic::ExtraDamagePerRetreatCost {
        damage_per_energy: 30,
        }));
    entries.push(("This attack does 30 more damage for each Evolution Pokémon on your Bench.".to_string(), Mechanic::EvolutionBenchCountDamage {
        include_fixed_damage: true,
        damage_per: 30,
        }));
    entries.push(("This attack does 30 more damage for each of your Benched Pokémon.".to_string(), Mechanic::BenchCountDamage {
        include_fixed_damage: true,
        damage_per: 30,
        energy_type: None,
        bench_side: BenchSide::YourBench,
        }));
    entries.push(("This attack does 40 damage for each time your Pokémon used Sweets Relay during this game.".to_string(), Mechanic::DamagePerAttackUsedThisGame {
        attack_name: "Sweets Relay".to_string(),
        damage_per_use: 40,
        }));
    proof {
        assert(entries@.subrange(0, before.len() as int) =~= before);
    }
}

/// Entries 300 to 309 of the effect table, in order.
pub open spec fn table_part_30(es: Seq<(String, Mechanic)>) -> bool {
    &&& es.len() == 10
    &&& es[0].0@ == "This attack does 20 damage for each card in your hand."@
    &&& es[0].1 == Mechanic::DamagePerOwnHandCard { damage_per_card: 20 }
    &&& es[1].0@ == "This attack does 40 damage to 1 of your opponent's Pokémon."@
    &&& es[1].1 == Mechanic::DirectDamage { damage: 40, bench_only: false }
    &&& es[2].0@ == "This attack does 40 more damage for each Energy in your opponent's Active Pokémon's Retreat Cost."@
    &&& es[2].1 == Mechanic::ExtraDamagePerRetreatCost { damage_per_energy: 40 }
    &&& es[3].0@ == "This attack does 40 more damage for each of your opponent's Pokémon in play that has an Ability."@
    &&& es[3].1 == Mechanic::ExtraDamagePerOpponentPokemonWithAbility { damage_per: 40 }
    &&& es[4].0@ == "This attack does 50 damage to 1 of your opponent's Benched Pokémon."@
    &&& es[4].1 == Mechanic::DirectDamage { damage: 50, bench_only: true }
    &&& es[5].0@ == "This attack also does 50 damage to 1 of your opponent's Benched Pokémon that has damage on it."@
    &&& es[5].1 == Mechanic::AlsoChoiceBenchDamageIfDamaged { opponent: true, damage: 50 }
    &&& es[6].0@ == "This attack does 50 damage to 1 of your opponent's Pokémon."@
    &&& es[6].1 == Mechanic::DirectDamage { damage: 50, bench_only: false }
    &&& es[7].0@ == "This attack does 50 more damage for each of your Benched Nidoking."@
    &&& (es[7].1 matches Mechanic::ExtraDamagePerPokemonWithNameOnBench { pokemon_name: x1, damage_per: x2 } && (x1@ == "Nidoking"@) && (x2 == 50))
    &&& es[8].0@ == "This attack does 60 damage to 1 of your opponent's Pokémon."@
    &&& es[8].1 == Mechanic::DirectDamage { damage: 60, bench_only: false }
    &&& es[9].0@ == "This attack does 70 damage to 1 of your opponent's Pokémon."@
    &&& es[9].1 == Mechanic::DirectDamage { damage: 70, bench_only: false }
}

/// Pushes entries 300 to 309 of the effect table.
fn push_entries_30(entries: &mut Vec<(String, Mechanic)>)
    ensures
        final(entries)@.len() == old(entries)@.len() + 10,
        final(entries)@.subrange(0, old(entries)@.len() as int) == old(entries)@,
        table_part_30(final(entries)@.subrange(old(entries)@.len() as int, final(entries)@.len() as int)),
{
    let ghost before = entries@;
    entries.push(("This attack does 20 damage for each card in your hand.".to_string(), Mechanic::DamagePerOwnHandCard {
        damage_per_card: 20,
        }));
    entries.push(("This attack does 40 damage to 1 of your opponent's Pokémon.".to_string(), Mechanic::DirectDamage {
        damage: 40,
        bench_only: false,
        }));
    entries.push(("This attack does 40 more damage for each Energy in your opponent's Active Pokémon's Retreat Cost.".to_string(), Mechanic::ExtraDamagePerRetreatCost {
        damage_per_energy: 40,
        }));
    entries.push(("This attack does 40 more damage for each of your opponent's Pokémon in play that has an Ability.".to_string(), Mechanic::ExtraDamagePerOpponentPokemonWithAbility { damage_per: 40 }));
    entries.push(("This attack does 50 damage to 1 of your opponent's Benched Pokémon.".to_string(), Mechanic::DirectDamage {
        damage: 50,
        bench_only: true,
        }));
    entries.push(("This attack also does 50 damage to 1 of your opponent's Benched Pokémon that has damage on it.".to_string(), Mechanic::AlsoChoiceBenchDamageIfDamaged {
        opponent: true,
        damage: 50,
        }));
    entries.push(("This attack does 50 damage to 1 of your opponent's Pokémon.".to_string(), Mechanic::DirectDamage {
        damage: 50,
        bench_only: false,
        }));
    entries.push(("This attack does 50 more damage for each of your Benched Nidoking.".to_string(), Mechanic::ExtraDamagePerPokemonWithNameOnBench {
        pokemon_name: "Nidoking".to_string(),
        damage_per: 50,
        }));
    entries.push(("This attack does 60 damage to 1 of your opponent's Pokémon.".to_string(), Mechanic::DirectDamage {
        damage: 60,
        bench_only: false,
        }));
    entries.push(("This attack does 70 damage to 1 of your opponent's Pokémon.".to_string(), Mechanic::DirectDamage {
        damage: 70,
        bench_only: false,
        }));
    proof {
        assert(entries@.subrange(0, before.len() as int) =~= before);
    }
}

/// Entries 310 to 319 of the effect table, in order.
pub open spec fn table_part_31(es: Seq<(String, Mechanic)>) -> bool {
    &&& es.len() == 10
    &&& es[0].0@ == "This attack does damage to your opponent's Active Pokémon equal to the damage this Pokémon has on it."@
    &&& es[0].1 == Mechanic::DamageEqualToSelfDamage
    &&& es[1].0@ == "This attack does more damage equal to the damage this Pokémon has on it."@
    &&& es[1].1 == Mechanic::ExtraDamageEqualToSelfDamage
    &&& es[2].0@ == "This attack's damage isn't affected by Weakness."@
    &&& es[2].1 == Mechanic::DamageUnaffectedByWeakness
    &&& es[3].0@ == "This attack's damage isn't affected by any effects on your opponent's Active Pokémon."@
    &&& es[3].1 == Mechanic::DamageUnaffectedByOpponentActiveEffects
    &&& es[4].0@ == "Your opponent can't use any Supporter cards from their hand during their next turn."@
    &&& es[4].1 == Mechanic::DamageAndTurnEffect { effect: TurnEffect::NoSupportCards, duration: 1 }
    &&& es[5].0@ == "Your opponent reveals a random card from their hand and shuffles it into their deck."@
    &&& es[5].1 == Mechanic::ShuffleRandomOpponentHandCardIntoDeck
    &&& es[6].0@ == "Your opponent reveals their hand. Choose a Supporter card you find there and discard it."@
    &&& es[6].1 == Mechanic::DarknessClaw
    &&& es[7].0@ == "Your opponent's Active Pokémon is now Asleep."@
    &&& (es[7].1 matches Mechanic::InflictStatusConditions { conditions: x1, target_opponent: x2 } && (x1@ == seq![StatusCondition::Asleep]) && (x2 == true))
    &&& es[8].0@ == "Your opponent's Active Pokémon is now Burned."@
    &&& (es[8].1 matches Mechanic::InflictStatusConditions { conditions: x1, target_opponent: x2 } && (x1@ == seq![StatusCondition::Burned]) && (x2 == true))
    &&& es[9].0@ == "Your opponent's Active Pokémon is now Confused."@
    &&& (es[9].1 matches Mechanic::InflictStatusConditions { conditions: x1, target_opponent: x2 } && (x1@ == seq![StatusCondition::Confused]) && (x2 == true))
}

/// Pushes entries 310 to 319 of the effect table.
fn push_entries_31(entries: &mut Vec<(String, Mechanic)>)
    ensures
        final(entries)@.len() == old(entries)@.len() + 10,
        final(entries)@.subrange(0, old(entries)@.len() as int) == old(entries)@,
        table_part_31(final(entries)@.subrange(old(entries)@.len() as int, final(entries)@.len() as int)),
{
    let ghost before = entries@;
    entries.push(("This attack does damage to your opponent's Active Pokémon equal to the damage this Pokémon has on it.".to_string(), Mechanic::DamageEqualToSelfDamage));
    entries.push(("This attack does more damage equal to the damage this Pokémon has on it.".to_string(), Mechanic::ExtraDamageEqualToSelfDamage));
    entries.push(("This attack's damage isn't affected by Weakness.".to_string(), Mechanic::DamageUnaffectedByWeakness));
    entries.push(("This attack's damage isn't affected by any effects on your opponent's Active Pokémon.".to_string(), Mechanic::DamageUnaffectedByOpponentActiveEffects));
    entries.push(("Your opponent can't use any Supporter cards from their hand during their next turn.".to_string(), Mechanic::DamageAndTurnEffect {
        effect: TurnEffect::NoSupportCards,
        duration: 1,
        }));
    entries.push(("Your opponent reveals a random card from their hand and shuffles it into their deck.".to_string(), Mechanic::ShuffleRandomOpponentHandCardIntoDeck));
    entries.push(("Your opponent reveals their hand. Choose a Supporter card you find there and discard it.".to_string(), Mechanic::DarknessClaw));
    entries.push(("Your opponent's Active Pokémon is now Asleep.".to_string(), Mechanic::InflictStatusConditions {
        conditions: list1(StatusCondition::Asleep),
        target_opponent: true,
        }));
    entries.push(("Your opponent's Active Pokémon is now Burned.".to_string(), Mechanic::InflictStatusConditions {
        conditions: list1(StatusCondition::Burned),
        target_opponent: true,
        }));
    entries.push(("Your opponent's Active Pokémon is now Confused.".to_string(), Mechanic::InflictStatusConditions {
        conditions: list1(StatusCondition::Confused),
        target_opponent: true,
        }));
    proof {
        assert(entries@.subrange(0, before.len() as int) =~= before);
    }
}

/// Entries 320 to 329 of the effect table, in order.
pub open spec fn table_part_32(es: Seq<(String, Mechanic)>) -> bool {
    &&& es.len() == 10
    &&& es[0].0@ == "Your opponent's Active Pokémon is now Poisoned and Asleep."@
    &&& (es[0].1 matches Mechanic::InflictStatusConditions { conditions: x1, target_opponent: x2 } && (x1@ == seq![StatusCondition::Poisoned, StatusCondition::Asleep]) && (x2 == true))
    &&& es[1].0@ == "Your opponent's Active Pokémon is now Poisoned."@
    &&& (es[1].1 matches Mechanic::InflictStatusConditions { conditions: x1, target_opponent: x2 } && (x1@ == seq![StatusCondition::Poisoned]) && (x2 == true))
    &&& es[2].0@ == "Discard a random Energy from among the Energy attached to all Pokémon (both yours and your opponent's)."@
    &&& es[2].1 == Mechanic::DiscardRandomGlobalEnergy { count: 1 }
    &&& es[3].0@ == "If this Pokémon has at least 2 extra [W] Energy attached, this attack also does 50 damage to 1 of your opponent's Benched Pokémon."@
    &&& (es[3].1 matches Mechanic::ConditionalBenchDamage { required_extra_energy: x1, bench_damage: x2, num_bench_targets: x3, opponent: x4 } && (x1@ == seq![EnergyType::Water, EnergyType::Water]) && (x2 == 50) && (x3 == 1) && (x4 == true))
    &&& es[4].0@ == "If this Pokémon has at least 3 extra [W] Energy attached, this attack also does 50 damage to 2 of your opponent's Benched Pokémon."@
    &&& (es[4].1 matches Mechanic::ConditionalBenchDamage { required_extra_energy: x1, bench_damage: x2, num_bench_targets: x3, opponent: x4 } && (x1@ == seq![EnergyType::Water, EnergyType::Water, EnergyType::Water]) && (x2 == 50) && (x3 == 2) && (x4 == true))
    &&& es[5].0@ == "Flip 2 coins. This attack does 90 damage for each heads. Your opponent's Active Pokémon is now Confused."@
    &&& es[5].1 == Mechanic::ExtraDamageForEachHeadsWithStatus { include_fixed_damage: false, damage_per_head: 90, num_coins: 2, status: StatusCondition::Confused }
    &&& es[6].0@ == "During your opponent's next turn, this Pokémon takes -20 damage from attacks and has no Weakness."@
    &&& (es[6].1 matches Mechanic::DamageAndMultipleCardEffects { opponent: x1, effects: x2, duration: x3 } && (x1 == false) && (x2@ == seq![CardEffect::ReducedDamage { amount: 20 }, CardEffect::NoWeakness]) && (x3 == 1))
    &&& es[7].0@ == "This attack's damage is reduced by the amount of damage this Pokémon has on it."@
    &&& es[7].1 == Mechanic::DamageReducedBySelfDamage
    &&& es[8].0@ == "This attack does 20 more damage for each Trainer card in your opponent's deck."@
    &&& es[8].1 == Mechanic::ExtraDamagePerTrainerInOpponentDeck { damage_per_trainer: 20 }
    &&& es[9].0@ == "If Quick-Grow Extract is in your discard pile, this attack does 30 more damage."@
    &&& (es[9].1 matches Mechanic::ExtraDamageIfCardInDiscard { card_name: x1, extra_damage: x2 } && (x1@ == "Quick-Grow Extract"@) && (x2 == 30))
}

/// Pushes entries 320 to 329 of the effect table.
fn push_entries_32(entries: &mut Vec<(String, Mechanic)>)
    ensures
        final(entries)@.len() == old(entries)@.len() + 10,
        final(entries)@.subrange(0, old(entries)@.len() as int) == old(entries)@,
        table_part_32(final(entries)@.subrange(old(entries)@.len() as int, final(entries)@.len() as int)),
{
    let ghost before = entries@;
    entries.push(("Your opponent's Active Pokémon is now Poisoned and Asleep.".to_string(), Mechanic::InflictStatusConditions {
        conditions: list2(StatusCondition::Poisoned, StatusCondition::Asleep),
        target_opponent: true,
        }));
    entries.push(("Your opponent's Active Pokémon is now Poisoned.".to_string(), Mechanic::InflictStatusConditions {
        conditions: list1(StatusCondition::Poisoned),
        target_opponent: true,
        }));
    entries.push(("Discard a random Energy from among the Energy attached to all Pokémon (both yours and your opponent's).".to_string(), Mechanic::DiscardRandomGlobalEnergy { count: 1 }));
    entries.push(("If this Pokémon has at least 2 extra [W] Energy attached, this attack also does 50 damage to 1 of your opponent's Benched Pokémon.".to_string(), Mechanic::ConditionalBenchDamage {
        required_extra_energy: list2(EnergyType::Water, EnergyType::Water),
        bench_damage: 50,
        num_bench_targets: 1,
        opponent: true,
        }));
    entries.push(("If this Pokémon has at least 3 extra [W] Energy attached, this attack also does 50 damage to 2 of your opponent's Benched Pokémon.".to_string(), Mechanic::ConditionalBenchDamage {
        required_extra_energy: list3(EnergyType::Water, EnergyType::Water, EnergyType::Water),
        bench_damage: 50,
        num_bench_targets: 2,
        opponent: true,
        }));
    entries.push(("Flip 2 coins. This attack does 90 damage for each heads. Your opponent's Active Pokémon is now Confused.".to_string(), Mechanic::ExtraDamageForEachHeadsWithStatus {
        include_fixed_damage: false,
        damage_per_head: 90,
        num_coins: 2,
        status: StatusCondition::Confused,
        }));
    entries.push(("During your opponent's next turn, this Pokémon takes -20 damage from attacks and has no Weakness.".to_string(), Mechanic::DamageAndMultipleCardEffects {
        opponent: false,
        effects: list2(
        CardEffect::ReducedDamage { amount: 20 },
        CardEffect::NoWeakness,
        ),
        duration: 1,
        }));
    entries.push(("This attack's damage is reduced by the amount of damage this Pokémon has on it.".to_string(), Mechanic::DamageReducedBySelfDamage));
    entries.push(("This attack does 20 more damage for each Trainer card in your opponent's deck.".to_string(), Mechanic::ExtraDamagePerTrainerInOpponentDeck {
        damage_per_trainer: 20,
        }));
    entries.push(("If Quick-Grow Extract is in your discard pile, this attack does 30 more damage.".to_string(), Mechanic::ExtraDamageIfCardInDiscard {
        card_name: "Quick-Grow Extract".to_string(),
        extra_damage: 30,
        }));
    proof {
        assert(entries@.subrange(0, before.len() as int) =~= before);
    }
}

/// Entries 330 to 339 of the effect table, in order.
pub open spec fn table_part_33(es: Seq<(String, Mechanic)>) -> bool {
    &&& es.len() == 10
    &&& es[0].0@ == "During your opponent's next turn, if the Defending Pokémon tries to use an attack, your opponent flips a coin. If tails, that attack doesn't happen."@
    &&& es[0].1 == Mechanic::CoinFlipToBlockAttackNextTurn
    &&& es[1].0@ == "1 other Pokémon (either yours or your opponent's) is chosen at random 1 time. Do 100 damage to the chosen Pokémon."@
    &&& es[1].1 == Mechanic::RandomSpreadDamage { times: 1, damage_per_hit: 100, include_own_bench: true }
    &&& es[2].0@ == "Choose 1 of your Benched Pokémon's attacks, except any Pokémon ex, and use it as this attack. If this Pokémon doesn't have the necessary Energy to use that attack, this attack does nothing."@
    &&& es[2].1 == Mechanic::CopyAttack { source: CopyAttackSource::OwnBenchNonEx, require_attacker_energy_match: true }
    &&& es[3].0@ == "Discard 2 random Energy from among the Energy attached to all Pokémon (both yours and your opponent's)."@
    &&& es[3].1 == Mechanic::DiscardRandomGlobalEnergy { count: 2 }
    &&& es[4].0@ == "Discard 3 [R] Energy from this Pokémon."@
    &&& (es[4].1 matches Mechanic::SelfDiscardEnergy { energies: x1 } && (x1@ == seq![EnergyType::Fire, EnergyType::Fire, EnergyType::Fire]))
    &&& es[5].0@ == "During your next turn, attacks used by your Pokémon do +20 damage to your opponent's Active Pokémon."@
    &&& es[5].1 == Mechanic::DamageAndTurnEffect { effect: TurnEffect::IncreasedDamage { amount: 20 }, duration: 1 }
    &&& es[6].0@ == "During your opponent's next turn, if this Pokémon is damaged by an attack, do 80 damage to the Attacking Pokémon."@
    &&& es[6].1 == Mechanic::DamageAndCardEffect { opponent: false, effect: CardEffect::Counterattack { amount: 80 }, duration: 1, coin_flip: false }
    &&& es[7].0@ == "Flip 2 coins. If both of them are heads, this attack does 20 more damage."@
    &&& es[7].1 == Mechanic::ExtraDamageIfBothHeads { extra_damage: 20 }
    &&& es[8].0@ == "Flip 2 coins. This attack does 40 more damage for each heads."@
    &&& es[8].1 == Mechanic::ExtraDamageForEachHeads { include_fixed_damage: true, damage_per_head: 40, num_coins: 2 }
    &&& es[9].0@ == "Flip 3 coins. For each heads, discard a random Energy from your opponent's Active Pokémon. If all of them are tails, this attack does nothing."@
    &&& es[9].1 == Mechanic::CoinFlipsDiscardEnergyFromOpponentActiveOrNothing { num_coins: 3 }
}

/// Pushes entries 330 to 339 of the effect table.
fn push_entries_33(entries: &mut Vec<(String, Mechanic)>)
    ensures
        final(entries)@.len() == old(entries)@.len() + 10,
        final(entries)@.subrange(0, old(entries)@.len() as int) == old(entries)@,
        table_part_33(final(entries)@.subrange(old(entries)@.len() as int, final(entries)@.len() as int)),
{
    let ghost before = entries@;
    entries.push(("During your opponent's next turn, if the Defending Pokémon tries to use an attack, your opponent flips a coin. If tails, that attack doesn't happen.".to_string(), Mechanic::CoinFlipToBlockAttackNextTurn));
    entries.push(("1 other Pokémon (either yours or your opponent's) is chosen at random 1 time. Do 100 damage to the chosen Pokémon.".to_string(), Mechanic::RandomSpreadDamage { times: 1, damage_per_hit: 100, include_own_bench: true }));
    entries.push(("Choose 1 of your Benched Pokémon's attacks, except any Pokémon ex, and use it as this attack. If this Pokémon doesn't have the necessary Energy to use that attack, this attack does nothing.".to_string(), Mechanic::CopyAttack {
        source: CopyAttackSource::OwnBenchNonEx,
        require_attacker_energy_match: true,
        }));
    entries.push(("Discard 2 random Energy from among the Energy attached to all Pokémon (both yours and your opponent's).".to_string(), Mechanic::DiscardRandomGlobalEnergy { count: 2 }));
    entries.push(("Discard 3 [R] Energy from this Pokémon.".to_string(), Mechanic::SelfDiscardEnergy {
        energies: list3(EnergyType::Fire, EnergyType::Fire, EnergyType::Fire),
        }));
    entries.push(("During your next turn, attacks used by your Pokémon do +20 damage to your opponent's Active Pokémon.".to_string(), Mechanic::DamageAndTurnEffect {
        effect: TurnEffect::IncreasedDamage { amount: 20 },
        duration: 1,
        }));
    entries.push(("During your opponent's next turn, if this Pokémon is damaged by an attack, do 80 damage to the Attacking Pokémon.".to_string(), Mechanic::DamageAndCardEffect {
        opponent: false,
        effect: CardEffect::Counterattack { amount: 80 },
        duration: 1,
        coin_flip: false,
        }));
    entries.push(("Flip 2 coins. If both of them are heads, this attack does 20 more damage.".to_string(), Mechanic::ExtraDamageIfBothHeads { extra_damage: 20 }));
    entries.push(("Flip 2 coins. This attack does 40 more damage for each heads.".to_string(), Mechanic::ExtraDamageForEachHeads {
        include_fixed_damage: true,
        damage_per_head: 40,
        num_coins: 2,
        }));
    entries.push(("Flip 3 coins. For each heads, discard a random Energy from your opponent's Active Pokémon. If all of them are tails, this attack does nothing.".to_string(), Mechanic::CoinFlipsDiscardEnergyFromOpponentActiveOrNothing { num_coins: 3 }));
    proof {
        assert(entries@.subrange(0, before.len() as int) =~= before);
    }
}

/// Entries 340 to 349 of the effect table, in order.
pub open spec fn table_part_34(es: Seq<(String, Mechanic)>) -> bool {
    &&& es.len() == 10
    &&& es[0].0@ == "Flip 3 coins. This attack does 30 damage for each heads."@
    &&& es[0].1 == Mechanic::ExtraDamageForEachHeads { include_fixed_damage: false, damage_per_head: 30, num_coins: 3 }
    &&& es[1].0@ == "Flip a coin. If heads, during your opponent's next turn, this Pokémon takes -100 damage from attacks."@
    &&& es[1].1 == Mechanic::DamageAndCardEffect { opponent: false, effect: CardEffect::ReducedDamage { amount: 100 }, duration: 1, coin_flip: true }
    &&& es[2].0@ == "Flip a coin. If heads, look at a random card from your opponent's hand and shuffle it into their deck."@
    &&& es[2].1 == Mechanic::CoinFlipShuffleRandomOpponentHandCardIntoDeck
    &&& es[3].0@ == "Flip a coin. If heads, take 2 [R] Energy from your Energy Zone and attach it to 1 of your Benched Pokémon."@
    &&& (es[3].1 matches Mechanic::CoinFlipChargeBench { energies: x1, target_benched_type: x2 } && (x1@ == seq![EnergyType::Fire, EnergyType::Fire]) && (x2 is None))
    &&& es[4].0@ == "Flip a coin. If heads, this attack also does 40 damage to 1 of your opponent's Benched Pokémon."@
    &&& es[4].1 == Mechanic::CoinFlipAlsoChoiceBenchDamage { opponent: true, damage: 40 }
    &&& es[5].0@ == "Flip a coin. If heads, this attack does 70 damage to your opponent's Active Pokémon. If tails, heal 30 damage from your opponent's Active Pokémon."@
    &&& es[5].1 == Mechanic::CoinFlipDamageOrHealOpponent { damage: 70, heal: 30 }
    &&& es[6].0@ == "Flip a coin. If tails, this Pokémon also does 50 damage to itself."@
    &&& es[6].1 == Mechanic::CoinFlipSelfDamage { self_damage: 50 }
    &&& es[7].0@ == "Heal 20 damage from 1 of your Pokémon."@
    &&& es[7].1 == Mechanic::HealOneYourPokemon { amount: 20 }
    &&& es[8].0@ == "If the amount of Energy attached to both Active Pokémon is 5 or more, this attack does 60 more damage."@
    &&& es[8].1 == Mechanic::ExtraDamageIfCombinedActiveEnergyAtLeast { threshold: 5, extra_damage: 60 }
    &&& es[9].0@ == "If this Pokémon has any [P] Energy attached, this attack does 50 more damage."@
    &&& es[9].1 == Mechanic::ExtraDamageIfSelfHasTypeEnergy { energy_type: EnergyType::Psychic, extra_damage: 50 }
}

/// Pushes entries 340 to 349 of the effect table.
fn push_entries_34(entries: &mut Vec<(String, Mechanic)>)
    ensures
        final(entries)@.len() == old(entries)@.len() + 10,
        final(entries)@.subrange(0, old(entries)@.len() as int) == old(entries)@,
        table_part_34(final(entries)@.subrange(old(entries)@.len() as int, final(entries)@.len() as int)),
{
    let ghost before = entries@;
    entries.push(("Flip 3 coins. This attack does 30 damage for each heads.".to_string(), Mechanic::ExtraDamageForEachHeads {
        include_fixed_damage: false,
        damage_per_head: 30,
        num_coins: 3,
        }));
    entries.push(("Flip a coin. If heads, during your opponent's next turn, this Pokémon takes -100 damage from attacks.".to_string(), Mechanic::DamageAndCardEffect {
        opponent: false,
        effect: CardEffect::ReducedDamage { amount: 100 },
        duration: 1,
        coin_flip: true,
        }));
    entries.push(("Flip a coin. If heads, look at a random card from your opponent's hand and shuffle it into their deck.".to_string(), Mechanic::CoinFlipShuffleRandomOpponentHandCardIntoDeck));
    entries.push(("Flip a coin. If heads, take 2 [R] Energy from your Energy Zone and attach it to 1 of your Benched Pokémon.".to_string(), Mechanic::CoinFlipChargeBench {
        energies: list2(EnergyType::Fire, EnergyType::Fire),
        target_benched_type: None,
        }));
    entries.push(("Flip a coin. If heads, this attack also does 40 damage to 1 of your opponent's Benched Pokémon.".to_string(), Mechanic::CoinFlipAlsoChoiceBenchDamage { opponent: true, damage: 40 }));
    entries.push(("Flip a coin. If heads, this attack does 70 damage to your opponent's Active Pokémon. If tails, heal 30 damage from your opponent's Active Pokémon.".to_string(), Mechanic::CoinFlipDamageOrHealOpponent { damage: 70, heal: 30 }));
    entries.push(("Flip a coin. If tails, this Pokémon also does 50 damage to itself.".to_string(), Mechanic::CoinFlipSelfDamage { self_damage: 50 }));
    entries.push(("Heal 20 damage from 1 of your Pokémon.".to_string(), Mechanic::HealOneYourPokemon { amount: 20 }));
    entries.push(("If the amount of Energy attached to both Active Pokémon is 5 or more, this attack does 60 more damage.".to_string(), Mechanic::ExtraDamageIfCombinedActiveEnergyAtLeast { threshold: 5, extra_damage: 60 }));
    entries.push(("If this Pokémon has any [P] Energy attached, this attack does 50 more damage.".to_string(), Mechanic::ExtraDamageIfSelfHasTypeEnergy {
        energy_type: EnergyType::Psychic,
        extra_damage: 50,
        }));
    proof {
        assert(entries@.subrange(0, before.len() as int) =~= before);
    }
}

/// Entries 350 to 359 of the effect table, in order.
pub open spec fn table_part_35(es: Seq<(String, Mechanic)>) -> bool {
    &&& es.len() == 10
    &&& es[0].0@ == "If this Pokémon moved from your Bench to the Active Spot this turn, this attack does 40 more damage."@
    &&& es[0].1 == Mechanic::ExtraDamageIfMovedFromBench { extra_damage: 40 }
    &&& es[1].0@ == "If you have 5 or more [P] Energy in play, this attack does 60 more damage."@
    &&& es[1].1 == Mechanic::ExtraDamageIfTypeEnergyInPlay { energy_type: EnergyType::Psychic, minimum_count: 5, extra_damage: 60 }
    &&& es[2].0@ == "If your opponent has gotten exactly 1 points, this attack does 40 more damage."@
    &&& es[2].1 == Mechanic::ExtraDamageIfPointsExactly { opponent: true, points: 1, extra_damage: 40 }
    &&& es[3].0@ == "Put 3 random cards from among Tandemaus and Maushold from your deck onto your Bench."@
    &&& (es[3].1 matches Mechanic::SearchToBenchByNames { names: x1, count: x2 } && (x1@.len() == 2 && (x1@[0]@ == "Tandemaus"@) && (x1@[1]@ == "Maushold"@)) && (x2 == 3))
    &&& es[4].0@ == "Put a random card that evolves from Spewpa from your deck into your hand."@
    &&& (es[4].1 matches Mechanic::SearchToHandByEvolvesFrom { name: x1 } && (x1@ == "Spewpa"@))
    &&& es[5].0@ == "Take 2 [P] Energy from your Energy Zone and attach it to 1 of your Benched [P] Pokémon."@
    &&& (es[5].1 matches Mechanic::ChargeBench { energies: x1, target_benched_type: x2 } && (x1@ == seq![EnergyType::Psychic, EnergyType::Psychic]) && (x2 == Some(EnergyType::Psychic)))
    &&& es[6].0@ == "Take 3 [P] Energy from your Energy Zone and attach it to your [P] Pokémon in any way you like."@
    &&& es[6].1 == Mechanic::ChargeYourTypeAnyWay { energy_type: EnergyType::Psychic, count: 3 }
    &&& es[7].0@ == "This attack also does 30 damage to each of your opponent's Benched Pokémon that has damage on it."@
    &&& es[7].1 == Mechanic::AlsoBenchDamageIfDamaged { opponent: true, damage: 30 }
    &&& es[8].0@ == "This attack does 140 damage to 1 of your opponent's Pokémon. During your next turn, this Pokémon can't attack."@
    &&& es[8].1 == Mechanic::DirectDamageAndSelfCardEffect { damage: 140, bench_only: false, effect: CardEffect::CannotAttack, duration: 2 }
    &&& es[9].0@ == "This attack does 20 more damage for each Supporter card in your discard pile."@
    &&& es[9].1 == Mechanic::ExtraDamagePerTrainerTypeInDiscard { trainer_type: TrainerType::Supporter, damage_per_card: 20 }
}

/// Pushes entries 350 to 359 of the effect table.
fn push_entries_35(entries: &mut Vec<(String, Mechanic)>)
    ensures
        final(entries)@.len() == old(entries)@.len() + 10,
        final(entries)@.subrange(0, old(entries)@.len() as int) == old(entries)@,
        table_part_35(final(entries)@.subrange(old(entries)@.len() as int, final(entries)@.len() as int)),
{
    let ghost before = entries@;
    entries.push(("If this Pokémon moved from your Bench to the Active Spot this turn, this attack does 40 more damage.".to_string(), Mechanic::ExtraDamageIfMovedFromBench { extra_damage: 40 }));
    entries.push(("If you have 5 or more [P] Energy in play, this attack does 60 more damage.".to_string(), Mechanic::ExtraDamageIfTypeEnergyInPlay {
        energy_type: EnergyType::Psychic,
        minimum_count: 5,
        extra_damage: 60,
        }));
    entries.push(("If your opponent has gotten exactly 1 points, this attack does 40 more damage.".to_string(), Mechanic::ExtraDamageIfPointsExactly {
        opponent: true,
        points: 1,
        extra_damage: 40,
        }));
    entries.push(("Put 3 random cards from among Tandemaus and Maushold from your deck onto your Bench.".to_string(), Mechanic::SearchToBenchByNames {
        names: list2("Tandemaus".to_string(), "Maushold".to_string()),
        count: 3,
        }));
    entries.push(("Put a random card that evolves from Spewpa from your deck into your hand.".to_string(), Mechanic::SearchToHandByEvolvesFrom {
        name: "Spewpa".to_string(),
        }));
    entries.push(("Take 2 [P] Energy from your Energy Zone and attach it to 1 of your Benched [P] Pokémon.".to_string(), Mechanic::ChargeBench {
        energies: list2(EnergyType::Psychic, EnergyType::Psychic),
        target_benched_type: Some(EnergyType::Psychic),
        }));
    entries.push(("Take 3 [P] Energy from your Energy Zone and attach it to your [P] Pokémon in any way you like.".to_string(), Mechanic::ChargeYourTypeAnyWay {
        energy_type: EnergyType::Psychic,
        count: 3,
        }));
    entries.push(("This attack also does 30 damage to each of your opponent's Benched Pokémon that has damage on it.".to_string(), Mechanic::AlsoBenchDamageIfDamaged {
        opponent: true,
        damage: 30,
        }));
    entries.push(("This attack does 140 damage to 1 of your opponent's Pokémon. During your next turn, this Pokémon can't attack.".to_string(), Mechanic::DirectDamageAndSelfCardEffect {
        damage: 140,
        bench_only: false,
        effect: CardEffect::CannotAttack,
        duration: 2,
        }));
    entries.push(("This attack does 20 more damage for each Supporter card in your discard pile.".to_string(), Mechanic::ExtraDamagePerTrainerTypeInDiscard {
        trainer_type: TrainerType::Supporter,
        damage_per_card: 20,
        }));
    proof {
        assert(entries@.subrange(0, before.len() as int) =~= before);
    }
}

/// Entries 360 to 369 of the effect table, in order.
pub open spec fn table_part_36(es: Seq<(String, Mechanic)>) -> bool {
    &&& es.len() == 10
    &&& es[0].0@ == "This attack does 70 damage to 1 of your opponent's Benched Pokémon."@
    &&& es[0].1 == Mechanic::DirectDamage { damage: 70, bench_only: true }
    &&& es[1].0@ == "This attack is used twice in a row. The second attack does 40 damage.(If the first attack Knocks Out your opponent's Active Pokémon, the second attack is used after your opponent chooses a new Active Pokémon.)"@
    &&& es[1].1 == Mechanic::MegaKangaskhanExDoublePunchingFamily
    &&& es[2].0@ == "This attack's damage isn't affected by Weakness or by any effects on your opponent's Active Pokémon."@
    &&& es[2].1 == Mechanic::DamageUnaffectedByWeakness
    &&& es[3].0@ == "Until this Pokémon leaves the Active Spot, this Pokémon's Heat-Up Crunch attack does +30 damage. This effect stacks."@
    &&& (es[3].1 matches Mechanic::DamageAndCardEffect { opponent: x1, effect: x2, duration: x3, coin_flip: x4 } && (x1 == false) && ((x2 matches CardEffect::IncreasedDamageForAttack { attack_name: x5, amount: x6 } && (x5@ == "Heat-Up Crunch"@) && (x6 == 30))) && (x3 == u8::MAX) && (x4 == false))
    &&& es[4].0@ == "You may shuffle this Pokémon and all attached cards into your deck."@
    &&& es[4].1 == Mechanic::MayShuffleSelfIntoDeck
    &&& es[5].0@ == "1 of your opponent's Pokémon is chosen at random for each [M] Energy attached to this Pokémon. For each time a Pokémon was chosen, do 40 damage to it."@
    &&& es[5].1 == Mechanic::RandomDamageToOpponentPokemonPerSelfEnergy { energy_type: EnergyType::Metal, damage_per_hit: 40 }
    &&& es[6].0@ == "Choose a spot from among your opponent's Active Spot and Bench. At the end of your opponent's next turn, do 70 damage to the Pokémon in the spot you chose."@
    &&& es[6].1 == Mechanic::DelayedSpotDamage { amount: 70 }
    &&& es[7].0@ == "Discard 2 [F] Energy from this Pokémon."@
    &&& (es[7].1 matches Mechanic::SelfDiscardEnergy { energies: x1 } && (x1@ == seq![EnergyType::Fighting, EnergyType::Fighting]))
    &&& es[8].0@ == "Discard all [W] Energy from this Pokémon. This attack does 130 damage to 1 of your opponent's Pokémon."@
    &&& es[8].1 == Mechanic::SelfDiscardAllTypeEnergyAndDamageAnyOpponentPokemon { energy_type: EnergyType::Water, damage: 130 }
    &&& es[9].0@ == "During your next turn, this Pokémon can't use Gigaton Hammer."@
    &&& (es[9].1 matches Mechanic::DamageAndCardEffect { opponent: x1, effect: x2, duration: x3, coin_flip: x4 } && (x1 == false) && ((x2 matches CardEffect::CannotUseAttack(x5) && (x5@ == "Gigaton Hammer"@))) && (x3 == 2) && (x4 == false))
}

/// Pushes entries 360 to 369 of the effect table.
fn push_entries_36(entries: &mut Vec<(String, Mechanic)>)
    ensures
        final(entries)@.len() == old(entries)@.len() + 10,
        final(entries)@.subrange(0, old(entries)@.len() as int) == old(entries)@,
        table_part_36(final(entries)@.subrange(old(entries)@.len() as int, final(entries)@.len() as int)),
{
    let ghost before = entries@;
    entries.push(("This attack does 70 damage to 1 of your opponent's Benched Pokémon.".to_string(), Mechanic::DirectDamage {
        damage: 70,
        bench_only: true,
        }));
    entries.push(("This attack is used twice in a row. The second attack does 40 damage.(If the first attack Knocks Out your opponent's Active Pokémon, the second attack is used after your opponent chooses a new Active Pokémon.)".to_string(), Mechanic::MegaKangaskhanExDoublePunchingFamily));
    entries.push(("This attack's damage isn't affected by Weakness or by any effects on your opponent's Active Pokémon.".to_string(), Mechanic::DamageUnaffectedByWeakness));
    entries.push(("Until this Pokémon leaves the Active Spot, this Pokémon's Heat-Up Crunch attack does +30 damage. This effect stacks.".to_string(), Mechanic::DamageAndCardEffect {
        opponent: false,
        effect: CardEffect::IncreasedDamageForAttack {
        attack_name: "Heat-Up Crunch".to_string(),
        amount: 30,
        },
        duration: u8::MAX,
        coin_flip: false,
        }));
    entries.push(("You may shuffle this Pokémon and all attached cards into your deck.".to_string(), Mechanic::MayShuffleSelfIntoDeck));
    entries.push(("1 of your opponent's Pokémon is chosen at random for each [M] Energy attached to this Pokémon. For each time a Pokémon was chosen, do 40 damage to it.".to_string(), Mechanic::RandomDamageToOpponentPokemonPerSelfEnergy {
        energy_type: EnergyType::Metal,
        damage_per_hit: 40,
        }));
    entries.push(("Choose a spot from among your opponent's Active Spot and Bench. At the end of your opponent's next turn, do 70 damage to the Pokémon in the spot you chose.".to_string(), Mechanic::DelayedSpotDamage { amount: 70 }));
    entries.push(("Discard 2 [F] Energy from this Pokémon.".to_string(), Mechanic::SelfDiscardEnergy {
        energies: list2(EnergyType::Fighting, EnergyType::Fighting),
        }));
    entries.push(("Discard all [W] Energy from this Pokémon. This attack does 130 damage to 1 of your opponent's Pokémon.".to_string(), Mechanic::SelfDiscardAllTypeEnergyAndDamageAnyOpponentPokemon {
        energy_type: EnergyType::Water,
        damage: 130,
        }));
    entries.push(("During your next turn, this Pokémon can't use Gigaton Hammer.".to_string(), Mechanic::DamageAndCardEffect {
        opponent: false,
        effect: CardEffect::CannotUseAttack("Gigaton Hammer".to_string()),
        duration: 2,
        coin_flip: false,
        }));
    proof {
        assert(entries@.subrange(0, before.len() as int) =~= before);
    }
}

/// Entries 370 to 379 of the effect table, in order.
pub open spec fn table_part_37(es: Seq<(String, Mechanic)>) -> bool {
    &&& es.len() == 10
    &&& es[0].0@ == "During your opponent's next turn, attacks used by the Defending Pokémon cost 2 [C] more."@
    &&& es[0].1 == Mechanic::DamageAndCardEffect { opponent: true, effect: CardEffect::IncreasedAttackCost { amount: 2 }, duration: 1, coin_flip: false }
    &&& es[1].0@ == "Flip 3 coins. For each heads, discard a random Energy from your opponent's Active Pokémon."@
    &&& es[1].1 == Mechanic::CoinFlipsDiscardEnergyFromOpponentActive { num_coins: 3 }
    &&& es[2].0@ == "If you have 4 or more [L] Energy in play, this attack does 70 more damage."@
    &&& es[2].1 == Mechanic::ExtraDamageIfTypeEnergyInPlay { energy_type: EnergyType::Lightning, minimum_count: 4, extra_damage: 70 }
    &&& es[3].0@ == "If you played a Supporter card from your hand during this turn, this attack does 60 more damage."@
    &&& es[3].1 == Mechanic::ExtraDamageIfSupportPlayedThisTurn { extra_damage: 60 }
    &&& es[4].0@ == "If your opponent's Active Pokémon is a [G] or [M] Pokémon, this attack does 40 more damage."@
    &&& (es[4].1 matches Mechanic::ExtraDamageIfDefenderAnyType { energy_types: x1, extra_damage: x2 } && (x1@ == seq![EnergyType::Grass, EnergyType::Metal]) && (x2 == 40))
    &&& es[5].0@ == "Take a [M] Energy from your Energy Zone and attach it to 1 of your Benched Pokémon."@
    &&& (es[5].1 matches Mechanic::ChargeBench { energies: x1, target_benched_type: x2 } && (x1@ == seq![EnergyType::Metal]) && (x2 is None))
    &&& es[6].0@ == "This attack also does 50 damage to 1 of your opponent's Benched Pokémon."@
    &&& es[6].1 == Mechanic::AlsoChoiceBenchDamage { opponent: true, damage: 50 }
    &&& es[7].0@ == "This attack does 20 more damage for each Pokémon in your discard pile."@
    &&& es[7].1 == Mechanic::ExtraDamagePerPokemonInDiscard { damage_per_pokemon: 20 }
    &&& es[8].0@ == "This attack does 20 more damage for each [P] Pokémon in your discard pile."@
    &&& es[8].1 == Mechanic::ExtraDamagePerPokemonTypeInDiscard { energy_type: EnergyType::Psychic, damage_per_pokemon: 20 }
    &&& es[9].0@ == "If this Pokémon has any [P] Energy attached, this attack does 40 more damage. This attack's damage isn't affected by any effects on your opponent's Active Pokémon."@
    &&& es[9].1 == Mechanic::ExtraDamageIfSelfHasTypeEnergy { energy_type: EnergyType::Psychic, extra_damage: 40 }
}

/// Pushes entries 370 to 379 of the effect table.
fn push_entries_37(entries: &mut Vec<(String, Mechanic)>)
    ensures
        final(entries)@.len() == old(entries)@.len() + 10,
        final(entries)@.subrange(0, old(entries)@.len() as int) == old(entries)@,
        table_part_37(final(entries)@.subrange(old(entries)@.len() as int, final(entries)@.len() as int)),
{
    let ghost before = entries@;
    entries.push(("During your opponent's next turn, attacks used by the Defending Pokémon cost 2 [C] more.".to_string(), Mechanic::DamageAndCardEffect {
        opponent: true,
        effect: CardEffect::IncreasedAttackCost { amount: 2 },
        duration: 1,
        coin_flip: false,
        }));
    entries.push(("Flip 3 coins. For each heads, discard a random Energy from your opponent's Active Pokémon.".to_string(), Mechanic::CoinFlipsDiscardEnergyFromOpponentActive { num_coins: 3 }));
    entries.push(("If you have 4 or more [L] Energy in play, this attack does 70 more damage.".to_string(), Mechanic::ExtraDamageIfTypeEnergyInPlay {
        energy_type: EnergyType::Lightning,
        minimum_count: 4,
        extra_damage: 70,
        }));
    entries.push(("If you played a Supporter card from your hand during this turn, this attack does 60 more damage.".to_string(), Mechanic::ExtraDamageIfSupportPlayedThisTurn { extra_damage: 60 }));
    entries.push(("If your opponent's Active Pokémon is a [G] or [M] Pokémon, this attack does 40 more damage.".to_string(), Mechanic::ExtraDamageIfDefenderAnyType {
        energy_types: list2(EnergyType::Grass, EnergyType::Metal),
        extra_damage: 40,
        }));
    entries.push(("Take a [M] Energy from your Energy Zone and attach it to 1 of your Benched Pokémon.".to_string(), Mechanic::ChargeBench {
        energies: list1(EnergyType::Metal),
        target_benched_type: None,
        }));
    entries.push(("This attack also does 50 damage to 1 of your opponent's Benched Pokémon.".to_string(), Mechanic::AlsoChoiceBenchDamage {
        opponent: true,
        damage: 50,
        }));
    entries.push(("This attack does 20 more damage for each Pokémon in your discard pile.".to_string(), Mechanic::ExtraDamagePerPokemonInDiscard {
        damage_per_pokemon: 20,
        }));
    entries.push(("This attack does 20 more damage for each [P] Pokémon in your discard pile.".to_string(), Mechanic::ExtraDamagePerPokemonTypeInDiscard {
        energy_type: EnergyType::Psychic,
        damage_per_pokemon: 20,
        }));
    entries.push(("If this Pokémon has any [P] Energy attached, this attack does 40 more damage. This attack's damage isn't affected by any effects on your opponent's Active Pokémon.".to_string(), Mechanic::ExtraDamageIfSelfHasTypeEnergy {
        energy_type: EnergyType::Psychic,
        extra_damage: 40,
        }));
    proof {
        assert(entries@.subrange(0, before.len() as int) =~= before);
    }
}

/// Entries 380 to 389 of the effect table, in order.
pub open spec fn table_part_38(es: Seq<(String, Mechanic)>) -> bool {
    &&& es.len() == 10
    &&& es[0].0@ == "Discard a [W] and a [L] Energy from this Pokémon."@
    &&& (es[0].1 matches Mechanic::SelfDiscardEnergy { energies: x1 } && (x1@ == seq![EnergyType::Water, EnergyType::Lightning]))
    &&& es[1].0@ == "During your opponent's next turn, they can't play any Trainer cards from their hand."@
    &&& es[1].1 == Mechanic::DamageAndTurnEffect { effect: TurnEffect::NoTrainerCards, duration: 1 }
    &&& es[2].0@ == "Flip 3 coins. This attack also does 20 damage for each heads to each of your opponent's Benched Pokémon."@
    &&& es[2].1 == Mechanic::FlipCoinsBenchDamagePerHead { num_coins: 3, bench_damage_per_head: 20 }
    &&& es[3].0@ == "If Magmortar is on your Bench, this attack does 70 more damage."@
    &&& (es[3].1 matches Mechanic::ExtraDamageIfPokemonOnBench { pokemon_name: x1, extra_damage: x2 } && (x1@ == "Magmortar"@) && (x2 == 70))
    &&& es[4].0@ == "If this Pokémon's remaining HP is 110 or less, this attack does 80 more damage."@
    &&& es[4].1 == Mechanic::ExtraDamageIfSelfHpAtMost { threshold: 110, extra_damage: 80 }
    &&& es[5].0@ == "If your opponent's Active Pokémon has more remaining HP than this Pokémon, this attack does 60 more damage."@
    &&& es[5].1 == Mechanic::ExtraDamageIfOpponentHpMoreThanSelf { extra_damage: 60 }
    &&& es[6].0@ == "If your opponent's Active Pokémon is Confused, this attack does 40 more damage."@
    &&& es[6].1 == Mechanic::ExtraDamageIfDefenderConfused { extra_damage: 40 }
    &&& es[7].0@ == "Move 2 [D] Energy from this Pokémon to 1 of your Benched Pokémon."@
    &&& es[7].1 == Mechanic::MoveFixedEnergyTypeToBench { energy_type: EnergyType::Darkness, amount: 2 }
    &&& es[8].0@ == "Take a [W] Energy from your Energy Zone and attach it to 1 of your Benched [W] Pokémon."@
    &&& (es[8].1 matches Mechanic::ChargeBench { energies: x1, target_benched_type: x2 } && (x1@ == seq![EnergyType::Water]) && (x2 == Some(EnergyType::Water)))
    &&& es[9].0@ == "Take a [W] and a [L] Energy from your Energy Zone and attach them to this Pokémon."@
    &&& (es[9].1 matches Mechanic::SelfChargeActive { energies: x1 } && (x1@ == seq![EnergyType::Water, EnergyType::Lightning]))
}

/// Pushes entries 380 to 389 of the effect table.
fn push_entries_38(entries: &mut Vec<(String, Mechanic)>)
    ensures
        final(entries)@.len() == old(entries)@.len() + 10,
        final(entries)@.subrange(0, old(entries)@.len() as int) == old(entries)@,
        table_part_38(final(entries)@.subrange(old(entries)@.len() as int, final(entries)@.len() as int)),
{
    let ghost before = entries@;
    entries.push(("Discard a [W] and a [L] Energy from this Pokémon.".to_string(), Mechanic::SelfDiscardEnergy {
        energies: list2(EnergyType::Water, EnergyType::Lightning),
        }));
    entries.push(("During your opponent's next turn, they can't play any Trainer cards from their hand.".to_string(), Mechanic::DamageAndTurnEffect {
        effect: TurnEffect::NoTrainerCards,
        duration: 1,
        }));
    entries.push(("Flip 3 coins. This attack also does 20 damage for each heads to each of your opponent's Benched Pokémon.".to_string(), Mechanic::FlipCoinsBenchDamagePerHead { num_coins: 3, bench_damage_per_head: 20 }));
    entries.push(("If Magmortar is on your Bench, this attack does 70 more damage.".to_string(), Mechanic::ExtraDamageIfPokemonOnBench {
        pokemon_name: "Magmortar".to_string(),
        extra_damage: 70,
        }));
    entries.push(("If this Pokémon's remaining HP is 110 or less, this attack does 80 more damage.".to_string(), Mechanic::ExtraDamageIfSelfHpAtMost {
        threshold: 110,
        extra_damage: 80,
        }));
    entries.push(("If your opponent's Active Pokémon has more remaining HP than this Pokémon, this attack does 60 more damage.".to_string(), Mechanic::ExtraDamageIfOpponentHpMoreThanSelf { extra_damage: 60 }));
    entries.push(("If your opponent's Active Pokémon is Confused, this attack does 40 more damage.".to_string(), Mechanic::ExtraDamageIfDefenderConfused { extra_damage: 40 }));
    entries.push(("Move 2 [D] Energy from this Pokémon to 1 of your Benched Pokémon.".to_string(), Mechanic::MoveFixedEnergyTypeToBench {
        energy_type: EnergyType::Darkness,
        amount: 2,
        }));
    entries.push(("Take a [W] Energy from your Energy Zone and attach it to 1 of your Benched [W] Pokémon.".to_string(), Mechanic::ChargeBench {
        energies: list1(EnergyType::Water),
        target_benched_type: Some(EnergyType::Water),
        }));
    entries.push(("Take a [W] and a [L] Energy from your Energy Zone and attach them to this Pokémon.".to_string(), Mechanic::SelfChargeActive {
        energies: list2(EnergyType::Water, EnergyType::Lightning),
        }));
    proof {
        assert(entries@.subrange(0, before.len() as int) =~= before);
    }
}

/// Entries 390 to 399 of the effect table, in order.
pub open spec fn table_part_39(es: Seq<(String, Mechanic)>) -> bool {
    &&& es.len() == 10
    &&& es[0].0@ == "This attack does 20 more damage for each Benched Pokémon (both yours and your opponent's)."@
    &&& es[0].1 == Mechanic::BenchCountDamage { include_fixed_damage: true, damage_per: 20, energy_type: None, bench_side: BenchSide::BothBenches }
    &&& es[1].0@ == "This attack does 30 more damage for each point you have gotten."@
    &&& es[1].1 == Mechanic::ExtraDamagePerOwnPoint { damage_per_point: 30 }
    &&& es[2].0@ == "This attack does 50 more damage for each point your opponent has gotten."@
    &&& es[2].1 == Mechanic::ExtraDamagePerOpponentPoint { damage_per_point: 50 }
    &&& es[3].0@ == "1 of your opponent's Pokémon is chosen at random. Do 160 damage to it."@
    &&& es[3].1 == Mechanic::RandomSpreadDamage { times: 1, damage_per_hit: 160, include_own_bench: false }
    &&& es[4].0@ == "Discard Grass[G] Energy from this Pokémon. Your opponent's Active Pokémon is now Poisoned."@
    &&& (es[4].1 matches Mechanic::SelfDiscardEnergyAndInflictStatus { energies: x1, conditions: x2 } && (x1@ == seq![EnergyType::Grass]) && (x2@ == seq![StatusCondition::Poisoned]))
    &&& es[5].0@ == "Discard a [D] Energy from this Pokémon."@
    &&& (es[5].1 matches Mechanic::SelfDiscardEnergy { energies: x1 } && (x1@ == seq![EnergyType::Darkness]))
    &&& es[6].0@ == "Discard a [R] Energy from your opponent's Active Pokémon."@
    &&& es[6].1 == Mechanic::DiscardOpponentActiveEnergyOfType { energy_type: EnergyType::Fire }
    &&& es[7].0@ == "Discard the top card of your deck."@
    &&& es[7].1 == Mechanic::DiscardTopSelfDeck { count: 1 }
    &&& es[8].0@ == "During your opponent's next turn, this Pokémon takes +20 damage from attacks."@
    &&& es[8].1 == Mechanic::DamageAndCardEffect { opponent: false, effect: CardEffect::IncreasedVulnerability { amount: 20 }, duration: 1, coin_flip: false }
    &&& es[9].0@ == "Flip 3 coins. For each heads, discard a [R] Energy from this Pokémon. This attack does 30 more damage for each [R] Energy you discarded in this way."@
    &&& es[9].1 == Mechanic::DiscardSelfEnergyPerHeadsExtraDamage { num_coins: 3, energy_type: EnergyType::Fire, damage_per_discarded_energy: 30 }
}

/// Pushes entries 390 to 399 of the effect table.
fn push_entries_39(entries: &mut Vec<(String, Mechanic)>)
    ensures
        final(entries)@.len() == old(entries)@.len() + 10,
        final(entries)@.subrange(0, old(entries)@.len() as int) == old(entries)@,
        table_part_39(final(entries)@.subrange(old(entries)@.len() as int, final(entries)@.len() as int)),
{
    let ghost before = entries@;
    entries.push(("This attack does 20 more damage for each Benched Pokémon (both yours and your opponent's).".to_string(), Mechanic::BenchCountDamage {
        include_fixed_damage: true,
        damage_per: 20,
        energy_type: None,
        bench_side: BenchSide::BothBenches,
        }));
    entries.push(("This attack does 30 more damage for each point you have gotten.".to_string(), Mechanic::ExtraDamagePerOwnPoint {
        damage_per_point: 30,
        }));
    entries.push(("This attack does 50 more damage for each point your opponent has gotten.".to_string(), Mechanic::ExtraDamagePerOpponentPoint {
        damage_per_point: 50,
        }));
    entries.push(("1 of your opponent's Pokémon is chosen at random. Do 160 damage to it.".to_string(), Mechanic::RandomSpreadDamage {
        times: 1,
        damage_per_hit: 160,
        include_own_bench: false,
        }));
    entries.push(("Discard Grass[G] Energy from this Pokémon. Your opponent's Active Pokémon is now Poisoned.".to_string(), Mechanic::SelfDiscardEnergyAndInflictStatus {
        energies: list1(EnergyType::Grass),
        conditions: list1(StatusCondition::Poisoned),
        }));
    entries.push(("Discard a [D] Energy from this Pokémon.".to_string(), Mechanic::SelfDiscardEnergy {
        energies: list1(EnergyType::Darkness),
        }));
    entries.push(("Discard a [R] Energy from your opponent's Active Pokémon.".to_string(), Mechanic::DiscardOpponentActiveEnergyOfType {
        energy_type: EnergyType::Fire,
        }));
    entries.push(("Discard the top card of your deck.".to_string(), Mechanic::DiscardTopSelfDeck { count: 1 }));
    entries.push(("During your opponent's next turn, this Pokémon takes +20 damage from attacks.".to_string(), Mechanic::DamageAndCardEffect {
        opponent: false,
        effect: CardEffect::IncreasedVulnerability { amount: 20 },
        duration: 1,
        coin_flip: false,
        }));
    entries.push(("Flip 3 coins. For each heads, discard a [R] Energy from this Pokémon. This attack does 30 more damage for each [R] Energy you discarded in this way.".to_string(), Mechanic::DiscardSelfEnergyPerHeadsExtraDamage {
        num_coins: 3,
        energy_type: EnergyType::Fire,
        damage_per_discarded_energy: 30,
        }));
    proof {
        assert(entries@.subrange(0, before.len() as int) =~= before);
    }
}

/// Entries 400 to 409 of the effect table, in order.
pub open spec fn table_part_40(es: Seq<(String, Mechanic)>) -> bool {
    &&& es.len() == 10
    &&& es[0].0@ == "Flip a coin for each [R] Energy attached to this Pokémon. This attack does 30 more damage for each heads."@
    &&& es[0].1 == Mechanic::CoinFlipPerSpecificEnergyType { energy_type: EnergyType::Fire, include_fixed_damage: true, damage_per_heads: 30 }
    &&& es[1].0@ == "Flip a coin until you get tails. For each heads, discard the top card of your opponent's deck."@
    &&& es[1].1 == Mechanic::FlipUntilTailsDiscardOpponentDeck
    &&& es[2].0@ == "Flip a coin. If heads, take 2 [R] Energy from your Energy Zone and attach it to this Pokémon."@
    &&& (es[2].1 matches Mechanic::CoinFlipSelfChargeActive { energies: x1 } && (x1@ == seq![EnergyType::Fire, EnergyType::Fire]))
    &&& es[3].0@ == "Flip a coin. If tails, this Pokémon also does 60 damage to itself."@
    &&& es[3].1 == Mechanic::CoinFlipSelfDamage { self_damage: 60 }
    &&& es[4].0@ == "Heal 10 damage from each of your Pokémon."@
    &&& es[4].1 == Mechanic::HealAllYourPokemon { amount: 10 }
    &&& es[5].0@ == "Heal 10 damage from each of your Benched Pokémon."@
    &&& es[5].1 == Mechanic::HealAllBenchedPokemon { amount: 10, only_basic: false }
    &&& es[6].0@ == "Heal 30 damage from 1 of your Benched Pokémon."@
    &&& es[6].1 == Mechanic::HealOneYourBenchedPokemon { amount: 30 }
    &&& es[7].0@ == "Heal 30 damage from 1 of your Pokémon."@
    &&& es[7].1 == Mechanic::HealOneYourPokemon { amount: 30 }
    &&& es[8].0@ == "Flip a coin. If heads, heal 60 damage from this Pokémon."@
    &&& es[8].1 == Mechanic::CoinFlipSelfHeal { amount: 60 }
    &&& es[9].0@ == "Heal 30 damage from each of your Pokémon."@
    &&& es[9].1 == Mechanic::HealAllYourPokemon { amount: 30 }
}

/// Pushes entries 400 to 409 of the effect table.
fn push_entries_40(entries: &mut Vec<(String, Mechanic)>)
    ensures
        final(entries)@.len() == old(entries)@.len() + 10,
        final(entries)@.subrange(0, old(entries)@.len() as int) == old(entries)@,
        table_part_40(final(entries)@.subrange(old(entries)@.len() as int, final(entries)@.len() as int)),
{
    let ghost before = entries@;
    entries.push(("Flip a coin for each [R] Energy attached to this Pokémon. This attack does 30 more damage for each heads.".to_string(), Mechanic::CoinFlipPerSpecificEnergyType {
        energy_type: EnergyType::Fire,
        include_fixed_damage: true,
        damage_per_heads: 30,
        }));
    entries.push(("Flip a coin until you get tails. For each heads, discard the top card of your opponent's deck.".to_string(), Mechanic::FlipUntilTailsDiscardOpponentDeck));
    entries.push(("Flip a coin. If heads, take 2 [R] Energy from your Energy Zone and attach it to this Pokémon.".to_string(), Mechanic::CoinFlipSelfChargeActive {
        energies: list2(EnergyType::Fire, EnergyType::Fire),
        }));
    entries.push(("Flip a coin. If tails, this Pokémon also does 60 damage to itself.".to_string(), Mechanic::CoinFlipSelfDamage { self_damage: 60 }));
    entries.push(("Heal 10 damage from each of your Pokémon.".to_string(), Mechanic::HealAllYourPokemon { amount: 10 }));
    entries.push(("Heal 10 damage from each of your Benched Pokémon.".to_string(), Mechanic::HealAllBenchedPokemon {
        amount: 10,
        only_basic: false,
        }));
    entries.push(("Heal 30 damage from 1 of your Benched Pokémon.".to_string(), Mechanic::HealOneYourBenchedPokemon { amount: 30 }));
    entries.push(("Heal 30 damage from 1 of your Pokémon.".to_string(), Mechanic::HealOneYourPokemon { amount: 30 }));
    entries.push(("Flip a coin. If heads, heal 60 damage from this Pokémon.".to_string(), Mechanic::CoinFlipSelfHeal { amount: 60 }));
    entries.push(("Heal 30 damage from each of your Pokémon.".to_string(), Mechanic::HealAllYourPokemon { amount: 30 }));
    proof {
        assert(entries@.subrange(0, before.len() as int) =~= before);
    }
}

/// Entries 410 to 419 of the effect table, in order.
pub open spec fn table_part_41(es: Seq<(String, Mechanic)>) -> bool {
    &&& es.len() == 10
    &&& es[0].0@ == "If Durant is on your Bench, this attack does 30 more damage."@
    &&& (es[0].1 matches Mechanic::ExtraDamageIfPokemonOnBench { pokemon_name: x1, extra_damage: x2 } && (x1@ == "Durant"@) && (x2 == 30))
    &&& es[1].0@ == "If a Stadium is in play, heal 20 damage from this Pokémon."@
    &&& es[1].1 == Mechanic::SelfHealIfStadiumInPlay { amount: 20 }
    &&& es[2].0@ == "If a Stadium is in play, this attack does 20 more damage."@
    &&& es[2].1 == Mechanic::ExtraDamageIfStadiumInPlay { extra_damage: 20 }
    &&& es[3].0@ == "If a Stadium is in play, this attack does 40 more damage."@
    &&& es[3].1 == Mechanic::ExtraDamageIfStadiumInPlay { extra_damage: 40 }
    &&& es[4].0@ == "If a Stadium is in play, this attack does 70 more damage."@
    &&& es[4].1 == Mechanic::ExtraDamageIfStadiumInPlay { extra_damage: 70 }
    &&& es[5].0@ == "If a Stadium is in play, your opponent's Active Pokémon is now Asleep."@
    &&& es[5].1 == Mechanic::InflictStatusIfStadiumInPlay { status: StatusCondition::Asleep }
    &&& es[6].0@ == "If a Stadium is in play, your opponent's Active Pokémon is now Burned."@
    &&& es[6].1 == Mechanic::InflictStatusIfStadiumInPlay { status: StatusCondition::Burned }
    &&& es[7].0@ == "If any of your [D] Pokémon were Knocked Out by damage from an attack during your opponent's last turn, this attack does 80 more damage."@
    &&& es[7].1 == Mechanic::ExtraDamageIfKnockedOutLastTurn { energy_type: Some(EnergyType::Darkness), extra_damage: 80 }
    &&& es[8].0@ == "If this Pokémon evolved from Poliwhirl during this turn, this attack does 50 more damage."@
    &&& (es[8].1 matches Mechanic::ExtraDamageIfEvolvedFromThisTurn { pokemon_name: x1, extra_damage: x2 } && (x1@ == "Poliwhirl"@) && (x2 == 50))
    &&& es[9].0@ == "If this Pokémon has any [F] Energy attached, this attack does 60 more damage."@
    &&& es[9].1 == Mechanic::ExtraDamageIfSelfHasTypeEnergy { energy_type: EnergyType::Fighting, extra_damage: 60 }
}

/// Pushes entries 410 to 419 of the effect table.
fn push_entries_41(entries: &mut Vec<(String, Mechanic)>)
    ensures
        final(entries)@.len() == old(entries)@.len() + 10,
        final(entries)@.subrange(0, old(entries)@.len() as int) == old(entries)@,
        table_part_41(final(entries)@.subrange(old(entries)@.len() as int, final(entries)@.len() as int)),
{
    let ghost before = entries@;
    entries.push(("If Durant is on your Bench, this attack does 30 more damage.".to_string(), Mechanic::ExtraDamageIfPokemonOnBench {
        pokemon_name: "Durant".to_string(),
        extra_damage: 30,
        }));
    entries.push(("If a Stadium is in play, heal 20 damage from this Pokémon.".to_string(), Mechanic::SelfHealIfStadiumInPlay { amount: 20 }));
    entries.push(("If a Stadium is in play, this attack does 20 more damage.".to_string(), Mechanic::ExtraDamageIfStadiumInPlay { extra_damage: 20 }));
    entries.push(("If a Stadium is in play, this attack does 40 more damage.".to_string(), Mechanic::ExtraDamageIfStadiumInPlay { extra_damage: 40 }));
    entries.push(("If a Stadium is in play, this attack does 70 more damage.".to_string(), Mechanic::ExtraDamageIfStadiumInPlay { extra_damage: 70 }));
    entries.push(("If a Stadium is in play, your opponent's Active Pokémon is now Asleep.".to_string(), Mechanic::InflictStatusIfStadiumInPlay {
        status: StatusCondition::Asleep,
        }));
    entries.push(("If a Stadium is in play, your opponent's Active Pokémon is now Burned.".to_string(), Mechanic::InflictStatusIfStadiumInPlay {
        status: StatusCondition::Burned,
        }));
    entries.push(("If any of your [D] Pokémon were Knocked Out by damage from an attack during your opponent's last turn, this attack does 80 more damage.".to_string(), Mechanic::ExtraDamageIfKnockedOutLastTurn { energy_type: Some(EnergyType::Darkness), extra_damage: 80 }));
    entries.push(("If this Pokémon evolved from Poliwhirl during this turn, this attack does 50 more damage.".to_string(), Mechanic::ExtraDamageIfEvolvedFromThisTurn {
        pokemon_name: "Poliwhirl".to_string(),
        extra_damage: 50,
        }));
    entries.push(("If this Pokémon has any [F] Energy attached, this attack does 60 more damage.".to_string(), Mechanic::ExtraDamageIfSelfHasTypeEnergy {
        energy_type: EnergyType::Fighting,
        extra_damage: 60,
        }));
    proof {
        assert(entries@.subrange(0, before.len() as int) =~= before);
    }
}

/// Entries 420 to 429 of the effect table, in order.
pub open spec fn table_part_42(es: Seq<(String, Mechanic)>) -> bool {
    &&& es.len() == 10
    &&& es[0].0@ == "If this Pokémon has at least 1 extra [F] Energy attached, this attack does 50 more damage."@
    &&& (es[0].1 matches Mechanic::ExtraDamageIfExtraEnergy { required_extra_energy: x1, extra_damage: x2 } && (x1@ == seq![EnergyType::Fighting]) && (x2 == 50))
    &&& es[1].0@ == "If this Pokémon has no damage on it, this attack does 30 more damage."@
    &&& es[1].1 == Mechanic::ExtraDamageIfUndamaged { extra_damage: 30 }
    &&& es[2].0@ == "If you have any Stage 2 Pokémon on your Bench, this attack does 50 more damage."@
    &&& es[2].1 == Mechanic::ExtraDamageIfStage2OnBench { extra_damage: 50 }
    &&& es[3].0@ == "If your opponent's Active Pokémon is Asleep, this attack does 60 more damage."@
    &&& es[3].1 == Mechanic::ExtraDamageIfDefenderAsleep { extra_damage: 60 }
    &&& es[4].0@ == "If your opponent's Active Pokémon is Confused, this attack does 70 more damage."@
    &&& es[4].1 == Mechanic::ExtraDamageIfDefenderConfused { extra_damage: 70 }
    &&& es[5].0@ == "Reveal all of your Pokémon in play and in your hand that have the Puppy Pile attack, and this attack does 20 damage for each Pokémon you revealed in this way."@
    &&& (es[5].1 matches Mechanic::DamagePerOwnPokemonWithAttackName { attack_name: x1, damage_per: x2 } && (x1@ == "Puppy Pile"@) && (x2 == 20))
    &&& es[6].0@ == "This attack does 30 damage for each of your Benched [D] Pokémon."@
    &&& es[6].1 == Mechanic::BenchCountDamage { include_fixed_damage: false, damage_per: 30, energy_type: Some(EnergyType::Darkness), bench_side: BenchSide::YourBench }
    &&& es[7].0@ == "This attack does 60 damage to 1 of your opponent's Pokémon that have damage on them."@
    &&& es[7].1 == Mechanic::DirectDamageIfDamaged { damage: 60 }
    &&& es[8].0@ == "Flip 3 coins. If 1 of them is heads, this attack does 20 more damage. If 2 of them are heads, this attack does 50 more damage. If all of them are heads, this attack does 120 more damage."@
    &&& (es[8].1 matches Mechanic::TieredCoinFlipDamage { num_coins: x1, extra_damage_by_heads: x2 } && (x1 == 3) && (x2@.len() == 4 && (x2@[0] == 0) && (x2@[1] == 20) && (x2@[2] == 50) && (x2@[3] == 120)))
    &&& es[9].0@ == "Discard an Energy from this Pokémon, and this attack also does 20 damage to each of your opponent's Benched Pokémon."@
    &&& es[9].1 == Mechanic::SelfDiscardRandomEnergyAndBenchDamage { count: 1, opponent: true, bench_damage: 20 }
}

/// Pushes entries 420 to 429 of the effect table.
fn push_entries_42(entries: &mut Vec<(String, Mechanic)>)
    ensures
        final(entries)@.len() == old(entries)@.len() + 10,
        final(entries)@.subrange(0, old(entries)@.len() as int) == old(entries)@,
        table_part_42(final(entries)@.subrange(old(entries)@.len() as int, final(entries)@.len() as int)),
{
    let ghost before = entries@;
    entries.push(("If this Pokémon has at least 1 extra [F] Energy attached, this attack does 50 more damage.".to_string(), Mechanic::ExtraDamageIfExtraEnergy {
        required_extra_energy: list1(EnergyType::Fighting),
        extra_damage: 50,
        }));
    entries.push(("If this Pokémon has no damage on it, this attack does 30 more damage.".to_string(), Mechanic::ExtraDamageIfUndamaged { extra_damage: 30 }));
    entries.push(("If you have any Stage 2 Pokémon on your Bench, this attack does 50 more damage.".to_string(), Mechanic::ExtraDamageIfStage2OnBench { extra_damage: 50 }));
    entries.push(("If your opponent's Active Pokémon is Asleep, this attack does 60 more damage.".to_string(), Mechanic::ExtraDamageIfDefenderAsleep { extra_damage: 60 }));
    entries.push(("If your opponent's Active Pokémon is Confused, this attack does 70 more damage.".to_string(), Mechanic::ExtraDamageIfDefenderConfused { extra_damage: 70 }));
    entries.push(("Reveal all of your Pokémon in play and in your hand that have the Puppy Pile attack, and this attack does 20 damage for each Pokémon you revealed in this way.".to_string(), Mechanic::DamagePerOwnPokemonWithAttackName {
        attack_name: "Puppy Pile".to_string(),
        damage_per: 20,
        }));
    entries.push(("This attack does 30 damage for each of your Benched [D] Pokémon.".to_string(), Mechanic::BenchCountDamage {
        include_fixed_damage: false,
        damage_per: 30,
        energy_type: Some(EnergyType::Darkness),
        bench_side: BenchSide::YourBench,
        }));
    entries.push(("This attack does 60 damage to 1 of your opponent's Pokémon that have damage on them.".to_string(), Mechanic::DirectDamageIfDamaged { damage: 60 }));
    entries.push(("Flip 3 coins. If 1 of them is heads, this attack does 20 more damage. If 2 of them are heads, this attack does 50 more damage. If all of them are heads, this attack does 120 more damage.".to_string(), Mechanic::TieredCoinFlipDamage {
        num_coins: 3,
        extra_damage_by_heads: list4(0, 20, 50, 120),
        }));
    entries.push(("Discard an Energy from this Pokémon, and this attack also does 20 damage to each of your opponent's Benched Pokémon.".to_string(), Mechanic::SelfDiscardRandomEnergyAndBenchDamage {
        count: 1,
        opponent: true,
        bench_damage: 20,
        }));
    proof {
        assert(entries@.subrange(0, before.len() as int) =~= before);
    }
}

/// Entries 430 to 439 of the effect table, in order.
pub open spec fn table_part_43(es: Seq<(String, Mechanic)>) -> bool {
    &&& es.len() == 10
    &&& es[0].0@ == "Discard 2 Energy from this Pokémon. During your opponent's next turn, this Pokémon takes -30 damage from attacks."@
    &&& es[0].1 == Mechanic::SelfDiscardRandomEnergyAndCardEffect { count: 2, effect: CardEffect::ReducedDamage { amount: 30 }, duration: 1 }
    &&& es[1].0@ == "Discard all Energy from this Pokémon. Knock Out your opponent's Active Pokémon."@
    &&& es[1].1 == Mechanic::SelfDiscardAllEnergyAndKnockOutOpponentActive
    &&& es[2].0@ == "You may discard 1 of your Benched Basic [G] Pokémon. If you do, this attack does 70 more damage."@
    &&& es[2].1 == Mechanic::OptionalDiscardBenchedBasicForExtraDamage { energy_type: EnergyType::Grass, extra_damage: 70 }
    &&& es[3].0@ == "Discard all [R] and [L] Energy from this Pokémon, and this attack does 50 damage for each Energy you discarded in this way."@
    &&& (es[3].1 matches Mechanic::SelfDiscardAllTypesEnergyDamagePerDiscarded { energy_types: x1, damage_per_energy: x2 } && (x1@ == seq![EnergyType::Fire, EnergyType::Lightning]) && (x2 == 50))
    &&& es[4].0@ == "This Pokémon recovers from all Special Conditions."@
    &&& es[4].1 == Mechanic::SelfCureStatusConditions
    &&& es[5].0@ == "This attack does 10 more damage for each Item card in your discard pile."@
    &&& es[5].1 == Mechanic::ExtraDamagePerTrainerTypeInDiscard { trainer_type: TrainerType::Item, damage_per_card: 10 }
    &&& es[6].0@ == "Put 3 random cards from among Silcoon and Cascoon from your deck onto your Bench."@
    &&& (es[6].1 matches Mechanic::SearchToBenchByNames { names: x1, count: x2 } && (x1@.len() == 2 && (x1@[0]@ == "Silcoon"@) && (x1@[1]@ == "Cascoon"@)) && (x2 == 3))
    &&& es[7].0@ == "This attack does 10 more damage for each [M] Energy attached to this Pokémon."@
    &&& es[7].1 == Mechanic::ExtraDamagePerSpecificEnergy { energy_type: EnergyType::Metal, damage_per_energy: 10 }
    &&& es[8].0@ == "1 of your opponent's Pokémon is chosen at random 3 times. For each time a Pokémon was chosen, do 60 damage to it."@
    &&& es[8].1 == Mechanic::RandomSpreadDamage { times: 3, damage_per_hit: 60, include_own_bench: false }
    &&& es[9].0@ == "During your next turn, this Pokémon's Overacceleration attack does +70 damage."@
    &&& (es[9].1 matches Mechanic::DamageAndCardEffect { opponent: x1, effect: x2, duration: x3, coin_flip: x4 } && (x1 == false) && ((x2 matches CardEffect::IncreasedDamageForAttack { attack_name: x5, amount: x6 } && (x5@ == "Overacceleration"@) && (x6 == 70))) && (x3 == 1) && (x4 == false))
}

/// Pushes entries 430 to 439 of the effect table.
fn push_entries_43(entries: &mut Vec<(String, Mechanic)>)
    ensures
        final(entries)@.len() == old(entries)@.len() + 10,
        final(entries)@.subrange(0, old(entries)@.len() as int) == old(entries)@,
        table_part_43(final(entries)@.subrange(old(entries)@.len() as int, final(entries)@.len() as int)),
{
    let ghost before = entries@;
    entries.push(("Discard 2 Energy from this Pokémon. During your opponent's next turn, this Pokémon takes -30 damage from attacks.".to_string(), Mechanic::SelfDiscardRandomEnergyAndCardEffect {
        count: 2,
        effect: CardEffect::ReducedDamage { amount: 30 },
        duration: 1,
        }));
    entries.push(("Discard all Energy from this Pokémon. Knock Out your opponent's Active Pokémon.".to_string(), Mechanic::SelfDiscardAllEnergyAndKnockOutOpponentActive));
    entries.push(("You may discard 1 of your Benched Basic [G] Pokémon. If you do, this attack does 70 more damage.".to_string(), Mechanic::OptionalDiscardBenchedBasicForExtraDamage {
        energy_type: EnergyType::Grass,
        extra_damage: 70,
        }));
    entries.push(("Discard all [R] and [L] Energy from this Pokémon, and this attack does 50 damage for each Energy you discarded in this way.".to_string(), Mechanic::SelfDiscardAllTypesEnergyDamagePerDiscarded {
        energy_types: list2(EnergyType::Fire, EnergyType::Lightning),
        damage_per_energy: 50,
        }));
    entries.push(("This Pokémon recovers from all Special Conditions.".to_string(), Mechanic::SelfCureStatusConditions));
    entries.push(("This attack does 10 more damage for each Item card in your discard pile.".to_string(), Mechanic::ExtraDamagePerTrainerTypeInDiscard {
        trainer_type: TrainerType::Item,
        damage_per_card: 10,
        }));
    entries.push(("Put 3 random cards from among Silcoon and Cascoon from your deck onto your Bench.".to_string(), Mechanic::SearchToBenchByNames {
        names: list2("Silcoon".to_string(), "Cascoon".to_string()),
        count: 3,
        }));
    entries.push(("This attack does 10 more damage for each [M] Energy attached to this Pokémon.".to_string(), Mechanic::ExtraDamagePerSpecificEnergy {
        energy_type: EnergyType::Metal,
        damage_per_energy: 10,
        }));
    entries.push(("1 of your opponent's Pokémon is chosen at random 3 times. For each time a Pokémon was chosen, do 60 damage to it.".to_string(), Mechanic::RandomSpreadDamage {
        times: 3,
        damage_per_hit: 60,
        include_own_bench: false,
        }));
    entries.push(("During your next turn, this Pokémon's Overacceleration attack does +70 damage.".to_string(), Mechanic::DamageAndCardEffect {
        opponent: false,
        effect: CardEffect::IncreasedDamageForAttack {
        attack_name: "Overacceleration".to_string(),
        amount: 70,
        },
        duration: 1,
        coin_flip: false,
        }));
    proof {
        assert(entries@.subrange(0, before.len() as int) =~= before);
    }
}

/// Entries 440 to 449 of the effect table, in order.
pub open spec fn table_part_44(es: Seq<(String, Mechanic)>) -> bool {
    &&& es.len() == 10
    &&& es[0].0@ == "Flip a coin for each Pokémon you have in play. This attack does 30 damage for each heads."@
    &&& es[0].1 == Mechanic::CoinFlipPerPokemonInPlay { damage_per_head: 30 }
    &&& es[1].0@ == "Flip a coin until you get tails. This attack does 30 damage for each heads."@
    &&& es[1].1 == Mechanic::FlipUntilTailsDamage { damage_per_heads: 30 }
    &&& es[2].0@ == "If this Pokémon has damage on it, this attack does 80 more damage."@
    &&& es[2].1 == Mechanic::ExtraDamageIfHurt { extra_damage: 80, opponent: false }
    &&& es[3].0@ == "If your opponent's Active Pokémon has damage on it, this attack does 70 more damage."@
    &&& es[3].1 == Mechanic::ExtraDamageIfHurt { extra_damage: 70, opponent: true }
    &&& es[4].0@ == "If your opponent's Active Pokémon is a Pokémon ex, this attack does 90 more damage."@
    &&& es[4].1 == Mechanic::ExtraDamageIfEx { extra_damage: 90 }
    &&& es[5].0@ == "If your opponent's Active Pokémon is a [F] Pokémon, this attack does 70 more damage."@
    &&& es[5].1 == Mechanic::ExtraDamageIfDefenderType { energy_type: EnergyType::Fighting, extra_damage: 70 }
    &&& es[6].0@ == "This attack does 10 more damage for each Energy in your opponent's Active Pokémon's Retreat Cost."@
    &&& es[6].1 == Mechanic::ExtraDamagePerRetreatCost { damage_per_energy: 10 }
    &&& es[7].0@ == "This attack does 40 more damage for each Energy attached to your opponent's Active Pokémon."@
    &&& es[7].1 == Mechanic::ExtraDamagePerEnergy { include_fixed_damage: true, opponent: true, damage_per_energy: 40 }
    &&& es[8].0@ == "This attack does 40 more damage for each of your opponent's Benched Pokémon."@
    &&& es[8].1 == Mechanic::BenchCountDamage { include_fixed_damage: true, damage_per: 40, energy_type: None, bench_side: BenchSide::OpponentBench }
    &&& es[9].0@ == "This attack does 80 damage to 1 of your opponent's Pokémon."@
    &&& es[9].1 == Mechanic::DirectDamage { damage: 80, bench_only: false }
}

/// Pushes entries 440 to 449 of the effect table.
fn push_entries_44(entries: &mut Vec<(String, Mechanic)>)
    ensures
        final(entries)@.len() == old(entries)@.len() + 10,
        final(entries)@.subrange(0, old(entries)@.len() as int) == old(entries)@,
        table_part_44(final(entries)@.subrange(old(entries)@.len() as int, final(entries)@.len() as int)),
{
    let ghost before = entries@;
    entries.push(("Flip a coin for each Pokémon you have in play. This attack does 30 damage for each heads.".to_string(), Mechanic::CoinFlipPerPokemonInPlay {
        damage_per_head: 30,
        }));
    entries.push(("Flip a coin until you get tails. This attack does 30 damage for each heads.".to_string(), Mechanic::FlipUntilTailsDamage {
        damage_per_heads: 30,
        }));
    entries.push(("If this Pokémon has damage on it, this attack does 80 more damage.".to_string(), Mechanic::ExtraDamageIfHurt {
        extra_damage: 80,
        opponent: false,
        }));
    entries.push(("If your opponent's Active Pokémon has damage on it, this attack does 70 more damage.".to_string(), Mechanic::ExtraDamageIfHurt {
        extra_damage: 70,
        opponent: true,
        }));
    entries.push(("If your opponent's Active Pokémon is a Pokémon ex, this attack does 90 more damage.".to_string(), Mechanic::ExtraDamageIfEx { extra_damage: 90 }));
    entries.push(("If your opponent's Active Pokémon is a [F] Pokémon, this attack does 70 more damage.".to_string(), Mechanic::ExtraDamageIfDefenderType {
        energy_type: EnergyType::Fighting,
        extra_damage: 70,
        }));
    entries.push(("This attack does 10 more damage for each Energy in your opponent's Active Pokémon's Retreat Cost.".to_string(), Mechanic::ExtraDamagePerRetreatCost {
        damage_per_energy: 10,
        }));
    entries.push(("This attack does 40 more damage for each Energy attached to your opponent's Active Pokémon.".to_string(), Mechanic::ExtraDamagePerEnergy {
        include_fixed_damage: true,
        opponent: true,
        damage_per_energy: 40,
        }));
    entries.push(("This attack does 40 more damage for each of your opponent's Benched Pokémon.".to_string(), Mechanic::BenchCountDamage {
        include_fixed_damage: true,
        damage_per: 40,
        energy_type: None,
        bench_side: BenchSide::OpponentBench,
        }));
    entries.push(("This attack does 80 damage to 1 of your opponent's Pokémon.".to_string(), Mechanic::DirectDamage {
        damage: 80,
        bench_only: false,
        }));
    proof {
        assert(entries@.subrange(0, before.len() as int) =~= before);
    }
}

/// Entries 450 to 452 of the effect table, in order.
pub open spec fn table_part_45(es: Seq<(String, Mechanic)>) -> bool {
    &&& es.len() == 3
    &&& es[0].0@ == "If you haven't gotten any points, this attack does 60 more damage."@
    &&& es[0].1 == Mechanic::ExtraDamageIfPointsExactly { opponent: false, points: 0, extra_damage: 60 }
    &&& es[1].0@ == "If Volbeat is in your discard pile, this attack does 60 more damage."@
    &&& (es[1].1 matches Mechanic::ExtraDamageIfCardInDiscard { card_name: x1, extra_damage: x2 } && (x1@ == "Volbeat"@) && (x2 == 60))
    &&& es[2].0@ == "This attack does damage to your opponent's Active Pokémon equal to this Pokémon's remaining HP."@
    &&& es[2].1 == Mechanic::DamageEqualToSelfRemainingHp
}

/// Pushes entries 450 to 452 of the effect table.
fn push_entries_45(entries: &mut Vec<(String, Mechanic)>)
    ensures
        final(entries)@.len() == old(entries)@.len() + 3,
        final(entries)@.subrange(0, old(entries)@.len() as int) == old(entries)@,
        table_part_45(final(entries)@.subrange(old(entries)@.len() as int, final(entries)@.len() as int)),
{
    let ghost before = entries@;
    entries.push(("If you haven't gotten any points, this attack does 60 more damage.".to_string(), Mechanic::ExtraDamageIfPointsExactly {
        opponent: false,
        points: 0,
        extra_damage: 60,
        }));
    entries.push(("If Volbeat is in your discard pile, this attack does 60 more damage.".to_string(), Mechanic::ExtraDamageIfCardInDiscard {
        card_name: "Volbeat".to_string(),
        extra_damage: 60,
        }));
    entries.push(("This attack does damage to your opponent's Active Pokémon equal to this Pokémon's remaining HP.".to_string(), Mechanic::DamageEqualToSelfRemainingHp));
    proof {
        assert(entries@.subrange(0, before.len() as int) =~= before);
    }
}

/// The text `t` begins with `p`.
pub open spec fn starts_with(t: Seq<char>, p: Seq<char>) -> bool {
    &&& t.len() >= p.len()
    &&& forall|i: int| 0 <= i < p.len() ==> t[i] == p[i]
}

/// A random spread that picks "1 of your opponent's Pokémon" hits only the opponent's
/// Pokémon; one that picks "1 other Pokémon (either yours or your opponent's)" may also hit the
/// attacker's own Benched Pokémon.
pub open spec fn spread_entry_faithful(e: (String, Mechanic)) -> bool {
    e.1 matches Mechanic::RandomSpreadDamage { include_own_bench, .. } ==> {
        &&& starts_with(e.0@, "1 of your opponent's Pokémon is chosen at random"@) ==> !include_own_bench
        &&& starts_with(e.0@, "1 other Pokémon (either yours or your opponent's)"@) ==> include_own_bench
    }
}

/// Every entry of `es` is `spread_entry_faithful`.
pub open spec fn spread_entries_faithful(es: Seq<(String, Mechanic)>) -> bool {
    forall|k: int| 0 <= k < es.len() ==> #[trigger] spread_entry_faithful(es[k])
}

proof fn lemma_spread_join(es: Seq<(String, Mechanic)>, m: int)
    requires
        0 <= m <= es.len(),
        spread_entries_faithful(es.subrange(0, m)),
        spread_entries_faithful(es.subrange(m, es.len() as int)),
    ensures
        spread_entries_faithful(es),
{
    assert forall|k: int| 0 <= k < es.len() implies #[trigger] spread_entry_faithful(es[k]) by {
        if k < m {
            assert(es[k] == es.subrange(0, m)[k]);
        } else {
            assert(es[k] == es.subrange(m, es.len() as int)[k - m]);
        }
    }
}

proof fn lemma_spread_part_0(p: Seq<(String, Mechanic)>)
    requires
        table_part_0(p),
    ensures
        spread_entries_faithful(p),
{
    reveal_strlit("1 of your opponent's Pokémon is chosen at random");
    reveal_strlit("1 other Pokémon (either yours or your opponent's)");
    reveal_strlit("1 of your opponent's Pokémon is chosen at random 3 times. For each time a Pokémon was chosen, do 50 damage to it.");
    assert(p[1].0@[3] == 'f');
    reveal_strlit("1 of your opponent's Pokémon is chosen at random 4 times. For each time a Pokémon was chosen, do 40 damage to it.");
    assert(p[2].0@[3] == 'f');
    reveal_strlit("1 of your opponent's Pokémon is chosen at random 4 times. For each time a Pokémon was chosen, do 50 damage to it.");
    assert(p[3].0@[3] == 'f');
    reveal_strlit("1 of your opponent's Pokémon is chosen at random. Do 30 damage to it.");
    assert(p[4].0@[3] == 'f');
    reveal_strlit("1 other Pokémon (either yours or your opponent's) is chosen at random 3 times. For each time a Pokémon was chosen, do 50 damage to it.");
    assert(p[5].0@[3] == 't');
    assert(spread_entry_faithful(p[0]));
    assert(spread_entry_faithful(p[1]));
    assert(spread_entry_faithful(p[2]));
    assert(spread_entry_faithful(p[3]));
    assert(spread_entry_faithful(p[4]));
    assert(spread_entry_faithful(p[5]));
    assert(spread_entry_faithful(p[6]));
    assert(spread_entry_faithful(p[7]));
    assert(spread_entry_faithful(p[8]));
    assert(spread_entry_faithful(p[9]));
    assert forall|k: int| 0 <= k < p.len() implies #[trigger] spread_entry_faithful(p[k]) by {
        assert(k == 0 || k == 1 || k == 2 || k == 3 || k == 4 || k == 5 || k == 6 || k == 7 || k == 8 || k == 9);
    }
}

proof fn lemma_spread_part_1(p: Seq<(String, Mechanic)>)
    requires
        table_part_1(p),
    ensures
        spread_entries_faithful(p),
{
    assert(spread_entry_faithful(p[0]));
    assert(spread_entry_faithful(p[1]));
    assert(spread_entry_faithful(p[2]));
    assert(spread_entry_faithful(p[3]));
    assert(spread_entry_faithful(p[4]));
    assert(spread_entry_faithful(p[5]));
    assert(spread_entry_faithful(p[6]));
    assert(spread_entry_faithful(p[7]));
    assert(spread_entry_faithful(p[8]));
    assert(spread_entry_faithful(p[9]));
    assert forall|k: int| 0 <= k < p.len() implies #[trigger] spread_entry_faithful(p[k]) by {
        assert(k == 0 || k == 1 || k == 2 || k == 3 || k == 4 || k == 5 || k == 6 || k == 7 || k == 8 || k == 9);
    }
}

proof fn lemma_spread_part_2(p: Seq<(String, Mechanic)>)
    requires
        table_part_2(p),
    ensures
        spread_entries_faithful(p),
{
    assert(spread_entry_faithful(p[0]));
    assert(spread_entry_faithful(p[1]));
    assert(spread_entry_faithful(p[2]));
    assert(spread_entry_faithful(p[3]));
    assert(spread_entry_faithful(p[4]));
    assert(spread_entry_faithful(p[5]));
    assert(spread_entry_faithful(p[6]));
    assert(spread_entry_faithful(p[7]));
    assert(spread_entry_faithful(p[8]));
    assert(spread_entry_faithful(p[9]));
    assert forall|k: int| 0 <= k < p.len() implies #[trigger] spread_entry_faithful(p[k]) by {
        assert(k == 0 || k == 1 || k == 2 || k == 3 || k == 4 || k == 5 || k == 6 || k == 7 || k == 8 || k == 9);
    }
}

proof fn lemma_spread_part_3(p: Seq<(String, Mechanic)>)
    requires
        table_part_3(p),
    ensures
        spread_entries_faithful(p),
{
    assert(spread_entry_faithful(p[0]));
    assert(spread_entry_faithful(p[1]));
    assert(spread_entry_faithful(p[2]));
    assert(spread_entry_faithful(p[3]));
    assert(spread_entry_faithful(p[4]));
    assert(spread_entry_faithful(p[5]));
    assert(spread_entry_faithful(p[6]));
    assert(spread_entry_faithful(p[7]));
    assert(spread_entry_faithful(p[8]));
    assert(spread_entry_faithful(p[9]));
    assert forall|k: int| 0 <= k < p.len() implies #[trigger] spread_entry_faithful(p[k]) by {
        assert(k == 0 || k == 1 || k == 2 || k == 3 || k == 4 || k == 5 || k == 6 || k == 7 || k == 8 || k == 9);
    }
}

proof fn lemma_spread_part_4(p: Seq<(String, Mechanic)>)
    requires
        table_part_4(p),
    ensures
        spread_entries_faithful(p),
{
    assert(spread_entry_faithful(p[0]));
    assert(spread_entry_faithful(p[1]));
    assert(spread_entry_faithful(p[2]));
    assert(spread_entry_faithful(p[3]));
    assert(spread_entry_faithful(p[4]));
    assert(spread_entry_faithful(p[5]));
    assert(spread_entry_faithful(p[6]));
    assert(spread_entry_faithful(p[7]));
    assert(spread_entry_faithful(p[8]));
    assert(spread_entry_faithful(p[9]));
    assert forall|k: int| 0 <= k < p.len() implies #[trigger] spread_entry_faithful(p[k]) by {
        assert(k == 0 || k == 1 || k == 2 || k == 3 || k == 4 || k == 5 || k == 6 || k == 7 || k == 8 || k == 9);
    }
}

proof fn lemma_spread_part_5(p: Seq<(String, Mechanic)>)
    requires
        table_part_5(p),
    ensures
        spread_entries_faithful(p),
{
    assert(spread_entry_faithful(p[0]));
    assert(spread_entry_faithful(p[1]));
    assert(spread_entry_faithful(p[2]));
    assert(spread_entry_faithful(p[3]));
    assert(spread_entry_faithful(p[4]));
    assert(spread_entry_faithful(p[5]));
    assert(spread_entry_faithful(p[6]));
    assert(spread_entry_faithful(p[7]));
    assert(spread_entry_faithful(p[8]));
    assert(spread_entry_faithful(p[9]));
    assert forall|k: int| 0 <= k < p.len() implies #[trigger] spread_entry_faithful(p[k]) by {
        assert(k == 0 || k == 1 || k == 2 || k == 3 || k == 4 || k == 5 || k == 6 || k == 7 || k == 8 || k == 9);
    }
}

proof fn lemma_spread_part_6(p: Seq<(String, Mechanic)>)
    requires
        table_part_6(p),
    ensures
        spread_entries_faithful(p),
{
    assert(spread_entry_faithful(p[0]));
    assert(spread_entry_faithful(p[1]));
    assert(spread_entry_faithful(p[2]));
    assert(spread_entry_faithful(p[3]));
    assert(spread_entry_faithful(p[4]));
    assert(spread_entry_faithful(p[5]));
    assert(spread_entry_faithful(p[6]));
    assert(spread_entry_faithful(p[7]));
    assert(spread_entry_faithful(p[8]));
    assert(spread_entry_faithful(p[9]));
    assert forall|k: int| 0 <= k < p.len() implies #[trigger] spread_entry_faithful(p[k]) by {
        assert(k == 0 || k == 1 || k == 2 || k == 3 || k == 4 || k == 5 || k == 6 || k == 7 || k == 8 || k == 9);
    }
}

proof fn lemma_spread_part_7(p: Seq<(String, Mechanic)>)
    requires
        table_part_7(p),
    ensures
        spread_entries_faithful(p),
{
    assert(spread_entry_faithful(p[0]));
    assert(spread_entry_faithful(p[1]));
    assert(spread_entry_faithful(p[2]));
    assert(spread_entry_faithful(p[3]));
    assert(spread_entry_faithful(p[4]));
    assert(spread_entry_faithful(p[5]));
    assert(spread_entry_faithful(p[6]));
    assert(spread_entry_faithful(p[7]));
    assert(spread_entry_faithful(p[8]));
    assert(spread_entry_faithful(p[9]));
    assert forall|k: int| 0 <= k < p.len() implies #[trigger] spread_entry_faithful(p[k]) by {
        assert(k == 0 || k == 1 || k == 2 || k == 3 || k == 4 || k == 5 || k == 6 || k == 7 || k == 8 || k == 9);
    }
}

proof fn lemma_spread_part_8(p: Seq<(String, Mechanic)>)
    requires
        table_part_8(p),
    ensures
        spread_entries_faithful(p),
{
    assert(spread_entry_faithful(p[0]));
    assert(spread_entry_faithful(p[1]));
    assert(spread_entry_faithful(p[2]));
    assert(spread_entry_faithful(p[3]));
    assert(spread_entry_faithful(p[4]));
    assert(spread_entry_faithful(p[5]));
    assert(spread_entry_faithful(p[6]));
    assert(spread_entry_faithful(p[7]));
    assert(spread_entry_faithful(p[8]));
    assert(spread_entry_faithful(p[9]));
    assert forall|k: int| 0 <= k < p.len() implies #[trigger] spread_entry_faithful(p[k]) by {
        assert(k == 0 || k == 1 || k == 2 || k == 3 || k == 4 || k == 5 || k == 6 || k == 7 || k == 8 || k == 9);
    }
}

proof fn lemma_spread_part_9(p: Seq<(String, Mechanic)>)
    requires
        table_part_9(p),
    ensures
        spread_entries_faithful(p),
{
    assert(spread_entry_faithful(p[0]));
    assert(spread_entry_faithful(p[1]));
    assert(spread_entry_faithful(p[2]));
    assert(spread_entry_faithful(p[3]));
    assert(spread_entry_faithful(p[4]));
    assert(spread_entry_faithful(p[5]));
    assert(spread_entry_faithful(p[6]));
    assert(spread_entry_faithful(p[7]));
    assert(spread_entry_faithful(p[8]));
    assert(spread_entry_faithful(p[9]));
    assert forall|k: int| 0 <= k < p.len() implies #[trigger] spread_entry_faithful(p[k]) by {
        assert(k == 0 || k == 1 || k == 2 || k == 3 || k == 4 || k == 5 || k == 6 || k == 7 || k == 8 || k == 9);
    }
}

proof fn lemma_spread_part_10(p: Seq<(String, Mechanic)>)
    requires
        table_part_10(p),
    ensures
        spread_entries_faithful(p),
{
    assert(spread_entry_faithful(p[0]));
    assert(spread_entry_faithful(p[1]));
    assert(spread_entry_faithful(p[2]));
    assert(spread_entry_faithful(p[3]));
    assert(spread_entry_faithful(p[4]));
    assert(spread_entry_faithful(p[5]));
    assert(spread_entry_faithful(p[6]));
    assert(spread_entry_faithful(p[7]));
    assert(spread_entry_faithful(p[8]));
    assert(spread_entry_faithful(p[9]));
    assert forall|k: int| 0 <= k < p.len() implies #[trigger] spread_entry_faithful(p[k]) by {
        assert(k == 0 || k == 1 || k == 2 || k == 3 || k == 4 || k == 5 || k == 6 || k == 7 || k == 8 || k == 9);
    }
}

proof fn lemma_spread_part_11(p: Seq<(String, Mechanic)>)
    requires
        table_part_11(p),
    ensures
        spread_entries_faithful(p),
{
    assert(spread_entry_faithful(p[0]));
    assert(spread_entry_faithful(p[1]));
    assert(spread_entry_faithful(p[2]));
    assert(spread_entry_faithful(p[3]));
    assert(spread_entry_faithful(p[4]));
    assert(spread_entry_faithful(p[5]));
    assert(spread_entry_faithful(p[6]));
    assert(spread_entry_faithful(p[7]));
    assert(spread_entry_faithful(p[8]));
    assert(spread_entry_faithful(p[9]));
    assert forall|k: int| 0 <= k < p.len() implies #[trigger] spread_entry_faithful(p[k]) by {
        assert(k == 0 || k == 1 || k == 2 || k == 3 || k == 4 || k == 5 || k == 6 || k == 7 || k == 8 || k == 9);
    }
}

proof fn lemma_spread_part_12(p: Seq<(String, Mechanic)>)
    requires
        table_part_12(p),
    ensures
        spread_entries_faithful(p),
{
    assert(spread_entry_faithful(p[0]));
    assert(spread_entry_faithful(p[1]));
    assert(spread_entry_faithful(p[2]));
    assert(spread_entry_faithful(p[3]));
    assert(spread_entry_faithful(p[4]));
    assert(spread_entry_faithful(p[5]));
    assert(spread_entry_faithful(p[6]));
    assert(spread_entry_faithful(p[7]));
    assert(spread_entry_faithful(p[8]));
    assert(spread_entry_faithful(p[9]));
    assert forall|k: int| 0 <= k < p.len() implies #[trigger] spread_entry_faithful(p[k]) by {
        assert(k == 0 || k == 1 || k == 2 || k == 3 || k == 4 || k == 5 || k == 6 || k == 7 || k == 8 || k == 9);
    }
}

proof fn lemma_spread_part_13(p: Seq<(String, Mechanic)>)
    requires
        table_part_13(p),
    ensures
        spread_entries_faithful(p),
{
    assert(spread_entry_faithful(p[0]));
    assert(spread_entry_faithful(p[1]));
    assert(spread_entry_faithful(p[2]));
    assert(spread_entry_faithful(p[3]));
    assert(spread_entry_faithful(p[4]));
    assert(spread_entry_faithful(p[5]));
    assert(spread_entry_faithful(p[6]));
    assert(spread_entry_faithful(p[7]));
    assert(spread_entry_faithful(p[8]));
    assert(spread_entry_faithful(p[9]));
    assert forall|k: int| 0 <= k < p.len() implies #[trigger] spread_entry_faithful(p[k]) by {
        assert(k == 0 || k == 1 || k == 2 || k == 3 || k == 4 || k == 5 || k == 6 || k == 7 || k == 8 || k == 9);
    }
}

proof fn lemma_spread_part_14(p: Seq<(String, Mechanic)>)
    requires
        table_part_14(p),
    ensures
        spread_entries_faithful(p),
{
    assert(spread_entry_faithful(p[0]));
    assert(spread_entry_faithful(p[1]));
    assert(spread_entry_faithful(p[2]));
    assert(spread_entry_faithful(p[3]));
    assert(spread_entry_faithful(p[4]));
    assert(spread_entry_faithful(p[5]));
    assert(spread_entry_faithful(p[6]));
    assert(spread_entry_faithful(p[7]));
    assert(spread_entry_faithful(p[8]));
    assert(spread_entry_faithful(p[9]));
    assert forall|k: int| 0 <= k < p.len() implies #[trigger] spread_entry_faithful(p[k]) by {
        assert(k == 0 || k == 1 || k == 2 || k == 3 || k == 4 || k == 5 || k == 6 || k == 7 || k == 8 || k == 9);
    }
}

proof fn lemma_spread_part_15(p: Seq<(String, Mechanic)>)
    requires
        table_part_15(p),
    ensures
        spread_entries_faithful(p),
{
    assert(spread_entry_faithful(p[0]));
    assert(spread_entry_faithful(p[1]));
    assert(spread_entry_faithful(p[2]));
    assert(spread_entry_faithful(p[3]));
    assert(spread_entry_faithful(p[4]));
    assert(spread_entry_faithful(p[5]));
    assert(spread_entry_faithful(p[6]));
    assert(spread_entry_faithful(p[7]));
    assert(spread_entry_faithful(p[8]));
    assert(spread_entry_faithful(p[9]));
    assert forall|k: int| 0 <= k < p.len() implies #[trigger] spread_entry_faithful(p[k]) by {
        assert(k == 0 || k == 1 || k == 2 || k == 3 || k == 4 || k == 5 || k == 6 || k == 7 || k == 8 || k == 9);
    }
}

proof fn lemma_spread_part_16(p: Seq<(String, Mechanic)>)
    requires
        table_part_16(p),
    ensures
        spread_entries_faithful(p),
{
    assert(spread_entry_faithful(p[0]));
    assert(spread_entry_faithful(p[1]));
    assert(spread_entry_faithful(p[2]));
    assert(spread_entry_faithful(p[3]));
    assert(spread_entry_faithful(p[4]));
    assert(spread_entry_faithful(p[5]));
    assert(spread_entry_faithful(p[6]));
    assert(spread_entry_faithful(p[7]));
    assert(spread_entry_faithful(p[8]));
    assert(spread_entry_faithful(p[9]));
    assert forall|k: int| 0 <= k < p.len() implies #[trigger] spread_entry_faithful(p[k]) by {
        assert(k == 0 || k == 1 || k == 2 || k == 3 || k == 4 || k == 5 || k == 6 || k == 7 || k == 8 || k == 9);
    }
}

proof fn lemma_spread_part_17(p: Seq<(String, Mechanic)>)
    requires
        table_part_17(p),
    ensures
        spread_entries_faithful(p),
{
    assert(spread_entry_faithful(p[0]));
    assert(spread_entry_faithful(p[1]));
    assert(spread_entry_faithful(p[2]));
    assert(spread_entry_faithful(p[3]));
    assert(spread_entry_faithful(p[4]));
    assert(spread_entry_faithful(p[5]));
    assert(spread_entry_faithful(p[6]));
    assert(spread_entry_faithful(p[7]));
    assert(spread_entry_faithful(p[8]));
    assert(spread_entry_faithful(p[9]));
    assert forall|k: int| 0 <= k < p.len() implies #[trigger] spread_entry_faithful(p[k]) by {
        assert(k == 0 || k == 1 || k == 2 || k == 3 || k == 4 || k == 5 || k == 6 || k == 7 || k == 8 || k == 9);
    }
}

proof fn lemma_spread_part_18(p: Seq<(String, Mechanic)>)
    requires
        table_part_18(p),
    ensures
        spread_entries_faithful(p),
{
    assert(spread_entry_faithful(p[0]));
    assert(spread_entry_faithful(p[1]));
    assert(spread_entry_faithful(p[2]));
    assert(spread_entry_faithful(p[3]));
    assert(spread_entry_faithful(p[4]));
    assert(spread_entry_faithful(p[5]));
    assert(spread_entry_faithful(p[6]));
    assert(spread_entry_faithful(p[7]));
    assert(spread_entry_faithful(p[8]));
    assert(spread_entry_faithful(p[9]));
    assert forall|k: int| 0 <= k < p.len() implies #[trigger] spread_entry_faithful(p[k]) by {
        assert(k == 0 || k == 1 || k == 2 || k == 3 || k == 4 || k == 5 || k == 6 || k == 7 || k == 8 || k == 9);
    }
}

proof fn lemma_spread_part_19(p: Seq<(String, Mechanic)>)
    requires
        table_part_19(p),
    ensures
        spread_entries_faithful(p),
{
    assert(spread_entry_faithful(p[0]));
    assert(spread_entry_faithful(p[1]));
    assert(spread_entry_faithful(p[2]));
    assert(spread_entry_faithful(p[3]));
    assert(spread_entry_faithful(p[4]));
    assert(spread_entry_faithful(p[5]));
    assert(spread_entry_faithful(p[6]));
    assert(spread_entry_faithful(p[7]));
    assert(spread_entry_faithful(p[8]));
    assert(spread_entry_faithful(p[9]));
    assert forall|k: int| 0 <= k < p.len() implies #[trigger] spread_entry_faithful(p[k]) by {
        assert(k == 0 || k == 1 || k == 2 || k == 3 || k == 4 || k == 5 || k == 6 || k == 7 || k == 8 || k == 9);
    }
}

proof fn lemma_spread_part_20(p: Seq<(String, Mechanic)>)
    requires
        table_part_20(p),
    ensures
        spread_entries_faithful(p),
{
    assert(spread_entry_faithful(p[0]));
    assert(spread_entry_faithful(p[1]));
    assert(spread_entry_faithful(p[2]));
    assert(spread_entry_faithful(p[3]));
    assert(spread_entry_faithful(p[4]));
    assert(spread_entry_faithful(p[5]));
    assert(spread_entry_faithful(p[6]));
    assert(spread_entry_faithful(p[7]));
    assert(spread_entry_faithful(p[8]));
    assert(spread_entry_faithful(p[9]));
    assert forall|k: int| 0 <= k < p.len() implies #[trigger] spread_entry_faithful(p[k]) by {
        assert(k == 0 || k == 1 || k == 2 || k == 3 || k == 4 || k == 5 || k == 6 || k == 7 || k == 8 || k == 9);
    }
}

proof fn lemma_spread_part_21(p: Seq<(String, Mechanic)>)
    requires
        table_part_21(p),
    ensures
        spread_entries_faithful(p),
{
    assert(spread_entry_faithful(p[0]));
    assert(spread_entry_faithful(p[1]));
    assert(spread_entry_faithful(p[2]));
    assert(spread_entry_faithful(p[3]));
    assert(spread_entry_faithful(p[4]));
    assert(spread_entry_faithful(p[5]));
    assert(spread_entry_faithful(p[6]));
    assert(spread_entry_faithful(p[7]));
    assert(spread_entry_faithful(p[8]));
    assert(spread_entry_faithful(p[9]));
    assert forall|k: int| 0 <= k < p.len() implies #[trigger] spread_entry_faithful(p[k]) by {
        assert(k == 0 || k == 1 || k == 2 || k == 3 || k == 4 || k == 5 || k == 6 || k == 7 || k == 8 || k == 9);
    }
}

proof fn lemma_spread_part_22(p: Seq<(String, Mechanic)>)
    requires
        table_part_22(p),
    ensures
        spread_entries_faithful(p),
{
    assert(spread_entry_faithful(p[0]));
    assert(spread_entry_faithful(p[1]));
    assert(spread_entry_faithful(p[2]));
    assert(spread_entry_faithful(p[3]));
    assert(spread_entry_faithful(p[4]));
    assert(spread_entry_faithful(p[5]));
    assert(spread_entry_faithful(p[6]));
    assert(spread_entry_faithful(p[7]));
    assert(spread_entry_faithful(p[8]));
    assert(spread_entry_faithful(p[9]));
    assert forall|k: int| 0 <= k < p.len() implies #[trigger] spread_entry_faithful(p[k]) by {
        assert(k == 0 || k == 1 || k == 2 || k == 3 || k == 4 || k == 5 || k == 6 || k == 7 || k == 8 || k == 9);
    }
}

proof fn lemma_spread_part_23(p: Seq<(String, Mechanic)>)
    requires
        table_part_23(p),
    ensures
        spread_entries_faithful(p),
{
    assert(spread_entry_faithful(p[0]));
    assert(spread_entry_faithful(p[1]));
    assert(spread_entry_faithful(p[2]));
    assert(spread_entry_faithful(p[3]));
    assert(spread_entry_faithful(p[4]));
    assert(spread_entry_faithful(p[5]));
    assert(spread_entry_faithful(p[6]));
    assert(spread_entry_faithful(p[7]));
    assert(spread_entry_faithful(p[8]));
    assert(spread_entry_faithful(p[9]));
    assert forall|k: int| 0 <= k < p.len() implies #[trigger] spread_entry_faithful(p[k]) by {
        assert(k == 0 || k == 1 || k == 2 || k == 3 || k == 4 || k == 5 || k == 6 || k == 7 || k == 8 || k == 9);
    }
}

proof fn lemma_spread_part_24(p: Seq<(String, Mechanic)>)
    requires
        table_part_24(p),
    ensures
        spread_entries_faithful(p),
{
    assert(spread_entry_faithful(p[0]));
    assert(spread_entry_faithful(p[1]));
    assert(spread_entry_faithful(p[2]));
    assert(spread_entry_faithful(p[3]));
    assert(spread_entry_faithful(p[4]));
    assert(spread_entry_faithful(p[5]));
    assert(spread_entry_faithful(p[6]));
    assert(spread_entry_faithful(p[7]));
    assert(spread_entry_faithful(p[8]));
    assert(spread_entry_faithful(p[9]));
    assert forall|k: int| 0 <= k < p.len() implies #[trigger] spread_entry_faithful(p[k]) by {
        assert(k == 0 || k == 1 || k == 2 || k == 3 || k == 4 || k == 5 || k == 6 || k == 7 || k == 8 || k == 9);
    }
}

proof fn lemma_spread_part_25(p: Seq<(String, Mechanic)>)
    requires
        table_part_25(p),
    ensures
        spread_entries_faithful(p),
{
    assert(spread_entry_faithful(p[0]));
    assert(spread_entry_faithful(p[1]));
    assert(spread_entry_faithful(p[2]));
    assert(spread_entry_faithful(p[3]));
    assert(spread_entry_faithful(p[4]));
    assert(spread_entry_faithful(p[5]));
    assert(spread_entry_faithful(p[6]));
    assert(spread_entry_faithful(p[7]));
    assert(spread_entry_faithful(p[8]));
    assert(spread_entry_faithful(p[9]));
    assert forall|k: int| 0 <= k < p.len() implies #[trigger] spread_entry_faithful(p[k]) by {
        assert(k == 0 || k == 1 || k == 2 || k == 3 || k == 4 || k == 5 || k == 6 || k == 7 || k == 8 || k == 9);
    }
}

proof fn lemma_spread_part_26(p: Seq<(String, Mechanic)>)
    requires
        table_part_26(p),
    ensures
        spread_entries_faithful(p),
{
    assert(spread_entry_faithful(p[0]));
    assert(spread_entry_faithful(p[1]));
    assert(spread_entry_faithful(p[2]));
    assert(spread_entry_faithful(p[3]));
    assert(spread_entry_faithful(p[4]));
    assert(spread_entry_faithful(p[5]));
    assert(spread_entry_faithful(p[6]));
    assert(spread_entry_faithful(p[7]));
    assert(spread_entry_faithful(p[8]));
    assert(spread_entry_faithful(p[9]));
    assert forall|k: int| 0 <= k < p.len() implies #[trigger] spread_entry_faithful(p[k]) by {
        assert(k == 0 || k == 1 || k == 2 || k == 3 || k == 4 || k == 5 || k == 6 || k == 7 || k == 8 || k == 9);
    }
}

proof fn lemma_spread_part_27(p: Seq<(String, Mechanic)>)
    requires
        table_part_27(p),
    ensures
        spread_entries_faithful(p),
{
    assert(spread_entry_faithful(p[0]));
    assert(spread_entry_faithful(p[1]));
    assert(spread_entry_faithful(p[2]));
    assert(spread_entry_faithful(p[3]));
    assert(spread_entry_faithful(p[4]));
    assert(spread_entry_faithful(p[5]));
    assert(spread_entry_faithful(p[6]));
    assert(spread_entry_faithful(p[7]));
    assert(spread_entry_faithful(p[8]));
    assert(spread_entry_faithful(p[9]));
    assert forall|k: int| 0 <= k < p.len() implies #[trigger] spread_entry_faithful(p[k]) by {
        assert(k == 0 || k == 1 || k == 2 || k == 3 || k == 4 || k == 5 || k == 6 || k == 7 || k == 8 || k == 9);
    }
}

proof fn lemma_spread_part_28(p: Seq<(String, Mechanic)>)
    requires
        table_part_28(p),
    ensures
        spread_entries_faithful(p),
{
    assert(spread_entry_faithful(p[0]));
    assert(spread_entry_faithful(p[1]));
    assert(spread_entry_faithful(p[2]));
    assert(spread_entry_faithful(p[3]));
    assert(spread_entry_faithful(p[4]));
    assert(spread_entry_faithful(p[5]));
    assert(spread_entry_faithful(p[6]));
    assert(spread_entry_faithful(p[7]));
    assert(spread_entry_faithful(p[8]));
    assert(spread_entry_faithful(p[9]));
    assert forall|k: int| 0 <= k < p.len() implies #[trigger] spread_entry_faithful(p[k]) by {
        assert(k == 0 || k == 1 || k == 2 || k == 3 || k == 4 || k == 5 || k == 6 || k == 7 || k == 8 || k == 9);
    }
}

proof fn lemma_spread_part_29(p: Seq<(String, Mechanic)>)
    requires
        table_part_29(p),
    ensures
        spread_entries_faithful(p),
{
    assert(spread_entry_faithful(p[0]));
    assert(spread_entry_faithful(p[1]));
    assert(spread_entry_faithful(p[2]));
    assert(spread_entry_faithful(p[3]));
    assert(spread_entry_faithful(p[4]));
    assert(spread_entry_faithful(p[5]));
    assert(spread_entry_faithful(p[6]));
    assert(spread_entry_faithful(p[7]));
    assert(spread_entry_faithful(p[8]));
    assert(spread_entry_faithful(p[9]));
    assert forall|k: int| 0 <= k < p.len() implies #[trigger] spread_entry_faithful(p[k]) by {
        assert(k == 0 || k == 1 || k == 2 || k == 3 || k == 4 || k == 5 || k == 6 || k == 7 || k == 8 || k == 9);
    }
}

proof fn lemma_spread_part_30(p: Seq<(String, Mechanic)>)
    requires
        table_part_30(p),
    ensures
        spread_entries_faithful(p),
{
    assert(spread_entry_faithful(p[0]));
    assert(spread_entry_faithful(p[1]));
    assert(spread_entry_faithful(p[2]));
    assert(spread_entry_faithful(p[3]));
    assert(spread_entry_faithful(p[4]));
    assert(spread_entry_faithful(p[5]));
    assert(spread_entry_faithful(p[6]));
    assert(spread_entry_faithful(p[7]));
    assert(spread_entry_faithful(p[8]));
    assert(spread_entry_faithful(p[9]));
    assert forall|k: int| 0 <= k < p.len() implies #[trigger] spread_entry_faithful(p[k]) by {
        assert(k == 0 || k == 1 || k == 2 || k == 3 || k == 4 || k == 5 || k == 6 || k == 7 || k == 8 || k == 9);
    }
}

proof fn lemma_spread_part_31(p: Seq<(String, Mechanic)>)
    requires
        table_part_31(p),
    ensures
        spread_entries_faithful(p),
{
    assert(spread_entry_faithful(p[0]));
    assert(spread_entry_faithful(p[1]));
    assert(spread_entry_faithful(p[2]));
    assert(spread_entry_faithful(p[3]));
    assert(spread_entry_faithful(p[4]));
    assert(spread_entry_faithful(p[5]));
    assert(spread_entry_faithful(p[6]));
    assert(spread_entry_faithful(p[7]));
    assert(spread_entry_faithful(p[8]));
    assert(spread_entry_faithful(p[9]));
    assert forall|k: int| 0 <= k < p.len() implies #[trigger] spread_entry_faithful(p[k]) by {
        assert(k == 0 || k == 1 || k == 2 || k == 3 || k == 4 || k == 5 || k == 6 || k == 7 || k == 8 || k == 9);
    }
}

proof fn lemma_spread_part_32(p: Seq<(String, Mechanic)>)
    requires
        table_part_32(p),
    ensures
        spread_entries_faithful(p),
{
    assert(spread_entry_faithful(p[0]));
    assert(spread_entry_faithful(p[1]));
    assert(spread_entry_faithful(p[2]));
    assert(spread_entry_faithful(p[3]));
    assert(spread_entry_faithful(p[4]));
    assert(spread_entry_faithful(p[5]));
    assert(spread_entry_faithful(p[6]));
    assert(spread_entry_faithful(p[7]));
    assert(spread_entry_faithful(p[8]));
    assert(spread_entry_faithful(p[9]));
    assert forall|k: int| 0 <= k < p.len() implies #[trigger] spread_entry_faithful(p[k]) by {
        assert(k == 0 || k == 1 || k == 2 || k == 3 || k == 4 || k == 5 || k == 6 || k == 7 || k == 8 || k == 9);
    }
}

proof fn lemma_spread_part_33(p: Seq<(String, Mechanic)>)
    requires
        table_part_33(p),
    ensures
        spread_entries_faithful(p),
{
    reveal_strlit("1 of your opponent's Pokémon is chosen at random");
    reveal_strlit("1 other Pokémon (either yours or your opponent's)");
    reveal_strlit("1 other Pokémon (either yours or your opponent's) is chosen at random 1 time. Do 100 damage to the chosen Pokémon.");
    assert(p[1].0@[3] == 't');
    assert(spread_entry_faithful(p[0]));
    assert(spread_entry_faithful(p[1]));
    assert(spread_entry_faithful(p[2]));
    assert(spread_entry_faithful(p[3]));
    assert(spread_entry_faithful(p[4]));
    assert(spread_entry_faithful(p[5]));
    assert(spread_entry_faithful(p[6]));
    assert(spread_entry_faithful(p[7]));
    assert(spread_entry_faithful(p[8]));
    assert(spread_entry_faithful(p[9]));
    assert forall|k: int| 0 <= k < p.len() implies #[trigger] spread_entry_faithful(p[k]) by {
        assert(k == 0 || k == 1 || k == 2 || k == 3 || k == 4 || k == 5 || k == 6 || k == 7 || k == 8 || k == 9);
    }
}

proof fn lemma_spread_part_34(p: Seq<(String, Mechanic)>)
    requires
        table_part_34(p),
    ensures
        spread_entries_faithful(p),
{
    assert(spread_entry_faithful(p[0]));
    assert(spread_entry_faithful(p[1]));
    assert(spread_entry_faithful(p[2]));
    assert(spread_entry_faithful(p[3]));
    assert(spread_entry_faithful(p[4]));
    assert(spread_entry_faithful(p[5]));
    assert(spread_entry_faithful(p[6]));
    assert(spread_entry_faithful(p[7]));
    assert(spread_entry_faithful(p[8]));
    assert(spread_entry_faithful(p[9]));
    assert forall|k: int| 0 <= k < p.len() implies #[trigger] spread_entry_faithful(p[k]) by {
        assert(k == 0 || k == 1 || k == 2 || k == 3 || k == 4 || k == 5 || k == 6 || k == 7 || k == 8 || k == 9);
    }
}

proof fn lemma_spread_part_35(p: Seq<(String, Mechanic)>)
    requires
        table_part_35(p),
    ensures
        spread_entries_faithful(p),
{
    assert(spread_entry_faithful(p[0]));
    assert(spread_entry_faithful(p[1]));
    assert(spread_entry_faithful(p[2]));
    assert(spread_entry_faithful(p[3]));
    assert(spread_entry_faithful(p[4]));
    assert(spread_entry_faithful(p[5]));
    assert(spread_entry_faithful(p[6]));
    assert(spread_entry_faithful(p[7]));
    assert(spread_entry_faithful(p[8]));
    assert(spread_entry_faithful(p[9]));
    assert forall|k: int| 0 <= k < p.len() implies #[trigger] spread_entry_faithful(p[k]) by {
        assert(k == 0 || k == 1 || k == 2 || k == 3 || k == 4 || k == 5 || k == 6 || k == 7 || k == 8 || k == 9);
    }
}

proof fn lemma_spread_part_36(p: Seq<(String, Mechanic)>)
    requires
        table_part_36(p),
    ensures
        spread_entries_faithful(p),
{
    assert(spread_entry_faithful(p[0]));
    assert(spread_entry_faithful(p[1]));
    assert(spread_entry_faithful(p[2]));
    assert(spread_entry_faithful(p[3]));
    assert(spread_entry_faithful(p[4]));
    assert(spread_entry_faithful(p[5]));
    assert(spread_entry_faithful(p[6]));
    assert(spread_entry_faithful(p[7]));
    assert(spread_entry_faithful(p[8]));
    assert(spread_entry_faithful(p[9]));
    assert forall|k: int| 0 <= k < p.len() implies #[trigger] spread_entry_faithful(p[k]) by {
        assert(k == 0 || k == 1 || k == 2 || k == 3 || k == 4 || k == 5 || k == 6 || k == 7 || k == 8 || k == 9);
    }
}

proof fn lemma_spread_part_37(p: Seq<(String, Mechanic)>)
    requires
        table_part_37(p),
    ensures
        spread_entries_faithful(p),
{
    assert(spread_entry_faithful(p[0]));
    assert(spread_entry_faithful(p[1]));
    assert(spread_entry_faithful(p[2]));
    assert(spread_entry_faithful(p[3]));
    assert(spread_entry_faithful(p[4]));
    assert(spread_entry_faithful(p[5]));
    assert(spread_entry_faithful(p[6]));
    assert(spread_entry_faithful(p[7]));
    assert(spread_entry_faithful(p[8]));
    assert(spread_entry_faithful(p[9]));
    assert forall|k: int| 0 <= k < p.len() implies #[trigger] spread_entry_faithful(p[k]) by {
        assert(k == 0 || k == 1 || k == 2 || k == 3 || k == 4 || k == 5 || k == 6 || k == 7 || k == 8 || k == 9);
    }
}

proof fn lemma_spread_part_38(p: Seq<(String, Mechanic)>)
    requires
        table_part_38(p),
    ensures
        spread_entries_faithful(p),
{
    assert(spread_entry_faithful(p[0]));
    assert(spread_entry_faithful(p[1]));
    assert(spread_entry_faithful(p[2]));
    assert(spread_entry_faithful(p[3]));
    assert(spread_entry_faithful(p[4]));
    assert(spread_entry_faithful(p[5]));
    assert(spread_entry_faithful(p[6]));
    assert(spread_entry_faithful(p[7]));
    assert(spread_entry_faithful(p[8]));
    assert(spread_entry_faithful(p[9]));
    assert forall|k: int| 0 <= k < p.len() implies #[trigger] spread_entry_faithful(p[k]) by {
        assert(k == 0 || k == 1 || k == 2 || k == 3 || k == 4 || k == 5 || k == 6 || k == 7 || k == 8 || k == 9);
    }
}

proof fn lemma_spread_part_39(p: Seq<(String, Mechanic)>)
    requires
        table_part_39(p),
    ensures
        spread_entries_faithful(p),
{
    reveal_strlit("1 of your opponent's Pokémon is chosen at random");
    reveal_strlit("1 other Pokémon (either yours or your opponent's)");
    reveal_strlit("1 of your opponent's Pokémon is chosen at random. Do 160 damage to it.");
    assert(p[3].0@[3] == 'f');
    assert(spread_entry_faithful(p[0]));
    assert(spread_entry_faithful(p[1]));
    assert(spread_entry_faithful(p[2]));
    assert(spread_entry_faithful(p[3]));
    assert(spread_entry_faithful(p[4]));
    assert(spread_entry_faithful(p[5]));
    assert(spread_entry_faithful(p[6]));
    assert(spread_entry_faithful(p[7]));
    assert(spread_entry_faithful(p[8]));
    assert(spread_entry_faithful(p[9]));
    assert forall|k: int| 0 <= k < p.len() implies #[trigger] spread_entry_faithful(p[k]) by {
        assert(k == 0 || k == 1 || k == 2 || k == 3 || k == 4 || k == 5 || k == 6 || k == 7 || k == 8 || k == 9);
    }
}

proof fn lemma_spread_part_40(p: Seq<(String, Mechanic)>)
    requires
        table_part_40(p),
    ensures
        spread_entries_faithful(p),
{
    assert(spread_entry_faithful(p[0]));
    assert(spread_entry_faithful(p[1]));
    assert(spread_entry_faithful(p[2]));
    assert(spread_entry_faithful(p[3]));
    assert(spread_entry_faithful(p[4]));
    assert(spread_entry_faithful(p[5]));
    assert(spread_entry_faithful(p[6]));
    assert(spread_entry_faithful(p[7]));
    assert(spread_entry_faithful(p[8]));
    assert(spread_entry_faithful(p[9]));
    assert forall|k: int| 0 <= k < p.len() implies #[trigger] spread_entry_faithful(p[k]) by {
        assert(k == 0 || k == 1 || k == 2 || k == 3 || k == 4 || k == 5 || k == 6 || k == 7 || k == 8 || k == 9);
    }
}

proof fn lemma_spread_part_41(p: Seq<(String, Mechanic)>)
    requires
        table_part_41(p),
    ensures
        spread_entries_faithful(p),
{
    assert(spread_entry_faithful(p[0]));
    assert(spread_entry_faithful(p[1]));
    assert(spread_entry_faithful(p[2]));
    assert(spread_entry_faithful(p[3]));
    assert(spread_entry_faithful(p[4]));
    assert(spread_entry_faithful(p[5]));
    assert(spread_entry_faithful(p[6]));
    assert(spread_entry_faithful(p[7]));
    assert(spread_entry_faithful(p[8]));
    assert(spread_entry_faithful(p[9]));
    assert forall|k: int| 0 <= k < p.len() implies #[trigger] spread_entry_faithful(p[k]) by {
        assert(k == 0 || k == 1 || k == 2 || k == 3 || k == 4 || k == 5 || k == 6 || k == 7 || k == 8 || k == 9);
    }
}

proof fn lemma_spread_part_42(p: Seq<(String, Mechanic)>)
    requires
        table_part_42(p),
    ensures
        spread_entries_faithful(p),
{
    assert(spread_entry_faithful(p[0]));
    assert(spread_entry_faithful(p[1]));
    assert(spread_entry_faithful(p[2]));
    assert(spread_entry_faithful(p[3]));
    assert(spread_entry_faithful(p[4]));
    assert(spread_entry_faithful(p[5]));
    assert(spread_entry_faithful(p[6]));
    assert(spread_entry_faithful(p[7]));
    assert(spread_entry_faithful(p[8]));
    assert(spread_entry_faithful(p[9]));
    assert forall|k: int| 0 <= k < p.len() implies #[trigger] spread_entry_faithful(p[k]) by {
        assert(k == 0 || k == 1 || k == 2 || k == 3 || k == 4 || k == 5 || k == 6 || k == 7 || k == 8 || k == 9);
    }
}

proof fn lemma_spread_part_43(p: Seq<(String, Mechanic)>)
    requires
        table_part_43(p),
    ensures
        spread_entries_faithful(p),
{
    reveal_strlit("1 of your opponent's Pokémon is chosen at random");
    reveal_strlit("1 other Pokémon (either yours or your opponent's)");
    reveal_strlit("1 of your opponent's Pokémon is chosen at random 3 times. For each time a Pokémon was chosen, do 60 damage to it.");
    assert(p[8].0@[3] == 'f');
    assert(spread_entry_faithful(p[0]));
    assert(spread_entry_faithful(p[1]));
    assert(spread_entry_faithful(p[2]));
    assert(spread_entry_faithful(p[3]));
    assert(spread_entry_faithful(p[4]));
    assert(spread_entry_faithful(p[5]));
    assert(spread_entry_faithful(p[6]));
    assert(spread_entry_faithful(p[7]));
    assert(spread_entry_faithful(p[8]));
    assert(spread_entry_faithful(p[9]));
    assert forall|k: int| 0 <= k < p.len() implies #[trigger] spread_entry_faithful(p[k]) by {
        assert(k == 0 || k == 1 || k == 2 || k == 3 || k == 4 || k == 5 || k == 6 || k == 7 || k == 8 || k == 9);
    }
}

proof fn lemma_spread_part_44(p: Seq<(String, Mechanic)>)
    requires
        table_part_44(p),
    ensures
        spread_entries_faithful(p),
{
    assert(spread_entry_faithful(p[0]));
    assert(spread_entry_faithful(p[1]));
    assert(spread_entry_faithful(p[2]));
    assert(spread_entry_faithful(p[3]));
    assert(spread_entry_faithful(p[4]));
    assert(spread_entry_faithful(p[5]));
    assert(spread_entry_faithful(p[6]));
    assert(spread_entry_faithful(p[7]));
    assert(spread_entry_faithful(p[8]));
    assert(spread_entry_faithful(p[9]));
    assert forall|k: int| 0 <= k < p.len() implies #[trigger] spread_entry_faithful(p[k]) by {
        assert(k == 0 || k == 1 || k == 2 || k == 3 || k == 4 || k == 5 || k == 6 || k == 7 || k == 8 || k == 9);
    }
}

proof fn lemma_spread_part_45(p: Seq<(String, Mechanic)>)
    requires
        table_part_45(p),
    ensures
        spread_entries_faithful(p),
{
    assert(spread_entry_faithful(p[0]));
    assert(spread_entry_faithful(p[1]));
    assert(spread_entry_faithful(p[2]));
    assert forall|k: int| 0 <= k < p.len() implies #[trigger] spread_entry_faithful(p[k]) by {
        assert(k == 0 || k == 1 || k == 2);
    }
}

proof fn lemma_spread_upto_0(es: Seq<(String, Mechanic)>)
    requires
        table_upto_0(es),
    ensures
        spread_entries_faithful(es),
{
}

proof fn lemma_spread_upto_1(es: Seq<(String, Mechanic)>)
    requires
        table_upto_1(es),
    ensures
        spread_entries_faithful(es),
{
    lemma_spread_upto_0(es.subrange(0, 0));
    lemma_spread_part_0(es.subrange(0, 10));
    lemma_spread_join(es, 0);
}

proof fn lemma_spread_upto_2(es: Seq<(String, Mechanic)>)
    requires
        table_upto_2(es),
    ensures
        spread_entries_faithful(es),
{
    lemma_spread_upto_1(es.subrange(0, 10));
    lemma_spread_part_1(es.subrange(10, 20));
    lemma_spread_join(es, 10);
}

proof fn lemma_spread_upto_3(es: Seq<(String, Mechanic)>)
    requires
        table_upto_3(es),
    ensures
        spread_entries_faithful(es),
{
    lemma_spread_upto_2(es.subrange(0, 20));
    lemma_spread_part_2(es.subrange(20, 30));
    lemma_spread_join(es, 20);
}

proof fn lemma_spread_upto_4(es: Seq<(String, Mechanic)>)
    requires
        table_upto_4(es),
    ensures
        spread_entries_faithful(es),
{
    lemma_spread_upto_3(es.subrange(0, 30));
    lemma_spread_part_3(es.subrange(30, 40));
    lemma_spread_join(es, 30);
}

proof fn lemma_spread_upto_5(es: Seq<(String, Mechanic)>)
    requires
        table_upto_5(es),
    ensures
        spread_entries_faithful(es),
{
    lemma_spread_upto_4(es.subrange(0, 40));
    lemma_spread_part_4(es.subrange(40, 50));
    lemma_spread_join(es, 40);
}

proof fn lemma_spread_upto_6(es: Seq<(String, Mechanic)>)
    requires
        table_upto_6(es),
    ensures
        spread_entries_faithful(es),
{
    lemma_spread_upto_5(es.subrange(0, 50));
    lemma_spread_part_5(es.subrange(50, 60));
    lemma_spread_join(es, 50);
}

proof fn lemma_spread_upto_7(es: Seq<(String, Mechanic)>)
    requires
        table_upto_7(es),
    ensures
        spread_entries_faithful(es),
{
    lemma_spread_upto_6(es.subrange(0, 60));
    lemma_spread_part_6(es.subrange(60, 70));
    lemma_spread_join(es, 60);
}

proof fn lemma_spread_upto_8(es: Seq<(String, Mechanic)>)
    requires
        table_upto_8(es),
    ensures
        spread_entries_faithful(es),
{
    lemma_spread_upto_7(es.subrange(0, 70));
    lemma_spread_part_7(es.subrange(70, 80));
    lemma_spread_join(es, 70);
}

proof fn lemma_spread_upto_9(es: Seq<(String, Mechanic)>)
    requires
        table_upto_9(es),
    ensures
        spread_entries_faithful(es),
{
    lemma_spread_upto_8(es.subrange(0, 80));
    lemma_spread_part_8(es.subrange(80, 90));
    lemma_spread_join(es, 80);
}

proof fn lemma_spread_upto_10(es: Seq<(String, Mechanic)>)
    requires
        table_upto_10(es),
    ensures
        spread_entries_faithful(es),
{
    lemma_spread_upto_9(es.subrange(0, 90));
    lemma_spread_part_9(es.subrange(90, 100));
    lemma_spread_join(es, 90);
}

proof fn lemma_spread_upto_11(es: Seq<(String, Mechanic)>)
    requires
        table_upto_11(es),
    ensures
        spread_entries_faithful(es),
{
    lemma_spread_upto_10(es.subrange(0, 100));
    lemma_spread_part_10(es.subrange(100, 110));
    lemma_spread_join(es, 100);
}

proof fn lemma_spread_upto_12(es: Seq<(String, Mechanic)>)
    requires
        table_upto_12(es),
    ensures
        spread_entries_faithful(es),
{
    lemma_spread_upto_11(es.subrange(0, 110));
    lemma_spread_part_11(es.subrange(110, 120));
    lemma_spread_join(es, 110);
}

proof fn lemma_spread_upto_13(es: Seq<(String, Mechanic)>)
    requires
        table_upto_13(es),
    ensures
        spread_entries_faithful(es),
{
    lemma_spread_upto_12(es.subrange(0, 120));
    lemma_spread_part_12(es.subrange(120, 130));
    lemma_spread_join(es, 120);
}

proof fn lemma_spread_upto_14(es: Seq<(String, Mechanic)>)
    requires
        table_upto_14(es),
    ensures
        spread_entries_faithful(es),
{
    lemma_spread_upto_13(es.subrange(0, 130));
    lemma_spread_part_13(es.subrange(130, 140));
    lemma_spread_join(es, 130);
}

proof fn lemma_spread_upto_15(es: Seq<(String, Mechanic)>)
    requires
        table_upto_15(es),
    ensures
        spread_entries_faithful(es),
{
    lemma_spread_upto_14(es.subrange(0, 140));
    lemma_spread_part_14(es.subrange(140, 150));
    lemma_spread_join(es, 140);
}

proof fn lemma_spread_upto_16(es: Seq<(String, Mechanic)>)
    requires
        table_upto_16(es),
    ensures
        spread_entries_faithful(es),
{
    lemma_spread_upto_15(es.subrange(0, 150));
    lemma_spread_part_15(es.subrange(150, 160));
    lemma_spread_join(es, 150);
}

proof fn lemma_spread_upto_17(es: Seq<(String, Mechanic)>)
    requires
        table_upto_17(es),
    ensures
        spread_entries_faithful(es),
{
    lemma_spread_upto_16(es.subrange(0, 160));
    lemma_spread_part_16(es.subrange(160, 170));
    lemma_spread_join(es, 160);
}

proof fn lemma_spread_upto_18(es: Seq<(String, Mechanic)>)
    requires
        table_upto_18(es),
    ensures
        spread_entries_faithful(es),
{
    lemma_spread_upto_17(es.subrange(0, 170));
    lemma_spread_part_17(es.subrange(170, 180));
    lemma_spread_join(es, 170);
}

proof fn lemma_spread_upto_19(es: Seq<(String, Mechanic)>)
    requires
        table_upto_19(es),
    ensures
        spread_entries_faithful(es),
{
    lemma_spread_upto_18(es.subrange(0, 180));
    lemma_spread_part_18(es.subrange(180, 190));
    lemma_spread_join(es, 180);
}

proof fn lemma_spread_upto_20(es: Seq<(String, Mechanic)>)
    requires
        table_upto_20(es),
    ensures
        spread_entries_faithful(es),
{
    lemma_spread_upto_19(es.subrange(0, 190));
    lemma_spread_part_19(es.subrange(190, 200));
    lemma_spread_join(es, 190);
}

proof fn lemma_spread_upto_21(es: Seq<(String, Mechanic)>)
    requires
        table_upto_21(es),
    ensures
        spread_entries_faithful(es),
{
    lemma_spread_upto_20(es.subrange(0, 200));
    lemma_spread_part_20(es.subrange(200, 210));
    lemma_spread_join(es, 200);
}

proof fn lemma_spread_upto_22(es: Seq<(String, Mechanic)>)
    requires
        table_upto_22(es),
    ensures
        spread_entries_faithful(es),
{
    lemma_spread_upto_21(es.subrange(0, 210));
    lemma_spread_part_21(es.subrange(210, 220));
    lemma_spread_join(es, 210);
}

proof fn lemma_spread_upto_23(es: Seq<(String, Mechanic)>)
    requires
        table_upto_23(es),
    ensures
        spread_entries_faithful(es),
{
    lemma_spread_upto_22(es.subrange(0, 220));
    lemma_spread_part_22(es.subrange(220, 230));
    lemma_spread_join(es, 220);
}

proof fn lemma_spread_upto_24(es: Seq<(String, Mechanic)>)
    requires
        table_upto_24(es),
    ensures
        spread_entries_faithful(es),
{
    lemma_spread_upto_23(es.subrange(0, 230));
    lemma_spread_part_23(es.subrange(230, 240));
    lemma_spread_join(es, 230);
}

proof fn lemma_spread_upto_25(es: Seq<(String, Mechanic)>)
    requires
        table_upto_25(es),
    ensures
        spread_entries_faithful(es),
{
    lemma_spread_upto_24(es.subrange(0, 240));
    lemma_spread_part_24(es.subrange(240, 250));
    lemma_spread_join(es, 240);
}

proof fn lemma_spread_upto_26(es: Seq<(String, Mechanic)>)
    requires
        table_upto_26(es),
    ensures
        spread_entries_faithful(es),
{
    lemma_spread_upto_25(es.subrange(0, 250));
    lemma_spread_part_25(es.subrange(250, 260));
    lemma_spread_join(es, 250);
}

proof fn lemma_spread_upto_27(es: Seq<(String, Mechanic)>)
    requires
        table_upto_27(es),
    ensures
        spread_entries_faithful(es),
{
    lemma_spread_upto_26(es.subrange(0, 260));
    lemma_spread_part_26(es.subrange(260, 270));
    lemma_spread_join(es, 260);
}

proof fn lemma_spread_upto_28(es: Seq<(String, Mechanic)>)
    requires
        table_upto_28(es),
    ensures
        spread_entries_faithful(es),
{
    lemma_spread_upto_27(es.subrange(0, 270));
    lemma_spread_part_27(es.subrange(270, 280));
    lemma_spread_join(es, 270);
}

proof fn lemma_spread_upto_29(es: Seq<(String, Mechanic)>)
    requires
        table_upto_29(es),
    ensures
        spread_entries_faithful(es),
{
    lemma_spread_upto_28(es.subrange(0, 280));
    lemma_spread_part_28(es.subrange(280, 290));
    lemma_spread_join(es, 280);
}

proof fn lemma_spread_upto_30(es: Seq<(String, Mechanic)>)
    requires
        table_upto_30(es),
    ensures
        spread_entries_faithful(es),
{
    lemma_spread_upto_29(es.subrange(0, 290));
    lemma_spread_part_29(es.subrange(290, 300));
    lemma_spread_join(es, 290);
}

proof fn lemma_spread_upto_31(es: Seq<(String, Mechanic)>)
    requires
        table_upto_31(es),
    ensures
        spread_entries_faithful(es),
{
    lemma_spread_upto_30(es.subrange(0, 300));
    lemma_spread_part_30(es.subrange(300, 310));
    lemma_spread_join(es, 300);
}

proof fn lemma_spread_upto_32(es: Seq<(String, Mechanic)>)
    requires
        table_upto_32(es),
    ensures
        spread_entries_faithful(es),
{
    lemma_spread_upto_31(es.subrange(0, 310));
    lemma_spread_part_31(es.subrange(310, 320));
    lemma_spread_join(es, 310);
}

proof fn lemma_spread_upto_33(es: Seq<(String, Mechanic)>)
    requires
        table_upto_33(es),
    ensures
        spread_entries_faithful(es),
{
    lemma_spread_upto_32(es.subrange(0, 320));
    lemma_spread_part_32(es.subrange(320, 330));
    lemma_spread_join(es, 320);
}

proof fn lemma_spread_upto_34(es: Seq<(String, Mechanic)>)
    requires
        table_upto_34(es),
    ensures
        spread_entries_faithful(es),
{
    lemma_spread_upto_33(es.subrange(0, 330));
    lemma_spread_part_33(es.subrange(330, 340));
    lemma_spread_join(es, 330);
}

proof fn lemma_spread_upto_35(es: Seq<(String, Mechanic)>)
    requires
        table_upto_35(es),
    ensures
        spread_entries_faithful(es),
{
    lemma_spread_upto_34(es.subrange(0, 340));
    lemma_spread_part_34(es.subrange(340, 350));
    lemma_spread_join(es, 340);
}

proof fn lemma_spread_upto_36(es: Seq<(String, Mechanic)>)
    requires
        table_upto_36(es),
    ensures
        spread_entries_faithful(es),
{
    lemma_spread_upto_35(es.subrange(0, 350));
    lemma_spread_part_35(es.subrange(350, 360));
    lemma_spread_join(es, 350);
}

proof fn lemma_spread_upto_37(es: Seq<(String, Mechanic)>)
    requires
        table_upto_37(es),
    ensures
        spread_entries_faithful(es),
{
    lemma_spread_upto_36(es.subrange(0, 360));
    lemma_spread_part_36(es.subrange(360, 370));
    lemma_spread_join(es, 360);
}

proof fn lemma_spread_upto_38(es: Seq<(String, Mechanic)>)
    requires
        table_upto_38(es),
    ensures
        spread_entries_faithful(es),
{
    lemma_spread_upto_37(es.subrange(0, 370));
    lemma_spread_part_37(es.subrange(370, 380));
    lemma_spread_join(es, 370);
}

proof fn lemma_spread_upto_39(es: Seq<(String, Mechanic)>)
    requires
        table_upto_39(es),
    ensures
        spread_entries_faithful(es),
{
    lemma_spread_upto_38(es.subrange(0, 380));
    lemma_spread_part_38(es.subrange(380, 390));
    lemma_spread_join(es, 380);
}

proof fn lemma_spread_upto_40(es: Seq<(String, Mechanic)>)
    requires
        table_upto_40(es),
    ensures
        spread_entries_faithful(es),
{
    lemma_spread_upto_39(es.subrange(0, 390));
    lemma_spread_part_39(es.subrange(390, 400));
    lemma_spread_join(es, 390);
}

proof fn lemma_spread_upto_41(es: Seq<(String, Mechanic)>)
    requires
        table_upto_41(es),
    ensures
        spread_entries_faithful(es),
{
    lemma_spread_upto_40(es.subrange(0, 400));
    lemma_spread_part_40(es.subrange(400, 410));
    lemma_spread_join(es, 400);
}

proof fn lemma_spread_upto_42(es: Seq<(String, Mechanic)>)
    requires
        table_upto_42(es),
    ensures
        spread_entries_faithful(es),
{
    lemma_spread_upto_41(es.subrange(0, 410));
    lemma_spread_part_41(es.subrange(410, 420));
    lemma_spread_join(es, 410);
}

proof fn lemma_spread_upto_43(es: Seq<(String, Mechanic)>)
    requires
        table_upto_43(es),
    ensures
        spread_entries_faithful(es),
{
    lemma_spread_upto_42(es.subrange(0, 420));
    lemma_spread_part_42(es.subrange(420, 430));
    lemma_spread_join(es, 420);
}

proof fn lemma_spread_upto_44(es: Seq<(String, Mechanic)>)
    requires
        table_upto_44(es),
    ensures
        spread_entries_faithful(es),
{
    lemma_spread_upto_43(es.subrange(0, 430));
    lemma_spread_part_43(es.subrange(430, 440));
    lemma_spread_join(es, 430);
}

proof fn lemma_spread_upto_45(es: Seq<(String, Mechanic)>)
    requires
        table_upto_45(es),
    ensures
        spread_entries_faithful(es),
{
    lemma_spread_upto_44(es.subrange(0, 440));
    lemma_spread_part_44(es.subrange(440, 450));
    lemma_spread_join(es, 440);
}

proof fn lemma_spread_upto_46(es: Seq<(String, Mechanic)>)
    requires
        table_upto_46(es),
    ensures
        spread_entries_faithful(es),
{
    lemma_spread_upto_45(es.subrange(0, 450));
    lemma_spread_part_45(es.subrange(450, 453));
    lemma_spread_join(es, 450);
}

/// Where `lookup_upto` takes its mechanic from: an entry among the first `n` whose text is
/// `text`.
proof fn lemma_lookup_from_entry(es: Seq<(String, Mechanic)>, text: Seq<char>, n: int)
    requires
        0 <= n <= es.len(),
    ensures
        lookup_upto(es, text, n) matches Some(m) ==> exists|k: int|
            0 <= k < n && #[trigger] es[k].1 == m && es[k].0@ == text,
    decreases n,
{
    if n > 0 {
        lemma_lookup_from_entry(es, text, n - 1);
    }
}

/// In the table that `EffectMechanicMap::new` builds, an attack text that picks "1 of your
/// opponent's Pokémon" at random gets a random spread over the opponent's Pokémon only, and one
/// that picks "1 other Pokémon (either yours or your opponent's)" gets a spread that may also hit
/// the attacker's own Benched Pokémon.
pub proof fn lemma_random_spread_targets(map: EffectMechanicMap, text: Seq<char>)
    requires
        effect_mechanic_table(map.entries@),
    ensures
        map.lookup(text) matches Some(Mechanic::RandomSpreadDamage { include_own_bench, .. }) ==> {
            &&& starts_with(text, "1 of your opponent's Pokémon is chosen at random"@) ==> !include_own_bench
            &&& starts_with(text, "1 other Pokémon (either yours or your opponent's)"@) ==> include_own_bench
        },
{
    let es = map.entries@;
    lemma_spread_upto_46(es);
    lemma_lookup_from_entry(es, text, es.len() as int);
    if let Some(m) = map.lookup(text) {
        let k = choose|k: int| 0 <= k < es.len() && #[trigger] es[k].1 == m && es[k].0@ == text;
        assert(spread_entry_faithful(es[k]));
    }
}

} // verus!
