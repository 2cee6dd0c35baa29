use vstd::prelude::*;
use crate::models::attribute::{AttributeKind, Attributes, attribute_at};
use crate::models::grade::{Grade, grade_index};
use crate::models::class::{CharacterClass, ClassDefinition};
use crate::models::skill::MasteryRank;

verus! {

/// Base attribute points earned per level before grade scaling.
pub const BASE_ATTRIBUTE_POINTS_PER_LEVEL: u32 = 3;

/// Highest level a character can reach within a grade.
pub const MAX_LEVEL: u32 = 100;

/// A skill attached to a character, tracking current rank and level.
/// References a skill definition by name (looked up from the library at runtime).
#[derive(Debug, Clone)]
pub struct CharacterSkill {
    pub definition_name: String,
    pub rank: MasteryRank,
    pub level: u32,
}

/// An innate skill attached to a character, tracking current level.
/// References an innate skill definition by name.
#[derive(Debug, Clone)]
pub struct CharacterInnateSkill {
    pub definition_name: String,
    pub level: u32,
}

/// A tree attached to a character, tracking points invested.
/// References a tree definition by name.
#[derive(Debug, Clone)]
pub struct CharacterTree {
    pub definition_name: String,
    pub current_points: u32,
    pub max_points: u32,
}

/// The main character struct: holds all progression state.
/// Created at Grade G, Level 0 with initial attributes.
///
/// Experience is an IEEE-754 double held by its bit pattern (`xp_bits`):
/// the library stores it and resets it to zero (bit pattern 0), and never
/// does arithmetic on it.
#[derive(Debug, Clone)]
pub struct Character {
    pub name: String,
    pub grade: Grade,
    pub race: String,
    pub level: u32,
    /// Bit pattern of the experience points.
    pub xp_bits: u64,
    pub attributes: Attributes,
    pub unspent_attribute_points: u32,
    pub skills: Vec<CharacterSkill>,
    pub innate_skill: Option<CharacterInnateSkill>,
    pub classes: Vec<CharacterClass>,
    pub class_slots: u32,
    /// Extra attribute points per level granted by bonuses.
    pub bonus_attribute_points_per_level: u32,
}

/// A character skill with its name as a character sequence.
pub struct CharacterSkillView {
    pub name: Seq<char>,
    pub rank: MasteryRank,
    pub level: u32,
}

impl View for CharacterSkill {
    type V = CharacterSkillView;

    open spec fn view(&self) -> CharacterSkillView {
        CharacterSkillView { name: self.definition_name@, rank: self.rank, level: self.level }
    }
}

/// A character's innate skill with its name as a character sequence.
pub struct CharacterInnateSkillView {
    pub name: Seq<char>,
    pub level: u32,
}

impl View for CharacterInnateSkill {
    type V = CharacterInnateSkillView;

    open spec fn view(&self) -> CharacterInnateSkillView {
        CharacterInnateSkillView { name: self.definition_name@, level: self.level }
    }
}

/// A character with its texts as character sequences and its lists as sequences.
pub struct CharacterView {
    pub name: Seq<char>,
    pub grade: Grade,
    pub race: Seq<char>,
    pub level: u32,
    pub xp_bits: u64,
    pub attributes: Attributes,
    pub unspent_attribute_points: u32,
    pub skills: Seq<CharacterSkillView>,
    pub innate_skill: Option<CharacterInnateSkillView>,
    pub classes: Seq<crate::models::class::CharacterClassView>,
    pub class_slots: u32,
    pub bonus_attribute_points_per_level: u32,
}

/// The views of a list of character skills.
pub open spec fn skills_view(v: Seq<CharacterSkill>) -> Seq<CharacterSkillView> {
    v.map_values(|s: CharacterSkill| s@)
}

/// The views of a list of character classes.
pub open spec fn classes_view(v: Seq<CharacterClass>) -> Seq<crate::models::class::CharacterClassView> {
    v.map_values(|c: CharacterClass| c@)
}

impl View for Character {
    type V = CharacterView;

    open spec fn view(&self) -> CharacterView {
        CharacterView {
            name: self.name@,
            grade: self.grade,
            race: self.race@,
            level: self.level,
            xp_bits: self.xp_bits,
            attributes: self.attributes,
            unspent_attribute_points: self.unspent_attribute_points,
            skills: skills_view(self.skills@),
            innate_skill: match self.innate_skill {
                Some(i) => Some(i@),
                None => None,
            },
            classes: classes_view(self.classes@),
            class_slots: self.class_slots,
            bonus_attribute_points_per_level: self.bonus_attribute_points_per_level,
        }
    }
}

/// Two to the power `n`.
pub open spec fn pow2(n: nat) -> nat
    decreases n,
{
    if n == 0 { 1 } else { 2 * pow2((n - 1) as nat) }
}

/// The first class definition in the library with the given name.
pub open spec fn find_class(lib: Seq<ClassDefinition>, name: Seq<char>) -> Option<ClassDefinition>
    decreases lib.len(),
{
    if lib.len() == 0 {
        None
    } else if lib[0].name@ == name {
        Some(lib[0])
    } else {
        find_class(lib.drop_first(), name)
    }
}

/// The per-level bonus a class definition grants to one attribute
/// (`Some(kind)`) or to the free point pool (`None`).
pub open spec fn definition_bonus(d: ClassDefinition, slot: Option<AttributeKind>) -> nat {
    match slot {
        Some(AttributeKind::Strength) => d.bonus_str as nat,
        Some(AttributeKind::Agility) => d.bonus_agi as nat,
        Some(AttributeKind::Endurance) => d.bonus_end as nat,
        Some(AttributeKind::Intelligence) => d.bonus_int as nat,
        Some(AttributeKind::Wisdom) => d.bonus_wis as nat,
        Some(AttributeKind::Perception) => d.bonus_per as nat,
        None => d.bonus_free_points as nat,
    }
}

/// The bonus a character's class grants per level, or 0 when its definition
/// is missing from the library.
pub open spec fn class_bonus(c: CharacterClass, lib: Seq<ClassDefinition>, slot: Option<AttributeKind>) -> nat {
    match find_class(lib, c.definition_name@) {
        Some(d) => definition_bonus(d, slot),
        None => 0,
    }
}

/// Sum of the per-level bonuses of a list of classes.
pub open spec fn classes_bonus(classes: Seq<CharacterClass>, lib: Seq<ClassDefinition>, slot: Option<AttributeKind>) -> nat
    decreases classes.len(),
{
    if classes.len() == 0 {
        0
    } else {
        classes_bonus(classes.drop_last(), lib, slot) + class_bonus(classes.last(), lib, slot)
    }
}

/// Attributes after one round of class bonuses.
pub open spec fn attributes_with_bonus(a: Attributes, classes: Seq<CharacterClass>, lib: Seq<ClassDefinition>) -> Attributes {
    Attributes {
        strength: (a.strength + classes_bonus(classes, lib, Some(AttributeKind::Strength))) as u32,
        agility: (a.agility + classes_bonus(classes, lib, Some(AttributeKind::Agility))) as u32,
        endurance: (a.endurance + classes_bonus(classes, lib, Some(AttributeKind::Endurance))) as u32,
        intelligence: (a.intelligence + classes_bonus(classes, lib, Some(AttributeKind::Intelligence))) as u32,
        wisdom: (a.wisdom + classes_bonus(classes, lib, Some(AttributeKind::Wisdom))) as u32,
        perception: (a.perception + classes_bonus(classes, lib, Some(AttributeKind::Perception))) as u32,
    }
}

/// Whether one round of class bonuses fits in the u32 counters.
pub open spec fn bonuses_fit(c: Character, lib: Seq<ClassDefinition>) -> bool {
    &&& forall|k: AttributeKind| #[trigger] c.attributes.value(k) + classes_bonus(c.classes@, lib, Some(k)) <= u32::MAX
    &&& c.unspent_attribute_points + classes_bonus(c.classes@, lib, None) <= u32::MAX
}

/// The character after one round of class bonuses.
pub open spec fn with_class_bonuses(c: Character, lib: Seq<ClassDefinition>) -> Character {
    Character {
        attributes: attributes_with_bonus(c.attributes, c.classes@, lib),
        unspent_attribute_points: (c.unspent_attribute_points + classes_bonus(c.classes@, lib, None)) as u32,
        ..c
    }
}

/// Attribute points earned per level: (base + bonus) * 2^grade.
pub open spec fn points_per_level(c: Character) -> nat {
    ((BASE_ATTRIBUTE_POINTS_PER_LEVEL + c.bonus_attribute_points_per_level) as nat) * pow2(grade_index(c.grade))
}

/// Whether one level-up fits in the u32 counters.
pub open spec fn level_up_fits(c: Character, lib: Seq<ClassDefinition>) -> bool {
    let gained = Character {
        level: (c.level + 1) as u32,
        unspent_attribute_points: (c.unspent_attribute_points + points_per_level(c)) as u32,
        ..c
    };
    &&& c.level < u32::MAX
    &&& points_per_level(c) <= u32::MAX
    &&& c.unspent_attribute_points + points_per_level(c) <= u32::MAX
    &&& bonuses_fit(gained, lib)
}

/// The character after one level-up: the level rises by one, the grade's
/// attribute points go to the unspent pool, then every class's bonuses apply.
pub open spec fn leveled(c: Character, lib: Seq<ClassDefinition>) -> Character {
    with_class_bonuses(
        Character {
            level: (c.level + 1) as u32,
            unspent_attribute_points: (c.unspent_attribute_points + points_per_level(c)) as u32,
            ..c
        },
        lib,
    )
}

/// The character after up to `n` level-ups, stopping at the level cap.
pub open spec fn level_ups(c: Character, lib: Seq<ClassDefinition>, n: nat) -> Character
    decreases n,
{
    if n == 0 || c.level >= MAX_LEVEL {
        c
    } else {
        level_ups(leveled(c, lib), lib, (n - 1) as nat)
    }
}

/// Whether every level-up of `level_ups(c, lib, n)` fits in the u32 counters.
pub open spec fn level_ups_fit(c: Character, lib: Seq<ClassDefinition>, n: nat) -> bool
    decreases n,
{
    if n == 0 || c.level >= MAX_LEVEL {
        true
    } else {
        level_up_fits(c, lib) && level_ups_fit(leveled(c, lib), lib, (n - 1) as nat)
    }
}

/// The character after moving to the next grade: level and experience reset.
pub open spec fn graded_up(c: Character, next: Grade) -> Character {
    Character { grade: next, level: 0, xp_bits: 0, ..c }
}

/// Index of the first class definition with the given name, if any.
pub fn find_class_index(lib: &[ClassDefinition], name: &String) -> (r: Option<usize>)
    ensures
        match r {
            Some(i) => i < lib@.len() && find_class(lib@, name@) == Some(lib@[i as int]),
            None => find_class(lib@, name@) is None,
        },
{
    let mut i: usize = 0;
    assert(lib@.subrange(0, lib@.len() as int) =~= lib@);
    while i < lib.len()
        invariant
            i <= lib@.len(),
            find_class(lib@, name@) == find_class(lib@.subrange(i as int, lib@.len() as int), name@),
        decreases lib@.len() - i,
    {
        let ghost rest = lib@.subrange(i as int, lib@.len() as int);
        if lib[i].name == *name {
            return Some(i);
        }
        assert(rest.drop_first() =~= lib@.subrange(i + 1, lib@.len() as int));
        i = i + 1;
    }
    assert(lib@.subrange(i as int, lib@.len() as int).len() == 0);
    None
}

impl Character {
    /// Create a new character at Grade G, Level 0 with the given attributes.
    pub fn new(name: String, attributes: Attributes, innate_skill: Option<CharacterInnateSkill>) -> (c: Self)
        ensures
            c.name == name,
            c.grade == Grade::G,
            c.race@ == "Human"@,
            c.level == 0,
            c.xp_bits == 0,
            c.attributes == attributes,
            c.unspent_attribute_points == 0,
            c.skills@.len() == 0,
            c.innate_skill == innate_skill,
            c.classes@.len() == 0,
            c.class_slots == 1,
            c.bonus_attribute_points_per_level == 0,
    {
        Self {
            name,
            grade: Grade::G,
            race: "Human".to_owned(),
            level: 0,
            xp_bits: 0,
            attributes,
            unspent_attribute_points: 0,
            skills: Vec::new(),
            innate_skill,
            classes: Vec::new(),
            class_slots: 1,
            bonus_attribute_points_per_level: 0,
        }
    }

    /// Attribute points earned per level-up (free/unspent pool).
    /// Formula: (base + bonus) * 2^grade_numeric. Base is 3.
    pub fn attribute_points_per_level(&self) -> (p: u32)
        requires
            points_per_level(*self) <= u32::MAX,
        ensures
            p == points_per_level(*self),
    {
        let n = self.grade.numeric();
        let mut scale: u64 = 1;
        let mut i: u32 = 0;
        while i < n
            invariant
                i <= n <= 9,
                scale == pow2(i as nat),
            decreases n - i,
        {
            proof { lemma_pow2_bound(i as nat); }
            scale = scale * 2;
            i = i + 1;
        }
        let base: u64 = BASE_ATTRIBUTE_POINTS_PER_LEVEL as u64 + self.bonus_attribute_points_per_level as u64;
        proof {
            lemma_pow2_bound(n as nat);
            assert(base * scale <= (u32::MAX as nat + 3) * 512) by (nonlinear_arith)
                requires base <= u32::MAX as nat + 3, scale <= 512;
        }
        (base * scale) as u32
    }

    /// Apply per-level bonuses from all active classes: fixed stat bonuses go
    /// directly to attributes, free points go to the unspent pool. Classes
    /// whose definition is missing from the library grant nothing.
    pub fn apply_class_level_bonuses(&mut self, class_library: &[ClassDefinition])
        requires
            bonuses_fit(*old(self), class_library@),
        ensures
            *final(self) == with_class_bonuses(*old(self), class_library@),
    {
        let ghost start = *self;
        let ghost lib = class_library@;
        let n = self.classes.len();
        let mut i: usize = 0;
        while i < n
            invariant
                n == self.classes@.len(),
                i <= n,
                lib == class_library@,
                self.classes == start.classes,
                bonuses_fit(start, lib),
                *self == (Character {
                    attributes: attributes_with_bonus(start.attributes, start.classes@.take(i as int), lib),
                    unspent_attribute_points: (start.unspent_attribute_points + classes_bonus(start.classes@.take(i as int), lib, None)) as u32,
                    ..start
                }),
            decreases n - i,
        {
            let ghost pre = start.classes@.take(i as int);
            let ghost post = start.classes@.take(i + 1);
            assert(post.drop_last() =~= pre);
            proof {
                lemma_classes_bonus_prefix(start.classes@, lib, (i + 1) as int);
            }
            if let Some(j) = find_class_index(class_library, &self.classes[i].definition_name) {
                let d = &class_library[j];
                let (s, a, e, t, w, p, f) = (
                    d.bonus_str, d.bonus_agi, d.bonus_end, d.bonus_int, d.bonus_wis, d.bonus_per,
                    d.bonus_free_points,
                );
                proof {
                    lemma_prefix_fits(start, lib, i as int);
                    lemma_prefix_fits(start, lib, (i + 1) as int);
                    assert(class_bonus(start.classes@[i as int], lib, Some(AttributeKind::Strength)) == s);
                    assert(class_bonus(start.classes@[i as int], lib, Some(AttributeKind::Agility)) == a);
                    assert(class_bonus(start.classes@[i as int], lib, Some(AttributeKind::Endurance)) == e);
                    assert(class_bonus(start.classes@[i as int], lib, Some(AttributeKind::Intelligence)) == t);
                    assert(class_bonus(start.classes@[i as int], lib, Some(AttributeKind::Wisdom)) == w);
                    assert(class_bonus(start.classes@[i as int], lib, Some(AttributeKind::Perception)) == p);
                    assert(class_bonus(start.classes@[i as int], lib, None) == f);
                    assert(start.attributes.value(AttributeKind::Strength) + classes_bonus(post, lib, Some(AttributeKind::Strength)) <= u32::MAX);
                    assert(start.attributes.value(AttributeKind::Agility) + classes_bonus(post, lib, Some(AttributeKind::Agility)) <= u32::MAX);
                    assert(start.attributes.value(AttributeKind::Endurance) + classes_bonus(post, lib, Some(AttributeKind::Endurance)) <= u32::MAX);
                    assert(start.attributes.value(AttributeKind::Intelligence) + classes_bonus(post, lib, Some(AttributeKind::Intelligence)) <= u32::MAX);
                    assert(start.attributes.value(AttributeKind::Wisdom) + classes_bonus(post, lib, Some(AttributeKind::Wisdom)) <= u32::MAX);
                    assert(start.attributes.value(AttributeKind::Perception) + classes_bonus(post, lib, Some(AttributeKind::Perception)) <= u32::MAX);
                    assert(start.attributes.value(AttributeKind::Strength) + classes_bonus(pre, lib, Some(AttributeKind::Strength)) <= u32::MAX);
                    assert(start.attributes.value(AttributeKind::Agility) + classes_bonus(pre, lib, Some(AttributeKind::Agility)) <= u32::MAX);
                    assert(start.attributes.value(AttributeKind::Endurance) + classes_bonus(pre, lib, Some(AttributeKind::Endurance)) <= u32::MAX);
                    assert(start.attributes.value(AttributeKind::Intelligence) + classes_bonus(pre, lib, Some(AttributeKind::Intelligence)) <= u32::MAX);
                    assert(start.attributes.value(AttributeKind::Wisdom) + classes_bonus(pre, lib, Some(AttributeKind::Wisdom)) <= u32::MAX);
                    assert(start.attributes.value(AttributeKind::Perception) + classes_bonus(pre, lib, Some(AttributeKind::Perception)) <= u32::MAX);
                }
                if s > 0 { self.attributes.add(AttributeKind::Strength, s); }
                if a > 0 { self.attributes.add(AttributeKind::Agility, a); }
                if e > 0 { self.attributes.add(AttributeKind::Endurance, e); }
                if t > 0 { self.attributes.add(AttributeKind::Intelligence, t); }
                if w > 0 { self.attributes.add(AttributeKind::Wisdom, w); }
                if p > 0 { self.attributes.add(AttributeKind::Perception, p); }
                self.unspent_attribute_points = self.unspent_attribute_points + f;
            }
            i = i + 1;
        }
        assert(start.classes@.take(n as int) =~= start.classes@);
    }

    /// Whether one level-up fits in the u32 counters.
    pub fn can_level_up(&self, class_library: &[ClassDefinition]) -> (b: bool)
        ensures
            b == level_up_fits(*self, class_library@),
    {
        let ghost lib = class_library@;
        if self.level == u32::MAX {
            return false;
        }
        let n = self.grade.numeric();
        let mut scale: u64 = 1;
        let mut i: u32 = 0;
        while i < n
            invariant
                i <= n <= 9,
                scale == pow2(i as nat),
            decreases n - i,
        {
            proof { lemma_pow2_bound(i as nat); }
            scale = scale * 2;
            i = i + 1;
        }
        let base: u64 = BASE_ATTRIBUTE_POINTS_PER_LEVEL as u64 + self.bonus_attribute_points_per_level as u64;
        proof {
            lemma_pow2_bound(n as nat);
            assert(base * scale <= (u32::MAX as nat + 3) * 512) by (nonlinear_arith)
                requires base <= u32::MAX as nat + 3, scale <= 512;
        }
        let ppl: u64 = base * scale;
        if ppl > u32::MAX as u64 {
            return false;
        }
        let unspent: u64 = self.unspent_attribute_points as u64 + ppl;
        if unspent > u32::MAX as u64 {
            return false;
        }
        let free = self.total_class_bonus(class_library, None);
        if free.is_none() || unspent + free.unwrap() as u64 > u32::MAX as u64 {
            return false;
        }
        let mut attrs_ok = true;
        let mut k: usize = 0;
        while k < 6
            invariant
                k <= 6,
                lib == class_library@,
                attrs_ok == (forall|m: int| 0 <= m < k ==> #[trigger] self.attributes.value(attribute_at(m))
                    + classes_bonus(self.classes@, lib, Some(attribute_at(m))) <= u32::MAX),
            decreases 6 - k,
        {
            let kind = AttributeKind::from_index(k);
            let b = self.total_class_bonus(class_library, Some(kind));
            let ghost fits_k = self.attributes.value(attribute_at(k as int))
                + classes_bonus(self.classes@, lib, Some(attribute_at(k as int))) <= u32::MAX;
            let ghost prev_ok = attrs_ok;
            if b.is_none() || self.attributes.get(kind) as u64 + b.unwrap() as u64 > u32::MAX as u64 {
                attrs_ok = false;
            }
            assert(attrs_ok == (prev_ok && fits_k));
            assert((forall|m: int| 0 <= m < k + 1 ==> #[trigger] self.attributes.value(attribute_at(m))
                + classes_bonus(self.classes@, lib, Some(attribute_at(m))) <= u32::MAX) == (prev_ok && fits_k));
            k = k + 1;
        }
        proof {
            if attrs_ok {
                assert forall|kk: AttributeKind| #[trigger] self.attributes.value(kk) + classes_bonus(self.classes@, lib, Some(kk)) <= u32::MAX by {
                    let m = crate::models::attribute::attribute_index(kk) as int;
                    assert(attribute_at(m) == kk);
                }
            } else {
                let m = choose|m: int| 0 <= m < 6 && !(#[trigger] self.attributes.value(attribute_at(m))
                    + classes_bonus(self.classes@, lib, Some(attribute_at(m))) <= u32::MAX);
                let gained = Character {
                    level: (self.level + 1) as u32,
                    unspent_attribute_points: (self.unspent_attribute_points + points_per_level(*self)) as u32,
                    ..*self
                };
                assert(gained.attributes.value(attribute_at(m)) + classes_bonus(gained.classes@, lib, Some(attribute_at(m))) > u32::MAX);
            }
        }
        attrs_ok
    }

    /// Sum of one per-level class bonus over this character's classes, or
    /// `None` when the sum does not fit in a u32.
    fn total_class_bonus(&self, class_library: &[ClassDefinition], slot: Option<AttributeKind>) -> (r: Option<u32>)
        ensures
            match r {
                Some(v) => v == classes_bonus(self.classes@, class_library@, slot),
                None => classes_bonus(self.classes@, class_library@, slot) > u32::MAX,
            },
    {
        let ghost lib = class_library@;
        let n = self.classes.len();
        let mut total: u64 = 0;
        let mut i: usize = 0;
        while i < n
            invariant
                n == self.classes@.len(),
                i <= n,
                lib == class_library@,
                total == classes_bonus(self.classes@.take(i as int), lib, slot),
                total <= u32::MAX,
            decreases n - i,
        {
            proof {
                lemma_classes_bonus_prefix(self.classes@, lib, (i + 1) as int);
                assert(self.classes@.take(i + 1).drop_last() =~= self.classes@.take(i as int));
            }
            let add: u32 = match find_class_index(class_library, &self.classes[i].definition_name) {
                Some(j) => {
                    let d = &class_library[j];
                    match slot {
                        Some(AttributeKind::Strength) => d.bonus_str,
                        Some(AttributeKind::Agility) => d.bonus_agi,
                        Some(AttributeKind::Endurance) => d.bonus_end,
                        Some(AttributeKind::Intelligence) => d.bonus_int,
                        Some(AttributeKind::Wisdom) => d.bonus_wis,
                        Some(AttributeKind::Perception) => d.bonus_per,
                        None => d.bonus_free_points,
                    }
                },
                None => 0,
            };
            total = total + add as u64;
            i = i + 1;
            if total > u32::MAX as u64 {
                proof {
                    lemma_classes_bonus_grows(self.classes@, lib, slot, i as int);
                }
                return None;
            }
        }
        assert(self.classes@.take(n as int) =~= self.classes@);
        Some(total as u32)
    }

    /// Apply one level-up if it fits in the u32 counters: the level rises by
    /// one, the grade's attribute points go to the unspent pool and every
    /// class's bonuses apply. Returns whether it was applied; when it does
    /// not fit the character is left unchanged.
    pub fn try_level_up(&mut self, class_library: &[ClassDefinition]) -> (ok: bool)
        ensures
            ok == level_up_fits(*old(self), class_library@),
            ok ==> *final(self) == leveled(*old(self), class_library@),
            !ok ==> *final(self) == *old(self),
    {
        if !self.can_level_up(class_library) {
            return false;
        }
        let ppl = self.attribute_points_per_level();
        self.level = self.level + 1;
        self.unspent_attribute_points = self.unspent_attribute_points + ppl;
        self.apply_class_level_bonuses(class_library);
        true
    }

    /// Apply up to `n` level-ups, stopping at the level cap. Returns false,
    /// having stopped before the offending level-up, when one of them would
    /// not fit in the u32 counters.
    pub fn level_up_times(&mut self, n: u32, class_library: &[ClassDefinition]) -> (completed: bool)
        ensures
            completed == level_ups_fit(*old(self), class_library@, n as nat),
            completed ==> *final(self) == level_ups(*old(self), class_library@, n as nat),
    {
        let ghost lib = class_library@;
        let ghost start = *self;
        let mut i: u32 = 0;
        while i < n
            invariant
                i <= n,
                lib == class_library@,
                start == *old(self),
                level_ups_fit(start, lib, n as nat) == level_ups_fit(*self, lib, (n - i) as nat),
                level_ups(start, lib, n as nat) == level_ups(*self, lib, (n - i) as nat),
            decreases n - i,
        {
            if self.level >= MAX_LEVEL {
                assert(level_ups_fit(*self, lib, (n - i) as nat));
                assert(level_ups(*self, lib, (n - i) as nat) == *self);
                return true;
            }
            let ghost before = *self;
            if !self.try_level_up(class_library) {
                assert(!level_ups_fit(before, lib, (n - i) as nat));
                return false;
            }
            assert(level_ups_fit(before, lib, (n - i) as nat) == level_ups_fit(*self, lib, (n - i - 1) as nat));
            assert(level_ups(before, lib, (n - i) as nat) == level_ups(*self, lib, (n - i - 1) as nat));
            i = i + 1;
        }
        true
    }

    /// Move to the next grade, resetting level and experience. Returns false,
    /// leaving the character unchanged, at the top grade.
    pub fn grade_up(&mut self) -> (ok: bool)
        ensures
            match crate::models::grade::grade_next(old(self).grade) {
                Some(g) => ok && *final(self) == graded_up(*old(self), g),
                None => !ok && *final(self) == *old(self),
            },
            ok ==> final(self).level == 0 && final(self).xp_bits == 0
                && grade_index(final(self).grade) == grade_index(old(self).grade) + 1,
    {
        proof {
            if grade_index(self.grade) < 9 {
                crate::models::grade::lemma_numeric_grade_roundtrip(grade_index(self.grade) + 1int);
            }
        }
        match self.grade.next() {
            Some(g) => {
                self.grade = g;
                self.level = 0;
                self.xp_bits = 0;
                true
            },
            None => false,
        }
    }
}

/// A grade-up moves to the grade right above and starts it afresh: level
/// and experience are 0, and everything else about the character stays.
pub proof fn lemma_grade_up_starts_afresh(c: Character)
    requires
        crate::models::grade::grade_next(c.grade) is Some,
    ensures
        ({
            let u = graded_up(c, crate::models::grade::grade_next(c.grade)->0);
            &&& grade_index(u.grade) == grade_index(c.grade) + 1
            &&& u.level == 0
            &&& u.xp_bits == 0
            &&& u == (Character { grade: u.grade, level: u.level, xp_bits: u.xp_bits, ..c })
        }),
{
    crate::models::grade::lemma_numeric_grade_roundtrip(grade_index(c.grade) + 1int);
}

/// For a character with one class, a round of class bonuses adds each of
/// the class's per-level bonuses to the attribute it is named for (bonus_str
/// to strength, bonus_agi to agility, bonus_end to endurance, bonus_int to
/// intelligence, bonus_wis to wisdom, bonus_per to perception) and its free
/// points to the unspent pool, and changes nothing else.
pub proof fn lemma_single_class_bonuses(c: Character, lib: Seq<ClassDefinition>, d: ClassDefinition)
    requires
        c.classes@.len() == 1,
        find_class(lib, c.classes@[0].definition_name@) == Some(d),
        bonuses_fit(c, lib),
    ensures
        ({
            let u = with_class_bonuses(c, lib);
            &&& u.attributes.strength == c.attributes.strength + d.bonus_str
            &&& u.attributes.agility == c.attributes.agility + d.bonus_agi
            &&& u.attributes.endurance == c.attributes.endurance + d.bonus_end
            &&& u.attributes.intelligence == c.attributes.intelligence + d.bonus_int
            &&& u.attributes.wisdom == c.attributes.wisdom + d.bonus_wis
            &&& u.attributes.perception == c.attributes.perception + d.bonus_per
            &&& u.unspent_attribute_points == c.unspent_attribute_points + d.bonus_free_points
            &&& u == (Character { attributes: u.attributes, unspent_attribute_points: u.unspent_attribute_points, ..c })
        }),
{
    let cls = c.classes@;
    assert(cls.drop_last().len() == 0);
    assert(cls.last() == cls[0]);
    assert forall|slot: Option<AttributeKind>| #[trigger] classes_bonus(cls, lib, slot) == definition_bonus(d, slot) by {
        assert(classes_bonus(cls.drop_last(), lib, slot) == 0);
    }
    assert(c.attributes.value(AttributeKind::Strength) + classes_bonus(cls, lib, Some(AttributeKind::Strength)) <= u32::MAX);
    assert(c.attributes.value(AttributeKind::Agility) + classes_bonus(cls, lib, Some(AttributeKind::Agility)) <= u32::MAX);
    assert(c.attributes.value(AttributeKind::Endurance) + classes_bonus(cls, lib, Some(AttributeKind::Endurance)) <= u32::MAX);
    assert(c.attributes.value(AttributeKind::Intelligence) + classes_bonus(cls, lib, Some(AttributeKind::Intelligence)) <= u32::MAX);
    assert(c.attributes.value(AttributeKind::Wisdom) + classes_bonus(cls, lib, Some(AttributeKind::Wisdom)) <= u32::MAX);
    assert(c.attributes.value(AttributeKind::Perception) + classes_bonus(cls, lib, Some(AttributeKind::Perception)) <= u32::MAX);
    assert(classes_bonus(cls, lib, None) == d.bonus_free_points);
}

/// Two to a power of at most 9 is at most 512.
pub proof fn lemma_pow2_bound(n: nat)
    requires
        n <= 9,
    ensures
        1 <= pow2(n) <= 512,
        pow2(n + 1) == 2 * pow2(n),
{
    reveal_with_fuel(pow2, 10);
    lemma_pow2_monotone(n, 9);
}

/// Powers of two grow with the exponent.
pub proof fn lemma_pow2_monotone(a: nat, b: nat)
    requires
        a <= b,
    ensures
        1 <= pow2(a) <= pow2(b),
    decreases b,
{
    if b > a {
        lemma_pow2_monotone(a, (b - 1) as nat);
    } else if a > 0 {
        lemma_pow2_monotone((a - 1) as nat, (a - 1) as nat);
    }
}

/// When a whole round of bonuses fits, so does every partial round.
pub proof fn lemma_prefix_fits(c: Character, lib: Seq<ClassDefinition>, i: int)
    requires
        bonuses_fit(c, lib),
        0 <= i <= c.classes@.len(),
    ensures
        forall|k: AttributeKind| #[trigger] c.attributes.value(k) + classes_bonus(c.classes@.take(i), lib, Some(k)) <= u32::MAX,
        c.unspent_attribute_points + classes_bonus(c.classes@.take(i), lib, None) <= u32::MAX,
{
    assert forall|k: AttributeKind| #[trigger] c.attributes.value(k) + classes_bonus(c.classes@.take(i), lib, Some(k)) <= u32::MAX by {
        lemma_classes_bonus_grows(c.classes@, lib, Some(k), i);
        assert(c.attributes.value(k) + classes_bonus(c.classes@, lib, Some(k)) <= u32::MAX);
    }
    lemma_classes_bonus_grows(c.classes@, lib, None, i);
}

/// The bonus sum over a prefix grows by the bonus of the next class.
pub proof fn lemma_classes_bonus_prefix(classes: Seq<CharacterClass>, lib: Seq<ClassDefinition>, i: int)
    requires
        0 < i <= classes.len(),
    ensures
        forall|slot: Option<AttributeKind>| #[trigger] classes_bonus(classes.take(i), lib, slot)
            == classes_bonus(classes.take(i - 1), lib, slot) + class_bonus(classes[i - 1], lib, slot),
{
    assert(classes.take(i).drop_last() =~= classes.take(i - 1));
}

/// A bonus sum over a prefix never exceeds the sum over the whole list.
pub proof fn lemma_classes_bonus_grows(classes: Seq<CharacterClass>, lib: Seq<ClassDefinition>, slot: Option<AttributeKind>, i: int)
    requires
        0 <= i <= classes.len(),
    ensures
        classes_bonus(classes.take(i), lib, slot) <= classes_bonus(classes, lib, slot),
    decreases classes.len() - i,
{
    if i < classes.len() {
        lemma_classes_bonus_grows(classes, lib, slot, i + 1);
        lemma_classes_bonus_prefix(classes, lib, i + 1);
    } else {
        assert(classes.take(i) =~= classes);
    }
}

/// Levelling up `n` times from a level within the cap rises by `n` levels
/// but never past the level cap, and keeps the grade.
pub proof fn lemma_level_ups_capped(c: Character, lib: Seq<ClassDefinition>, n: nat)
    requires
        c.level <= MAX_LEVEL,
    ensures
        level_ups(c, lib, n).level == (if c.level + n <= MAX_LEVEL { c.level + n } else { MAX_LEVEL as int }),
        level_ups(c, lib, n).grade == c.grade,
    decreases n,
{
    if n > 0 && c.level < MAX_LEVEL {
        lemma_level_ups_capped(leveled(c, lib), lib, (n - 1) as nat);
    }
}

/// Each level-up puts the grade's attribute points and the classes' free
/// points into the unspent pool.
pub proof fn lemma_level_up_grants_points(c: Character, lib: Seq<ClassDefinition>)
    requires
        level_up_fits(c, lib),
    ensures
        leveled(c, lib).level == c.level + 1,
        leveled(c, lib).unspent_attribute_points == c.unspent_attribute_points + points_per_level(c)
            + classes_bonus(c.classes@, lib, None),
{
}

} // verus!
