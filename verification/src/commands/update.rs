//! Updating a character: grade and level progression, skills, classes and
//! the distribution of attribute points.
use vstd::prelude::*;
use crate::collections::{keep_where, lemma_keep_where_len, lemma_keep_where_map, retain_where, position_where};
use crate::commands::{CommandError, CommandErrorOf, CommandErrorView, result_view};
use crate::commands::parse::{parse_attr_arg, parse_attr_spec};
use crate::models::attribute::AttributeKind;
use crate::models::character::{
    Character, CharacterSkill, CharacterSkillView, CharacterView, graded_up, level_ups,
    level_ups_fit, find_class, find_class_index,
};
use crate::models::class::{CharacterClass, CharacterClassView, ClassDefinition};
use crate::models::grade::grade_next;
use crate::models::skill::{MasteryRank, SkillDefinition};
use crate::text::strings_view;

verus! {

/// The changes an update asks for, applied in the order of the fields.
#[derive(Debug, Clone, Default)]
pub struct UpdateOpts {
    /// Number of level-ups to apply.
    pub level_up: Option<u32>,
    /// Advance to the next grade (resets level and experience).
    pub grade_up: bool,
    pub add_skill: Vec<String>,
    pub remove_skill: Vec<String>,
    pub add_class: Vec<String>,
    pub remove_class: Vec<String>,
    /// Attribute points to distribute, each as "kind:points".
    pub add_attr: Vec<String>,
    /// Attribute points to take back, each as "kind:points".
    pub remove_attr: Vec<String>,
    /// Kills to credit, each as "enemy_level:count".
    pub kill: Vec<String>,
    /// Whether to show the character afterwards.
    pub show: bool,
}

/// Apply `step` to each argument in turn, stopping at the first error.
pub open spec fn fold_steps<A>(
    c: CharacterView,
    args: Seq<A>,
    step: spec_fn(CharacterView, A) -> Result<CharacterView, CommandErrorView>,
) -> Result<CharacterView, CommandErrorView>
    decreases args.len(),
{
    if args.len() == 0 {
        Ok(c)
    } else {
        match fold_steps(c, args.drop_last(), step) {
            Ok(c1) => step(c1, args.last()),
            Err(e) => Err(e),
        }
    }
}

/// One more argument extends the fold by one step.
pub proof fn lemma_fold_steps_extend<A>(
    c: CharacterView,
    args: Seq<A>,
    step: spec_fn(CharacterView, A) -> Result<CharacterView, CommandErrorView>,
    i: int,
)
    requires
        0 <= i < args.len(),
    ensures
        fold_steps(c, args.take(i + 1), step) == match fold_steps(c, args.take(i), step) {
            Ok(c1) => step(c1, args[i]),
            Err(e) => Err(e),
        },
{
    assert(args.take(i + 1).drop_last() =~= args.take(i));
}

/// Once a fold has failed, further arguments keep the same error.
pub proof fn lemma_fold_steps_err_persists<A>(
    c: CharacterView,
    args: Seq<A>,
    step: spec_fn(CharacterView, A) -> Result<CharacterView, CommandErrorView>,
    k: int,
)
    requires
        0 <= k <= args.len(),
        fold_steps(c, args.take(k), step) is Err,
    ensures
        fold_steps(c, args, step) == fold_steps(c, args.take(k), step),
    decreases args.len() - k,
{
    if k < args.len() {
        lemma_fold_steps_extend(c, args, step, k);
        lemma_fold_steps_err_persists(c, args, step, k + 1);
    } else {
        assert(args.take(k) =~= args);
    }
}

/// A new skill entry: Novice rank, level 0.
pub open spec fn novice_skill(name: Seq<char>) -> CharacterSkillView {
    CharacterSkillView { name, rank: MasteryRank::Novice, level: 0 }
}

/// Whether a list of character skills has one with this name.
pub open spec fn has_skill_named(skills: Seq<CharacterSkillView>, name: Seq<char>) -> bool {
    exists|i: int| 0 <= i < skills.len() && #[trigger] skills[i].name == name
}

/// Whether the skill library has a skill with this name.
pub open spec fn library_has_skill(lib: Seq<SkillDefinition>, name: Seq<char>) -> bool {
    exists|i: int| 0 <= i < lib.len() && #[trigger] lib[i].name@ == name
}

/// Whether a list of character classes has one with this name.
pub open spec fn has_class_named(classes: Seq<CharacterClassView>, name: Seq<char>) -> bool {
    exists|i: int| 0 <= i < classes.len() && #[trigger] classes[i].name == name
}

/// Skills other than the one named.
pub open spec fn skill_not_named(name: Seq<char>) -> spec_fn(CharacterSkillView) -> bool {
    |s: CharacterSkillView| s.name != name
}

/// Classes other than the one named.
pub open spec fn class_not_named(name: Seq<char>) -> spec_fn(CharacterClassView) -> bool {
    |c: CharacterClassView| c.name != name
}

/// Adding one skill from the library.
pub open spec fn add_skill_result(c: CharacterView, name: Seq<char>, lib: Seq<SkillDefinition>) -> Result<CharacterView, CommandErrorView> {
    if has_skill_named(c.skills, name) {
        Err(CommandErrorOf::SkillAlreadyOwned(name))
    } else if !library_has_skill(lib, name) {
        Err(CommandErrorOf::SkillNotInLibrary(name))
    } else {
        Ok(CharacterView { skills: c.skills.push(novice_skill(name)), ..c })
    }
}

/// Removing one skill by name.
pub open spec fn remove_skill_result(c: CharacterView, name: Seq<char>) -> Result<CharacterView, CommandErrorView> {
    let kept = keep_where(c.skills, skill_not_named(name));
    if kept.len() == c.skills.len() {
        Err(CommandErrorOf::SkillNotOnCharacter(name))
    } else {
        Ok(CharacterView { skills: kept, ..c })
    }
}

/// The skills after granting a class's skills: each one not yet held is
/// added at Novice 0, in the class's order.
pub open spec fn grant_skills(skills: Seq<CharacterSkillView>, names: Seq<Seq<char>>) -> Seq<CharacterSkillView>
    decreases names.len(),
{
    if names.len() == 0 {
        skills
    } else {
        let s1 = grant_skills(skills, names.drop_last());
        if has_skill_named(s1, names.last()) { s1 } else { s1.push(novice_skill(names.last())) }
    }
}

/// Adding one class from the library, with the skills it grants.
pub open spec fn add_class_result(c: CharacterView, name: Seq<char>, lib: Seq<ClassDefinition>) -> Result<CharacterView, CommandErrorView> {
    if c.classes.len() as u32 >= c.class_slots {
        Err(CommandErrorOf::ClassSlotLimit)
    } else if has_class_named(c.classes, name) {
        Err(CommandErrorOf::ClassAlreadyOwned(name))
    } else {
        match find_class(lib, name) {
            None => Err(CommandErrorOf::ClassNotInLibrary(name)),
            Some(d) => Ok(CharacterView {
                skills: grant_skills(c.skills, strings_view(d.skills@)),
                classes: c.classes.push(CharacterClassView { name, level: 0, passive_rank: 0 }),
                ..c
            }),
        }
    }
}

/// Removing one class by name.
pub open spec fn remove_class_result(c: CharacterView, name: Seq<char>) -> Result<CharacterView, CommandErrorView> {
    let kept = keep_where(c.classes, class_not_named(name));
    if kept.len() == c.classes.len() {
        Err(CommandErrorOf::ClassNotOnCharacter(name))
    } else {
        Ok(CharacterView { classes: kept, ..c })
    }
}

/// Moving unspent points into an attribute.
pub open spec fn add_attr_result(c: CharacterView, arg: Seq<char>) -> Result<CharacterView, CommandErrorView> {
    match parse_attr_spec(arg) {
        Err(e) => Err(e),
        Ok((kind, points)) => {
            if c.unspent_attribute_points < points {
                Err(CommandErrorOf::NotEnoughPoints(c.unspent_attribute_points, points))
            } else if c.attributes.value(kind) + points > u32::MAX {
                Err(CommandErrorOf::Overflow)
            } else {
                Ok(CharacterView {
                    attributes: c.attributes.with_value(kind, (c.attributes.value(kind) + points) as u32),
                    unspent_attribute_points: (c.unspent_attribute_points - points) as u32,
                    ..c
                })
            }
        },
    }
}

/// Moving points from an attribute back to the unspent pool, never below 1.
pub open spec fn remove_attr_result(c: CharacterView, arg: Seq<char>) -> Result<CharacterView, CommandErrorView> {
    match parse_attr_spec(arg) {
        Err(e) => Err(e),
        Ok((kind, points)) => {
            if points == u32::MAX {
                Err(CommandErrorOf::Overflow)
            } else if c.attributes.value(kind) < points + 1 {
                Err(CommandErrorOf::CannotReduceBelowOne(kind))
            } else if c.unspent_attribute_points + points > u32::MAX {
                Err(CommandErrorOf::Overflow)
            } else {
                Ok(CharacterView {
                    attributes: c.attributes.with_value(kind, (c.attributes.value(kind) - points) as u32),
                    unspent_attribute_points: (c.unspent_attribute_points + points) as u32,
                    ..c
                })
            }
        },
    }
}

/// The step that adds one skill.
pub open spec fn add_skill_step(lib: Seq<SkillDefinition>) -> spec_fn(CharacterView, Seq<char>) -> Result<CharacterView, CommandErrorView> {
    |c: CharacterView, n: Seq<char>| add_skill_result(c, n, lib)
}

/// The step that removes one skill.
pub open spec fn remove_skill_step() -> spec_fn(CharacterView, Seq<char>) -> Result<CharacterView, CommandErrorView> {
    |c: CharacterView, n: Seq<char>| remove_skill_result(c, n)
}

/// The step that adds one class.
pub open spec fn add_class_step(lib: Seq<ClassDefinition>) -> spec_fn(CharacterView, Seq<char>) -> Result<CharacterView, CommandErrorView> {
    |c: CharacterView, n: Seq<char>| add_class_result(c, n, lib)
}

/// The step that removes one class.
pub open spec fn remove_class_step() -> spec_fn(CharacterView, Seq<char>) -> Result<CharacterView, CommandErrorView> {
    |c: CharacterView, n: Seq<char>| remove_class_result(c, n)
}

/// The step that distributes attribute points.
pub open spec fn add_attr_step() -> spec_fn(CharacterView, Seq<char>) -> Result<CharacterView, CommandErrorView> {
    |c: CharacterView, a: Seq<char>| add_attr_result(c, a)
}

/// The step that takes attribute points back.
pub open spec fn remove_attr_step() -> spec_fn(CharacterView, Seq<char>) -> Result<CharacterView, CommandErrorView> {
    |c: CharacterView, a: Seq<char>| remove_attr_result(c, a)
}

/// All roster changes of an update, in order: add skills, remove skills,
/// add classes, remove classes, add attribute points, remove attribute points.
pub open spec fn roster_result(
    c: CharacterView,
    add_skill: Seq<Seq<char>>,
    remove_skill: Seq<Seq<char>>,
    add_class: Seq<Seq<char>>,
    remove_class: Seq<Seq<char>>,
    add_attr: Seq<Seq<char>>,
    remove_attr: Seq<Seq<char>>,
    class_lib: Seq<ClassDefinition>,
    skill_lib: Seq<SkillDefinition>,
) -> Result<CharacterView, CommandErrorView> {
    match fold_steps(c, add_skill, add_skill_step(skill_lib)) {
        Err(e) => Err(e),
        Ok(c1) => match fold_steps(c1, remove_skill, remove_skill_step()) {
            Err(e) => Err(e),
            Ok(c2) => match fold_steps(c2, add_class, add_class_step(class_lib)) {
                Err(e) => Err(e),
                Ok(c3) => match fold_steps(c3, remove_class, remove_class_step()) {
                    Err(e) => Err(e),
                    Ok(c4) => match fold_steps(c4, add_attr, add_attr_step()) {
                        Err(e) => Err(e),
                        Ok(c5) => fold_steps(c5, remove_attr, remove_attr_step()),
                    },
                },
            },
        },
    }
}

/// Grade and level progression of an update: first the grade-up (refused at
/// the top grade), then the level-ups, stopping at the level cap.
pub open spec fn progression_result(c: Character, grade_up: bool, level_up: Option<u32>, lib: Seq<ClassDefinition>) -> Result<Character, CommandErrorView> {
    let graded = if grade_up {
        match grade_next(c.grade) {
            Some(g) => Ok(graded_up(c, g)),
            None => Err(CommandErrorOf::MaxGrade),
        }
    } else {
        Ok(c)
    };
    match graded {
        Err(e) => Err(e),
        Ok(c1) => match level_up {
            None => Ok(c1),
            Some(n) => if level_ups_fit(c1, lib, n as nat) {
                Ok(level_ups(c1, lib, n as nat))
            } else {
                Err(CommandErrorOf::Overflow)
            },
        },
    }
}

/// Whether the character has a skill with this name.
pub fn character_has_skill(skills: &Vec<CharacterSkill>, name: &String) -> (b: bool)
    ensures
        b == has_skill_named(crate::models::character::skills_view(skills@), name@),
{
    let r = position_where(
        skills,
        |s: &CharacterSkill| -> (b: bool)
            ensures b == (s.definition_name@ == name@)
        { s.definition_name == *name },
        Ghost(|s: CharacterSkill| s.definition_name@ == name@),
    );
    proof {
        let v = crate::models::character::skills_view(skills@);
        if r is None {
            assert forall|i: int| 0 <= i < v.len() implies !(#[trigger] v[i].name == name@) by {
                assert(v[i] == skills@[i]@);
            }
        } else {
            assert(v[r->0 as int].name == name@);
        }
    }
    r.is_some()
}

/// Whether the skill library has a skill with this name.
pub fn skill_library_has(lib: &[SkillDefinition], name: &String) -> (b: bool)
    ensures
        b == library_has_skill(lib@, name@),
{
    let mut i: usize = 0;
    while i < lib.len()
        invariant
            i <= lib@.len(),
            forall|j: int| 0 <= j < i ==> lib@[j].name@ != name@,
        decreases lib@.len() - i,
    {
        if lib[i].name == *name {
            return true;
        }
        i = i + 1;
    }
    false
}

/// Whether the character has a class with this name.
pub fn character_has_class(classes: &Vec<CharacterClass>, name: &String) -> (b: bool)
    ensures
        b == has_class_named(crate::models::character::classes_view(classes@), name@),
{
    let r = position_where(
        classes,
        |c: &CharacterClass| -> (b: bool)
            ensures b == (c.definition_name@ == name@)
        { c.definition_name == *name },
        Ghost(|c: CharacterClass| c.definition_name@ == name@),
    );
    proof {
        let v = crate::models::character::classes_view(classes@);
        if r is None {
            assert forall|i: int| 0 <= i < v.len() implies !(#[trigger] v[i].name == name@) by {
                assert(v[i] == classes@[i]@);
            }
        } else {
            assert(v[r->0 as int].name == name@);
        }
    }
    r.is_some()
}

/// Add one skill from the library at Novice 0; refused when the character
/// already has it or the library lacks it, leaving the character unchanged.
pub fn add_skill_to(c: &mut Character, name: &String, lib: &[SkillDefinition]) -> (r: Result<(), CommandError>)
    ensures
        match r {
            Ok(()) => add_skill_result(old(c)@, name@, lib@) == Ok::<CharacterView, CommandErrorView>(final(c)@),
            Err(e) => add_skill_result(old(c)@, name@, lib@) == Err::<CharacterView, CommandErrorView>(e@)
                && final(c)@ == old(c)@,
        },
{
    if character_has_skill(&c.skills, name) {
        return Err(CommandErrorOf::SkillAlreadyOwned(name.clone()));
    }
    if !skill_library_has(lib, name) {
        return Err(CommandErrorOf::SkillNotInLibrary(name.clone()));
    }
    let ghost before = c.skills@;
    c.skills.push(CharacterSkill { definition_name: name.clone(), rank: MasteryRank::Novice, level: 0 });
    assert(crate::models::character::skills_view(c.skills@) =~= crate::models::character::skills_view(before).push(novice_skill(name@)));
    Ok(())
}

/// Remove every skill with this name; refused, with the character unchanged,
/// when there is none.
pub fn remove_skill_from(c: &mut Character, name: &String) -> (r: Result<(), CommandError>)
    ensures
        match r {
            Ok(()) => remove_skill_result(old(c)@, name@) == Ok::<CharacterView, CommandErrorView>(final(c)@),
            Err(e) => remove_skill_result(old(c)@, name@) == Err::<CharacterView, CommandErrorView>(e@)
                && final(c)@ == old(c)@,
        },
{
    let ghost raw = c.skills@;
    let ghost f = |s: CharacterSkill| s@;
    let ghost keep = skill_not_named(name@);
    let before_len = c.skills.len();
    let ghost pred = |s: CharacterSkill| keep(f(s));
    retain_where(
        &mut c.skills,
        |s: &CharacterSkill| -> (b: bool)
            ensures b == (s.definition_name@ != name@)
        { !(s.definition_name == *name) },
        Ghost(pred),
    );
    proof {
        lemma_keep_where_map(raw, f, keep);
        assert(pred =~= (|x: CharacterSkill| keep(f(x))));
        assert(crate::models::character::skills_view(raw) =~= raw.map_values(f));
        assert(crate::models::character::skills_view(c.skills@) =~= keep_where(raw, pred).map_values(f));
        lemma_keep_where_len(raw, pred);
    }
    if c.skills.len() == before_len {
        proof {
            assert(c.skills@ == raw);
        }
        return Err(CommandErrorOf::SkillNotOnCharacter(name.clone()));
    }
    Ok(())
}

/// The character after taking a class: the skills the library's definition
/// grants that it does not hold yet (none when the library lacks the class),
/// then the class itself at level 0.
pub open spec fn granted_class(c: CharacterView, name: Seq<char>, lib: Seq<ClassDefinition>) -> CharacterView {
    CharacterView {
        skills: match find_class(lib, name) {
            Some(d) => grant_skills(c.skills, strings_view(d.skills@)),
            None => c.skills,
        },
        classes: c.classes.push(CharacterClassView { name, level: 0, passive_rank: 0 }),
        ..c
    }
}

/// Give the character a class with the skills its definition grants, with
/// no check of slots or duplicates.
pub fn grant_class(c: &mut Character, name: &String, lib: &[ClassDefinition])
    ensures
        final(c)@ == granted_class(old(c)@, name@, lib@),
        final(c).name == old(c).name,
{
    let ghost start = c@;
    match find_class_index(lib, name) {
        Some(j) => {
            let d = &lib[j];
            let ghost granted = strings_view(d.skills@);
            let mut k: usize = 0;
            while k < d.skills.len()
                invariant
                    k <= d.skills@.len(),
                    granted == strings_view(d.skills@),
                    c@ == (CharacterView { skills: grant_skills(start.skills, granted.take(k as int)), ..start }),
                    c.name == old(c).name,
                decreases d.skills@.len() - k,
            {
                assert(granted.take(k + 1).drop_last() =~= granted.take(k as int));
                let skill_name = &d.skills[k];
                if !character_has_skill(&c.skills, skill_name) {
                    let ghost before = c.skills@;
                    c.skills.push(CharacterSkill { definition_name: skill_name.clone(), rank: MasteryRank::Novice, level: 0 });
                    assert(crate::models::character::skills_view(c.skills@) =~= crate::models::character::skills_view(before).push(novice_skill(skill_name@)));
                }
                k = k + 1;
            }
            assert(granted.take(d.skills@.len() as int) =~= granted);
        },
        None => {},
    }
    let ghost before_classes = c.classes@;
    c.classes.push(CharacterClass { definition_name: name.clone(), level: 0, passive_rank: 0 });
    assert(crate::models::character::classes_view(c.classes@) =~= crate::models::character::classes_view(before_classes).push(CharacterClassView { name: name@, level: 0, passive_rank: 0 }));
}

/// Add one class from the library with the skills it grants; refused, with
/// the character unchanged, when the class slots are full, the character
/// already has the class, or the library lacks it.
pub fn add_class_to(c: &mut Character, name: &String, lib: &[ClassDefinition]) -> (r: Result<(), CommandError>)
    ensures
        match r {
            Ok(()) => add_class_result(old(c)@, name@, lib@) == Ok::<CharacterView, CommandErrorView>(final(c)@),
            Err(e) => add_class_result(old(c)@, name@, lib@) == Err::<CharacterView, CommandErrorView>(e@)
                && final(c)@ == old(c)@,
        },
{
    if c.classes.len() as u32 >= c.class_slots {
        return Err(CommandErrorOf::ClassSlotLimit);
    }
    if character_has_class(&c.classes, name) {
        return Err(CommandErrorOf::ClassAlreadyOwned(name.clone()));
    }
    if find_class_index(lib, name).is_none() {
        return Err(CommandErrorOf::ClassNotInLibrary(name.clone()));
    }
    grant_class(c, name, lib);
    Ok(())
}

/// Remove every class with this name; refused, with the character
/// unchanged, when there is none.
pub fn remove_class_from(c: &mut Character, name: &String) -> (r: Result<(), CommandError>)
    ensures
        match r {
            Ok(()) => remove_class_result(old(c)@, name@) == Ok::<CharacterView, CommandErrorView>(final(c)@),
            Err(e) => remove_class_result(old(c)@, name@) == Err::<CharacterView, CommandErrorView>(e@)
                && final(c)@ == old(c)@,
        },
{
    let ghost raw = c.classes@;
    let ghost f = |s: CharacterClass| s@;
    let ghost keep = class_not_named(name@);
    let before_len = c.classes.len();
    let ghost pred = |s: CharacterClass| keep(f(s));
    retain_where(
        &mut c.classes,
        |s: &CharacterClass| -> (b: bool)
            ensures b == (s.definition_name@ != name@)
        { !(s.definition_name == *name) },
        Ghost(pred),
    );
    proof {
        lemma_keep_where_map(raw, f, keep);
        assert(pred =~= (|x: CharacterClass| keep(f(x))));
        assert(crate::models::character::classes_view(raw) =~= raw.map_values(f));
        assert(crate::models::character::classes_view(c.classes@) =~= keep_where(raw, pred).map_values(f));
        lemma_keep_where_len(raw, pred);
    }
    if c.classes.len() == before_len {
        proof {
            assert(c.classes@ == raw);
        }
        return Err(CommandErrorOf::ClassNotOnCharacter(name.clone()));
    }
    Ok(())
}

/// Move unspent points into an attribute ("kind:points"); refused, with the
/// character unchanged, on a malformed argument, too few unspent points, or
/// an attribute that would exceed the largest u32.
pub fn add_attr_to(c: &mut Character, arg: &String) -> (r: Result<(), CommandError>)
    ensures
        match r {
            Ok(()) => add_attr_result(old(c)@, arg@) == Ok::<CharacterView, CommandErrorView>(final(c)@),
            Err(e) => add_attr_result(old(c)@, arg@) == Err::<CharacterView, CommandErrorView>(e@)
                && final(c)@ == old(c)@,
        },
{
    let (kind, points) = match parse_attr_arg(arg.as_str()) {
        Ok(p) => p,
        Err(e) => return Err(e),
    };
    if c.unspent_attribute_points < points {
        return Err(CommandErrorOf::NotEnoughPoints(c.unspent_attribute_points, points));
    }
    if c.attributes.get(kind) as u64 + points as u64 > u32::MAX as u64 {
        return Err(CommandErrorOf::Overflow);
    }
    c.attributes.add(kind, points);
    c.unspent_attribute_points = c.unspent_attribute_points - points;
    Ok(())
}

/// Move points from an attribute back to the unspent pool ("kind:points");
/// refused, with the character unchanged, on a malformed argument, when the
/// attribute would drop below 1, or when a counter would exceed the largest u32.
pub fn remove_attr_from(c: &mut Character, arg: &String) -> (r: Result<(), CommandError>)
    ensures
        match r {
            Ok(()) => remove_attr_result(old(c)@, arg@) == Ok::<CharacterView, CommandErrorView>(final(c)@),
            Err(e) => remove_attr_result(old(c)@, arg@) == Err::<CharacterView, CommandErrorView>(e@)
                && final(c)@ == old(c)@,
        },
{
    let (kind, points) = match parse_attr_arg(arg.as_str()) {
        Ok(p) => p,
        Err(e) => return Err(e),
    };
    if points == u32::MAX {
        return Err(CommandErrorOf::Overflow);
    }
    let current = c.attributes.get(kind);
    if current < points + 1 {
        return Err(CommandErrorOf::CannotReduceBelowOne(kind));
    }
    if c.unspent_attribute_points as u64 + points as u64 > u32::MAX as u64 {
        return Err(CommandErrorOf::Overflow);
    }
    c.attributes.subtract(kind, points);
    c.unspent_attribute_points = c.unspent_attribute_points + points;
    Ok(())
}

/// Apply the grade and level changes of an update. When it returns an error
/// the character may be partly updated and is to be discarded; at the top
/// grade it is left unchanged.
pub fn apply_progression(c: &mut Character, opts: &UpdateOpts, class_lib: &[ClassDefinition]) -> (r: Result<(), CommandError>)
    ensures
        result_view(r) == match progression_result(*old(c), opts.grade_up, opts.level_up, class_lib@) {
            Ok(_) => Ok::<(), CommandErrorView>(()),
            Err(e) => Err(e),
        },
        r is Ok ==> progression_result(*old(c), opts.grade_up, opts.level_up, class_lib@) == Ok::<Character, CommandErrorView>(*final(c)),
{
    if opts.grade_up {
        if !c.grade_up() {
            return Err(CommandErrorOf::MaxGrade);
        }
    }
    if let Some(n) = opts.level_up {
        if !c.level_up_times(n, class_lib) {
            return Err(CommandErrorOf::Overflow);
        }
    }
    Ok(())
}

/// Apply the skill, class and attribute changes of an update, in order,
/// stopping at the first refusal. When it returns an error the character may
/// be partly updated and is to be discarded.
pub fn apply_roster_changes(
    c: &mut Character,
    opts: &UpdateOpts,
    class_lib: &[ClassDefinition],
    skill_lib: &[SkillDefinition],
) -> (r: Result<(), CommandError>)
    ensures
        result_view(r) == match roster_result(
            old(c)@,
            strings_view(opts.add_skill@),
            strings_view(opts.remove_skill@),
            strings_view(opts.add_class@),
            strings_view(opts.remove_class@),
            strings_view(opts.add_attr@),
            strings_view(opts.remove_attr@),
            class_lib@,
            skill_lib@,
        ) {
            Ok(_) => Ok::<(), CommandErrorView>(()),
            Err(e) => Err(e),
        },
        r is Ok ==> roster_result(
            old(c)@,
            strings_view(opts.add_skill@),
            strings_view(opts.remove_skill@),
            strings_view(opts.add_class@),
            strings_view(opts.remove_class@),
            strings_view(opts.add_attr@),
            strings_view(opts.remove_attr@),
            class_lib@,
            skill_lib@,
        ) == Ok::<CharacterView, CommandErrorView>(final(c)@),
{
    let ghost s0 = c@;
    let ghost names = strings_view(opts.add_skill@);
    let ghost step = add_skill_step(skill_lib@);
    let mut i: usize = 0;
    assert(names.take(0) =~= Seq::<Seq<char>>::empty());
    while i < opts.add_skill.len()
        invariant
            i <= opts.add_skill@.len(),
            s0 == old(c)@,
            names == strings_view(opts.add_skill@),
            step == add_skill_step(skill_lib@),
            fold_steps(s0, names.take(i as int), step) == Ok::<CharacterView, CommandErrorView>(c@),
        decreases opts.add_skill@.len() - i,
    {
        proof { lemma_fold_steps_extend(s0, names, step, i as int); }
        match add_skill_to(c, &opts.add_skill[i], skill_lib) {
            Err(e) => {
                proof { lemma_fold_steps_err_persists(s0, names, step, i + 1); }
                return Err(e);
            },
            Ok(()) => {},
        }
        i = i + 1;
    }
    assert(names.take(i as int) =~= names);
    let ghost s1 = c@;
    let ghost names = strings_view(opts.remove_skill@);
    let ghost step = remove_skill_step();
    let mut i: usize = 0;
    assert(names.take(0) =~= Seq::<Seq<char>>::empty());
    while i < opts.remove_skill.len()
        invariant
            i <= opts.remove_skill@.len(),
            s0 == old(c)@,
            fold_steps(s0, strings_view(opts.add_skill@), add_skill_step(skill_lib@)) == Ok::<CharacterView, CommandErrorView>(s1),
            names == strings_view(opts.remove_skill@),
            step == remove_skill_step(),
            fold_steps(s1, names.take(i as int), step) == Ok::<CharacterView, CommandErrorView>(c@),
        decreases opts.remove_skill@.len() - i,
    {
        proof { lemma_fold_steps_extend(s1, names, step, i as int); }
        match remove_skill_from(c, &opts.remove_skill[i]) {
            Err(e) => {
                proof { lemma_fold_steps_err_persists(s1, names, step, i + 1); }
                return Err(e);
            },
            Ok(()) => {},
        }
        i = i + 1;
    }
    assert(names.take(i as int) =~= names);
    let ghost s2 = c@;
    let ghost names = strings_view(opts.add_class@);
    let ghost step = add_class_step(class_lib@);
    let mut i: usize = 0;
    assert(names.take(0) =~= Seq::<Seq<char>>::empty());
    while i < opts.add_class.len()
        invariant
            i <= opts.add_class@.len(),
            s0 == old(c)@,
            fold_steps(s0, strings_view(opts.add_skill@), add_skill_step(skill_lib@)) == Ok::<CharacterView, CommandErrorView>(s1),
            fold_steps(s1, strings_view(opts.remove_skill@), remove_skill_step()) == Ok::<CharacterView, CommandErrorView>(s2),
            names == strings_view(opts.add_class@),
            step == add_class_step(class_lib@),
            fold_steps(s2, names.take(i as int), step) == Ok::<CharacterView, CommandErrorView>(c@),
        decreases opts.add_class@.len() - i,
    {
        proof { lemma_fold_steps_extend(s2, names, step, i as int); }
        match add_class_to(c, &opts.add_class[i], class_lib) {
            Err(e) => {
                proof { lemma_fold_steps_err_persists(s2, names, step, i + 1); }
                return Err(e);
            },
            Ok(()) => {},
        }
        i = i + 1;
    }
    assert(names.take(i as int) =~= names);
    let ghost s3 = c@;
    let ghost names = strings_view(opts.remove_class@);
    let ghost step = remove_class_step();
    let mut i: usize = 0;
    assert(names.take(0) =~= Seq::<Seq<char>>::empty());
    while i < opts.remove_class.len()
        invariant
            i <= opts.remove_class@.len(),
            s0 == old(c)@,
            fold_steps(s0, strings_view(opts.add_skill@), add_skill_step(skill_lib@)) == Ok::<CharacterView, CommandErrorView>(s1),
            fold_steps(s1, strings_view(opts.remove_skill@), remove_skill_step()) == Ok::<CharacterView, CommandErrorView>(s2),
            fold_steps(s2, strings_view(opts.add_class@), add_class_step(class_lib@)) == Ok::<CharacterView, CommandErrorView>(s3),
            names == strings_view(opts.remove_class@),
            step == remove_class_step(),
            fold_steps(s3, names.take(i as int), step) == Ok::<CharacterView, CommandErrorView>(c@),
        decreases opts.remove_class@.len() - i,
    {
        proof { lemma_fold_steps_extend(s3, names, step, i as int); }
        match remove_class_from(c, &opts.remove_class[i]) {
            Err(e) => {
                proof { lemma_fold_steps_err_persists(s3, names, step, i + 1); }
                return Err(e);
            },
            Ok(()) => {},
        }
        i = i + 1;
    }
    assert(names.take(i as int) =~= names);
    let ghost s4 = c@;
    let ghost names = strings_view(opts.add_attr@);
    let ghost step = add_attr_step();
    let mut i: usize = 0;
    assert(names.take(0) =~= Seq::<Seq<char>>::empty());
    while i < opts.add_attr.len()
        invariant
            i <= opts.add_attr@.len(),
            s0 == old(c)@,
            fold_steps(s0, strings_view(opts.add_skill@), add_skill_step(skill_lib@)) == Ok::<CharacterView, CommandErrorView>(s1),
            fold_steps(s1, strings_view(opts.remove_skill@), remove_skill_step()) == Ok::<CharacterView, CommandErrorView>(s2),
            fold_steps(s2, strings_view(opts.add_class@), add_class_step(class_lib@)) == Ok::<CharacterView, CommandErrorView>(s3),
            fold_steps(s3, strings_view(opts.remove_class@), remove_class_step()) == Ok::<CharacterView, CommandErrorView>(s4),
            names == strings_view(opts.add_attr@),
            step == add_attr_step(),
            fold_steps(s4, names.take(i as int), step) == Ok::<CharacterView, CommandErrorView>(c@),
        decreases opts.add_attr@.len() - i,
    {
        proof { lemma_fold_steps_extend(s4, names, step, i as int); }
        match add_attr_to(c, &opts.add_attr[i]) {
            Err(e) => {
                proof { lemma_fold_steps_err_persists(s4, names, step, i + 1); }
                return Err(e);
            },
            Ok(()) => {},
        }
        i = i + 1;
    }
    assert(names.take(i as int) =~= names);
    let ghost s5 = c@;
    let ghost names = strings_view(opts.remove_attr@);
    let ghost step = remove_attr_step();
    let mut i: usize = 0;
    assert(names.take(0) =~= Seq::<Seq<char>>::empty());
    while i < opts.remove_attr.len()
        invariant
            i <= opts.remove_attr@.len(),
            s0 == old(c)@,
            fold_steps(s0, strings_view(opts.add_skill@), add_skill_step(skill_lib@)) == Ok::<CharacterView, CommandErrorView>(s1),
            fold_steps(s1, strings_view(opts.remove_skill@), remove_skill_step()) == Ok::<CharacterView, CommandErrorView>(s2),
            fold_steps(s2, strings_view(opts.add_class@), add_class_step(class_lib@)) == Ok::<CharacterView, CommandErrorView>(s3),
            fold_steps(s3, strings_view(opts.remove_class@), remove_class_step()) == Ok::<CharacterView, CommandErrorView>(s4),
            fold_steps(s4, strings_view(opts.add_attr@), add_attr_step()) == Ok::<CharacterView, CommandErrorView>(s5),
            names == strings_view(opts.remove_attr@),
            step == remove_attr_step(),
            fold_steps(s5, names.take(i as int), step) == Ok::<CharacterView, CommandErrorView>(c@),
        decreases opts.remove_attr@.len() - i,
    {
        proof { lemma_fold_steps_extend(s5, names, step, i as int); }
        match remove_attr_from(c, &opts.remove_attr[i]) {
            Err(e) => {
                proof { lemma_fold_steps_err_persists(s5, names, step, i + 1); }
                return Err(e);
            },
            Ok(()) => {},
        }
        i = i + 1;
    }
    assert(names.take(i as int) =~= names);
    Ok(())
}

/// No two skills of the list share a name.
pub open spec fn distinct_skill_names(skills: Seq<CharacterSkillView>) -> bool {
    forall|i: int, j: int| 0 <= i < j < skills.len() ==> skills[i].name != skills[j].name
}

/// Adding a skill and then removing it gives back the character.
pub proof fn lemma_add_then_remove_skill(c: CharacterView, name: Seq<char>, lib: Seq<SkillDefinition>)
    requires
        add_skill_result(c, name, lib) is Ok,
    ensures
        remove_skill_result(add_skill_result(c, name, lib)->Ok_0, name) == Ok::<CharacterView, CommandErrorView>(c),
{
    let c2 = add_skill_result(c, name, lib)->Ok_0;
    let keep = skill_not_named(name);
    assert(forall|i: int| 0 <= i < c.skills.len() ==> keep(#[trigger] c.skills[i])) by {
        assert forall|i: int| 0 <= i < c.skills.len() implies keep(#[trigger] c.skills[i]) by {
            if !keep(c.skills[i]) {
                assert(has_skill_named(c.skills, name));
            }
        }
    }
    lemma_keep_where_len(c.skills, keep);
    assert(c2.skills.drop_last() =~= c.skills);
    assert(keep_where(c2.skills, keep) == keep_where(c.skills, keep));
    assert(keep_where(c2.skills, keep).len() < c2.skills.len());
}

/// Adding a skill keeps the character's skill names distinct.
pub proof fn lemma_add_skill_keeps_names_distinct(c: CharacterView, name: Seq<char>, lib: Seq<SkillDefinition>)
    requires
        distinct_skill_names(c.skills),
        add_skill_result(c, name, lib) is Ok,
    ensures
        distinct_skill_names(add_skill_result(c, name, lib)->Ok_0.skills),
{
    let s2 = add_skill_result(c, name, lib)->Ok_0.skills;
    assert forall|i: int, j: int| 0 <= i < j < s2.len() implies s2[i].name != s2[j].name by {
        if j == s2.len() - 1 {
            if s2[i].name == name {
                assert(c.skills[i].name == name);
                assert(has_skill_named(c.skills, name));
            }
        }
    }
}

/// Granting a class's skills adds each missing name once, so the skill
/// names stay distinct.
pub proof fn lemma_grant_skills_keeps_names_distinct(skills: Seq<CharacterSkillView>, names: Seq<Seq<char>>)
    requires
        distinct_skill_names(skills),
    ensures
        distinct_skill_names(grant_skills(skills, names)),
    decreases names.len(),
{
    if names.len() > 0 {
        lemma_grant_skills_keeps_names_distinct(skills, names.drop_last());
        let s1 = grant_skills(skills, names.drop_last());
        if !has_skill_named(s1, names.last()) {
            let s2 = s1.push(novice_skill(names.last()));
            assert forall|i: int, j: int| 0 <= i < j < s2.len() implies s2[i].name != s2[j].name by {
                if j == s2.len() - 1 && s2[i].name == names.last() {
                    assert(s1[i].name == names.last());
                }
            }
        }
    }
}

/// A class is only added while a slot is free, so an added class never
/// takes the character past its class slots.
pub proof fn lemma_add_class_respects_slots(c: CharacterView, name: Seq<char>, lib: Seq<ClassDefinition>)
    requires
        c.classes.len() < u32::MAX,
        add_class_result(c, name, lib) is Ok,
    ensures
        add_class_result(c, name, lib)->Ok_0.classes.len() <= c.class_slots,
        add_class_result(c, name, lib)->Ok_0.classes.len() == c.classes.len() + 1,
{
}

/// Adding a class and then removing it gives back the classes, and the
/// granted skills stay.
pub proof fn lemma_add_then_remove_class(c: CharacterView, name: Seq<char>, lib: Seq<ClassDefinition>)
    requires
        add_class_result(c, name, lib) is Ok,
    ensures
        remove_class_result(add_class_result(c, name, lib)->Ok_0, name)
            == Ok::<CharacterView, CommandErrorView>(CharacterView { skills: add_class_result(c, name, lib)->Ok_0.skills, ..c }),
{
    let c2 = add_class_result(c, name, lib)->Ok_0;
    let keep = class_not_named(name);
    assert forall|i: int| 0 <= i < c.classes.len() implies keep(#[trigger] c.classes[i]) by {
        if !keep(c.classes[i]) {
            assert(has_class_named(c.classes, name));
        }
    }
    lemma_keep_where_len(c.classes, keep);
    assert(c2.classes.drop_last() =~= c.classes);
    assert(keep_where(c2.classes, keep) == keep_where(c.classes, keep));
}

/// Moving points into an attribute and back out again gives back the
/// character, for an attribute of at least 1.
pub proof fn lemma_add_then_remove_attr(c: CharacterView, arg: Seq<char>)
    requires
        add_attr_result(c, arg) is Ok,
        c.attributes.value(parse_attr_spec(arg)->Ok_0.0) >= 1,
        parse_attr_spec(arg)->Ok_0.1 < u32::MAX,
    ensures
        remove_attr_result(add_attr_result(c, arg)->Ok_0, arg) == Ok::<CharacterView, CommandErrorView>(c),
{
    let (kind, points) = parse_attr_spec(arg)->Ok_0;
    let c2 = add_attr_result(c, arg)->Ok_0;
    crate::models::attribute::lemma_add_then_subtract(c.attributes, kind, points);
}

} // verus!
