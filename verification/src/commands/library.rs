//! Editing the skill and class libraries.
use vstd::prelude::*;
use crate::collections::{
    first_where, keep_where, lemma_first_where_unique, lemma_keep_where_len, lemma_keep_where_map,
    position_where, retain_where,
};
use crate::commands::{CommandError, CommandErrorOf, CommandErrorView};
use crate::commands::parse::{parse_category, parse_category_spec, parse_skill_type, parse_skill_type_spec};
use crate::models::class::{ClassDefinition, ClassDefinitionView};
use crate::models::skill::{
    MasteryRank, RankDefinition, RankDefinitionView, SkillDefinition, SkillDefinitionView, SkillEffect,
    SkillEffectView, effects_view, ranks_view,
};
use crate::text::strings_view;

verus! {

/// The views of a skill library.
pub open spec fn skill_lib_view(v: Seq<SkillDefinition>) -> Seq<SkillDefinitionView> {
    v.map_values(|d: SkillDefinition| d@)
}

/// The views of a class library.
pub open spec fn class_lib_view(v: Seq<ClassDefinition>) -> Seq<ClassDefinitionView> {
    v.map_values(|d: ClassDefinition| d@)
}

/// Skill definitions with this name.
pub open spec fn skill_def_named(name: Seq<char>) -> spec_fn(SkillDefinitionView) -> bool {
    |d: SkillDefinitionView| d.name == name
}

/// Skill definitions with another name.
pub open spec fn skill_def_not_named(name: Seq<char>) -> spec_fn(SkillDefinitionView) -> bool {
    |d: SkillDefinitionView| d.name != name
}

/// Class definitions with this name.
pub open spec fn class_def_named(name: Seq<char>) -> spec_fn(ClassDefinitionView) -> bool {
    |d: ClassDefinitionView| d.name == name
}

/// Class definitions with another name.
pub open spec fn class_def_not_named(name: Seq<char>) -> spec_fn(ClassDefinitionView) -> bool {
    |d: ClassDefinitionView| d.name != name
}

/// Effects built from parallel argument lists: one per name; a missing
/// description is empty, a missing base value is 0.0 and a missing unlock
/// level is 0.
pub open spec fn effects_from_args(
    names: Seq<Seq<char>>,
    bases: Seq<u64>,
    unlocks: Seq<u32>,
    descs: Seq<Seq<char>>,
) -> Seq<SkillEffectView> {
    Seq::new(
        names.len(),
        |i: int| SkillEffectView {
            name: Some(names[i]),
            description: if i < descs.len() { descs[i] } else { Seq::empty() },
            base_value_bits: if i < bases.len() { bases[i] } else { 0 },
            unlock_level: if i < unlocks.len() { unlocks[i] } else { 0 },
        },
    )
}

/// Creating a skill with a single Novice rank holding the given effects.
pub open spec fn create_skill_result(
    lib: Seq<SkillDefinitionView>,
    name: Seq<char>,
    category: Seq<char>,
    skill_type: Seq<char>,
    description: Seq<char>,
    names: Seq<Seq<char>>,
    bases: Seq<u64>,
    unlocks: Seq<u32>,
    descs: Seq<Seq<char>>,
) -> Result<Seq<SkillDefinitionView>, CommandErrorView> {
    if first_where(lib, skill_def_named(name)) is Some {
        Err(CommandErrorOf::SkillExists(name))
    } else {
        match parse_category_spec(category) {
            Err(e) => Err(e),
            Ok(cat) => match parse_skill_type_spec(skill_type) {
                Err(e) => Err(e),
                Ok(t) => Ok(lib.push(SkillDefinitionView {
                    name,
                    category: cat,
                    skill_type: t,
                    description,
                    ranks: seq![RankDefinitionView {
                        rank: MasteryRank::Novice,
                        description: Seq::empty(),
                        effects: effects_from_args(names, bases, unlocks, descs),
                    }],
                })),
            },
        }
    }
}

/// Deleting every skill with this name.
pub open spec fn delete_skill_result(lib: Seq<SkillDefinitionView>, name: Seq<char>) -> Result<Seq<SkillDefinitionView>, CommandErrorView> {
    let kept = keep_where(lib, skill_def_not_named(name));
    if kept.len() == lib.len() { Err(CommandErrorOf::SkillNotFound(name)) } else { Ok(kept) }
}

/// Effects that are not named `name`.
pub open spec fn effect_not_named(name: Seq<char>) -> spec_fn(SkillEffectView) -> bool {
    |e: SkillEffectView| e.name != Some(name)
}

/// Effects left after removing, in turn, every effect named by each name.
pub open spec fn remove_effects_named(effects: Seq<SkillEffectView>, names: Seq<Seq<char>>) -> Seq<SkillEffectView>
    decreases names.len(),
{
    if names.len() == 0 {
        effects
    } else {
        keep_where(remove_effects_named(effects, names.drop_last()), effect_not_named(names.last()))
    }
}

/// Updating the first skill with this name: replace the given fields, make
/// sure a first (Novice) rank exists, remove the named effects from it, then
/// append the new effects.
pub open spec fn update_skill_result(
    lib: Seq<SkillDefinitionView>,
    name: Seq<char>,
    description: Option<Seq<char>>,
    category: Option<Seq<char>>,
    skill_type: Option<Seq<char>>,
    names: Seq<Seq<char>>,
    bases: Seq<u64>,
    unlocks: Seq<u32>,
    descs: Seq<Seq<char>>,
    remove: Seq<Seq<char>>,
) -> Result<Seq<SkillDefinitionView>, CommandErrorView> {
    match first_where(lib, skill_def_named(name)) {
        None => Err(CommandErrorOf::SkillNotFound(name)),
        Some(i) => {
            let d = lib[i];
            let cat = match category {
                Some(c) => parse_category_spec(c),
                None => Ok(d.category),
            };
            let t = match skill_type {
                Some(s) => parse_skill_type_spec(s),
                None => Ok(d.skill_type),
            };
            match cat {
                Err(e) => Err(e),
                Ok(cat) => match t {
                    Err(e) => Err(e),
                    Ok(t) => {
                        let ranks = if d.ranks.len() == 0 {
                            seq![RankDefinitionView { rank: MasteryRank::Novice, description: Seq::empty(), effects: Seq::empty() }]
                        } else {
                            d.ranks
                        };
                        let first = ranks[0];
                        let effects = remove_effects_named(first.effects, remove)
                            + effects_from_args(names, bases, unlocks, descs);
                        Ok(lib.update(i, SkillDefinitionView {
                            description: match description {
                                Some(x) => x,
                                None => d.description,
                            },
                            category: cat,
                            skill_type: t,
                            ranks: ranks.update(0, RankDefinitionView { effects, ..first }),
                            ..d
                        }))
                    },
                },
            }
        },
    }
}

/// Index of the first skill definition with this name, if any.
pub fn find_skill_index(skills: &Vec<SkillDefinition>, name: &str) -> (r: Option<usize>)
    ensures
        match r {
            Some(i) => i < skills@.len() && first_where(skill_lib_view(skills@), skill_def_named(name@)) == Some(i as int),
            None => first_where(skill_lib_view(skills@), skill_def_named(name@)) is None,
        },
{
    let ghost pred = |d: SkillDefinition| d.name@ == name@;
    let r = position_where(
        skills,
        |d: &SkillDefinition| -> (b: bool)
            ensures b == (d.name@ == name@)
        { d.name == name.to_owned() },
        Ghost(pred),
    );
    proof {
        let v = skill_lib_view(skills@);
        crate::collections::lemma_first_where(v, skill_def_named(name@));
        match r {
            Some(i) => {
                assert forall|j: int| 0 <= j < i implies !skill_def_named(name@)(#[trigger] v[j]) by {
                    assert(!pred(skills@[j]));
                }
                lemma_first_where_unique(v, skill_def_named(name@), i as int);
            },
            None => {
                if first_where(v, skill_def_named(name@)) is Some {
                    let k = first_where(v, skill_def_named(name@))->0;
                    assert(!pred(skills@[k]));
                }
            },
        }
    }
    r
}

/// Index of the first class definition with this name, if any.
pub fn find_class_def_index(classes: &Vec<ClassDefinition>, name: &str) -> (r: Option<usize>)
    ensures
        match r {
            Some(i) => i < classes@.len() && first_where(class_lib_view(classes@), class_def_named(name@)) == Some(i as int),
            None => first_where(class_lib_view(classes@), class_def_named(name@)) is None,
        },
{
    let ghost pred = |d: ClassDefinition| d.name@ == name@;
    let r = position_where(
        classes,
        |d: &ClassDefinition| -> (b: bool)
            ensures b == (d.name@ == name@)
        { d.name == name.to_owned() },
        Ghost(pred),
    );
    proof {
        let v = class_lib_view(classes@);
        crate::collections::lemma_first_where(v, class_def_named(name@));
        match r {
            Some(i) => {
                assert forall|j: int| 0 <= j < i implies !class_def_named(name@)(#[trigger] v[j]) by {
                    assert(!pred(classes@[j]));
                }
                lemma_first_where_unique(v, class_def_named(name@), i as int);
            },
            None => {
                if first_where(v, class_def_named(name@)) is Some {
                    let k = first_where(v, class_def_named(name@))->0;
                    assert(!pred(classes@[k]));
                }
            },
        }
    }
    r
}

/// Build the effects of parallel argument lists.
pub fn build_effects(
    names: &[String],
    bases: &[u64],
    unlocks: &[u32],
    descs: &[String],
) -> (effects: Vec<SkillEffect>)
    ensures
        effects_view(effects@) == effects_from_args(strings_view(names@), bases@, unlocks@, strings_view(descs@)),
{
    let mut effects: Vec<SkillEffect> = Vec::new();
    let mut i: usize = 0;
    while i < names.len()
        invariant
            i <= names@.len(),
            effects_view(effects@) == effects_from_args(strings_view(names@), bases@, unlocks@, strings_view(descs@)).take(i as int),
        decreases names@.len() - i,
    {
        let description = if i < descs.len() { descs[i].clone() } else { String::new() };
        let base_value_bits = if i < bases.len() { bases[i] } else { 0 };
        let unlock_level = if i < unlocks.len() { unlocks[i] } else { 0 };
        let ghost before = effects@;
        let ghost all = effects_from_args(strings_view(names@), bases@, unlocks@, strings_view(descs@));
        let e = SkillEffect { name: Some(names[i].clone()), description, base_value_bits, unlock_level };
        effects.push(e);
        assert(e@ == all[i as int]);
        assert(effects_view(before.push(e)) =~= effects_view(before).push(e@));
        assert(all.take(i + 1) =~= all.take(i as int).push(all[i as int]));
        i = i + 1;
    }
    assert(effects_from_args(strings_view(names@), bases@, unlocks@, strings_view(descs@)).take(i as int)
        =~= effects_from_args(strings_view(names@), bases@, unlocks@, strings_view(descs@)));
    effects
}

/// Create a skill with a single Novice rank holding the given effects;
/// refused, with the library unchanged, when the name is taken or the
/// category or type is unknown.
pub fn create_skill(
    skills: &mut Vec<SkillDefinition>,
    name: &str,
    category: &str,
    skill_type: &str,
    description: &str,
    effect_names: &[String],
    base_values: &[u64],
    unlock_levels: &[u32],
    effect_descs: &[String],
) -> (r: Result<(), CommandError>)
    ensures
        match r {
            Ok(()) => create_skill_result(skill_lib_view(old(skills)@), name@, category@, skill_type@, description@,
                strings_view(effect_names@), base_values@, unlock_levels@, strings_view(effect_descs@))
                == Ok::<Seq<SkillDefinitionView>, CommandErrorView>(skill_lib_view(final(skills)@)),
            Err(e) => create_skill_result(skill_lib_view(old(skills)@), name@, category@, skill_type@, description@,
                strings_view(effect_names@), base_values@, unlock_levels@, strings_view(effect_descs@))
                == Err::<Seq<SkillDefinitionView>, CommandErrorView>(e@)
                && final(skills)@ == old(skills)@,
        },
{
    if find_skill_index(skills, name).is_some() {
        return Err(CommandErrorOf::SkillExists(name.to_owned()));
    }
    let effects = build_effects(effect_names, base_values, unlock_levels, effect_descs);
    let cat = match parse_category(category) {
        Ok(c) => c,
        Err(e) => return Err(e),
    };
    let t = match parse_skill_type(skill_type) {
        Ok(t) => t,
        Err(e) => return Err(e),
    };
    let rank = RankDefinition { rank: MasteryRank::Novice, description: String::new(), effects };
    let mut ranks: Vec<RankDefinition> = Vec::new();
    ranks.push(rank);
    let ghost before = skills@;
    skills.push(SkillDefinition {
        name: name.to_owned(),
        category: cat,
        skill_type: t,
        description: description.to_owned(),
        ranks,
    });
    proof {
        assert(ranks_view(ranks@) =~= seq![rank@]);
        assert(skill_lib_view(skills@) =~= skill_lib_view(before).push(skills@.last()@));
    }
    Ok(())
}

/// Delete every skill with this name; refused, with the library unchanged,
/// when there is none.
pub fn delete_skill(skills: &mut Vec<SkillDefinition>, name: &str) -> (r: Result<(), CommandError>)
    ensures
        match r {
            Ok(()) => delete_skill_result(skill_lib_view(old(skills)@), name@)
                == Ok::<Seq<SkillDefinitionView>, CommandErrorView>(skill_lib_view(final(skills)@)),
            Err(e) => delete_skill_result(skill_lib_view(old(skills)@), name@)
                == Err::<Seq<SkillDefinitionView>, CommandErrorView>(e@) && final(skills)@ == old(skills)@,
        },
{
    let ghost raw = skills@;
    let ghost f = |d: SkillDefinition| d@;
    let ghost keep = skill_def_not_named(name@);
    let ghost pred = |d: SkillDefinition| keep(f(d));
    let before_len = skills.len();
    let owned = name.to_owned();
    retain_where(
        skills,
        |d: &SkillDefinition| -> (b: bool)
            ensures b == (d.name@ != name@)
        { !(d.name == owned) },
        Ghost(pred),
    );
    proof {
        lemma_keep_where_map(raw, f, keep);
        assert(pred =~= (|x: SkillDefinition| keep(f(x))));
        assert(skill_lib_view(raw) =~= raw.map_values(f));
        assert(skill_lib_view(skills@) =~= keep_where(raw, pred).map_values(f));
        lemma_keep_where_len(raw, pred);
    }
    if skills.len() == before_len {
        return Err(CommandErrorOf::SkillNotFound(owned));
    }
    Ok(())
}

/// Remove from a rank every effect with this name.
fn remove_effects(rank: &mut RankDefinition, name: &String)
    ensures
        final(rank)@ == (RankDefinitionView { effects: keep_where(old(rank)@.effects, effect_not_named(name@)), ..old(rank)@ }),
{
    let ghost raw = rank.effects@;
    let ghost f = |e: SkillEffect| e@;
    let ghost keep = effect_not_named(name@);
    let ghost pred = |e: SkillEffect| keep(f(e));
    retain_where(
        &mut rank.effects,
        |e: &SkillEffect| -> (b: bool)
            ensures b == (e@.name != Some(name@))
        {
            match &e.name {
                Some(n) => !(*n == *name),
                None => true,
            }
        },
        Ghost(pred),
    );
    proof {
        lemma_keep_where_map(raw, f, keep);
        assert(pred =~= (|x: SkillEffect| keep(f(x))));
        assert(effects_view(raw) =~= raw.map_values(f));
        assert(effects_view(rank.effects@) =~= keep_where(raw, pred).map_values(f));
    }
}

/// Update the first skill with this name: replace the given fields, make
/// sure a first (Novice) rank exists, remove the named effects from it and
/// append the new ones. Refused, with the library unchanged, when no skill
/// has the name or a new category or type is unknown.
pub fn update_skill(
    skills: &mut Vec<SkillDefinition>,
    name: &str,
    description: Option<&str>,
    category: Option<&str>,
    skill_type: Option<&str>,
    add_effect_names: &[String],
    base_values: &[u64],
    unlock_levels: &[u32],
    effect_descs: &[String],
    remove_effect_names: &[String],
) -> (r: Result<(), CommandError>)
    ensures
        ({
            let spec_r = update_skill_result(
                skill_lib_view(old(skills)@),
                name@,
                match description { Some(d) => Some(d@), None => None },
                match category { Some(c) => Some(c@), None => None },
                match skill_type { Some(t) => Some(t@), None => None },
                strings_view(add_effect_names@),
                base_values@,
                unlock_levels@,
                strings_view(effect_descs@),
                strings_view(remove_effect_names@),
            );
            match r {
                Ok(()) => spec_r == Ok::<Seq<SkillDefinitionView>, CommandErrorView>(skill_lib_view(final(skills)@)),
                Err(e) => spec_r == Err::<Seq<SkillDefinitionView>, CommandErrorView>(e@) && final(skills)@ == old(skills)@,
            }
        }),
{
    let i = match find_skill_index(skills, name) {
        Some(i) => i,
        None => return Err(CommandErrorOf::SkillNotFound(name.to_owned())),
    };
    let cat = match category {
        Some(c) => match parse_category(c) {
            Ok(c) => c,
            Err(e) => return Err(e),
        },
        None => skills[i].category,
    };
    let t = match skill_type {
        Some(s) => match parse_skill_type(s) {
            Ok(t) => t,
            Err(e) => return Err(e),
        },
        None => skills[i].skill_type,
    };
    let ghost lib0 = skill_lib_view(skills@);
    let ghost d0 = skills@[i as int]@;
    let mut d = skills.remove(i);
    assert(d@ == d0);
    if let Some(text) = description {
        d.description = text.to_owned();
    }
    d.category = cat;
    d.skill_type = t;
    if d.ranks.len() == 0 {
        let novice = RankDefinition { rank: MasteryRank::Novice, description: String::new(), effects: Vec::new() };
        assert(effects_view(novice.effects@) =~= Seq::<SkillEffectView>::empty());
        d.ranks.push(novice);
        assert(ranks_view(d.ranks@) =~= seq![novice@]);
    }
    let ghost ranks1 = ranks_view(d.ranks@);
    assert(ranks1 == (if d0.ranks.len() == 0 {
        seq![RankDefinitionView { rank: MasteryRank::Novice, description: Seq::empty(), effects: Seq::empty() }]
    } else {
        d0.ranks
    }));
    let ghost ranks_raw = d.ranks@;
    let mut first = d.ranks.remove(0);
    let ghost first0 = first@;
    let ghost removes = strings_view(remove_effect_names@);
    let mut k: usize = 0;
    assert(removes.take(0) =~= Seq::<Seq<char>>::empty());
    while k < remove_effect_names.len()
        invariant
            k <= remove_effect_names@.len(),
            removes == strings_view(remove_effect_names@),
            first@ == (RankDefinitionView { effects: remove_effects_named(first0.effects, removes.take(k as int)), ..first0 }),
        decreases remove_effect_names@.len() - k,
    {
        assert(removes.take(k + 1).drop_last() =~= removes.take(k as int));
        remove_effects(&mut first, &remove_effect_names[k]);
        k = k + 1;
    }
    assert(removes.take(k as int) =~= removes);
    let ghost kept = effects_view(first.effects@);
    let mut added = build_effects(add_effect_names, base_values, unlock_levels, effect_descs);
    let ghost added_view = effects_view(added@);
    first.effects.append(&mut added);
    assert(effects_view(first.effects@) =~= kept + added_view);
    let ghost first1 = first@;
    assert(first1 == (RankDefinitionView {
        effects: remove_effects_named(first0.effects, removes) + added_view,
        ..first0
    }));
    d.ranks.insert(0, first);
    assert(d.ranks@ =~= ranks_raw.update(0, d.ranks@[0]));
    assert(ranks_view(ranks_raw.update(0, d.ranks@[0])) =~= ranks_view(ranks_raw).update(0, first1));
    assert(ranks_view(d.ranks@) =~= ranks1.update(0, RankDefinitionView {
        effects: remove_effects_named(first0.effects, removes) + added_view,
        ..first0
    }));
    let ghost before_insert = skills@;
    skills.insert(i, d);
    assert(skill_lib_view(skills@) =~= lib0.update(i as int, skills@[i as int]@));
    Ok(())
}

/// Creating a class definition.
pub open spec fn create_class_result(lib: Seq<ClassDefinitionView>, def: ClassDefinitionView) -> Result<Seq<ClassDefinitionView>, CommandErrorView> {
    if first_where(lib, class_def_named(def.name)) is Some {
        Err(CommandErrorOf::ClassExists(def.name))
    } else {
        Ok(lib.push(def))
    }
}

/// Deleting every class with this name.
pub open spec fn delete_class_result(lib: Seq<ClassDefinitionView>, name: Seq<char>) -> Result<Seq<ClassDefinitionView>, CommandErrorView> {
    let kept = keep_where(lib, class_def_not_named(name));
    if kept.len() == lib.len() { Err(CommandErrorOf::ClassNotFound(name)) } else { Ok(kept) }
}

/// Names other than `n`.
pub open spec fn other_than(n: Seq<char>) -> spec_fn(Seq<char>) -> bool {
    |x: Seq<char>| x != n
}

/// Names left after removing, in turn, every occurrence of each name.
pub open spec fn remove_names(v: Seq<Seq<char>>, names: Seq<Seq<char>>) -> Seq<Seq<char>>
    decreases names.len(),
{
    if names.len() == 0 {
        v
    } else {
        keep_where(remove_names(v, names.drop_last()), other_than(names.last()))
    }
}

/// The fields an update of a class may replace.
#[derive(Debug, Clone, Default)]
pub struct ClassChanges {
    pub description: Option<String>,
    pub passive_name: Option<String>,
    pub passive_description: Option<String>,
    pub bonus_str: Option<u32>,
    pub bonus_agi: Option<u32>,
    pub bonus_end: Option<u32>,
    pub bonus_int: Option<u32>,
    pub bonus_wis: Option<u32>,
    pub bonus_per: Option<u32>,
    pub bonus_free_points: Option<u32>,
}

/// `v` when given, else `d`.
pub open spec fn or_keep<T>(v: Option<T>, d: T) -> T {
    match v {
        Some(x) => x,
        None => d,
    }
}

/// The text of an optional string, when given.
pub open spec fn opt_view(v: Option<String>) -> Option<Seq<char>> {
    match v {
        Some(s) => Some(s@),
        None => None,
    }
}

/// Updating the first class with this name: replace the given fields, remove
/// the named skills, then append the added ones.
pub open spec fn update_class_result(
    lib: Seq<ClassDefinitionView>,
    name: Seq<char>,
    changes: ClassChanges,
    add_skills: Seq<Seq<char>>,
    remove_skills: Seq<Seq<char>>,
) -> Result<Seq<ClassDefinitionView>, CommandErrorView> {
    match first_where(lib, class_def_named(name)) {
        None => Err(CommandErrorOf::ClassNotFound(name)),
        Some(i) => {
            let d = lib[i];
            Ok(lib.update(i, ClassDefinitionView {
                description: or_keep(opt_view(changes.description), d.description),
                passive_name: or_keep(opt_view(changes.passive_name), d.passive_name),
                passive_description: or_keep(opt_view(changes.passive_description), d.passive_description),
                bonus_str: or_keep(changes.bonus_str, d.bonus_str),
                bonus_agi: or_keep(changes.bonus_agi, d.bonus_agi),
                bonus_end: or_keep(changes.bonus_end, d.bonus_end),
                bonus_int: or_keep(changes.bonus_int, d.bonus_int),
                bonus_wis: or_keep(changes.bonus_wis, d.bonus_wis),
                bonus_per: or_keep(changes.bonus_per, d.bonus_per),
                bonus_free_points: or_keep(changes.bonus_free_points, d.bonus_free_points),
                skills: remove_names(d.skills, remove_skills) + add_skills,
                ..d
            }))
        },
    }
}

/// An update of a class writes each value it is given into the field of
/// the same name and keeps every field it is not given; the class keeps its
/// name and place, and the other classes are untouched.
pub proof fn lemma_update_class_sets_named_fields(
    lib: Seq<ClassDefinitionView>,
    name: Seq<char>,
    changes: ClassChanges,
    add_skills: Seq<Seq<char>>,
    remove_skills: Seq<Seq<char>>,
)
    requires
        update_class_result(lib, name, changes, add_skills, remove_skills) is Ok,
    ensures
        ({
            let lib2 = update_class_result(lib, name, changes, add_skills, remove_skills)->Ok_0;
            let i = first_where(lib, class_def_named(name))->0;
            let d = lib[i];
            let u = lib2[i];
            &&& 0 <= i < lib.len()
            &&& lib2.len() == lib.len()
            &&& forall|j: int| 0 <= j < lib.len() && j != i ==> lib2[j] == lib[j]
            &&& d.name == name
            &&& u.name == name
            &&& (changes.bonus_str matches Some(v) ==> u.bonus_str == v)
            &&& (changes.bonus_str is None ==> u.bonus_str == d.bonus_str)
            &&& (changes.bonus_agi matches Some(v) ==> u.bonus_agi == v)
            &&& (changes.bonus_agi is None ==> u.bonus_agi == d.bonus_agi)
            &&& (changes.bonus_end matches Some(v) ==> u.bonus_end == v)
            &&& (changes.bonus_end is None ==> u.bonus_end == d.bonus_end)
            &&& (changes.bonus_int matches Some(v) ==> u.bonus_int == v)
            &&& (changes.bonus_int is None ==> u.bonus_int == d.bonus_int)
            &&& (changes.bonus_wis matches Some(v) ==> u.bonus_wis == v)
            &&& (changes.bonus_wis is None ==> u.bonus_wis == d.bonus_wis)
            &&& (changes.bonus_per matches Some(v) ==> u.bonus_per == v)
            &&& (changes.bonus_per is None ==> u.bonus_per == d.bonus_per)
            &&& (changes.bonus_free_points matches Some(v) ==> u.bonus_free_points == v)
            &&& (changes.bonus_free_points is None ==> u.bonus_free_points == d.bonus_free_points)
            &&& (changes.description matches Some(t) ==> u.description == t@)
            &&& (changes.description is None ==> u.description == d.description)
            &&& (changes.passive_name matches Some(t) ==> u.passive_name == t@)
            &&& (changes.passive_name is None ==> u.passive_name == d.passive_name)
            &&& (changes.passive_description matches Some(t) ==> u.passive_description == t@)
            &&& (changes.passive_description is None ==> u.passive_description == d.passive_description)
        }),
{
    crate::collections::lemma_first_where(lib, class_def_named(name));
}

/// Add a class definition; refused, with the library unchanged, when the
/// name is taken.
pub fn create_class(classes: &mut Vec<ClassDefinition>, def: ClassDefinition) -> (r: Result<(), CommandError>)
    ensures
        match r {
            Ok(()) => create_class_result(class_lib_view(old(classes)@), def@)
                == Ok::<Seq<ClassDefinitionView>, CommandErrorView>(class_lib_view(final(classes)@)),
            Err(e) => create_class_result(class_lib_view(old(classes)@), def@)
                == Err::<Seq<ClassDefinitionView>, CommandErrorView>(e@) && final(classes)@ == old(classes)@,
        },
{
    if find_class_def_index(classes, def.name.as_str()).is_some() {
        return Err(CommandErrorOf::ClassExists(def.name));
    }
    let ghost before = classes@;
    classes.push(def);
    assert(class_lib_view(classes@) =~= class_lib_view(before).push(def@));
    Ok(())
}

/// Delete every class with this name; refused, with the library unchanged,
/// when there is none.
pub fn delete_class(classes: &mut Vec<ClassDefinition>, name: &str) -> (r: Result<(), CommandError>)
    ensures
        match r {
            Ok(()) => delete_class_result(class_lib_view(old(classes)@), name@)
                == Ok::<Seq<ClassDefinitionView>, CommandErrorView>(class_lib_view(final(classes)@)),
            Err(e) => delete_class_result(class_lib_view(old(classes)@), name@)
                == Err::<Seq<ClassDefinitionView>, CommandErrorView>(e@) && final(classes)@ == old(classes)@,
        },
{
    let ghost raw = classes@;
    let ghost f = |d: ClassDefinition| d@;
    let ghost keep = class_def_not_named(name@);
    let ghost pred = |d: ClassDefinition| keep(f(d));
    let before_len = classes.len();
    let owned = name.to_owned();
    retain_where(
        classes,
        |d: &ClassDefinition| -> (b: bool)
            ensures b == (d.name@ != name@)
        { !(d.name == owned) },
        Ghost(pred),
    );
    proof {
        lemma_keep_where_map(raw, f, keep);
        assert(pred =~= (|x: ClassDefinition| keep(f(x))));
        assert(class_lib_view(raw) =~= raw.map_values(f));
        assert(class_lib_view(classes@) =~= keep_where(raw, pred).map_values(f));
        lemma_keep_where_len(raw, pred);
    }
    if classes.len() == before_len {
        return Err(CommandErrorOf::ClassNotFound(owned));
    }
    Ok(())
}

/// Remove every occurrence of a name from a list of names.
fn remove_name(v: &mut Vec<String>, name: &String)
    ensures
        strings_view(final(v)@) == keep_where(strings_view(old(v)@), other_than(name@)),
{
    let ghost raw = v@;
    let ghost f = |s: String| s@;
    let ghost keep = other_than(name@);
    let ghost pred = |s: String| keep(f(s));
    retain_where(
        v,
        |s: &String| -> (b: bool)
            ensures b == (s@ != name@)
        { !(*s == *name) },
        Ghost(pred),
    );
    proof {
        lemma_keep_where_map(raw, f, keep);
        assert(pred =~= (|x: String| keep(f(x))));
        assert(strings_view(raw) =~= raw.map_values(f));
        assert(strings_view(v@) =~= keep_where(raw, pred).map_values(f));
    }
}

/// Update the first class with this name: replace the given fields, remove
/// the named skills, then append the added ones. Refused, with the library
/// unchanged, when no class has the name.
pub fn update_class(
    classes: &mut Vec<ClassDefinition>,
    name: &str,
    changes: ClassChanges,
    add_skills: &[String],
    remove_skills: &[String],
) -> (r: Result<(), CommandError>)
    ensures
        match r {
            Ok(()) => update_class_result(class_lib_view(old(classes)@), name@, changes, strings_view(add_skills@), strings_view(remove_skills@))
                == Ok::<Seq<ClassDefinitionView>, CommandErrorView>(class_lib_view(final(classes)@)),
            Err(e) => update_class_result(class_lib_view(old(classes)@), name@, changes, strings_view(add_skills@), strings_view(remove_skills@))
                == Err::<Seq<ClassDefinitionView>, CommandErrorView>(e@) && final(classes)@ == old(classes)@,
        },
{
    let i = match find_class_def_index(classes, name) {
        Some(i) => i,
        None => return Err(CommandErrorOf::ClassNotFound(name.to_owned())),
    };
    let ghost lib0 = class_lib_view(classes@);
    let ghost changes0 = changes;
    let mut d = classes.remove(i);
    let ghost d0 = d@;
    let ClassChanges {
        description, passive_name, passive_description, bonus_str, bonus_agi, bonus_end, bonus_int,
        bonus_wis, bonus_per, bonus_free_points,
    } = changes;
    if let Some(v) = description { d.description = v; }
    if let Some(v) = passive_name { d.passive_name = v; }
    if let Some(v) = passive_description { d.passive_description = v; }
    if let Some(v) = bonus_str { d.bonus_str = v; }
    if let Some(v) = bonus_agi { d.bonus_agi = v; }
    if let Some(v) = bonus_end { d.bonus_end = v; }
    if let Some(v) = bonus_int { d.bonus_int = v; }
    if let Some(v) = bonus_wis { d.bonus_wis = v; }
    if let Some(v) = bonus_per { d.bonus_per = v; }
    if let Some(v) = bonus_free_points { d.bonus_free_points = v; }
    let ghost removes = strings_view(remove_skills@);
    let ghost dmid = d@;
    let mut k: usize = 0;
    assert(removes.take(0) =~= Seq::<Seq<char>>::empty());
    while k < remove_skills.len()
        invariant
            k <= remove_skills@.len(),
            removes == strings_view(remove_skills@),
            strings_view(d.skills@) == remove_names(d0.skills, removes.take(k as int)),
            d@ == (ClassDefinitionView { skills: strings_view(d.skills@), ..dmid }),
        decreases remove_skills@.len() - k,
    {
        assert(removes.take(k + 1).drop_last() =~= removes.take(k as int));
        remove_name(&mut d.skills, &remove_skills[k]);
        k = k + 1;
    }
    assert(removes.take(k as int) =~= removes);
    let ghost kept = strings_view(d.skills@);
    let mut j: usize = 0;
    while j < add_skills.len()
        invariant
            j <= add_skills@.len(),
            strings_view(d.skills@) == kept + strings_view(add_skills@).take(j as int),
            d@ == (ClassDefinitionView { skills: strings_view(d.skills@), ..dmid }),
        decreases add_skills@.len() - j,
    {
        let ghost before = d.skills@;
        let s = add_skills[j].clone();
        d.skills.push(s);
        assert(d.skills@ == before.push(s));
        assert(strings_view(before.push(s)) =~= strings_view(before).push(s@));
        assert(strings_view(add_skills@).take(j + 1) =~= strings_view(add_skills@).take(j as int).push(s@));
        assert(strings_view(d.skills@) =~= kept + strings_view(add_skills@).take(j + 1));
        j = j + 1;
    }
    assert(strings_view(add_skills@).take(j as int) =~= strings_view(add_skills@));
    classes.insert(i, d);
    assert(class_lib_view(classes@) =~= lib0.update(i as int, classes@[i as int]@));
    Ok(())
}

/// Number of effects of a skill's first rank (0 without ranks).
pub fn first_rank_effect_count(skill: &SkillDefinition) -> (n: usize)
    ensures
        n == (if skill@.ranks.len() > 0 { skill@.ranks[0].effects.len() } else { 0 }),
{
    if skill.ranks.len() > 0 {
        skill.ranks[0].effects.len()
    } else {
        0
    }
}

/// Filtering a list whose elements all pass, with one failing element
/// pushed at the end, gives back the list.
proof fn lemma_filter_after_push<T>(lib: Seq<T>, d: T, keep: spec_fn(T) -> bool)
    requires
        forall|i: int| 0 <= i < lib.len() ==> keep(#[trigger] lib[i]),
        !keep(d),
    ensures
        keep_where(lib.push(d), keep) == lib,
        keep_where(lib.push(d), keep).len() < lib.push(d).len(),
{
    lemma_keep_where_len(lib, keep);
    assert(lib.push(d).drop_last() =~= lib);
}

/// Creating a skill and then deleting it by name gives back the library.
pub proof fn lemma_create_then_delete_skill(
    lib: Seq<SkillDefinitionView>,
    name: Seq<char>,
    category: Seq<char>,
    skill_type: Seq<char>,
    description: Seq<char>,
    names: Seq<Seq<char>>,
    bases: Seq<u64>,
    unlocks: Seq<u32>,
    descs: Seq<Seq<char>>,
)
    requires
        create_skill_result(lib, name, category, skill_type, description, names, bases, unlocks, descs) is Ok,
    ensures
        delete_skill_result(
            create_skill_result(lib, name, category, skill_type, description, names, bases, unlocks, descs)->Ok_0,
            name,
        ) == Ok::<Seq<SkillDefinitionView>, CommandErrorView>(lib),
{
    let lib2 = create_skill_result(lib, name, category, skill_type, description, names, bases, unlocks, descs)->Ok_0;
    crate::collections::lemma_first_where(lib, skill_def_named(name));
    lemma_filter_after_push(lib, lib2.last(), skill_def_not_named(name));
    assert(lib2 == lib.push(lib2.last()));
}

/// A skill name cannot be created twice: once created, creating it again
/// is refused as a duplicate.
pub proof fn lemma_create_skill_twice_refused(
    lib: Seq<SkillDefinitionView>,
    name: Seq<char>,
    category: Seq<char>,
    skill_type: Seq<char>,
    description: Seq<char>,
    names: Seq<Seq<char>>,
    bases: Seq<u64>,
    unlocks: Seq<u32>,
    descs: Seq<Seq<char>>,
    category2: Seq<char>,
    skill_type2: Seq<char>,
    description2: Seq<char>,
    names2: Seq<Seq<char>>,
    bases2: Seq<u64>,
    unlocks2: Seq<u32>,
    descs2: Seq<Seq<char>>,
)
    requires
        create_skill_result(lib, name, category, skill_type, description, names, bases, unlocks, descs) is Ok,
    ensures
        create_skill_result(
            create_skill_result(lib, name, category, skill_type, description, names, bases, unlocks, descs)->Ok_0,
            name, category2, skill_type2, description2, names2, bases2, unlocks2, descs2,
        ) == Err::<Seq<SkillDefinitionView>, CommandErrorView>(CommandErrorOf::SkillExists(name)),
{
    let lib2 = create_skill_result(lib, name, category, skill_type, description, names, bases, unlocks, descs)->Ok_0;
    crate::collections::lemma_first_where(lib2, skill_def_named(name));
    assert(skill_def_named(name)(lib2[lib2.len() - 1]));
}

/// After deleting a name, no skill of the library has it.
pub proof fn lemma_delete_skill_removes_name(lib: Seq<SkillDefinitionView>, name: Seq<char>)
    requires
        delete_skill_result(lib, name) is Ok,
    ensures
        first_where(delete_skill_result(lib, name)->Ok_0, skill_def_named(name)) is None,
{
    let lib2 = delete_skill_result(lib, name)->Ok_0;
    crate::collections::lemma_keep_where_members(lib, skill_def_not_named(name));
    crate::collections::lemma_first_where(lib2, skill_def_named(name));
    if first_where(lib2, skill_def_named(name)) is Some {
        let k = first_where(lib2, skill_def_named(name))->0;
        assert(skill_def_not_named(name)(lib2[k]));
    }
}

/// Updating a skill keeps the library's size and every skill's name.
pub proof fn lemma_update_skill_keeps_names(
    lib: Seq<SkillDefinitionView>,
    name: Seq<char>,
    description: Option<Seq<char>>,
    category: Option<Seq<char>>,
    skill_type: Option<Seq<char>>,
    names: Seq<Seq<char>>,
    bases: Seq<u64>,
    unlocks: Seq<u32>,
    descs: Seq<Seq<char>>,
    remove: Seq<Seq<char>>,
)
    requires
        update_skill_result(lib, name, description, category, skill_type, names, bases, unlocks, descs, remove) is Ok,
    ensures
        ({
            let lib2 = update_skill_result(lib, name, description, category, skill_type, names, bases, unlocks, descs, remove)->Ok_0;
            lib2.len() == lib.len() && forall|i: int| 0 <= i < lib.len() ==> (#[trigger] lib2[i]).name == lib[i].name
        }),
{
    crate::collections::lemma_first_where(lib, skill_def_named(name));
}

/// Creating a class and then deleting it by name gives back the library.
pub proof fn lemma_create_then_delete_class(lib: Seq<ClassDefinitionView>, def: ClassDefinitionView)
    requires
        create_class_result(lib, def) is Ok,
    ensures
        delete_class_result(create_class_result(lib, def)->Ok_0, def.name) == Ok::<Seq<ClassDefinitionView>, CommandErrorView>(lib),
{
    crate::collections::lemma_first_where(lib, class_def_named(def.name));
    lemma_filter_after_push(lib, def, class_def_not_named(def.name));
}

/// A class name cannot be created twice.
pub proof fn lemma_create_class_twice_refused(lib: Seq<ClassDefinitionView>, def: ClassDefinitionView, def2: ClassDefinitionView)
    requires
        create_class_result(lib, def) is Ok,
        def2.name == def.name,
    ensures
        create_class_result(create_class_result(lib, def)->Ok_0, def2)
            == Err::<Seq<ClassDefinitionView>, CommandErrorView>(CommandErrorOf::ClassExists(def.name)),
{
    let lib2 = create_class_result(lib, def)->Ok_0;
    crate::collections::lemma_first_where(lib2, class_def_named(def.name));
    assert(class_def_named(def.name)(lib2[lib2.len() - 1]));
}

} // verus!
