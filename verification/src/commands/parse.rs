//! Parsing of command arguments.
use vstd::prelude::*;
use crate::commands::{CommandError, CommandErrorOf, CommandErrorView, result_view};
use crate::models::attribute::{AttributeKind, attribute_name};
use crate::models::skill::{SkillCategory, SkillType};
use crate::text::{
    lowercase, parse_u32, parse_u32_spec, same_text, split_on, split_spec, strings_view, to_lowercase,
    trim, trim_spec,
};

verus! {

/// The attribute a short code names: str, agi, end, int, wis or per.
pub open spec fn attribute_for_code(code: Seq<char>) -> Option<AttributeKind> {
    if code == "str"@ { Some(AttributeKind::Strength) }
    else if code == "agi"@ { Some(AttributeKind::Agility) }
    else if code == "end"@ { Some(AttributeKind::Endurance) }
    else if code == "int"@ { Some(AttributeKind::Intelligence) }
    else if code == "wis"@ { Some(AttributeKind::Wisdom) }
    else if code == "per"@ { Some(AttributeKind::Perception) }
    else { None }
}

/// What an attribute argument `kind:points` means.
pub open spec fn parse_attr_spec(s: Seq<char>) -> Result<(AttributeKind, u32), CommandErrorView> {
    let parts = split_spec(s, ':');
    if parts.len() != 2 {
        Err(CommandErrorOf::InvalidAttrFormat(s))
    } else {
        match attribute_for_code(parts[0]) {
            None => Err(CommandErrorOf::UnknownAttribute(parts[0])),
            Some(k) => match parse_u32_spec(parts[1]) {
                None => Err(CommandErrorOf::InvalidPointValue),
                Some(p) => Ok((k, p)),
            },
        }
    }
}

/// The lowercase form of an ASCII capital letter; other characters unchanged.
pub open spec fn ascii_lower(c: char) -> char {
    if 'A' <= c <= 'Z' { ((c as u32) + 32) as char } else { c }
}

/// The first three letters of an attribute's display name, in lowercase.
pub open spec fn name_abbreviation(k: AttributeKind) -> Seq<char> {
    attribute_name(k).take(3).map_values(|c: char| ascii_lower(c))
}

/// An attribute code abbreviates the attribute it names: a text is the code
/// of attribute `k` exactly when it is the first three letters of `k`'s
/// name in lowercase ("agi" for Agility, "end" for Endurance, ...).
pub proof fn lemma_attribute_code_abbreviates_name(code: Seq<char>, k: AttributeKind)
    ensures
        attribute_for_code(code) == Some(k) <==> code == name_abbreviation(k),
{
    reveal_strlit("str");
    reveal_strlit("agi");
    reveal_strlit("end");
    reveal_strlit("int");
    reveal_strlit("wis");
    reveal_strlit("per");
    reveal_strlit("Strength");
    reveal_strlit("Agility");
    reveal_strlit("Endurance");
    reveal_strlit("Intelligence");
    reveal_strlit("Wisdom");
    reveal_strlit("Perception");
    assert(name_abbreviation(AttributeKind::Strength) =~= "str"@);
    assert(name_abbreviation(AttributeKind::Agility) =~= "agi"@);
    assert(name_abbreviation(AttributeKind::Endurance) =~= "end"@);
    assert(name_abbreviation(AttributeKind::Intelligence) =~= "int"@);
    assert(name_abbreviation(AttributeKind::Wisdom) =~= "wis"@);
    assert(name_abbreviation(AttributeKind::Perception) =~= "per"@);
    assert("str"@[0] != "agi"@[0]);
    assert("str"@ != "agi"@);
    assert("str"@[0] != "end"@[0]);
    assert("str"@ != "end"@);
    assert("str"@[0] != "int"@[0]);
    assert("str"@ != "int"@);
    assert("str"@[0] != "wis"@[0]);
    assert("str"@ != "wis"@);
    assert("str"@[0] != "per"@[0]);
    assert("str"@ != "per"@);
    assert("agi"@[0] != "end"@[0]);
    assert("agi"@ != "end"@);
    assert("agi"@[0] != "int"@[0]);
    assert("agi"@ != "int"@);
    assert("agi"@[0] != "wis"@[0]);
    assert("agi"@ != "wis"@);
    assert("agi"@[0] != "per"@[0]);
    assert("agi"@ != "per"@);
    assert("end"@[0] != "int"@[0]);
    assert("end"@ != "int"@);
    assert("end"@[0] != "wis"@[0]);
    assert("end"@ != "wis"@);
    assert("end"@[0] != "per"@[0]);
    assert("end"@ != "per"@);
    assert("int"@[0] != "wis"@[0]);
    assert("int"@ != "wis"@);
    assert("int"@[0] != "per"@[0]);
    assert("int"@ != "per"@);
    assert("wis"@[0] != "per"@[0]);
    assert("wis"@ != "per"@);
}

/// A parsed attribute argument names the attribute its code abbreviates,
/// with the points written after the colon.
pub proof fn lemma_parsed_attr_matches_code(s: Seq<char>)
    requires
        parse_attr_spec(s) is Ok,
    ensures
        split_spec(s, ':').len() == 2,
        split_spec(s, ':')[0] == name_abbreviation(parse_attr_spec(s)->Ok_0.0),
        parse_u32_spec(split_spec(s, ':')[1]) == Some(parse_attr_spec(s)->Ok_0.1),
{
    lemma_attribute_code_abbreviates_name(split_spec(s, ':')[0], parse_attr_spec(s)->Ok_0.0);
}

/// The attribute a short code names.
pub fn attribute_from_code(code: &str) -> (r: Option<AttributeKind>)
    ensures
        r == attribute_for_code(code@),
{
    proof {
        reveal_strlit("str");
        reveal_strlit("agi");
        reveal_strlit("end");
        reveal_strlit("int");
        reveal_strlit("wis");
        reveal_strlit("per");
    }
    if same_text(code, "str") {
        Some(AttributeKind::Strength)
    } else if same_text(code, "agi") {
        Some(AttributeKind::Agility)
    } else if same_text(code, "end") {
        Some(AttributeKind::Endurance)
    } else if same_text(code, "int") {
        Some(AttributeKind::Intelligence)
    } else if same_text(code, "wis") {
        Some(AttributeKind::Wisdom)
    } else if same_text(code, "per") {
        Some(AttributeKind::Perception)
    } else {
        None
    }
}

/// Parse a `kind:points` attribute argument (e.g. "str:3").
pub fn parse_attr_arg(s: &str) -> (r: Result<(AttributeKind, u32), CommandError>)
    ensures
        result_view(r) == parse_attr_spec(s@),
{
    let parts = split_on(s, ':');
    if parts.len() != 2 {
        return Err(CommandErrorOf::InvalidAttrFormat(s.to_owned()));
    }
    assert(parts[0]@ == split_spec(s@, ':')[0]);
    assert(parts[1]@ == split_spec(s@, ':')[1]);
    match attribute_from_code(parts[0].as_str()) {
        None => Err(CommandErrorOf::UnknownAttribute(parts[0].clone())),
        Some(k) => match parse_u32(parts[1].as_str()) {
            None => Err(CommandErrorOf::InvalidPointValue),
            Some(p) => Ok((k, p)),
        },
    }
}

/// What a kill argument `enemy_level:count` means.
pub open spec fn parse_kill_spec(s: Seq<char>) -> Result<(u32, u32), CommandErrorView> {
    let parts = split_spec(s, ':');
    if parts.len() != 2 {
        Err(CommandErrorOf::InvalidKillFormat(s))
    } else {
        match parse_u32_spec(parts[0]) {
            None => Err(CommandErrorOf::InvalidEnemyLevel),
            Some(level) => match parse_u32_spec(parts[1]) {
                None => Err(CommandErrorOf::InvalidKillCount),
                Some(count) => Ok((level, count)),
            },
        }
    }
}

/// Parse an `enemy_level:count` kill argument (e.g. "25:3").
pub fn parse_kill_arg(s: &str) -> (r: Result<(u32, u32), CommandError>)
    ensures
        result_view(r) == parse_kill_spec(s@),
{
    let parts = split_on(s, ':');
    if parts.len() != 2 {
        return Err(CommandErrorOf::InvalidKillFormat(s.to_owned()));
    }
    assert(parts[0]@ == split_spec(s@, ':')[0]);
    assert(parts[1]@ == split_spec(s@, ':')[1]);
    match parse_u32(parts[0].as_str()) {
        None => Err(CommandErrorOf::InvalidEnemyLevel),
        Some(level) => match parse_u32(parts[1].as_str()) {
            None => Err(CommandErrorOf::InvalidKillCount),
            Some(count) => Ok((level, count)),
        },
    }
}

/// The category a lowercase name stands for; "profession" is another name
/// for the class category.
pub open spec fn category_for(lower: Seq<char>) -> Option<SkillCategory> {
    if lower == "acquired"@ { Some(SkillCategory::Acquired) }
    else if lower == "innate"@ { Some(SkillCategory::Innate) }
    else if lower == "class"@ { Some(SkillCategory::Class) }
    else if lower == "profession"@ { Some(SkillCategory::Class) }
    else { None }
}

/// The type a lowercase name stands for.
pub open spec fn skill_type_for(lower: Seq<char>) -> Option<SkillType> {
    if lower == "active"@ { Some(SkillType::Active) }
    else if lower == "passive"@ { Some(SkillType::Passive) }
    else { None }
}

/// The category named by an already lowercased name.
pub fn category_from_lowercase(lower: &str) -> (r: Option<SkillCategory>)
    ensures
        r == category_for(lower@),
{
    proof {
        reveal_strlit("acquired");
        reveal_strlit("innate");
        reveal_strlit("class");
        reveal_strlit("profession");
    }
    if same_text(lower, "acquired") {
        Some(SkillCategory::Acquired)
    } else if same_text(lower, "innate") {
        Some(SkillCategory::Innate)
    } else if same_text(lower, "class") {
        Some(SkillCategory::Class)
    } else if same_text(lower, "profession") {
        Some(SkillCategory::Class)
    } else {
        None
    }
}

/// The type named by an already lowercased name.
pub fn skill_type_from_lowercase(lower: &str) -> (r: Option<SkillType>)
    ensures
        r == skill_type_for(lower@),
{
    proof {
        reveal_strlit("active");
        reveal_strlit("passive");
    }
    if same_text(lower, "active") {
        Some(SkillType::Active)
    } else if same_text(lower, "passive") {
        Some(SkillType::Passive)
    } else {
        None
    }
}

/// What parsing a category name gives: the category its lowercase form
/// names, or an error carrying the name as given.
pub open spec fn parse_category_spec(s: Seq<char>) -> Result<SkillCategory, CommandErrorView> {
    match category_for(lowercase(s)) {
        Some(c) => Ok(c),
        None => Err(CommandErrorOf::UnknownCategory(s)),
    }
}

/// What parsing a type name gives.
pub open spec fn parse_skill_type_spec(s: Seq<char>) -> Result<SkillType, CommandErrorView> {
    match skill_type_for(lowercase(s)) {
        Some(t) => Ok(t),
        None => Err(CommandErrorOf::UnknownType(s)),
    }
}

/// Parse a skill category name, ignoring case.
pub fn parse_category(s: &str) -> (r: Result<SkillCategory, CommandError>)
    ensures
        result_view(r) == parse_category_spec(s@),
{
    let lower = to_lowercase(s);
    match category_from_lowercase(lower.as_str()) {
        Some(c) => Ok(c),
        None => Err(CommandErrorOf::UnknownCategory(s.to_owned())),
    }
}

/// Parse a skill type name, ignoring case.
pub fn parse_skill_type(s: &str) -> (r: Result<SkillType, CommandError>)
    ensures
        result_view(r) == parse_skill_type_spec(s@),
{
    let lower = to_lowercase(s);
    match skill_type_from_lowercase(lower.as_str()) {
        Some(t) => Ok(t),
        None => Err(CommandErrorOf::UnknownType(s.to_owned())),
    }
}

/// The trimmed pieces that are not empty, in order.
pub open spec fn trimmed_nonempty(parts: Seq<Seq<char>>) -> Seq<Seq<char>>
    decreases parts.len(),
{
    if parts.len() == 0 {
        Seq::empty()
    } else {
        let rest = trimmed_nonempty(parts.drop_last());
        let t = trim_spec(parts.last());
        if t.len() > 0 { rest.push(t) } else { rest }
    }
}

/// Names in a comma-separated list, each trimmed, empty ones dropped.
pub fn parse_name_list(s: &str) -> (names: Vec<String>)
    ensures
        strings_view(names@) == trimmed_nonempty(split_spec(s@, ',')),
{
    let parts = split_on(s, ',');
    let mut names: Vec<String> = Vec::new();
    let mut i: usize = 0;
    while i < parts.len()
        invariant
            i <= parts@.len(),
            strings_view(parts@) == split_spec(s@, ','),
            strings_view(names@) == trimmed_nonempty(strings_view(parts@).take(i as int)),
        decreases parts@.len() - i,
    {
        assert(strings_view(parts@).take(i + 1).drop_last() =~= strings_view(parts@).take(i as int));
        let t = trim(parts[i].as_str());
        if !t.as_str().is_empty() {
            let ghost before = names@;
            names.push(t);
            assert(strings_view(names@) =~= strings_view(before).push(t@));
        }
        i = i + 1;
    }
    assert(strings_view(parts@).take(parts@.len() as int) =~= strings_view(parts@));
    names
}

} // verus!
