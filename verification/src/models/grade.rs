use vstd::prelude::*;

verus! {

/// Grade represents a being's evolutionary rank.
/// G is the lowest (starting grade), progressing upward.
#[derive(Debug, Clone, Copy, PartialEq, Eq, Structural, PartialOrd, Ord)]
pub enum Grade {
    G,
    F,
    E,
    D,
    C,
    B,
    A,
    S,
    SS,
    SSS,
}

/// The position of a grade on the ladder, G being 0 and SSS being 9.
pub open spec fn grade_index(g: Grade) -> nat {
    match g {
        Grade::G => 0,
        Grade::F => 1,
        Grade::E => 2,
        Grade::D => 3,
        Grade::C => 4,
        Grade::B => 5,
        Grade::A => 6,
        Grade::S => 7,
        Grade::SS => 8,
        Grade::SSS => 9,
    }
}

/// The grade at a position of the ladder; positions past the top fall back to S.
pub open spec fn grade_at(n: int) -> Grade {
    if n == 0 { Grade::G }
    else if n == 1 { Grade::F }
    else if n == 2 { Grade::E }
    else if n == 3 { Grade::D }
    else if n == 4 { Grade::C }
    else if n == 5 { Grade::B }
    else if n == 6 { Grade::A }
    else if n == 7 { Grade::S }
    else if n == 8 { Grade::SS }
    else if n == 9 { Grade::SSS }
    else { Grade::S }
}

/// The display name of each grade.
pub open spec fn grade_name(g: Grade) -> Seq<char> {
    match g {
        Grade::G => seq!['G'],
        Grade::F => seq!['F'],
        Grade::E => seq!['E'],
        Grade::D => seq!['D'],
        Grade::C => seq!['C'],
        Grade::B => seq!['B'],
        Grade::A => seq!['A'],
        Grade::S => seq!['S'],
        Grade::SS => seq!['S', 'S'],
        Grade::SSS => seq!['S', 'S', 'S'],
    }
}

/// The grade after `g`, or `None` at the top grade.
pub open spec fn grade_next(g: Grade) -> Option<Grade> {
    if grade_index(g) < 9 { Some(grade_at(grade_index(g) + 1int)) } else { None }
}

impl Grade {
    /// Numeric equivalent for use in formulas.
    pub fn numeric(&self) -> (n: u32)
        ensures
            n == grade_index(*self),
            n <= 9,
    {
        match self {
            Grade::G => 0,
            Grade::F => 1,
            Grade::E => 2,
            Grade::D => 3,
            Grade::C => 4,
            Grade::B => 5,
            Grade::A => 6,
            Grade::S => 7,
            Grade::SS => 8,
            Grade::SSS => 9,
        }
    }

    /// Display name for UI rendering.
    pub fn name(&self) -> (s: &'static str)
        ensures
            s@ == grade_name(*self),
    {
        proof {
            reveal_strlit("G");
            reveal_strlit("F");
            reveal_strlit("E");
            reveal_strlit("D");
            reveal_strlit("C");
            reveal_strlit("B");
            reveal_strlit("A");
            reveal_strlit("S");
            reveal_strlit("SS");
            reveal_strlit("SSS");
        }
        match self {
            Grade::G => "G",
            Grade::F => "F",
            Grade::E => "E",
            Grade::D => "D",
            Grade::C => "C",
            Grade::B => "B",
            Grade::A => "A",
            Grade::S => "S",
            Grade::SS => "SS",
            Grade::SSS => "SSS",
        }
    }

    /// Return the next grade, or None if already at SSS.
    pub fn next(&self) -> (r: Option<Grade>)
        ensures
            r == grade_next(*self),
            match r {
                Some(g) => grade_index(*self) < 9 && grade_index(g) == grade_index(*self) + 1,
                None => *self == Grade::SSS,
            },
    {
        match self {
            Grade::G => Some(Grade::F),
            Grade::F => Some(Grade::E),
            Grade::E => Some(Grade::D),
            Grade::D => Some(Grade::C),
            Grade::C => Some(Grade::B),
            Grade::B => Some(Grade::A),
            Grade::A => Some(Grade::S),
            Grade::S => Some(Grade::SS),
            Grade::SS => Some(Grade::SSS),
            Grade::SSS => None,
        }
    }

    /// Convert a numeric value back to a Grade. Unknown values clamp to S.
    pub fn from_numeric(n: u32) -> (g: Grade)
        ensures
            g == grade_at(n as int),
    {
        match n {
            0 => Grade::G,
            1 => Grade::F,
            2 => Grade::E,
            3 => Grade::D,
            4 => Grade::C,
            5 => Grade::B,
            6 => Grade::A,
            7 => Grade::S,
            8 => Grade::SS,
            9 => Grade::SSS,
            _ => Grade::S,
        }
    }
}

/// Converting a grade to its number and back gives the same grade.
pub proof fn lemma_grade_numeric_roundtrip(g: Grade)
    ensures
        grade_at(grade_index(g) as int) == g,
{
}

/// Every number of the ladder names a grade whose number it is.
pub proof fn lemma_numeric_grade_roundtrip(n: int)
    requires
        0 <= n <= 9,
    ensures
        grade_index(grade_at(n)) == n,
{
}

/// Distinct grades have distinct numbers, so the ladder is a strict order.
pub proof fn lemma_grade_index_injective(g1: Grade, g2: Grade)
    requires
        grade_index(g1) == grade_index(g2),
    ensures
        g1 == g2,
{
}

} // verus!
