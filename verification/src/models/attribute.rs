use vstd::prelude::*;

verus! {

/// All six core attributes in the system.
/// Physical: Strength, Agility, Endurance
/// Magical: Intelligence, Wisdom, Perception
#[derive(Debug, Clone, Copy, PartialEq, Eq, Structural)]
pub enum AttributeKind {
    Strength,
    Agility,
    Endurance,
    Intelligence,
    Wisdom,
    Perception,
}

/// The position of an attribute in display order (Strength first, Perception last).
pub open spec fn attribute_index(k: AttributeKind) -> nat {
    match k {
        AttributeKind::Strength => 0,
        AttributeKind::Agility => 1,
        AttributeKind::Endurance => 2,
        AttributeKind::Intelligence => 3,
        AttributeKind::Wisdom => 4,
        AttributeKind::Perception => 5,
    }
}

/// The attribute at a display position (positions 0 to 5).
pub open spec fn attribute_at(i: int) -> AttributeKind {
    if i == 0 { AttributeKind::Strength }
    else if i == 1 { AttributeKind::Agility }
    else if i == 2 { AttributeKind::Endurance }
    else if i == 3 { AttributeKind::Intelligence }
    else if i == 4 { AttributeKind::Wisdom }
    else { AttributeKind::Perception }
}

/// Display name of each attribute.
pub open spec fn attribute_name(k: AttributeKind) -> Seq<char> {
    match k {
        AttributeKind::Strength => "Strength"@,
        AttributeKind::Agility => "Agility"@,
        AttributeKind::Endurance => "Endurance"@,
        AttributeKind::Intelligence => "Intelligence"@,
        AttributeKind::Wisdom => "Wisdom"@,
        AttributeKind::Perception => "Perception"@,
    }
}

impl AttributeKind {
    /// All attribute kinds in display order.
    pub fn all() -> (a: [AttributeKind; 6])
        ensures
            forall|i: int| 0 <= i < 6 ==> #[trigger] a@[i] == attribute_at(i),
    {
        [
            AttributeKind::Strength,
            AttributeKind::Agility,
            AttributeKind::Endurance,
            AttributeKind::Intelligence,
            AttributeKind::Wisdom,
            AttributeKind::Perception,
        ]
    }

    /// The attribute at a display position.
    pub fn from_index(i: usize) -> (k: AttributeKind)
        requires
            i < 6,
        ensures
            k == attribute_at(i as int),
            attribute_index(k) == i,
    {
        match i {
            0 => AttributeKind::Strength,
            1 => AttributeKind::Agility,
            2 => AttributeKind::Endurance,
            3 => AttributeKind::Intelligence,
            4 => AttributeKind::Wisdom,
            _ => AttributeKind::Perception,
        }
    }

    /// Display name for UI rendering.
    pub fn name(&self) -> (s: &'static str)
        ensures
            s@ == attribute_name(*self),
    {
        match self {
            AttributeKind::Strength => "Strength",
            AttributeKind::Agility => "Agility",
            AttributeKind::Endurance => "Endurance",
            AttributeKind::Intelligence => "Intelligence",
            AttributeKind::Wisdom => "Wisdom",
            AttributeKind::Perception => "Perception",
        }
    }
}

/// Holds the six attribute values for a character.
/// Each attribute is stored as a u32 with no upper bound at runtime;
/// `new_clamped` keeps them within 1 to 10 during character creation.
#[derive(Debug, Clone, Copy, PartialEq, Eq, Structural)]
pub struct Attributes {
    pub strength: u32,
    pub agility: u32,
    pub endurance: u32,
    pub intelligence: u32,
    pub wisdom: u32,
    pub perception: u32,
}

/// `v` clamped into the range 1 to 10.
pub open spec fn clamp_1_10(v: u32) -> u32 {
    if v < 1 { 1 } else if v > 10 { 10 } else { v }
}

impl Attributes {
    /// The value of one attribute.
    pub open spec fn value(self, kind: AttributeKind) -> u32 {
        match kind {
            AttributeKind::Strength => self.strength,
            AttributeKind::Agility => self.agility,
            AttributeKind::Endurance => self.endurance,
            AttributeKind::Intelligence => self.intelligence,
            AttributeKind::Wisdom => self.wisdom,
            AttributeKind::Perception => self.perception,
        }
    }

    /// The same attributes with one of them set to `v`.
    pub open spec fn with_value(self, kind: AttributeKind, v: u32) -> Attributes {
        match kind {
            AttributeKind::Strength => Attributes { strength: v, ..self },
            AttributeKind::Agility => Attributes { agility: v, ..self },
            AttributeKind::Endurance => Attributes { endurance: v, ..self },
            AttributeKind::Intelligence => Attributes { intelligence: v, ..self },
            AttributeKind::Wisdom => Attributes { wisdom: v, ..self },
            AttributeKind::Perception => Attributes { perception: v, ..self },
        }
    }

    /// Sum of all six attributes.
    pub open spec fn total(self) -> int {
        self.strength + self.agility + self.endurance + self.intelligence + self.wisdom
            + self.perception
    }

    /// Create attributes with exact values (no validation).
    pub fn new(str_val: u32, agi: u32, end: u32, int_val: u32, wis: u32, per: u32) -> (a: Self)
        ensures
            a == (Attributes {
                strength: str_val,
                agility: agi,
                endurance: end,
                intelligence: int_val,
                wisdom: wis,
                perception: per,
            }),
    {
        Self {
            strength: str_val,
            agility: agi,
            endurance: end,
            intelligence: int_val,
            wisdom: wis,
            perception: per,
        }
    }

    /// Create attributes clamped to the 1 to 10 range (used during character creation).
    pub fn new_clamped(str_val: u32, agi: u32, end: u32, int_val: u32, wis: u32, per: u32) -> (a: Self)
        ensures
            a == (Attributes {
                strength: clamp_1_10(str_val),
                agility: clamp_1_10(agi),
                endurance: clamp_1_10(end),
                intelligence: clamp_1_10(int_val),
                wisdom: clamp_1_10(wis),
                perception: clamp_1_10(per),
            }),
    {
        Self {
            strength: clamp(str_val),
            agility: clamp(agi),
            endurance: clamp(end),
            intelligence: clamp(int_val),
            wisdom: clamp(wis),
            perception: clamp(per),
        }
    }

    /// Get the value of a specific attribute by kind.
    pub fn get(&self, kind: AttributeKind) -> (v: u32)
        ensures
            v == self.value(kind),
    {
        match kind {
            AttributeKind::Strength => self.strength,
            AttributeKind::Agility => self.agility,
            AttributeKind::Endurance => self.endurance,
            AttributeKind::Intelligence => self.intelligence,
            AttributeKind::Wisdom => self.wisdom,
            AttributeKind::Perception => self.perception,
        }
    }

    /// Add points to a specific attribute.
    pub fn add(&mut self, kind: AttributeKind, amount: u32)
        requires
            old(self).value(kind) + amount <= u32::MAX,
        ensures
            *final(self) == old(self).with_value(kind, (old(self).value(kind) + amount) as u32),
    {
        match kind {
            AttributeKind::Strength => self.strength = self.strength + amount,
            AttributeKind::Agility => self.agility = self.agility + amount,
            AttributeKind::Endurance => self.endurance = self.endurance + amount,
            AttributeKind::Intelligence => self.intelligence = self.intelligence + amount,
            AttributeKind::Wisdom => self.wisdom = self.wisdom + amount,
            AttributeKind::Perception => self.perception = self.perception + amount,
        }
    }

    /// Remove points from a specific attribute.
    pub fn subtract(&mut self, kind: AttributeKind, amount: u32)
        requires
            old(self).value(kind) >= amount,
        ensures
            *final(self) == old(self).with_value(kind, (old(self).value(kind) - amount) as u32),
    {
        match kind {
            AttributeKind::Strength => self.strength = self.strength - amount,
            AttributeKind::Agility => self.agility = self.agility - amount,
            AttributeKind::Endurance => self.endurance = self.endurance - amount,
            AttributeKind::Intelligence => self.intelligence = self.intelligence - amount,
            AttributeKind::Wisdom => self.wisdom = self.wisdom - amount,
            AttributeKind::Perception => self.perception = self.perception - amount,
        }
    }
}

fn clamp(v: u32) -> (r: u32)
    ensures
        r == clamp_1_10(v),
{
    if v < 1 {
        1
    } else if v > 10 {
        10
    } else {
        v
    }
}

/// Each attribute kind reads and writes the field it is named for, and
/// nothing else.
pub proof fn lemma_kinds_use_their_fields(a: Attributes, v: u32)
    ensures
        a.value(AttributeKind::Strength) == a.strength,
        a.with_value(AttributeKind::Strength, v) == (Attributes { strength: v, ..a }),
        a.value(AttributeKind::Agility) == a.agility,
        a.with_value(AttributeKind::Agility, v) == (Attributes { agility: v, ..a }),
        a.value(AttributeKind::Endurance) == a.endurance,
        a.with_value(AttributeKind::Endurance, v) == (Attributes { endurance: v, ..a }),
        a.value(AttributeKind::Intelligence) == a.intelligence,
        a.with_value(AttributeKind::Intelligence, v) == (Attributes { intelligence: v, ..a }),
        a.value(AttributeKind::Wisdom) == a.wisdom,
        a.with_value(AttributeKind::Wisdom, v) == (Attributes { wisdom: v, ..a }),
        a.value(AttributeKind::Perception) == a.perception,
        a.with_value(AttributeKind::Perception, v) == (Attributes { perception: v, ..a }),
{
}

/// Reading an attribute after setting it gives the value set, and the
/// other attributes are untouched.
pub proof fn lemma_value_with_value(a: Attributes, kind: AttributeKind, other: AttributeKind, v: u32)
    ensures
        a.with_value(kind, v).value(kind) == v,
        other != kind ==> a.with_value(kind, v).value(other) == a.value(other),
{
}

/// Adding points to an attribute and then removing the same number restores it.
pub proof fn lemma_add_then_subtract(a: Attributes, kind: AttributeKind, amount: u32)
    requires
        a.value(kind) + amount <= u32::MAX,
    ensures
        ({
            let added = a.with_value(kind, (a.value(kind) + amount) as u32);
            added.with_value(kind, (added.value(kind) - amount) as u32) == a
        }),
{
}

/// Adding points to one attribute raises the total by exactly that many.
pub proof fn lemma_add_raises_total(a: Attributes, kind: AttributeKind, amount: u32)
    requires
        a.value(kind) + amount <= u32::MAX,
    ensures
        a.with_value(kind, (a.value(kind) + amount) as u32).total() == a.total() + amount,
{
}

/// Every clamped value lies in the range 1 to 10, and values already in range are kept.
pub proof fn lemma_clamp_range(v: u32)
    ensures
        1 <= clamp_1_10(v) <= 10,
        1 <= v <= 10 ==> clamp_1_10(v) == v,
{
}

} // verus!
