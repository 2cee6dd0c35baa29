pub mod attribute;
pub mod grade;
pub mod skill;
pub mod class;
pub mod profession;
pub mod innate_skill;
pub mod tree;
pub mod character;
