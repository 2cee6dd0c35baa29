pub mod tree_points;
