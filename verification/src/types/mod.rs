pub mod decimal;
pub mod standard_id;
pub mod standard_unit;
