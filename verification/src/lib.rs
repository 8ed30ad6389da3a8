pub mod dataset;
pub mod linux;
pub mod path;
pub mod testing;
pub mod text;
pub mod traitenum;
