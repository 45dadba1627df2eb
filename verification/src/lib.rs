pub mod animals;
pub mod borrowing;
pub mod closures;
pub mod conversion;
pub mod csv;
pub mod decimal;
pub mod events;
pub mod functions;
pub mod generic_functions;
pub mod generic_traits;
pub mod guess;
pub mod if_else;
pub mod lifetime;
pub mod linked_list;
pub mod loops;
pub mod ownership;
pub mod pattern_matching;
pub mod students;
pub mod text;
