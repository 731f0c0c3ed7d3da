pub mod transpose;
pub mod guard;
pub mod bindings;
pub mod sound;
pub mod command;
pub mod controller;
