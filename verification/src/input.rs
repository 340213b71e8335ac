pub mod events;
pub mod injection;
pub mod injector;
