use vstd::prelude::*;
use crate::error::AppError;
use crate::input::events::InputEvent;

verus! {

/// Something that replays input events on this machine.
pub trait InputInjector: Send + Sync {
    fn inject(&mut self, event: &InputEvent) -> Result<(), AppError>;

    fn clipboard_get(&mut self) -> Result<String, AppError>;

    fn clipboard_set(&mut self, text: &str) -> Result<(), AppError>;
}

} // verus!
