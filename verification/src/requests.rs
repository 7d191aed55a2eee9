//! Requests that the client manager answers by itself.

use crate::effect::{check_manager, manager_refusal};
use crate::error::{parse_instance_id, GuiError};
use crate::instance_id::parsed_uuid;
use crate::world::World;
use vstd::prelude::*;

verus! {

/// Whether the client manager can be used, where `locked` tells whether it could
/// be taken hold of without waiting.
pub fn open_manager(world: &World, locked: bool) -> (r: Result<(), GuiError>)
    ensures
        match manager_refusal(world@, locked) {
            Some(error) => r matches Err(said) && said == error,
            None => r is Ok,
        },
{
    match check_manager(world, locked) {
        Some(error) => Err(error),
        None => Ok(()),
    }
}

/// The instance that a request to the client manager is about. Text that is no id
/// is refused before the manager is looked at.
pub fn open_manager_for(world: &World, locked: bool, instance_id: &str) -> (r: Result<
    u128,
    GuiError,
>)
    ensures
        match (parsed_uuid(instance_id@), manager_refusal(world@, locked)) {
            (Err(words), _) => r matches Err(GuiError::InvalidInstanceId(said)) && said@ == words,
            (Ok(_), Some(error)) => r matches Err(said) && said == error,
            (Ok(id), None) => r matches Ok(found) && found == id,
        },
{
    let id = match parse_instance_id(instance_id) {
        Ok(id) => id,
        Err(error) => return Err(error),
    };
    match open_manager(world, locked) {
        Ok(()) => Ok(id),
        Err(error) => Err(error),
    }
}

} // verus!
