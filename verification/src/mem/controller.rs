//! The bank controller that a cartridge carries.

use crate::mem::cart::types::CartType;
use vstd::prelude::*;

verus! {

/// A bank controller that this core knows. There is one.
#[derive(Clone, Copy, Debug, PartialEq, Eq, Structural)]
pub enum Controller {
    MBC1,
}

impl Controller {
    /// The controller of a cartridge of type `value`, if it is one that this
    /// core knows: the three types with the first bank controller.
    pub open spec fn select(value: CartType) -> Option<Controller> {
        match value {
            CartType::RomMbc1 | CartType::RomMbc1Ram | CartType::RomMbc1RamBatt => Some(
                Controller::MBC1,
            ),
            _ => None,
        }
    }

    /// The controller of a cartridge of type `value`, or `None` where this
    /// core does not know it.
    pub fn try_from_cart_type(value: CartType) -> (r: Option<Controller>)
        ensures
            r == Controller::select(value),
    {
        match value {
            CartType::RomMbc1 | CartType::RomMbc1Ram | CartType::RomMbc1RamBatt => Some(
                Controller::MBC1,
            ),
            _ => None,
        }
    }

    /// The controller of a cartridge of type `value`, which is one that this
    /// core knows.
    pub fn from_cart_type(value: CartType) -> (r: Controller)
        requires
            Controller::select(value) is Some,
        ensures
            Controller::select(value) == Some(r),
    {
        Controller::MBC1
    }
}

} // verus!
