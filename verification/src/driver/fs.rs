//! The built-in driver for images that are files.
//!
//! The library knows the driver by its name alone; how a file is opened and
//! read is the host's business.

use crate::driver::config::DriverConfig;
use crate::driver::{AnyConstructor, DriverConstructor, DriverImpl, DriverRegistry};
use vstd::prelude::*;

verus! {

/// The name the built-in driver goes by.
pub open spec fn fs_name() -> Seq<char> {
    "fs"@
}

/// The driver for images that are files.
pub struct FsDriver {}

impl DriverImpl for FsDriver {
    fn name(&self) -> (r: &str)
        ensures
            r@ == fs_name(),
    {
        "fs"
    }

    fn dup(&self) -> (r: Self) {
        FsDriver {  }
    }
}

/// The factory of [`FsDriver`].
pub struct FsDriverConstructor {}

impl DriverConstructor for FsDriverConstructor {
    type Driver = FsDriver;

    fn name(&self) -> (r: String)
        ensures
            r@ == fs_name(),
    {
        "fs".to_owned()
    }

    fn construct(&self, _config: &DriverConfig) -> (r: FsDriver) {
        FsDriver {  }
    }
}

/// Registers the built-in factory under its name, unless the name is taken.
pub fn init_driver<C: DriverConstructor>(registry: &mut DriverRegistry<C>)
    ensures
        DriverRegistry::registered(
            old(registry),
            fs_name(),
            AnyConstructor::Fs(FsDriverConstructor {  }),
            final(registry),
        ),
{
    let constructor = FsDriverConstructor {  };
    registry.register_as(constructor.name(), AnyConstructor::Fs(constructor))
}

} // verus!
