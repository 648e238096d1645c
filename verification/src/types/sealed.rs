use super::{Fd, Fixed};
use vstd::prelude::*;

verus! {

/// A file target: a plain descriptor or an index into the registered file table.
#[derive(Debug, Clone, Copy)]
pub enum Target {
    Fd(i32),
    Fixed(u32),
}

/// Types usable where only a plain file descriptor is accepted.
pub trait UseFd: Sized {
    spec fn spec_fd(&self) -> i32;

    fn into(self) -> (r: i32)
        ensures
            r == self.spec_fd(),
    ;
}

/// Types usable where either a plain descriptor or a registered file is accepted.
pub trait UseFixed: Sized {
    spec fn spec_target(&self) -> Target;

    fn into(self) -> (r: Target)
        ensures
            r == self.spec_target(),
    ;
}

impl UseFd for Fd {
    open spec fn spec_fd(&self) -> i32 {
        self.0
    }

    fn into(self) -> (r: i32) {
        self.0
    }
}

impl UseFixed for Fd {
    open spec fn spec_target(&self) -> Target {
        Target::Fd(self.0)
    }

    fn into(self) -> (r: Target) {
        Target::Fd(self.0)
    }
}

impl UseFixed for Fixed {
    open spec fn spec_target(&self) -> Target {
        Target::Fixed(self.0)
    }

    fn into(self) -> (r: Target) {
        Target::Fixed(self.0)
    }
}

} // verus!
