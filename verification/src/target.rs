//! The language that a unit of work is run in.

use vstd::prelude::*;
use vstd::string::*;
use crate::text::{render_signed, signed_decimal};

verus! {

/// A target, as the byte that stands for it on the wire. Bytes outside
/// the known range are kept as they are and have no name.
#[derive(Clone, Copy, PartialEq, Eq, Structural, Hash)]
pub struct Target(pub i8);

/// The smallest byte that stands for a known target.
pub const ENUM_MIN_TARGET: i8 = 0;

/// The largest byte that stands for a known target.
pub const ENUM_MAX_TARGET: i8 = 4;

/// The name of the target that `value` stands for.
pub open spec fn target_name(value: i8) -> Option<Seq<char>> {
    if value == 0 {
        Some("Python"@)
    } else if value == 1 {
        Some("JavaScript"@)
    } else if value == 2 {
        Some("Rust"@)
    } else if value == 3 {
        Some("Main"@)
    } else if value == 4 {
        Some("Dynamic"@)
    } else {
        None
    }
}

/// The text that shows the target `value`: its name where it has one,
/// and `<UNKNOWN n>` with its byte as a signed number where it has not.
pub open spec fn target_text(value: i8) -> Seq<char> {
    match target_name(value) {
        Some(name) => name,
        None => "<UNKNOWN "@ + signed_decimal(value as int) + ">"@,
    }
}

impl Target {
    /// The Python runner.
    pub fn python() -> (target: Target)
        ensures
            target == Target(0),
    {
        Target(0)
    }

    /// The JavaScript runner.
    pub fn java_script() -> (target: Target)
        ensures
            target == Target(1),
    {
        Target(1)
    }

    /// The Rust runner.
    pub fn rust() -> (target: Target)
        ensures
            target == Target(2),
    {
        Target(2)
    }

    /// The engine's own main loop.
    pub fn main() -> (target: Target)
        ensures
            target == Target(3),
    {
        Target(3)
    }

    /// A target that is chosen at run time.
    pub fn dynamic() -> (target: Target)
        ensures
            target == Target(4),
    {
        Target(4)
    }

    /// Reads the target that is stored at position `loc` of `buf`.
    pub fn follow(buf: &[u8], loc: usize) -> (target: Target)
        requires
            loc < buf@.len(),
        ensures
            target == Target(buf@[loc as int] as i8),
    {
        Target(buf[loc] as i8)
    }

    /// Stores the target in the first byte of `dst`.
    pub fn push(&self, dst: &mut [u8])
        requires
            old(dst)@.len() >= 1,
        ensures
            final(dst)@ == old(dst)@.update(0, self.0 as u8),
    {
        dst[0] = self.0 as u8;
    }

    /// The target in little-endian byte order. One byte has one order.
    pub fn to_little_endian(self) -> (target: Target)
        ensures
            target == self,
    {
        self
    }

    /// The target from little-endian byte order. One byte has one order.
    pub fn from_little_endian(self) -> (target: Target)
        ensures
            target == self,
    {
        self
    }

    /// The name of a known target, and `None` for any other byte.
    pub fn variant_name(self) -> (name: Option<&'static str>)
        ensures
            match name {
                Some(name) => target_name(self.0) == Some(name@),
                None => target_name(self.0) is None,
            },
            name is Some <==> ENUM_MIN_TARGET <= self.0 <= ENUM_MAX_TARGET,
    {
        if self.0 == 0 {
            Some("Python")
        } else if self.0 == 1 {
            Some("JavaScript")
        } else if self.0 == 2 {
            Some("Rust")
        } else if self.0 == 3 {
            Some("Main")
        } else if self.0 == 4 {
            Some("Dynamic")
        } else {
            None
        }
    }
}

impl Target {
    /// The text that shows the target: its name, or `<UNKNOWN n>` for a
    /// byte `n` that stands for no known target.
    pub fn debug(self) -> (text: String)
        ensures
            text@ == target_text(self.0),
    {
        match self.variant_name() {
            Some(name) => String::from_str(name),
            None => {
                let mut text = String::from_str("<UNKNOWN ");
                let number = render_signed(self.0 as i64);
                text.append(number.as_str());
                text.append(">");
                text
            },
        }
    }
}

impl Default for Target {
    /// The Python runner.
    fn default() -> (target: Target)
        ensures
            target == Target(0),
    {
        Target(0)
    }
}

} // verus!
