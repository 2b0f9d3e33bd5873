//! Remote-control bind engine.
//!
//! Bridges a line-oriented hardware remote control to desktop automation:
//! it decodes raw serial lines into canonical remote codes, applies
//! debounce and repeat timing, resolves a code to a configured bind,
//! interprets the bind's action, and drives a small mode state machine.
//! The engine itself performs no I/O: it turns codes and clock readings
//! into sequences of capability calls for the surrounding process to run.

pub mod binds;
pub mod codes;
pub mod config;
pub mod dispatch;
pub mod emulator;
pub mod engine;
pub mod error;
pub mod mode;

pub use binds::{Action, Bind};
pub use config::Config;
pub use dispatch::{CapabilityCall, Dispatch};
pub use engine::{BindMap, CodeOutcome, DispatchContext, StepResult};
pub use emulator::audio::{Audio, Device, DeviceKind};
pub use emulator::keyboard::Key;
pub use error::Error;
pub use mode::MenuMode;

use crate::codes::push_char;
use vstd::prelude::*;

verus! {

/// The character of one decimal digit.
pub open spec fn spec_digit_char(d: nat) -> char {
    (d + 48) as char
}

/// The character of one lowercase hexadecimal digit.
pub open spec fn spec_hex_char(d: nat) -> char {
    if d < 10 {
        (d + 48) as char
    } else {
        (d + 87) as char
    }
}

/// The decimal digit characters of `n`, most significant first.
pub open spec fn spec_dec_str(n: nat) -> Seq<char>
    decreases n,
{
    if n < 10 {
        seq![spec_digit_char(n)]
    } else {
        spec_dec_str(n / 10).push(spec_digit_char(n % 10))
    }
}

/// The four lowercase hexadecimal digit characters of `x`.
pub open spec fn spec_hex4(x: u16) -> Seq<char> {
    seq![
        spec_hex_char((x as nat / 4096) % 16),
        spec_hex_char((x as nat / 256) % 16),
        spec_hex_char((x as nat / 16) % 16),
        spec_hex_char(x as nat % 16),
    ]
}

/// The identifier formed from a clock reading in milliseconds and a
/// random salt: the reading in decimal, then the salt as four
/// lowercase hexadecimal digits.
pub open spec fn spec_uid(millis: u128, salt: u16) -> Seq<char> {
    spec_dec_str(millis as nat) + spec_hex4(salt)
}

fn hex_char_of(d: u32) -> (r: char)
    requires
        d < 16,
    ensures
        r == spec_hex_char(d as nat),
{
    if d < 10 {
        ((d + 48) as u8) as char
    } else {
        ((d + 87) as u8) as char
    }
}

fn push_dec(s: &mut String, n: u128)
    ensures
        final(s)@ == old(s)@ + spec_dec_str(n as nat),
    decreases n,
{
    if n < 10 {
        push_char(s, ((n as u8) + 48) as char);
        proof {
            assert(old(s)@ + spec_dec_str(n as nat) =~= old(s)@.push(spec_digit_char(n as nat)));
        }
    } else {
        proof {
            assert(n / 10 < n) by (nonlinear_arith)
                requires
                    n >= 10,
            ;
        }
        push_dec(s, n / 10);
        push_char(s, (((n % 10) as u8) + 48) as char);
        proof {
            assert((n % 10) as nat == (n as nat) % 10);
            assert((n / 10) as nat == (n as nat) / 10);
            assert(old(s)@ + spec_dec_str(n as nat) =~= (old(s)@ + spec_dec_str(
                (n as nat) / 10,
            )).push(spec_digit_char((n as nat) % 10)));
        }
    }
}

fn push_hex4(s: &mut String, x: u16)
    ensures
        final(s)@ == old(s)@ + spec_hex4(x),
{
    push_char(s, hex_char_of(((x / 4096) % 16) as u32));
    push_char(s, hex_char_of(((x / 256) % 16) as u32));
    push_char(s, hex_char_of(((x / 16) % 16) as u32));
    push_char(s, hex_char_of((x % 16) as u32));
    proof {
        assert(old(s)@ + spec_hex4(x) =~= old(s)@.push(spec_hex_char((x as nat / 4096) % 16)).push(
            spec_hex_char((x as nat / 256) % 16),
        ).push(spec_hex_char((x as nat / 16) % 16)).push(spec_hex_char(x as nat % 16)));
    }
}

/// Formats the identifier for one clock reading and one salt.
pub fn format_uniq_id(millis: u128, salt: u16) -> (r: String)
    ensures
        r@ == spec_uid(millis, salt),
{
    let mut s = String::new();
    push_dec(&mut s, millis);
    push_hex4(&mut s, salt);
    s
}

/// The milliseconds of the system clock since the Unix epoch, or zero
/// for a clock set before it.  Relies on `std::time::SystemTime`: the
/// reading depends on the wall clock, so nothing is promised of it.
#[verifier::external_body]
fn unix_millis() -> (r: u128) {
    std::time::SystemTime::now()
        .duration_since(std::time::UNIX_EPOCH)
        .map(|d| d.as_millis())
        .unwrap_or(0)
}

/// Relies on `rand::random`: a sample of the standard distribution;
/// nothing can be promised of a random value.
pub assume_specification<T>[ rand::random::<T> ]() -> (r: T)
    where
        rand::distr::StandardUniform: rand::distr::Distribution<T>,
;

/// Generates a unique identifier: the current clock reading in
/// milliseconds followed by a four-digit random hexadecimal salt.
pub fn uniq_id() -> (r: String)
    ensures
        exists|millis: u128, salt: u16| r@ == #[trigger] spec_uid(millis, salt),
{
    let millis = unix_millis();
    let salt: u16 = rand::random();
    format_uniq_id(millis, salt)
}

} // verus!
