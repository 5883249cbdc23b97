//! Command-line configuration.
//!
//! The only option the samples take is the warp flag, which selects the
//! software rasterizer. It is matched ASCII-case-insensitively, with
//! either a dash or a slash as its lead character, anywhere among the
//! arguments. The caller collects the process arguments and hands them in
//! as plain strings.

use vstd::prelude::*;

use vstd::string::StringSliceAdditionalSpecFns;
use vstd::utf8::encode_utf8;

verus! {

/// The options a sample is started with.
#[derive(Clone, Copy, Debug, PartialEq, Eq, Structural)]
pub struct SampleCommandLine {
    /// Render through the software rasterizer instead of a hardware
    /// adapter.
    pub use_warp_device: bool,
}

/// Maps an ASCII upper-case letter to its lower-case form and leaves every
/// other byte unchanged.
pub open spec fn spec_ascii_lower(c: u8) -> u8 {
    if 'A' as u8 <= c && c <= 'Z' as u8 {
        (c + 0x20) as u8
    } else {
        c
    }
}

/// The warp flag's bytes, with the given lead character.
pub open spec fn spec_warp_flag(lead: u8) -> Seq<u8> {
    seq![lead, 'w' as u8, 'a' as u8, 'r' as u8, 'p' as u8]
}

/// Whether `bytes`, lowered ASCII-case-insensitively, spells the warp
/// flag in either of its accepted forms.
pub open spec fn spec_is_warp_flag(bytes: Seq<u8>) -> bool {
    ||| bytes.map_values(|c: u8| spec_ascii_lower(c)) =~= spec_warp_flag('-' as u8)
    ||| bytes.map_values(|c: u8| spec_ascii_lower(c)) =~= spec_warp_flag('/' as u8)
}

/// Lowercases one ASCII byte.
fn ascii_lower(c: u8) -> (r: u8)
    ensures
        r == spec_ascii_lower(c),
{
    if c >= 'A' as u8 && c <= 'Z' as u8 {
        c + 0x20
    } else {
        c
    }
}

/// Whether `arg` is the warp flag, compared ASCII-case-insensitively.
fn is_warp_flag(arg: &str) -> (r: bool)
    ensures
        r == spec_is_warp_flag(arg.spec_bytes()),
{
    let bytes = arg.as_bytes();
    let ghost lowered = arg.spec_bytes().map_values(|c: u8| spec_ascii_lower(c));
    if bytes.len() != 5 {
        return false;
    }
    let c0 = ascii_lower(bytes[0]);
    let c1 = ascii_lower(bytes[1]);
    let c2 = ascii_lower(bytes[2]);
    let c3 = ascii_lower(bytes[3]);
    let c4 = ascii_lower(bytes[4]);
    proof {
        assert(lowered.len() == 5);
        assert(lowered[0] == c0);
        assert(lowered[1] == c1);
        assert(lowered[2] == c2);
        assert(lowered[3] == c3);
        assert(lowered[4] == c4);
    }
    let tail_matches = c1 == 'w' as u8 && c2 == 'a' as u8 && c3 == 'r' as u8 && c4 == 'p' as u8;
    if tail_matches && (c0 == '-' as u8 || c0 == '/' as u8) {
        proof {
            if c0 == '-' as u8 {
                assert(lowered =~= spec_warp_flag('-' as u8));
            } else {
                assert(lowered =~= spec_warp_flag('/' as u8));
            }
        }
        true
    } else {
        false
    }
}

/// Builds the command-line options from the process arguments: the warp
/// device is selected exactly when some argument is the warp flag.
pub fn build_command_line(args: &Vec<String>) -> (r: SampleCommandLine)
    ensures
        r.use_warp_device == (exists|i: int|
            0 <= i < args@.len() && spec_is_warp_flag(encode_utf8(args@[i]@))),
{
    let mut use_warp_device = false;
    let mut i: usize = 0;
    while i < args.len()
        invariant
            i <= args@.len(),
            use_warp_device == (exists|j: int|
                0 <= j < i && spec_is_warp_flag(encode_utf8(args@[j]@))),
        decreases args@.len() - i,
    {
        if is_warp_flag(args[i].as_str()) {
            use_warp_device = true;
        }
        i = i + 1;
    }
    SampleCommandLine { use_warp_device }
}

} // verus!
