//! Map-space mirroring used to align world rendering with the legacy client
//! layout.

use crate::text::{ascii_lower_chars, ascii_lower_seq, chars_equal, str_chars, trim, trim_chars};
use vstd::prelude::*;

verus! {

/// Axis (or axes) along which map coordinates are mirrored.
#[derive(Clone, Copy, Debug, Eq, PartialEq, Structural)]
pub enum WorldMirrorAxis {
    NoMirror,
    X,
    Z,
    XZ,
}

/// The axis named by a setting value, compared after trimming white space
/// and lowering ASCII letters: empty, `none`, `off` or `0` mean no mirror;
/// `x`, `horizontal`, `left-right` or `lr` the X axis; `z`, `vertical`,
/// `top-bottom` or `tb` the Z axis; `xz`, `zx`, `both` or `xy` both axes.
pub open spec fn spec_parse_axis(raw: Seq<char>) -> Option<WorldMirrorAxis> {
    let t = ascii_lower_seq(trim(raw));
    if t == Seq::<char>::empty() || t == seq!['n', 'o', 'n', 'e'] || t == seq!['o', 'f', 'f'] || t
        == seq!['0'] {
        Some(WorldMirrorAxis::NoMirror)
    } else if t == seq!['x'] || t == seq!['h', 'o', 'r', 'i', 'z', 'o', 'n', 't', 'a', 'l'] || t
        == seq!['l', 'e', 'f', 't', '-', 'r', 'i', 'g', 'h', 't'] || t == seq!['l', 'r'] {
        Some(WorldMirrorAxis::X)
    } else if t == seq!['z'] || t == seq!['v', 'e', 'r', 't', 'i', 'c', 'a', 'l'] || t == seq![
        't',
        'o',
        'p',
        '-',
        'b',
        'o',
        't',
        't',
        'o',
        'm',
    ] || t == seq!['t', 'b'] {
        Some(WorldMirrorAxis::Z)
    } else if t == seq!['x', 'z'] || t == seq!['z', 'x'] || t == seq!['b', 'o', 't', 'h'] || t
        == seq!['x', 'y'] {
        Some(WorldMirrorAxis::XZ)
    } else {
        None
    }
}

impl WorldMirrorAxis {
    /// Reads an axis from a setting value; see [`spec_parse_axis`].
    pub fn parse(raw: &str) -> (r: Option<Self>)
        ensures
            r == spec_parse_axis(raw@),
    {
        let chars = str_chars(raw);
        let trimmed = trim_chars(&chars);
        let t = ascii_lower_chars(&trimmed);
        let word_none = ['n', 'o', 'n', 'e'];
        assert(word_none@ =~= seq!['n', 'o', 'n', 'e']);
        let word_off = ['o', 'f', 'f'];
        assert(word_off@ =~= seq!['o', 'f', 'f']);
        let word_zero = ['0'];
        assert(word_zero@ =~= seq!['0']);
        let word_x = ['x'];
        assert(word_x@ =~= seq!['x']);
        let word_horizontal = ['h', 'o', 'r', 'i', 'z', 'o', 'n', 't', 'a', 'l'];
        assert(word_horizontal@ =~= seq!['h', 'o', 'r', 'i', 'z', 'o', 'n', 't', 'a', 'l']);
        let word_left_right = ['l', 'e', 'f', 't', '-', 'r', 'i', 'g', 'h', 't'];
        assert(word_left_right@ =~= seq!['l', 'e', 'f', 't', '-', 'r', 'i', 'g', 'h', 't']);
        let word_lr = ['l', 'r'];
        assert(word_lr@ =~= seq!['l', 'r']);
        let word_z = ['z'];
        assert(word_z@ =~= seq!['z']);
        let word_vertical = ['v', 'e', 'r', 't', 'i', 'c', 'a', 'l'];
        assert(word_vertical@ =~= seq!['v', 'e', 'r', 't', 'i', 'c', 'a', 'l']);
        let word_top_bottom = ['t', 'o', 'p', '-', 'b', 'o', 't', 't', 'o', 'm'];
        assert(word_top_bottom@ =~= seq!['t', 'o', 'p', '-', 'b', 'o', 't', 't', 'o', 'm']);
        let word_tb = ['t', 'b'];
        assert(word_tb@ =~= seq!['t', 'b']);
        let word_xz = ['x', 'z'];
        assert(word_xz@ =~= seq!['x', 'z']);
        let word_zx = ['z', 'x'];
        assert(word_zx@ =~= seq!['z', 'x']);
        let word_both = ['b', 'o', 't', 'h'];
        assert(word_both@ =~= seq!['b', 'o', 't', 'h']);
        let word_xy = ['x', 'y'];
        assert(word_xy@ =~= seq!['x', 'y']);
        if t.len() == 0 || chars_equal(&t, &word_none) || chars_equal(&t, &word_off) || chars_equal(&t, &word_zero) {
            assert(t.len() == 0 ==> t@ =~= Seq::<char>::empty());
            Some(Self::NoMirror)
        } else if chars_equal(&t, &word_x) || chars_equal(&t, &word_horizontal) || chars_equal(&t, &word_left_right) || chars_equal(&t, &word_lr) {
            Some(Self::X)
        } else if chars_equal(&t, &word_z) || chars_equal(&t, &word_vertical) || chars_equal(&t, &word_top_bottom) || chars_equal(&t, &word_tb) {
            Some(Self::Z)
        } else if chars_equal(&t, &word_xz) || chars_equal(&t, &word_zx) || chars_equal(&t, &word_both) || chars_equal(&t, &word_xy) {
            Some(Self::XZ)
        } else {
            None
        }
    }

    /// Mirroring along exactly one axis flips handedness.
    pub open spec fn spec_flips_handedness(self) -> bool {
        self == WorldMirrorAxis::X || self == WorldMirrorAxis::Z
    }

    /// Whether this mirror flips handedness (it mirrors exactly one axis).
    pub fn flips_handedness(self) -> (r: bool)
        ensures
            r == self.spec_flips_handedness(),
    {
        matches!(self, Self::X | Self::Z)
    }
}

/// The mirror axis in effect given the configured setting value, if any: the
/// axis it names, and `Z` (MU Y mapped to Bevy Z) when it is missing or names
/// no axis.
pub fn mirror_axis_from_setting(raw: Option<&str>) -> (r: WorldMirrorAxis)
    ensures
        r == match raw {
            Some(value) => match spec_parse_axis(value@) {
                Some(axis) => axis,
                None => WorldMirrorAxis::Z,
            },
            None => WorldMirrorAxis::Z,
        },
{
    match raw {
        Some(value) => match WorldMirrorAxis::parse(value) {
            Some(axis) => axis,
            None => WorldMirrorAxis::Z,
        },
        None => WorldMirrorAxis::Z,
    }
}

} // verus!
