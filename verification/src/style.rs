//! Widget styling: a keyed list of style properties with override
//! semantics (the latest entry for a key wins), plus the brushes and
//! thickness values those properties hold.

use vstd::prelude::*;
use crate::color::Color;
use crate::fixed::Fx;

verus! {

/// A fill for widget backgrounds and foregrounds.
#[derive(Clone, Copy, Debug, PartialEq, Eq, Structural)]
pub enum Brush {
    /// One solid color.
    Solid(Color),
}

/// Four-sided spacing.
#[derive(Clone, Copy, Debug, PartialEq, Eq, Structural)]
pub struct Thickness {
    /// Left side.
    pub left: Fx,
    /// Top side.
    pub top: Fx,
    /// Right side.
    pub right: Fx,
    /// Bottom side.
    pub bottom: Fx,
}

impl Thickness {
    /// The same spacing on every side.
    pub fn uniform(v: Fx) -> (t: Thickness)
        ensures
            t == (Thickness { left: v, top: v, right: v, bottom: v }),
    {
        Thickness { left: v, top: v, right: v, bottom: v }
    }
}

/// A style property key.
#[derive(Clone, Copy, Debug, PartialEq, Eq, Structural)]
pub enum StyleKey {
    /// Corner radius of a check box.
    CheckBoxCornerRadius,
    /// Border thickness of a check box.
    CheckBoxBorderThickness,
    /// Side length of a check box mark.
    CheckBoxCheckMarkSize,
    /// Accent brush.
    BrushBrightBlue,
    /// Text brush.
    BrushText,
    /// Bright neutral brush.
    BrushBright,
    /// Darkest neutral brush.
    BrushDarkest,
    /// Light neutral brush.
    BrushLight,
}

/// A style property value.
#[derive(Clone, Copy, Debug, PartialEq, Eq, Structural)]
pub enum StyleValue {
    /// A scalar metric.
    Number(Fx),
    /// A four-sided spacing.
    Sides(Thickness),
    /// A fill.
    Fill(Brush),
}

/// Position of the latest entry for `key`, if any.
pub open spec fn spec_last_entry(entries: Seq<(StyleKey, StyleValue)>, key: StyleKey) -> Option<
    StyleValue,
>
    decreases entries.len(),
{
    if entries.len() == 0 {
        Option::None
    } else if entries.last().0 == key {
        Option::Some(entries.last().1)
    } else {
        spec_last_entry(entries.drop_last(), key)
    }
}

/// An ordered list of style properties; later entries override earlier
/// ones with the same key.
#[derive(Debug)]
pub struct Style {
    /// The entries, in the order they were set.
    pub entries: Vec<(StyleKey, StyleValue)>,
}

impl Default for Style {
    /// A style with no properties set.
    fn default() -> (s: Style)
        ensures
            s.entries@.len() == 0,
    {
        Style { entries: Vec::new() }
    }
}

impl Style {
    /// Sets a property; the newest setting wins.
    pub fn with(self, key: StyleKey, value: StyleValue) -> (s: Style)
        requires
            self.entries@.len() < usize::MAX,
        ensures
            s.entries@ == self.entries@.push((key, value)),
    {
        let mut s = self;
        s.entries.push((key, value));
        s
    }

    /// Reads the latest setting of a property.
    pub fn property(&self, key: StyleKey) -> (r: Option<StyleValue>)
        ensures
            r == spec_last_entry(self.entries@, key),
    {
        proof {
            assert(self.entries@.take(self.entries@.len() as int) =~= self.entries@);
        }
        let mut i: usize = self.entries.len();
        while i > 0
            invariant
                i <= self.entries@.len(),
                spec_last_entry(self.entries@, key) == spec_last_entry(
                    self.entries@.take(i as int),
                    key,
                ),
            decreases i,
        {
            i = i - 1;
            let e = self.entries[i];
            proof {
                assert(self.entries@.take(i + 1).last() == self.entries@[i as int]);
                assert(self.entries@.take(i + 1).drop_last() =~= self.entries@.take(i as int));
            }
            if e.0 == key {
                return Option::Some(e.1);
            }
        }
        proof {
            assert(self.entries@.take(0) =~= Seq::<(StyleKey, StyleValue)>::empty());
        }
        Option::None
    }

    /// Reads a scalar property, or the given fallback when the property
    /// is unset or holds another kind of value.
    pub fn number_or(&self, key: StyleKey, fallback: Fx) -> (r: Fx)
        ensures
            r == (match spec_last_entry(self.entries@, key) {
                Option::Some(StyleValue::Number(v)) => v,
                _ => fallback,
            }),
    {
        match self.property(key) {
            Option::Some(StyleValue::Number(v)) => v,
            _ => fallback,
        }
    }

    /// Reads a spacing property, or the given fallback.
    pub fn sides_or(&self, key: StyleKey, fallback: Thickness) -> (r: Thickness)
        ensures
            r == (match spec_last_entry(self.entries@, key) {
                Option::Some(StyleValue::Sides(v)) => v,
                _ => fallback,
            }),
    {
        match self.property(key) {
            Option::Some(StyleValue::Sides(v)) => v,
            _ => fallback,
        }
    }

    /// Reads a fill property, or the given fallback.
    pub fn fill_or(&self, key: StyleKey, fallback: Brush) -> (r: Brush)
        ensures
            r == (match spec_last_entry(self.entries@, key) {
                Option::Some(StyleValue::Fill(v)) => v,
                _ => fallback,
            }),
    {
        match self.property(key) {
            Option::Some(StyleValue::Fill(v)) => v,
            _ => fallback,
        }
    }
}

} // verus!
