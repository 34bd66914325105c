//! The albums of one year on an artist's page.
use crate::text::{opt_view, signed_decimal, signed_string};
use vstd::prelude::*;

verus! {

/// A year that can be folded up.
#[derive(Clone, Copy, Debug, PartialEq, Eq, Structural)]
pub struct DiscographyYear {
    /// `None` stands for an unknown release year.
    pub year: Option<i32>,
    pub revealed: bool,
}

impl DiscographyYear {
    /// A year, folded up at first if the user wants it so.
    pub fn new(year: Option<i32>, collapse_on_load: bool) -> (r: DiscographyYear)
        ensures
            r.year == year,
            r.revealed == !collapse_on_load,
    {
        DiscographyYear { year, revealed: !collapse_on_load }
    }

    /// The year.
    pub fn year(&self) -> (r: Option<i32>)
        ensures
            r == self.year,
    {
        self.year
    }

    /// The text over the albums; without a year the default one stays.
    pub fn label(&self) -> (r: Option<String>)
        ensures
            opt_view(r) == (match self.year {
                Some(y) => Some(signed_decimal(y as int)),
                None => None,
            }),
    {
        match self.year {
            Some(y) => Some(signed_string(y as i64)),
            None => None,
        }
    }

    /// The icon of the button that folds the year.
    pub fn collapse_icon(&self) -> (r: &'static str)
        ensures
            r@ == (if self.revealed {
                "up-symbolic"@
            } else {
                "down-symbolic"@
            }),
    {
        if self.revealed {
            "up-symbolic"
        } else {
            "down-symbolic"
        }
    }

    /// Folds the year up or down.
    pub fn toggle_collapse(&mut self)
        ensures
            final(self).revealed == !old(self).revealed,
            final(self).year == old(self).year,
    {
        self.revealed = !self.revealed;
    }
}

/// A year is folded at first if that is wanted, and each click folds it the other
/// way; the icon goes with it, and the year stays.
pub proof fn years_fold_and_unfold(
    year: Option<i32>,
    collapse: bool,
    new: DiscographyYear,
    once: &mut DiscographyYear,
    twice: &mut DiscographyYear,
    icon: &'static str,
    icon_once: &'static str,
    icon_twice: &'static str,
    same_year: Option<i32>,
)
    requires
        call_ensures(DiscographyYear::new, (year, collapse), new),
        *old(once) == new,
        call_ensures(DiscographyYear::toggle_collapse, (once,), ()),
        *old(twice) == *final(once),
        call_ensures(DiscographyYear::toggle_collapse, (twice,), ()),
        call_ensures(DiscographyYear::collapse_icon, (&new,), icon),
        call_ensures(DiscographyYear::collapse_icon, (final(once),), icon_once),
        call_ensures(DiscographyYear::collapse_icon, (final(twice),), icon_twice),
        call_ensures(DiscographyYear::year, (final(twice),), same_year),
    ensures
        new.revealed == !collapse,
        icon@ == (if collapse { "down-symbolic"@ } else { "up-symbolic"@ }),
        icon_once@ == (if collapse { "up-symbolic"@ } else { "down-symbolic"@ }),
        icon_twice@ == icon@,
        same_year == year,
{
}

/// A year is labelled with its number; without one the label stays.
pub proof fn years_are_labelled_with_their_numbers(
    of: DiscographyYear,
    label: Option<String>,
    number: String,
)
    requires
        call_ensures(DiscographyYear::label, (&of,), label),
        of.year matches Some(y) ==> call_ensures(signed_string, (y as i64,), number),
    ensures
        label is Some <==> of.year is Some,
        label matches Some(text) ==> text@ == number@,
{
}

} // verus!
