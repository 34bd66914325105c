//! The window of the first start, which asks how the library is organised.
use vstd::prelude::*;

verus! {

/// The picture for the way in which the library is organised.
pub fn library_mode_illustration(is_release_folder_mode: bool) -> (r: &'static str)
    ensures
        r@ == (if is_release_folder_mode {
            "albums-in-folders-symbolic"@
        } else {
            "freeform-folders-symbolic"@
        }),
{
    if is_release_folder_mode {
        "albums-in-folders-symbolic"
    } else {
        "freeform-folders-symbolic"
    }
}

/// Whether the user has come to the end.
#[derive(Clone, Copy, Debug, PartialEq, Eq, Structural)]
pub struct Onboarding {
    pub onboard_success: bool,
}

impl Onboarding {
    /// The window has just opened.
    pub fn new() -> (r: Onboarding)
        ensures
            !r.onboard_success,
    {
        Onboarding { onboard_success: false }
    }

    /// The button that ends the questions was clicked.
    pub fn finish(&mut self)
        ensures
            final(self).onboard_success,
    {
        self.onboard_success = true;
    }

    /// The window closes. Returns whether the questions were answered.
    pub fn close(&self) -> (r: bool)
        ensures
            r == self.onboard_success,
    {
        self.onboard_success
    }
}

/// The questions count as answered exactly if the user has come to their end before
/// the window closes.
pub proof fn closing_early_answers_nothing(
    new: Onboarding,
    finish: &mut Onboarding,
    early: bool,
    late: bool,
    folders: &'static str,
    freeform: &'static str,
)
    requires
        call_ensures(Onboarding::new, (), new),
        call_ensures(Onboarding::close, (&new,), early),
        *old(finish) == new,
        call_ensures(Onboarding::finish, (finish,), ()),
        call_ensures(Onboarding::close, (final(finish),), late),
        call_ensures(library_mode_illustration, (true,), folders),
        call_ensures(library_mode_illustration, (false,), freeform),
    ensures
        !early,
        late,
        folders@ == "albums-in-folders-symbolic"@,
        freeform@ == "freeform-folders-symbolic"@,
{
}

} // verus!
