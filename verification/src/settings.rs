//! Settings of the application.

use vstd::prelude::*;

verus! {

/// The string of `width` blanks.
pub open spec fn blanks(width: nat) -> Seq<char> {
    Seq::new(width, |i: int| ' ')
}

/// Builds the string of `width` blanks.
pub fn spaces(width: usize) -> (s: String)
    ensures
        s@ == blanks(width as nat),
{
    let mut s = String::new();
    let mut n: usize = 0;
    while n < width
        invariant
            n <= width,
            s@ == blanks(n as nat),
        decreases width - n,
    {
        proof {
            reveal_strlit(" ");
            assert(s@ + " "@ =~= blanks((n + 1) as nat));
        }
        s.append(" ");
        n += 1;
    }
    s
}

#[derive(Debug, Clone)]
pub struct AppSettings {
    /// What a tab is replaced with where a diff is shown.
    pub tab_spaces: String,
}

impl Default for AppSettings {
    fn default() -> (settings: AppSettings)
        ensures
            settings.tab_spaces@ == blanks(4),
    {
        AppSettings { tab_spaces: spaces(4) }
    }
}

impl AppSettings {
    /// Sets the number of blanks that stand for a tab.
    pub fn tab_width(self, width: usize) -> (settings: AppSettings)
        ensures
            settings.tab_spaces@ == blanks(width as nat),
    {
        AppSettings { tab_spaces: spaces(width) }
    }
}

} // verus!
