use vstd::prelude::*;

use crate::monitors::strings_view;

verus! {

/// The name under which the workbench's own font is registered.
pub fn font_name() -> (n: &'static str)
    ensures
        n@ == "my_font"@,
{
    "my_font"
}

/// Registers the font `name` in the two font families: it becomes the first
/// choice of the proportional family and the last fallback of the
/// monospace family.
pub fn install_font(proportional: &mut Vec<String>, monospace: &mut Vec<String>, name: &str)
    ensures
        strings_view(final(proportional)@) == seq![name@] + strings_view(old(proportional)@),
        strings_view(final(monospace)@) == strings_view(old(monospace)@).push(name@),
{
    proportional.insert(0, name.to_owned());
    monospace.push(name.to_owned());
    assert(strings_view(proportional@) =~= seq![name@] + strings_view(old(proportional)@));
    assert(strings_view(monospace@) =~= strings_view(old(monospace)@).push(name@));
}

} // verus!
