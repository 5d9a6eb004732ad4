//! The fixed table of decoration names and their HTML-escaped emoji.
use vstd::prelude::*;
use crate::text::same_text;

verus! {

/// The escape string that stands for every name missing from the table.
pub open spec fn default_smiley() -> Seq<char> {
    "&#x1F92E;"@
}

/// The escape string that the table gives for `name`.
pub open spec fn smiley_for(name: Seq<char>) -> Seq<char> {
    if name == "Grinning"@ {
        "&#x1F603;"@
    } else if name == "Sleeping"@ {
        "&#x1F634;"@
    } else if name == "Cursing"@ {
        "&#x1F92C;"@
    } else if name == "Kaboom"@ {
        "&#x1F92F;"@
    } else if name == "HeartEyes"@ {
        "&#x1F60D;"@
    } else if name == "Neutral"@ {
        "&#x1F610;"@
    } else if name == "RollingEyes"@ {
        "&#x1F644;"@
    } else if name == "Screaming"@ {
        "&#x1F631;"@
    } else if name == "Vomiting"@ {
        "&#x1F92E;"@
    } else if name == "Rusty"@ {
        "&#x1F980;"@
    } else {
        default_smiley()
    }
}

/// Whether `name` is one of the table's names.
pub open spec fn is_known_smiley(name: Seq<char>) -> bool {
    name == "Grinning"@ || name == "Sleeping"@ || name == "Cursing"@ || name == "Kaboom"@
        || name == "HeartEyes"@ || name == "Neutral"@ || name == "RollingEyes"@
        || name == "Screaming"@ || name == "Vomiting"@ || name == "Rusty"@
}

/// Looks `name` up in the table; a name that is not there gives the default.
pub fn get_smiley(name: &str) -> (r: &'static str)
    ensures
        r@ == smiley_for(name@),
        !is_known_smiley(name@) ==> r@ == default_smiley(),
{
    if same_text(name, "Grinning") {
        "&#x1F603;"
    } else if same_text(name, "Sleeping") {
        "&#x1F634;"
    } else if same_text(name, "Cursing") {
        "&#x1F92C;"
    } else if same_text(name, "Kaboom") {
        "&#x1F92F;"
    } else if same_text(name, "HeartEyes") {
        "&#x1F60D;"
    } else if same_text(name, "Neutral") {
        "&#x1F610;"
    } else if same_text(name, "RollingEyes") {
        "&#x1F644;"
    } else if same_text(name, "Screaming") {
        "&#x1F631;"
    } else if same_text(name, "Vomiting") {
        "&#x1F92E;"
    } else if same_text(name, "Rusty") {
        "&#x1F980;"
    } else {
        "&#x1F92E;"
    }
}

} // verus!
