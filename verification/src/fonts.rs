//! Choice of the system fonts the interface loads: the candidate families
//! in order of preference, and the decision after each lookup of the search
//! for the first one installed (the lookups themselves read font files and
//! are made by the program around the library).

use vstd::prelude::*;

verus! {

/// Sans-serif families tried for proportional text, in order of preference.
pub fn proportional_candidates() -> (names: Vec<&'static str>)
    ensures
        names@.len() == 12,
        names@[0]@ == "sans-serif"@,
        names@[1]@ == "Arial"@,
        names@[2]@ == "Helvetica"@,
        names@[3]@ == "Liberation Sans"@,
        names@[4]@ == "Noto Sans"@,
        names@[5]@ == "DejaVu Sans"@,
        names@[6]@ == "Ubuntu"@,
        names@[7]@ == "Cantarell"@,
        names@[8]@ == "Inter"@,
        names@[9]@ == "Segoe UI"@,
        names@[10]@ == "San Francisco"@,
        names@[11]@ == "PingFang SC"@,
{
    let mut names = Vec::new();
    names.push("sans-serif");
    names.push("Arial");
    names.push("Helvetica");
    names.push("Liberation Sans");
    names.push("Noto Sans");
    names.push("DejaVu Sans");
    names.push("Ubuntu");
    names.push("Cantarell");
    names.push("Inter");
    names.push("Segoe UI");
    names.push("San Francisco");
    names.push("PingFang SC");
    names
}

/// Monospace families tried for code and data, in order of preference.
pub fn monospace_candidates() -> (names: Vec<&'static str>)
    ensures
        names@.len() == 12,
        names@[0]@ == "monospace"@,
        names@[1]@ == "Courier New"@,
        names@[2]@ == "Liberation Mono"@,
        names@[3]@ == "Noto Sans Mono"@,
        names@[4]@ == "DejaVu Sans Mono"@,
        names@[5]@ == "Ubuntu Mono"@,
        names@[6]@ == "Roboto Mono"@,
        names@[7]@ == "Cascadia Code"@,
        names@[8]@ == "JetBrains Mono"@,
        names@[9]@ == "Fira Code"@,
        names@[10]@ == "SF Mono"@,
        names@[11]@ == "Menlo"@,
{
    let mut names = Vec::new();
    names.push("monospace");
    names.push("Courier New");
    names.push("Liberation Mono");
    names.push("Noto Sans Mono");
    names.push("DejaVu Sans Mono");
    names.push("Ubuntu Mono");
    names.push("Roboto Mono");
    names.push("Cascadia Code");
    names.push("JetBrains Mono");
    names.push("Fira Code");
    names.push("SF Mono");
    names.push("Menlo");
    names
}

/// Where the search for an installed family stands after one lookup.
#[derive(Debug)]
pub enum FontSearch {
    /// The family at this position is installed; these are its bytes.
    Found(usize, Vec<u8>),
    /// Look up the family at this position next.
    Next(usize),
    /// Every candidate was looked up and none is installed.
    Exhausted,
}

/// The decision after looking up the candidate at `index` of `count`: stop
/// with its bytes when it was found, otherwise go on with the next
/// candidate, or give up after the last one.
pub fn font_search_step(index: usize, count: usize, lookup: Option<Vec<u8>>) -> (step: FontSearch)
    requires
        index < count,
    ensures
        match lookup {
            Some(d) => step == FontSearch::Found(index, d),
            None => if index + 1 < count {
                step == FontSearch::Next((index + 1) as usize)
            } else {
                step is Exhausted
            },
        },
{
    match lookup {
        Some(d) => FontSearch::Found(index, d),
        None => {
            if index + 1 < count {
                FontSearch::Next(index + 1)
            } else {
                FontSearch::Exhausted
            }
        },
    }
}

} // verus!
