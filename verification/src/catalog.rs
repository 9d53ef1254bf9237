//! The records that an import writes to the catalogue, and the texts that are
//! put together for them from the metadata of an image.

use vstd::prelude::*;
use vstd::string::StringExecFns;
use crate::decimal::{decimal_text, push_decimal};
use crate::header::{Number, NumberView};
use crate::metadata::{FitsMetadata, FitsMetadataView};
use crate::text::{
    chars_of, contains, contains_text, join, joined, lowercase, opt_view, owned, to_lowercase,
    views,
};

verus! {

/// A real number with one digit after the decimal point. A whole number gets
/// a zero there.
pub open spec fn one_decimal_text(n: NumberView) -> Seq<char> {
    match n {
        NumberView::Whole(w) => decimal_text(w as int) + ".0"@,
        NumberView::Float(f) => f.one_decimal,
    }
}

/// `parts` and one more line, if there is one.
pub open spec fn with_line(parts: Seq<Seq<char>>, line: Option<Seq<char>>) -> Seq<Seq<char>> {
    match line {
        Some(l) => parts.push(l),
        None => parts,
    }
}

/// A label in bold followed by a value.
pub open spec fn labelled(label: Seq<char>, value: Seq<char>) -> Seq<char> {
    label + value
}

/// The line of a text field, if the field is present.
pub open spec fn text_line(label: Seq<char>, value: Option<Seq<char>>) -> Option<Seq<char>> {
    match value {
        Some(v) => Some(labelled(label, v)),
        None => None,
    }
}

/// The line of an integer field, if the field is present.
pub open spec fn int_line(label: Seq<char>, value: Option<i32>) -> Option<Seq<char>> {
    match value {
        Some(v) => Some(labelled(label, decimal_text(v as int))),
        None => None,
    }
}

/// The line of the exposure, in seconds with one decimal.
pub open spec fn exposure_line(value: Option<NumberView>) -> Option<Seq<char>> {
    match value {
        Some(n) => Some("**Exposure:** "@ + one_decimal_text(n) + "s"@),
        None => None,
    }
}

/// The line of the resolution, which needs both width and height.
pub open spec fn resolution_line(width: Option<i32>, height: Option<i32>) -> Option<Seq<char>> {
    if width is Some && height is Some {
        Some(
            "**Resolution:** "@ + decimal_text(width->0 as int) + "x"@ + decimal_text(
                height->0 as int,
            ),
        )
    } else {
        None
    }
}

/// The lines of the description of an image: object, telescope, exposure,
/// stacked frames, gain, filter, resolution and date, each only where the
/// metadata has it.
pub open spec fn description_lines(m: FitsMetadataView) -> Seq<Seq<char>> {
    let lines = with_line(Seq::empty(), text_line("**Object:** "@, m.object_name));
    let lines = with_line(lines, text_line("**Telescope:** "@, m.telescope));
    let lines = with_line(lines, exposure_line(m.exposure));
    let lines = with_line(lines, int_line("**Stacked Frames:** "@, m.stacked_frames));
    let lines = with_line(lines, int_line("**Gain:** "@, m.gain));
    let lines = with_line(lines, text_line("**Filter:** "@, m.filter));
    let lines = with_line(lines, resolution_line(m.image_width, m.image_height));
    with_line(lines, text_line("**Date:** "@, m.date_obs))
}

/// The description of an image: its lines, one below the other.
pub open spec fn description_of(m: FitsMetadataView) -> Seq<char> {
    joined(description_lines(m), "\n"@)
}

/// Adds the line of a text field to `lines`.
fn push_text_line(lines: &mut Vec<String>, label: &str, value: &Option<String>)
    ensures
        views(final(lines)@) == with_line(views(old(lines)@), text_line(label@, opt_view(*value))),
{
    if let Some(v) = value {
        let mut line = owned(label);
        line.append(v.as_str());
        lines.push(line);
        assert(views(lines@) =~= views(old(lines)@).push(labelled(label@, v@)));
    }
}

/// Adds the line of an integer field to `lines`.
fn push_int_line(lines: &mut Vec<String>, label: &str, value: Option<i32>)
    ensures
        views(final(lines)@) == with_line(views(old(lines)@), int_line(label@, value)),
{
    if let Some(v) = value {
        let mut line = owned(label);
        push_decimal(&mut line, v as i64);
        lines.push(line);
        assert(views(lines@) =~= views(old(lines)@).push(
            labelled(label@, decimal_text(v as int)),
        ));
    }
}

/// Builds the description of an image from its metadata.
pub fn build_description(metadata: &FitsMetadata) -> (r: String)
    ensures
        r@ == description_of(metadata@),
{
    let mut lines: Vec<String> = Vec::new();
    assert(views(lines@) =~= Seq::empty());
    push_text_line(&mut lines, "**Object:** ", &metadata.object_name);
    push_text_line(&mut lines, "**Telescope:** ", &metadata.telescope);
    if let Some(exposure) = &metadata.exposure {
        let ghost before = views(lines@);
        let mut line = owned("**Exposure:** ");
        match exposure {
            Number::Whole(w) => {
                push_decimal(&mut line, *w);
                line.append(".0");
            },
            Number::Float(f) => {
                line.append(f.one_decimal.as_str());
            },
        }
        line.append("s");
        assert(line@ =~= exposure_line(Some(exposure@))->0);
        lines.push(line);
        assert(views(lines@) =~= before.push(exposure_line(Some(exposure@))->0));
    }
    push_int_line(&mut lines, "**Stacked Frames:** ", metadata.stacked_frames);
    push_int_line(&mut lines, "**Gain:** ", metadata.gain);
    push_text_line(&mut lines, "**Filter:** ", &metadata.filter);
    if let Some(width) = metadata.image_width {
        if let Some(height) = metadata.image_height {
            let ghost before = views(lines@);
            let mut line = owned("**Resolution:** ");
            push_decimal(&mut line, width as i64);
            line.append("x");
            push_decimal(&mut line, height as i64);
            assert(line@ =~= resolution_line(Some(width), Some(height))->0);
            lines.push(line);
            assert(views(lines@) =~= before.push(
                resolution_line(Some(width), Some(height))->0,
            ));
        }
    }
    push_text_line(&mut lines, "**Date:** ", &metadata.date_obs);
    join(&lines, "\n")
}

/// Whether the name of a telescope, in small letters, is that of a Seestar.
pub open spec fn names_seestar(lower_telescope: Seq<char>) -> bool {
    contains_text(lower_telescope, "seestar"@)
}

/// Whether the telescope is a Seestar, going by its name in any case.
pub open spec fn is_seestar(telescope: Option<Seq<char>>) -> bool {
    telescope is Some && names_seestar(lowercase(telescope->0))
}

/// Whether the name of a telescope, in small letters, is that of a Seestar.
pub fn mentions_seestar(lower_telescope: &str) -> (r: bool)
    ensures
        r == names_seestar(lower_telescope@),
{
    let lower = chars_of(lower_telescope);
    let needle = chars_of("seestar");
    contains(&lower, &needle)
}

/// The tags of an image in order: those given by the user, `stacked` for a
/// stacked image, `seestar` for one taken with a Seestar.
pub open spec fn tag_list(user_tags: Option<Seq<char>>, is_stacked: bool, telescope: Option<
    Seq<char>,
>) -> Seq<Seq<char>> {
    let tags = with_line(Seq::empty(), user_tags);
    let tags = if is_stacked {
        tags.push("stacked"@)
    } else {
        tags
    };
    if is_seestar(telescope) {
        tags.push("seestar"@)
    } else {
        tags
    }
}

/// The tags of an image as one text, absent where it has none.
pub open spec fn tags_of(user_tags: Option<Seq<char>>, is_stacked: bool, telescope: Option<
    Seq<char>,
>) -> Option<Seq<char>> {
    let tags = tag_list(user_tags, is_stacked, telescope);
    if tags.len() == 0 {
        None
    } else {
        Some(joined(tags, ", "@))
    }
}

/// Builds the tags of an image.
pub fn build_tags(user_tags: &Option<String>, is_stacked: bool, telescope: &Option<String>) -> (r:
    Option<String>)
    ensures
        opt_view(r) == tags_of(opt_view(*user_tags), is_stacked, opt_view(*telescope)),
{
    let mut tags: Vec<String> = Vec::new();
    assert(views(tags@) =~= Seq::empty());
    if let Some(t) = user_tags {
        let ghost before = views(tags@);
        tags.push(t.clone());
        assert(views(tags@) =~= before.push(t@));
    }
    if is_stacked {
        let ghost before = views(tags@);
        tags.push(owned("stacked"));
        assert(views(tags@) =~= before.push("stacked"@));
    }
    let seestar = match telescope {
        Some(t) => mentions_seestar(to_lowercase(t.as_str()).as_str()),
        None => false,
    };
    if seestar {
        let ghost before = views(tags@);
        tags.push(owned("seestar"));
        assert(views(tags@) =~= before.push("seestar"@));
    }
    if tags.len() == 0 {
        None
    } else {
        Some(join(&tags, ", "))
    }
}

/// The location of an image on the sky: right ascension and declination,
/// where the metadata has both.
pub open spec fn location_of(ra: Option<Seq<char>>, dec: Option<Seq<char>>) -> Option<Seq<char>> {
    if ra is Some && dec is Some {
        Some(ra->0 + ", "@ + dec->0)
    } else {
        None
    }
}

/// Builds the location of an image.
pub fn build_location(ra: &Option<String>, dec: &Option<String>) -> (r: Option<String>)
    ensures
        opt_view(r) == location_of(opt_view(*ra), opt_view(*dec)),
{
    match ra {
        Some(a) => match dec {
            Some(d) => {
                let mut text = a.clone();
                text.append(", ");
                text.append(d.as_str());
                Some(text)
            },
            None => None,
        },
        None => None,
    }
}

} // verus!
