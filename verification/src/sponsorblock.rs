//! SponsorBlock category names as shown to the user.

use vstd::prelude::*;

use crate::text::{chars_eq, chars_of};

verus! {

/// The label of a SponsorBlock category: a Chinese label for the known ones,
/// the category name itself otherwise.
pub open spec fn category_text(cat: Seq<char>) -> Seq<char> {
    if cat == "sponsor"@ {
        "广告推广"@
    } else if cat == "selfpromo"@ {
        "自我推广"@
    } else if cat == "interaction"@ {
        "互动提醒"@
    } else if cat == "intro"@ {
        "片头"@
    } else if cat == "outro"@ {
        "片尾"@
    } else if cat == "music_offtopic"@ {
        "非音乐片段"@
    } else if cat == "preview"@ {
        "预告回顾"@
    } else if cat == "filler"@ {
        "闲聊填充"@
    } else {
        cat
    }
}

fn is_name(cs: &Vec<char>, name: &str) -> (r: bool)
    ensures
        r == (cs@ == name@),
{
    let n = chars_of(name);
    chars_eq(cs, &n)
}

/// The label shown for a skipped segment of category `cat`.
pub fn category_label<'a>(cat: &'a str) -> (r: &'a str)
    ensures
        r@ == category_text(cat@),
{
    let cs = chars_of(cat);
    if is_name(&cs, "sponsor") {
        "广告推广"
    } else if is_name(&cs, "selfpromo") {
        "自我推广"
    } else if is_name(&cs, "interaction") {
        "互动提醒"
    } else if is_name(&cs, "intro") {
        "片头"
    } else if is_name(&cs, "outro") {
        "片尾"
    } else if is_name(&cs, "music_offtopic") {
        "非音乐片段"
    } else if is_name(&cs, "preview") {
        "预告回顾"
    } else if is_name(&cs, "filler") {
        "闲聊填充"
    } else {
        cat
    }
}

} // verus!
