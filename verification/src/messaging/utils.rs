//! Colour and text helpers shared by the message builders.
use vstd::prelude::*;

use crate::bot_handler::callback_actions::{CallbackAction, CallbackActionView};
use crate::text::{
    ascii_lower, decimal, is_ascii_text, law_ascii_lower_is_idempotent, lowercase, str_eq,
    to_lowercase, usize_to_decimal,
};

verus! {

/// GitHub label colours shown as 🔴.
pub open spec fn is_red_code(c: Seq<char>) -> bool {
    c == "b60205"@
    || c == "d73a4a"@
    || c == "e99695"@
    || c == "f9d0c4"@
    || c == "ffc0cb"@
    || c == "d0312d"@
}

/// GitHub label colours shown as 🟠.
pub open spec fn is_orange_code(c: Seq<char>) -> bool {
    c == "f29513"@
    || c == "f8c99c"@
    || c == "fb6a06"@
    || c == "d93f0b"@
    || c == "ff8c00"@
    || c == "ffaf1c"@
}

/// GitHub label colours shown as 🟡.
pub open spec fn is_yellow_code(c: Seq<char>) -> bool {
    c == "fef2c0"@
    || c == "fbca04"@
    || c == "e4e669"@
    || c == "ffeb3b"@
    || c == "f9e076"@
    || c == "fadc73"@
}

/// GitHub label colours shown as 🟢.
pub open spec fn is_green_code(c: Seq<char>) -> bool {
    c == "0e8a16"@
    || c == "006b75"@
    || c == "5ab302"@
    || c == "a2eeef"@
    || c == "008672"@
    || c == "c2e0c6"@
    || c == "1aa34a"@
    || c == "4caf50"@
}

/// GitHub label colours shown as 🔵.
pub open spec fn is_blue_code(c: Seq<char>) -> bool {
    c == "0052cc"@
    || c == "c5def5"@
    || c == "0075ca"@
    || c == "1d76db"@
    || c == "89d2fc"@
    || c == "00bcd4"@
    || c == "b3f4f4"@
}

/// GitHub label colours shown as 🟣.
pub open spec fn is_purple_code(c: Seq<char>) -> bool {
    c == "5319e7"@
    || c == "d4c5f9"@
    || c == "612d6d"@
    || c == "7057ff"@
    || c == "d876e3"@
    || c == "8e44ad"@
    || c == "bf55ec"@
}

/// GitHub label colours shown as 🟤.
pub open spec fn is_brown_code(c: Seq<char>) -> bool {
    c == "8b572a"@
    || c == "c4a661"@
    || c == "bf8c60"@
}

/// GitHub label colours shown as ⚫️.
pub open spec fn is_grey_code(c: Seq<char>) -> bool {
    c == "24292e"@
    || c == "000000"@
    || c == "1c1e21"@
    || c == "333333"@
    || c == "444444"@
}

/// The emoji for an already lowercased hex colour code.
pub open spec fn color_emoji(c: Seq<char>) -> Seq<char> {
    if is_red_code(c) {
        "🔴"@
    } else if is_orange_code(c) {
        "🟠"@
    } else if is_yellow_code(c) {
        "🟡"@
    } else if is_green_code(c) {
        "🟢"@
    } else if is_blue_code(c) {
        "🔵"@
    } else if is_purple_code(c) {
        "🟣"@
    } else if is_brown_code(c) {
        "🟤"@
    } else if is_grey_code(c) {
        "⚫️"@
    } else {
        "⚪️"@
    }
}

fn is_red(c: &str) -> (res: bool)
    ensures
        res == is_red_code(c@),
{
    str_eq(c, "b60205")
        || str_eq(c, "d73a4a")
        || str_eq(c, "e99695")
        || str_eq(c, "f9d0c4")
        || str_eq(c, "ffc0cb")
        || str_eq(c, "d0312d")
}

fn is_orange(c: &str) -> (res: bool)
    ensures
        res == is_orange_code(c@),
{
    str_eq(c, "f29513")
        || str_eq(c, "f8c99c")
        || str_eq(c, "fb6a06")
        || str_eq(c, "d93f0b")
        || str_eq(c, "ff8c00")
        || str_eq(c, "ffaf1c")
}

fn is_yellow(c: &str) -> (res: bool)
    ensures
        res == is_yellow_code(c@),
{
    str_eq(c, "fef2c0")
        || str_eq(c, "fbca04")
        || str_eq(c, "e4e669")
        || str_eq(c, "ffeb3b")
        || str_eq(c, "f9e076")
        || str_eq(c, "fadc73")
}

fn is_green(c: &str) -> (res: bool)
    ensures
        res == is_green_code(c@),
{
    str_eq(c, "0e8a16")
        || str_eq(c, "006b75")
        || str_eq(c, "5ab302")
        || str_eq(c, "a2eeef")
        || str_eq(c, "008672")
        || str_eq(c, "c2e0c6")
        || str_eq(c, "1aa34a")
        || str_eq(c, "4caf50")
}

fn is_blue(c: &str) -> (res: bool)
    ensures
        res == is_blue_code(c@),
{
    str_eq(c, "0052cc")
        || str_eq(c, "c5def5")
        || str_eq(c, "0075ca")
        || str_eq(c, "1d76db")
        || str_eq(c, "89d2fc")
        || str_eq(c, "00bcd4")
        || str_eq(c, "b3f4f4")
}

fn is_purple(c: &str) -> (res: bool)
    ensures
        res == is_purple_code(c@),
{
    str_eq(c, "5319e7")
        || str_eq(c, "d4c5f9")
        || str_eq(c, "612d6d")
        || str_eq(c, "7057ff")
        || str_eq(c, "d876e3")
        || str_eq(c, "8e44ad")
        || str_eq(c, "bf55ec")
}

fn is_brown(c: &str) -> (res: bool)
    ensures
        res == is_brown_code(c@),
{
    str_eq(c, "8b572a")
        || str_eq(c, "c4a661")
        || str_eq(c, "bf8c60")
}

fn is_grey(c: &str) -> (res: bool)
    ensures
        res == is_grey_code(c@),
{
    str_eq(c, "24292e")
        || str_eq(c, "000000")
        || str_eq(c, "1c1e21")
        || str_eq(c, "333333")
        || str_eq(c, "444444")
}

/// The emoji for a lowercased hex colour code.
pub fn lowercase_color_to_emoji(c: &str) -> (res: &'static str)
    ensures
        res@ == color_emoji(c@),
{
    if is_red(c) {
        "🔴"
    } else if is_orange(c) {
        "🟠"
    } else if is_yellow(c) {
        "🟡"
    } else if is_green(c) {
        "🟢"
    } else if is_blue(c) {
        "🔵"
    } else if is_purple(c) {
        "🟣"
    } else if is_brown(c) {
        "🟤"
    } else if is_grey(c) {
        "⚫️"
    } else {
        "⚪️"
    }
}

/// Converts a GitHub color hex code to an emoji representation; the code
/// is compared case-insensitively.
pub fn github_color_to_emoji(hex_color: &str) -> (res: &'static str)
    ensures
        res@ == color_emoji(lowercase(hex_color@)),
        is_ascii_text(hex_color@) ==> res@ == color_emoji(ascii_lower(hex_color@)),
{
    let lower = to_lowercase(hex_color);
    lowercase_color_to_emoji(lower.as_str())
}

/// A lowercase hexadecimal digit for a value below sixteen.
pub open spec fn hex_digit(d: nat) -> char {
    if d < 10 {
        (48 + d) as char
    } else {
        (87 + d) as char
    }
}

/// How serde_json writes one character inside a string: `"` and `\\`
/// escaped with a backslash, backspace, form feed, line feed, carriage
/// return and tab by their short escapes, the other control characters
/// below U+0020 as `\\u00XX` with lowercase hex digits, and every other
/// character as it is.
pub open spec fn json_escape_char(c: char) -> Seq<char> {
    let u = c as u32;
    if c == '"' {
        seq!['\\', '"']
    } else if c == '\\' {
        seq!['\\', '\\']
    } else if u == 0x08 {
        seq!['\\', 'b']
    } else if u == 0x0C {
        seq!['\\', 'f']
    } else if u == 0x0A {
        seq!['\\', 'n']
    } else if u == 0x0D {
        seq!['\\', 'r']
    } else if u == 0x09 {
        seq!['\\', 't']
    } else if u < 0x20 {
        seq!['\\', 'u', '0', '0', hex_digit((u / 16) as nat), hex_digit((u % 16) as nat)]
    } else {
        seq![c]
    }
}

/// The characters of a string as serde_json writes them inside quotes.
pub open spec fn json_escaped(s: Seq<char>) -> Seq<char>
    decreases s.len(),
{
    if s.len() == 0 {
        Seq::empty()
    } else {
        json_escaped(s.drop_last()) + json_escape_char(s.last())
    }
}

/// The JSON text of a string: quoted, with the characters that JSON
/// requires escaped, as serde_json writes it.
pub open spec fn json_string(s: Seq<char>) -> Seq<char> {
    seq!['"'] + json_escaped(s) + seq!['"']
}

/// serde_json's `to_string` on a `str`: the text in double quotes, each
/// character written as `json_escape_char` says (its
/// `format_escaped_str` with the compact formatter). Its serializer writes
/// into memory, which cannot fail, so the result is always this text.
#[verifier::external_body]
pub(crate) fn json_quote(s: &str) -> (res: String)
    ensures
        res@ == json_string(s@),
{
    match serde_json::to_string(s) {
        Ok(t) => t,
        Err(e) => e.to_string(),
    }
}

/// A one-entry JSON object `{"tag":value}`: serde's form of a variant
/// with data.
pub open spec fn tagged(tag: Seq<char>, value: Seq<char>) -> Seq<char> {
    "{\""@ + tag + "\":"@ + value + "}"@
}

/// A JSON array of a string and one number.
pub open spec fn str_num(s: Seq<char>, n: nat) -> Seq<char> {
    "["@ + json_string(s) + ","@ + decimal(n) + "]"@
}

/// A JSON array of a string and two numbers.
pub open spec fn str_num_num(s: Seq<char>, n: nat, m: nat) -> Seq<char> {
    "["@ + json_string(s) + ","@ + decimal(n) + ","@ + decimal(m) + "]"@
}

/// The JSON text of an action: the variant's short name, with its data
/// where it has any.
pub open spec fn action_json(a: CallbackActionView) -> Seq<char> {
    match a {
        CallbackActionView::ViewRepoDetails(r, p) => tagged("vrd"@, str_num(r, p)),
        CallbackActionView::ViewRepoLabels(r, p, f) => tagged("vrl"@, str_num_num(r, p, f)),
        CallbackActionView::RemoveRepoPrompt(r) => tagged("rrp"@, json_string(r)),
        CallbackActionView::ToggleLabel(l, p, f) => tagged("tl"@, str_num_num(l, p, f)),
        CallbackActionView::BackToRepoDetails(r, p) => tagged("brd"@, str_num(r, p)),
        CallbackActionView::ListReposPage(p) => tagged("lrp"@, decimal(p)),
        CallbackActionView::BackToRepoList(p) => tagged("brl"@, decimal(p)),
        CallbackActionView::CmdHelp => "\"cmd-help\""@,
        CallbackActionView::CmdList => "\"cmd-list\""@,
        CallbackActionView::CmdAdd => "\"cmd-add\""@,
        CallbackActionView::CmdOverview => "\"cmd-overview\""@,
    }
}

fn tagged_json(tag: &str, value: String) -> (res: String)
    ensures
        res@ == tagged(tag@, value@),
{
    let res = String::from_str("{\"");
    let res = res.concat(tag);
    let res = res.concat("\":");
    let res = res.concat(value.as_str());
    let res = res.concat("}");
    res
}

fn str_num_json(s: &str, n: usize) -> (res: String)
    ensures
        res@ == str_num(s@, n as nat),
{
    let res = String::from_str("[");
    let res = res.concat(json_quote(s).as_str());
    let res = res.concat(",");
    let res = res.concat(usize_to_decimal(n).as_str());
    let res = res.concat("]");
    res
}

fn str_num_num_json(s: &str, n: usize, m: usize) -> (res: String)
    ensures
        res@ == str_num_num(s@, n as nat, m as nat),
{
    let res = String::from_str("[");
    let res = res.concat(json_quote(s).as_str());
    let res = res.concat(",");
    let res = res.concat(usize_to_decimal(n).as_str());
    let res = res.concat(",");
    let res = res.concat(usize_to_decimal(m).as_str());
    let res = res.concat("]");
    res
}

/// Serializes a `CallbackAction` to a JSON string. Used for keyboard buttons.
pub fn serialize_action(action: &CallbackAction) -> (res: String)
    ensures
        res@ == action_json(action@),
{
    match action {
        CallbackAction::ViewRepoDetails(r, p) => tagged_json("vrd", str_num_json(r, *p)),
        CallbackAction::ViewRepoLabels(r, p, f) => tagged_json("vrl", str_num_num_json(r, *p, *f)),
        CallbackAction::RemoveRepoPrompt(r) => tagged_json("rrp", json_quote(r)),
        CallbackAction::ToggleLabel(l, p, f) => tagged_json("tl", str_num_num_json(l, *p, *f)),
        CallbackAction::BackToRepoDetails(r, p) => tagged_json("brd", str_num_json(r, *p)),
        CallbackAction::ListReposPage(p) => tagged_json("lrp", usize_to_decimal(*p)),
        CallbackAction::BackToRepoList(p) => tagged_json("brl", usize_to_decimal(*p)),
        CallbackAction::CmdHelp => String::from_str("\"cmd-help\""),
        CallbackAction::CmdList => String::from_str("\"cmd-list\""),
        CallbackAction::CmdAdd => String::from_str("\"cmd-add\""),
        CallbackAction::CmdOverview => String::from_str("\"cmd-overview\""),
    }
}

/// The emoji of a colour is one of nine, and white exactly for codes
/// outside the palette.
pub open spec fn is_palette_emoji(e: Seq<char>) -> bool {
    e == "🔴"@ || e == "🟠"@ || e == "🟡"@ || e == "🟢"@ || e == "🔵"@ || e == "🟣"@ || e
        == "🟤"@ || e == "⚫️"@ || e == "⚪️"@
}

/// For ASCII codes the colour ignores case: the code and its lowercase
/// give the same emoji, and that emoji is one of the nine.
pub proof fn law_color_ignores_case(s: Seq<char>)
    requires
        is_ascii_text(s),
    ensures
        is_ascii_text(ascii_lower(s)),
        color_emoji(ascii_lower(ascii_lower(s))) == color_emoji(ascii_lower(s)),
        is_palette_emoji(color_emoji(ascii_lower(s))),
{
    law_ascii_lower_is_idempotent(s);
}

} // verus!
