//! What a paste does with the contents of the clipboard.
use crate::lang::Lang;
use crate::model::{ActType, RParts};
use crate::text::str_contains_char;
use vstd::prelude::*;

verus! {

/// Whether a paste of `clipboard` goes ahead: an empty clipboard is reported, and so is text
/// of several lines pasted into a prompt; otherwise the paste goes on.
pub fn check_clipboard(clipboard: &str, is_prompt: bool, lang: &Lang) -> (r: ActType)
    ensures
        clipboard@.len() == 0 ==> (r matches ActType::Render(RParts::MsgBar(m)) && m@ == lang.no_value_in_clipboard@),
        clipboard@.len() > 0 && is_prompt && clipboard@.contains('\n') ==> (r matches ActType::Render(RParts::MsgBar(m))
            && m@ == lang.cannot_paste_multi_rows@),
        clipboard@.len() > 0 && !(is_prompt && clipboard@.contains('\n')) ==> r == ActType::Next,
{
    if clipboard.is_empty() {
        return ActType::Render(RParts::MsgBar(lang.no_value_in_clipboard.clone()));
    }
    if is_prompt && str_contains_char(clipboard, '\n') {
        return ActType::Render(RParts::MsgBar(lang.cannot_paste_multi_rows.clone()));
    }
    ActType::Next
}

} // verus!
