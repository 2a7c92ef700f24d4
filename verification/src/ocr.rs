//! Paragraph reconstruction: turning the line records of a recognition
//! backend into text with paragraph breaks where the lines stand apart.

use vstd::prelude::*;
use vstd::string::*;
use crate::text::{blank, is_blank, push_char, str_eq};

verus! {

/// One recognized line: its text, and the top and height of the bounding
/// box of its first word, in any unit that is the same for all lines.
#[derive(Debug, Clone)]
pub struct LineRecord {
    pub text: String,
    pub top: i64,
    pub height: i64,
}

/// The mathematical value of a [`LineRecord`].
pub ghost struct LineView {
    pub text: Seq<char>,
    pub top: int,
    pub height: int,
}

impl View for LineRecord {
    type V = LineView;

    open spec fn view(&self) -> LineView {
        LineView { text: self.text@, top: self.top as int, height: self.height as int }
    }
}

/// The values of a list of line records.
pub open spec fn lines_view(lines: Seq<LineRecord>) -> Seq<LineView> {
    Seq::new(lines.len(), |i: int| lines[i]@)
}

/// The message for an image in which no text was found.
pub open spec fn no_text_message() -> Seq<char> {
    "未识别到文字。请确保截图中有清晰的文字内容。"@
}

/// Whether a language hint leaves the choice of the recognition language
/// to the user's language profile: an empty hint, or "auto".
pub open spec fn hint_is_open(lang: Seq<char>) -> bool {
    lang.len() == 0 || lang == "auto"@
}

/// Decides whether a language hint leaves the choice to the user's profile.
pub fn uses_profile_languages(lang: &str) -> (r: bool)
    ensures
        r == hint_is_open(lang@),
{
    lang.is_empty() || str_eq(lang, "auto")
}

/// The message for a recognition engine that could not be created from the
/// user's language profile: the engine's own words, and what to install.
pub open spec fn engine_failure_message(detail: Seq<char>) -> Seq<char> {
    "OCR 引擎创建失败: "@ + detail + "。请在 Windows 设置 > 时间和语言 > 语言 中安装 OCR 语言包。"@
}

/// The message for a language without installed recognition data.
pub open spec fn unsupported_language_message(lang: Seq<char>) -> Seq<char> {
    "不支持的 OCR 语言: "@ + lang + "。请在 Windows 设置中安装对应语言包。"@
}

/// Words the failure to create an engine from the user's profile.
pub fn engine_failure(detail: &str) -> (message: String)
    ensures
        message@ == engine_failure_message(detail@),
{
    let mut message = "OCR 引擎创建失败: ".to_owned();
    message.append(detail);
    message.append("。请在 Windows 设置 > 时间和语言 > 语言 中安装 OCR 语言包。");
    message
}

/// Words the lack of recognition data for a language.
pub fn unsupported_language(lang: &str) -> (message: String)
    ensures
        message@ == unsupported_language_message(lang@),
{
    let mut message = "不支持的 OCR 语言: ".to_owned();
    message.append(lang);
    message.append("。请在 Windows 设置中安装对应语言包。");
    message
}

/// The larger of two numbers.
pub open spec fn larger(a: int, b: int) -> int {
    if a >= b {
        a
    } else {
        b
    }
}

/// The vertical gap between a line and the next: from the bottom of the
/// one to the top of the other.
pub open spec fn vertical_gap(current: LineView, next: LineView) -> int {
    next.top - (current.top + current.height)
}

/// Two consecutive lines belong to different paragraphs when the gap
/// between them exceeds eight tenths of the taller line's height.
pub open spec fn paragraph_break(current: LineView, next: LineView) -> bool {
    10 * vertical_gap(current, next) > 8 * larger(current.height, next.height)
}

/// What stands between two consecutive lines in the text.
pub open spec fn separator(current: LineView, next: LineView) -> Seq<char> {
    if paragraph_break(current, next) {
        seq!['\n', '\n']
    } else {
        seq!['\n']
    }
}

/// The lines whose text is not blank, in order.
pub open spec fn kept_lines(lines: Seq<LineView>) -> Seq<LineView>
    decreases lines.len(),
{
    if lines.len() == 0 {
        Seq::empty()
    } else if blank(lines.last().text) {
        kept_lines(lines.drop_last())
    } else {
        kept_lines(lines.drop_last()).push(lines.last())
    }
}

/// The texts of the lines, with a separator between each two neighbours.
pub open spec fn joined_lines(lines: Seq<LineView>) -> Seq<char>
    decreases lines.len(),
{
    if lines.len() == 0 {
        Seq::empty()
    } else if lines.len() == 1 {
        lines[0].text
    } else {
        joined_lines(lines.drop_last()) + separator(lines[lines.len() - 2], lines.last())
            + lines.last().text
    }
}

/// The text reconstructed from a recognition result, or `None` where
/// nothing was recognized.
///
/// Without any line record the flat text stands for itself, unless it is
/// blank. With line records the blank ones are dropped and the others
/// joined; if none is left, nothing was recognized.
pub open spec fn reconstructed(lines: Seq<LineView>, flat: Seq<char>) -> Option<Seq<char>> {
    if lines.len() == 0 {
        if blank(flat) {
            None
        } else {
            Some(flat)
        }
    } else if kept_lines(lines).len() == 0 {
        None
    } else {
        Some(joined_lines(kept_lines(lines)))
    }
}

/// Decides whether a paragraph ends between two consecutive lines.
pub fn is_paragraph_break(current: &LineRecord, next: &LineRecord) -> (r: bool)
    ensures
        r == paragraph_break(current@, next@),
{
    let gap: i128 = next.top as i128 - (current.top as i128 + current.height as i128);
    let tall: i128 = if current.height >= next.height {
        current.height as i128
    } else {
        next.height as i128
    };
    10 * gap > 8 * tall
}

/// Rebuilds the text of a recognition result from its line records, or
/// from its flat text where it has no line records.
///
/// Fails, with the "no text recognized" message, exactly where
/// [`reconstructed`] gives nothing.
pub fn reconstruct_text(lines: &Vec<LineRecord>, flat_text: &str) -> (r: Result<String, String>)
    ensures
        match r {
            Ok(text) => reconstructed(lines_view(lines@), flat_text@) == Some(text@),
            Err(message) => reconstructed(lines_view(lines@), flat_text@) is None && message@
                == no_text_message(),
        },
{
    if lines.len() == 0 {
        if is_blank(flat_text) {
            return Err("未识别到文字。请确保截图中有清晰的文字内容。".to_owned());
        }
        return Ok(flat_text.to_owned());
    }
    let ghost all = lines_view(lines@);
    let mut out = String::new();
    let mut last: Option<usize> = None;
    let mut i: usize = 0;
    while i < lines.len()
        invariant
            i <= lines.len(),
            all == lines_view(lines@),
            out@ == joined_lines(kept_lines(all.take(i as int))),
            match last {
                Some(j) => j < i && kept_lines(all.take(i as int)).len() > 0 && kept_lines(
                    all.take(i as int),
                ).last() == lines@[j as int]@,
                None => kept_lines(all.take(i as int)).len() == 0,
            },
        decreases lines.len() - i,
    {
        proof {
            assert(all.take(i + 1).drop_last() =~= all.take(i as int));
            assert(all.take(i + 1).last() == lines@[i as int]@);
        }
        let ghost before = kept_lines(all.take(i as int));
        if !is_blank(lines[i].text.as_str()) {
            proof {
                assert(before.push(lines@[i as int]@).drop_last() =~= before);
            }
            match last {
                Some(j) => {
                    push_char(&mut out, '\n');
                    if is_paragraph_break(&lines[j], &lines[i]) {
                        push_char(&mut out, '\n');
                    }
                    out.append(lines[i].text.as_str());
                    proof {
                        let sep = separator(lines@[j as int]@, lines@[i as int]@);
                        assert(out@ =~= joined_lines(before) + sep + lines@[i as int]@.text);
                    }
                },
                None => {
                    out.append(lines[i].text.as_str());
                    proof {
                        assert(out@ =~= lines@[i as int]@.text);
                    }
                },
            }
            last = Some(i);
        }
        i = i + 1;
    }
    proof {
        assert(all.take(lines@.len() as int) =~= all);
    }
    match last {
        Some(_) => Ok(out),
        None => Err("未识别到文字。请确保截图中有清晰的文字内容。".to_owned()),
    }
}

/// Between two lines stands a double line feed if and only if the gap
/// between them exceeds eight tenths of the taller height, and a single
/// line feed otherwise.
pub proof fn break_between_two_lines(first: LineView, second: LineView)
    requires
        !blank(first.text),
        !blank(second.text),
    ensures
        reconstructed(seq![first, second], Seq::empty()) == Some(
            first.text + (if 10 * (second.top - (first.top + first.height)) > 8 * larger(
                first.height,
                second.height,
            ) {
                seq!['\n', '\n']
            } else {
                seq!['\n']
            }) + second.text,
        ),
{
    let both = seq![first, second];
    assert(both.drop_last() =~= seq![first]);
    assert(seq![first].drop_last() =~= Seq::<LineView>::empty());
    assert(kept_lines(Seq::<LineView>::empty()) =~= Seq::<LineView>::empty());
    assert(kept_lines(seq![first]) =~= seq![first]);
    assert(kept_lines(both) =~= both);
    assert(joined_lines(seq![first]) == first.text);
}

} // verus!
