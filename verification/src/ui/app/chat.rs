//! The Copilot chat panel: the conversation as lines (Copilot's replies with their
//! Markdown), the part of it that is visible, and the input row.

use vstd::prelude::*;

use crate::text::{char_views, chars_of, split_lines, string_of, text_lines, trim_end_chars, trim_end_ws};
use crate::ui::lines::{blank, line, line_view, lines_view, push_line, span_str, TextLine, TextSpan, TextStyle};
use crate::ui::markdown::{markdown_line_to_spans, markdown_spans};
use super::status::{push_owned_span, push_span, spans_view};
use super::{Focus, VizierUi};

verus! {

/// What the chat panel shows: the visible lines of the conversation, the scrollbar
/// (content length and position) when it is longer than the panel, and the input row.
pub struct ChatView {
    pub lines: Vec<TextLine>,
    pub scrollbar: Option<(usize, usize)>,
    pub input: TextLine,
}

/// The line of a message's text: Copilot's lines with their Markdown, others plain;
/// indented, without trailing white space.
pub open spec fn chat_text_line(role: Seq<char>, raw: Seq<char>) -> Seq<(Seq<char>, TextStyle)> {
    let t = trim_end_ws(raw);
    let base = if role == "user"@ {
        TextStyle::Accent
    } else {
        TextStyle::Normal
    };
    if role == "assistant"@ {
        seq![("    "@, TextStyle::Plain)] + markdown_spans(t, base, TextStyle::Strong)
    } else {
        seq![("    "@, TextStyle::Plain), (t, base)]
    }
}

/// The lines of one message: the speaker (`You` or `Copilot`), each line of the
/// text, and a blank line.
pub open spec fn chat_message_lines(role: Seq<char>, content: Seq<char>) -> Seq<
    Seq<(Seq<char>, TextStyle)>,
> {
    let label = if role == "user"@ {
        "You"@
    } else {
        "Copilot"@
    };
    seq![seq![("  "@ + label + ": "@, TextStyle::DimBold)]] + text_lines(content).map_values(
        |raw: Seq<char>| chat_text_line(role, raw),
    ) + seq![Seq::empty()]
}

/// The lines of all messages, in order.
pub open spec fn chat_messages_lines(msgs: Seq<(String, String)>) -> Seq<Seq<(Seq<char>, TextStyle)>>
    decreases msgs.len(),
{
    if msgs.len() == 0 {
        Seq::empty()
    } else {
        chat_messages_lines(msgs.drop_last()) + chat_message_lines(msgs.last().0@, msgs.last().1@)
    }
}

/// The whole conversation: a note while Copilot answers the user's last message,
/// then the messages.
pub open spec fn chat_lines(msgs: Seq<(String, String)>, loading: bool) -> Seq<
    Seq<(Seq<char>, TextStyle)>,
> {
    (if loading && msgs.len() > 0 && msgs.last().0@ == "user"@ {
        seq![seq![("  … Copilot is thinking…"@, TextStyle::Muted)]]
    } else {
        Seq::empty()
    }) + chat_messages_lines(msgs)
}

/// The first visible line of a conversation of `total` lines in `visible` lines:
/// the scroll position, but no further than where the last line is the last one
/// shown.
pub open spec fn chat_scroll(total: nat, visible: nat, scroll: nat) -> nat {
    let max_scroll: nat = if total > visible {
        (total - visible) as nat
    } else {
        0
    };
    if scroll < max_scroll {
        scroll
    } else {
        max_scroll
    }
}

/// The input row: a marker, then the input, or a hint while it is empty; in the
/// accent colour when the chat has the focus, muted otherwise.
pub open spec fn chat_input_spans(input: Seq<char>, focused: bool) -> Seq<(Seq<char>, TextStyle)> {
    let style = if focused {
        TextStyle::Accent
    } else {
        TextStyle::Muted
    };
    seq![
        (" ▸ "@, TextStyle::Dim),
        (
            if input.len() == 0 {
                "Ask about this item… (Enter to send, Esc to close)"@
            } else {
                input
            },
            style,
        ),
    ]
}

/// What the chat panel shows in `visible` lines: the lines of the conversation from
/// the scroll position (see [`chat_scroll`]), as many as fit; a scrollbar when the
/// conversation is longer than the panel; and the input row.
pub open spec fn chat_view_ok<'a, Th, Anim>(ui: VizierUi<'a, Th, Anim>, visible: nat, v: ChatView) -> bool {
    let all = chat_lines(ui.copilot_chat_messages@, ui.copilot_chat_loading);
    let total = all.len();
    let scroll = chat_scroll(total, visible, ui.copilot_chat_scroll as nat);
    let shown: int = if total - scroll < visible {
        total - scroll
    } else {
        visible as int
    };
    &&& lines_view(v.lines@) == all.subrange(scroll as int, scroll + shown)
    &&& v.scrollbar == if total > visible {
        Some((total as usize, scroll as usize))
    } else {
        None
    }
    &&& line_view(v.input) == chat_input_spans(
        ui.copilot_chat_input@,
        ui.focus == Focus::CopilotChat,
    )
}

spec fn texts_take0_empty(texts: Seq<Seq<char>>, role: Seq<char>) -> bool {
    texts.take(0).map_values(|raw: Seq<char>| chat_text_line(role, raw)) =~= Seq::<
        Seq<(Seq<char>, TextStyle)>,
    >::empty()
}

/// The lines of one message.
pub fn message_lines(role: &String, content: &String) -> (lines: Vec<TextLine>)
    ensures
        lines_view(lines@) == chat_message_lines(role@, content@),
{
    let user = String::from_str("user");
    let assistant = String::from_str("assistant");
    let is_user = *role == user;
    let is_assistant = *role == assistant;
    let mut lines: Vec<TextLine> = Vec::new();
    let mut head: Vec<TextSpan> = Vec::new();
    push_span(
        &mut head,
        if is_user {
            "  You: "
        } else {
            "  Copilot: "
        },
        TextStyle::DimBold,
    );
    proof {
        if is_user {
            assert("  "@ + "You"@ + ": "@ =~= "  You: "@) by {
                reveal_strlit("  ");
                reveal_strlit("You");
                reveal_strlit(": ");
                reveal_strlit("  You: ");
            }
        } else {
            assert("  "@ + "Copilot"@ + ": "@ =~= "  Copilot: "@) by {
                reveal_strlit("  ");
                reveal_strlit("Copilot");
                reveal_strlit(": ");
                reveal_strlit("  Copilot: ");
            }
        }
    }
    let head_line = line(head);
    proof {
        assert(line_view(head_line) =~= seq![
            ("  "@ + (if role@ == "user"@ { "You"@ } else { "Copilot"@ }) + ": "@, TextStyle::DimBold),
        ]);
    }
    push_line(&mut lines, head_line);
    proof {
        assert(texts_take0_empty(text_lines(content@), role@));
        assert(lines_view(lines@) =~= seq![
            seq![("  "@ + (if role@ == "user"@ { "You"@ } else { "Copilot"@ }) + ": "@, TextStyle::DimBold)],
        ] + text_lines(content@).take(0).map_values(|raw: Seq<char>| chat_text_line(role@, raw)));
    }
    let base = if is_user {
        TextStyle::Accent
    } else {
        TextStyle::Normal
    };
    let chars = chars_of(content.as_str());
    let raw_lines = split_lines(chars.as_slice());
    let ghost texts = text_lines(content@);
    let mut k: usize = 0;
    while k < raw_lines.len()
        invariant
            k <= raw_lines@.len(),
            char_views(raw_lines@) == texts,
            texts == text_lines(content@),
            is_user == (role@ == "user"@),
            is_assistant == (role@ == "assistant"@),
            base == if is_user {
                TextStyle::Accent
            } else {
                TextStyle::Normal
            },
            lines_view(lines@) == seq![
                seq![("  "@ + (if role@ == "user"@ { "You"@ } else { "Copilot"@ }) + ": "@, TextStyle::DimBold)],
            ] + texts.take(k as int).map_values(|raw: Seq<char>| chat_text_line(role@, raw)),
        decreases raw_lines@.len() - k,
    {
        let ghost raw = texts[k as int];
        assert(raw_lines@[k as int]@ == raw);
        let trimmed = trim_end_chars(raw_lines[k].as_slice());
        let t = string_of(trimmed.as_slice());
        let mut spans: Vec<TextSpan> = Vec::new();
        push_span(&mut spans, "    ", TextStyle::Plain);
        if is_assistant {
            let md = markdown_line_to_spans(t.as_str(), base, TextStyle::Strong);
            let ghost before = spans_view(spans@);
            let mut md = md;
            spans.append(&mut md);
            proof {
                assert(spans_view(spans@) =~= before + markdown_spans(t@, base, TextStyle::Strong));
            }
        } else {
            push_owned_span(&mut spans, t, base);
        }
        let l = line(spans);
        proof {
            assert(line_view(l) =~= chat_text_line(role@, raw));
        }
        let ghost before = lines_view(lines@);
        push_line(&mut lines, l);
        proof {
            assert(texts.take(k + 1).map_values(|raw: Seq<char>| chat_text_line(role@, raw))
                =~= texts.take(k as int).map_values(|raw: Seq<char>| chat_text_line(role@, raw)).push(
                chat_text_line(role@, raw),
            ));
        }
        k = k + 1;
    }
    push_line(&mut lines, blank());
    proof {
        assert(texts.take(texts.len() as int) =~= texts);
        assert(lines_view(lines@) =~= chat_message_lines(role@, content@));
    }
    lines
}

impl<'a, Th, Anim> VizierUi<'a, Th, Anim> {
    /// What the chat panel shows in `visible` lines.
    pub fn chat_view(&self, visible: usize) -> (v: ChatView)
        ensures
            chat_view_ok(*self, visible as nat, v),
    {
        let msgs = self.copilot_chat_messages;
        let mut all: Vec<TextLine> = Vec::new();
        let thinking = self.copilot_chat_loading && msgs.len() > 0 && msgs[msgs.len() - 1].0
            == String::from_str("user");
        if thinking {
            let mut spans: Vec<TextSpan> = Vec::new();
            push_span(&mut spans, "  … Copilot is thinking…", TextStyle::Muted);
            let l = line(spans);
            assert(line_view(l) =~= seq![("  … Copilot is thinking…"@, TextStyle::Muted)]);
            push_line(&mut all, l);
        }
        let ghost head: Seq<Seq<(Seq<char>, TextStyle)>> = if thinking {
            seq![seq![("  … Copilot is thinking…"@, TextStyle::Muted)]]
        } else {
            Seq::empty()
        };
        proof {
            assert(lines_view(all@) =~= head);
            assert(chat_messages_lines(msgs@.take(0)) =~= Seq::<Seq<(Seq<char>, TextStyle)>>::empty());
            assert(lines_view(all@) =~= head + chat_messages_lines(msgs@.take(0)));
        }
        let mut i: usize = 0;
        while i < msgs.len()
            invariant
                i <= msgs@.len(),
                lines_view(all@) == head + chat_messages_lines(msgs@.take(i as int)),
            decreases msgs@.len() - i,
        {
            proof {
                assert(msgs@.take(i + 1).drop_last() =~= msgs@.take(i as int));
                assert(msgs@.take(i + 1).last() == msgs@[i as int]);
            }
            let more = message_lines(&msgs[i].0, &msgs[i].1);
            let ghost before = lines_view(all@);
            let mut more = more;
            let ghost mv = lines_view(more@);
            all.append(&mut more);
            proof {
                assert(lines_view(all@) =~= before + mv);
            }
            i = i + 1;
        }
        proof {
            assert(msgs@.take(msgs@.len() as int) =~= msgs@);
            assert(lines_view(all@) == chat_lines(msgs@, self.copilot_chat_loading));
        }
        let total = all.len();
        let max_scroll = if total > visible {
            total - visible
        } else {
            0
        };
        let scroll = if self.copilot_chat_scroll < max_scroll {
            self.copilot_chat_scroll
        } else {
            max_scroll
        };
        let shown = if total - scroll < visible {
            total - scroll
        } else {
            visible
        };
        let mut lines: Vec<TextLine> = Vec::new();
        let mut k = scroll;
        while k < scroll + shown
            invariant
                scroll <= k <= scroll + shown <= total,
                total == all@.len(),
                lines_view(lines@) == lines_view(all@).subrange(scroll as int, k as int),
            decreases scroll + shown - k,
        {
            let ghost before = lines_view(lines@);
            let l = TextLine { spans: clone_spans(&all[k].spans) };
            push_line(&mut lines, l);
            proof {
                assert(lines_view(lines@) =~= lines_view(all@).subrange(scroll as int, k + 1));
            }
            k = k + 1;
        }
        let mut input: Vec<TextSpan> = Vec::new();
        push_span(&mut input, " ▸ ", TextStyle::Dim);
        let style = if self.focus == Focus::CopilotChat {
            TextStyle::Accent
        } else {
            TextStyle::Muted
        };
        if self.copilot_chat_input.unicode_len() == 0 {
            push_span(&mut input, "Ask about this item… (Enter to send, Esc to close)", style);
        } else {
            push_span(&mut input, self.copilot_chat_input, style);
        }
        let input = line(input);
        proof {
            assert(line_view(input) =~= chat_input_spans(
                self.copilot_chat_input@,
                self.focus == Focus::CopilotChat,
            ));
        }
        let scrollbar = if total > visible {
            Some((total, scroll))
        } else {
            None
        };
        ChatView { lines, scrollbar, input }
    }
}

fn clone_spans(v: &Vec<TextSpan>) -> (r: Vec<TextSpan>)
    ensures
        spans_view(r@) == spans_view(v@),
{
    let mut r: Vec<TextSpan> = Vec::new();
    let mut i: usize = 0;
    while i < v.len()
        invariant
            i <= v@.len(),
            spans_view(r@) == spans_view(v@).take(i as int),
        decreases v@.len() - i,
    {
        let ghost before = spans_view(r@);
        push_span(&mut r, v[i].text.as_str(), v[i].style);
        proof {
            assert(spans_view(r@) =~= spans_view(v@).take(i + 1));
        }
        i = i + 1;
    }
    proof {
        assert(spans_view(v@).take(v@.len() as int) =~= spans_view(v@));
    }
    r
}

} // verus!
