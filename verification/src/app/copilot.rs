//! The Copilot chat: the context sent about the selected item, the prompt built from
//! the conversation, and the reply taken back. Running the `copilot` program is left
//! to the caller.

use vstd::prelude::*;

use crate::analyzer::item::kind_label;
use crate::analyzer::AnalyzedItem;
use crate::text::{
    char_views, chars_of, decimal, decimal_digits, join, split_lines, string_of, text_lines,
    trim_chars, trim_ws,
};
use super::input::selected_item_of;
use super::state::App;

verus! {

/// Where an item is defined: its file (or `unknown`) and `:line` when the line is known.
pub open spec fn location_text(item: AnalyzedItem) -> Seq<char> {
    (match item.source_file {
        Some(f) => f@,
        None => "unknown"@,
    }) + (match item.source_line {
        Some(n) => ":"@ + decimal_digits(n as nat),
        None => Seq::empty(),
    })
}

/// The first ten lines of documentation, joined with line breaks.
pub open spec fn doc_excerpt(doc: Seq<char>) -> Seq<char> {
    let lines = text_lines(doc);
    join(
        if lines.len() > 10 {
            lines.take(10)
        } else {
            lines
        },
        "\n"@,
    )
}

/// The context about an item given to Copilot: its kind, path, location, definition
/// and the start of its documentation.
pub open spec fn copilot_context(item: AnalyzedItem) -> Seq<char> {
    "I'm inspecting this Rust item in Rustlens TUI. Use it as context.\n\n**Item:** "@
        + kind_label(item.kind) + " "@ + item.qualified_name@ + "\n**Location:** "@
        + location_text(item) + "\n**Definition:**\n```rust\n"@ + item.definition@
        + "\n```\n"@ + (match item.documentation {
        Some(d) => "\n**Docs:**\n"@ + doc_excerpt(d@) + "\n"@,
        None => Seq::empty(),
    }) + "\n---\nAnswer the user's question about this item."@
}

/// The chat messages as (role, content) texts.
pub open spec fn message_views(msgs: Seq<(String, String)>) -> Seq<(Seq<char>, Seq<char>)> {
    msgs.map_values(|m: (String, String)| (m.0@, m.1@))
}

/// How a role is labelled in the prompt.
pub open spec fn role_label(role: Seq<char>) -> Seq<char> {
    if role == "user"@ {
        "User"@
    } else {
        "Assistant"@
    }
}

/// The conversation, one `Label: content` line per message.
pub open spec fn conversation_text(msgs: Seq<(Seq<char>, Seq<char>)>) -> Seq<char>
    decreases msgs.len(),
{
    if msgs.len() == 0 {
        Seq::empty()
    } else {
        conversation_text(msgs.drop_last()) + role_label(msgs.last().0) + ": "@ + msgs.last().1
            + "\n"@
    }
}

/// The prompt sent to Copilot: the item context, then the conversation.
pub open spec fn copilot_prompt(context: Seq<char>, msgs: Seq<(Seq<char>, Seq<char>)>) -> Seq<char> {
    context + "\n\n**Conversation:**\n"@ + conversation_text(msgs)
        + "\nRespond to the user's latest message above."@
}

/// The arguments the `copilot` program is run with.
pub open spec fn copilot_args(prompt: Seq<char>, project_path: Option<Seq<char>>) -> Seq<Seq<char>> {
    seq!["-p"@, prompt, "--allow-all"@, "-s"@] + match project_path {
        Some(p) => seq!["--add-dir"@, p],
        None => Seq::empty(),
    }
}

/// How a run of the `copilot` program ended.
pub enum CopilotOutcome {
    /// It ran: whether it succeeded, its exit status as shown, and its output.
    Finished { success: bool, status: String, stdout: String, stderr: String },
    /// It could not be started, with the reason.
    NotStarted(String),
}

/// The reply shown for a run of `copilot`: its trimmed output, or what went wrong.
pub open spec fn copilot_reply_text(outcome: CopilotOutcome) -> Seq<char> {
    match outcome {
        CopilotOutcome::Finished { success, status, stdout, stderr } => if success {
            trim_ws(stdout@)
        } else {
            "Copilot error (exit "@ + status@ + "): "@ + stderr@
        },
        CopilotOutcome::NotStarted(e) => "Failed to run copilot: "@ + e@,
    }
}

/// The state after sending the chat input (trimmed) as the user's message, and the
/// prompt handed to Copilot: nothing for an empty input; without a selected item the
/// reply `No item selected.` is added at once; otherwise the chat waits for Copilot.
pub open spec fn copilot_submitted(old: App, new: App, prompt: Option<String>) -> bool {
    let input = trim_ws(old.copilot_chat_input@);
    let sent = message_views(old.copilot_chat_messages@).push(("user"@, input));
    if input.len() == 0 {
        prompt is None && new == old
    } else {
        &&& new.copilot_chat_input@.len() == 0
        &&& new == (App {
            copilot_chat_input: new.copilot_chat_input,
            copilot_chat_messages: new.copilot_chat_messages,
            copilot_chat_loading: new.copilot_chat_loading,
            ..old
        })
        &&& match selected_item_of(old) {
            None => {
                &&& prompt is None
                &&& message_views(new.copilot_chat_messages@) == sent.push(
                    ("assistant"@, "No item selected."@),
                )
                &&& new.copilot_chat_loading == old.copilot_chat_loading
            },
            Some(item) => {
                &&& prompt matches Some(p) && p@ == copilot_prompt(
                    copilot_context(item),
                    sent,
                )
                &&& message_views(new.copilot_chat_messages@) == sent
                &&& new.copilot_chat_loading
            },
        }
    }
}

fn join_first_lines(lines: &Vec<Vec<char>>, k: usize, sep: &str) -> (s: String)
    requires
        k <= lines@.len(),
    ensures
        s@ == join(char_views(lines@).take(k as int), sep@),
{
    let mut s = String::new();
    let mut i: usize = 0;
    while i < k
        invariant
            k <= lines@.len(),
            i <= k,
            s@ == join(char_views(lines@).take(i as int), sep@),
        decreases k - i,
    {
        proof {
            let t = char_views(lines@).take(i + 1);
            assert(t.drop_last() =~= char_views(lines@).take(i as int));
            assert(t.last() == lines@[i as int]@);
        }
        if i > 0 {
            s.append(sep);
        }
        let line = string_of(lines[i].as_slice());
        s.append(line.as_str());
        i = i + 1;
    }
    s
}

fn location_of(item: &AnalyzedItem) -> (s: String)
    ensures
        s@ == location_text(*item),
{
    let mut s = match &item.source_file {
        Some(f) => f.clone(),
        None => String::from_str("unknown"),
    };
    match item.source_line {
        Some(n) => {
            s.append(":");
            let digits = decimal(n as u64);
            s.append(digits.as_str());
        },
        None => {},
    }
    s
}

/// The context about `item` given to Copilot.
pub fn context_for_item(item: &AnalyzedItem) -> (s: String)
    ensures
        s@ == copilot_context(*item),
{
    let mut s = String::from_str(
        "I'm inspecting this Rust item in Rustlens TUI. Use it as context.\n\n**Item:** ",
    );
    s.append(item.kind());
    s.append(" ");
    s.append(item.qualified_name.as_str());
    s.append("\n**Location:** ");
    let loc = location_of(item);
    s.append(loc.as_str());
    s.append("\n**Definition:**\n```rust\n");
    s.append(item.definition.as_str());
    s.append("\n```\n");
    match &item.documentation {
        Some(d) => {
            let chars = chars_of(d.as_str());
            let lines = split_lines(chars.as_slice());
            let k = if lines.len() > 10 {
                10
            } else {
                lines.len()
            };
            let excerpt = join_first_lines(&lines, k, "\n");
            proof {
                if lines@.len() <= 10 {
                    assert(char_views(lines@).take(k as int) =~= char_views(lines@));
                }
            }
            s.append("\n**Docs:**\n");
            s.append(excerpt.as_str());
            s.append("\n");
        },
        None => {},
    }
    s.append("\n---\nAnswer the user's question about this item.");
    s
}

fn conversation_of(msgs: &Vec<(String, String)>) -> (s: String)
    ensures
        s@ == conversation_text(message_views(msgs@)),
{
    let user = String::from_str("user");
    let mut s = String::new();
    let mut i: usize = 0;
    while i < msgs.len()
        invariant
            i <= msgs@.len(),
            user@ == "user"@,
            s@ == conversation_text(message_views(msgs@.take(i as int))),
        decreases msgs@.len() - i,
    {
        proof {
            let t = message_views(msgs@.take(i + 1));
            assert(t.drop_last() =~= message_views(msgs@.take(i as int)));
            assert(t.last() == (msgs@[i as int].0@, msgs@[i as int].1@));
        }
        if msgs[i].0 == user {
            s.append("User");
        } else {
            s.append("Assistant");
        }
        s.append(": ");
        s.append(msgs[i].1.as_str());
        s.append("\n");
        i = i + 1;
    }
    proof {
        assert(msgs@.take(msgs@.len() as int) =~= msgs@);
    }
    s
}

/// The arguments to run the `copilot` program with for `prompt`, adding the project
/// directory when there is one.
pub fn copilot_command_args(prompt: &str, project_path: Option<&str>) -> (args: Vec<String>)
    ensures
        args@.map_values(|a: String| a@) == copilot_args(
            prompt@,
            match project_path {
                Some(p) => Some(p@),
                None => None,
            },
        ),
{
    let mut args: Vec<String> = Vec::new();
    args.push(String::from_str("-p"));
    args.push(String::from_str(prompt));
    args.push(String::from_str("--allow-all"));
    args.push(String::from_str("-s"));
    match project_path {
        Some(p) => {
            args.push(String::from_str("--add-dir"));
            args.push(String::from_str(p));
        },
        None => {},
    }
    proof {
        assert(args@.map_values(|a: String| a@) =~= copilot_args(
            prompt@,
            match project_path {
                Some(p) => Some(p@),
                None => None,
            },
        ));
    }
    args
}

/// The reply shown for a run of `copilot`.
pub fn copilot_reply(outcome: CopilotOutcome) -> (s: String)
    ensures
        s@ == copilot_reply_text(outcome),
{
    match outcome {
        CopilotOutcome::Finished { success, status, stdout, stderr } => {
            if success {
                let chars = chars_of(stdout.as_str());
                let trimmed = trim_chars(chars.as_slice());
                string_of(trimmed.as_slice())
            } else {
                let mut s = String::from_str("Copilot error (exit ");
                s.append(status.as_str());
                s.append("): ");
                s.append(stderr.as_str());
                s
            }
        },
        CopilotOutcome::NotStarted(e) => {
            let mut s = String::from_str("Failed to run copilot: ");
            s.append(e.as_str());
            s
        },
    }
}

impl App {
    /// The context about the selected item given to Copilot; none without a selected
    /// item.
    pub fn build_copilot_context(&self) -> (r: Option<String>)
        ensures
            match selected_item_of(*self) {
                Some(item) => r matches Some(s) && s@ == copilot_context(item),
                None => r is None,
            },
    {
        match self.selected_item() {
            Some(item) => Some(context_for_item(item)),
            None => None,
        }
    }

    /// Sends the chat input (trimmed) as the user's message: an empty input does
    /// nothing; without a selected item the reply `No item selected.` is added at
    /// once; otherwise the chat waits for Copilot and the prompt to send is handed
    /// back.
    pub fn submit_copilot_message(&mut self) -> (prompt: Option<String>)
        ensures
            copilot_submitted(*old(self), *final(self), prompt),
    {
        let chars = chars_of(self.copilot_chat_input.as_str());
        let trimmed = trim_chars(chars.as_slice());
        if trimmed.len() == 0 {
            return None;
        }
        let input = string_of(trimmed.as_slice());
        self.copilot_chat_input = String::new();
        let ghost before = self.copilot_chat_messages@;
        self.copilot_chat_messages.push((String::from_str("user"), input));
        proof {
            assert(message_views(self.copilot_chat_messages@) =~= message_views(before).push(
                ("user"@, trimmed@),
            ));
        }
        let context = match self.build_copilot_context() {
            Some(c) => c,
            None => {
                let ghost sent = self.copilot_chat_messages@;
                self.copilot_chat_messages.push(
                    (String::from_str("assistant"), String::from_str("No item selected.")),
                );
                proof {
                    assert(message_views(self.copilot_chat_messages@) =~= message_views(sent).push(
                        ("assistant"@, "No item selected."@),
                    ));
                }
                return None;
            },
        };
        let mut prompt = context;
        prompt.append("\n\n**Conversation:**\n");
        let conversation = conversation_of(&self.copilot_chat_messages);
        prompt.append(conversation.as_str());
        prompt.append("\nRespond to the user's latest message above.");
        self.copilot_chat_loading = true;
        Some(prompt)
    }

    /// Takes Copilot's reply: it is added to the chat, which stops waiting.
    pub fn receive_copilot_response(&mut self, response: String)
        ensures
            *final(self) == (App {
                copilot_chat_messages: final(self).copilot_chat_messages,
                copilot_chat_loading: false,
                ..*old(self)
            }),
            message_views(final(self).copilot_chat_messages@) == message_views(
                old(self).copilot_chat_messages@,
            ).push(("assistant"@, response@)),
    {
        let ghost before = self.copilot_chat_messages@;
        self.copilot_chat_messages.push((String::from_str("assistant"), response));
        self.copilot_chat_loading = false;
        proof {
            assert(message_views(self.copilot_chat_messages@) =~= message_views(before).push(
                ("assistant"@, response@),
            ));
        }
    }
}

/// The conversation in the prompt is the messages' lines in order: joining two
/// conversations joins their texts, and a message is the line `User: ` (for the role
/// `user`) or `Assistant: ` (for any other role), its content and a line break.
pub proof fn lemma_conversation_lines(
    msgs: Seq<(Seq<char>, Seq<char>)>,
    more: Seq<(Seq<char>, Seq<char>)>,
    role: Seq<char>,
    content: Seq<char>,
)
    ensures
        conversation_text(msgs + more) == conversation_text(msgs) + conversation_text(more),
        conversation_text(seq![(role, content)]) == (if role == "user"@ {
            "User: "@
        } else {
            "Assistant: "@
        }) + content + "\n"@,
    decreases more.len(),
{
    if more.len() > 0 {
        lemma_conversation_lines(msgs, more.drop_last(), role, content);
        assert((msgs + more).drop_last() =~= msgs + more.drop_last());
        assert((msgs + more).last() == more.last());
    } else {
        assert(msgs + more =~= msgs);
    }
    let one = seq![(role, content)];
    assert(one.drop_last() =~= Seq::<(Seq<char>, Seq<char>)>::empty());
    reveal_strlit("User");
    reveal_strlit("Assistant");
    reveal_strlit(": ");
    reveal_strlit("User: ");
    reveal_strlit("Assistant: ");
    assert("User"@ + ": "@ =~= "User: "@);
    assert("Assistant"@ + ": "@ =~= "Assistant: "@);
    assert(conversation_text(one.drop_last()) == Seq::<char>::empty());
    assert(one.last() == (role, content));
    let label = role_label(role);
    assert(conversation_text(one) == Seq::<char>::empty() + label + ": "@ + content + "\n"@);
    assert(Seq::<char>::empty() + label + ": "@ + content + "\n"@ =~= (label + ": "@) + content
        + "\n"@);
}

} // verus!
