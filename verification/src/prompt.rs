//! The Prompt Assembler: a pure function from a task mode and a diff text to
//! the fixed four-message conversation (system instructions, a canned user
//! question, a canned assistant acknowledgement, and the diff itself as the
//! final user message).

use vstd::prelude::*;

verus! {

/// Which of the two fixed system-instruction templates the conversation uses.
#[derive(Clone, Copy, PartialEq, Eq, Structural, Debug)]
pub enum TaskMode {
    /// Ask the model for a selective, markdown-formatted code review.
    Review,
    /// Ask the model for an implementation-detail explanation.
    Details,
}

/// The role tag of one conversation message.
#[derive(Clone, Copy, PartialEq, Eq, Structural, Debug)]
pub enum Role {
    System,
    User,
    Assistant,
}

/// One role-tagged conversation message.
pub struct Message {
    pub role: Role,
    pub content: String,
}

impl View for Message {
    type V = (Role, Seq<char>);

    open spec fn view(&self) -> (Role, Seq<char>) {
        (self.role, self.content@)
    }
}

/// The task mode an invocation asks for.
pub open spec fn mode_for(details: bool) -> TaskMode {
    if details {
        TaskMode::Details
    } else {
        TaskMode::Review
    }
}

/// Maps the `details` flag to the task mode it selects.
pub fn task_mode(details: bool) -> (m: TaskMode)
    ensures
        m == mode_for(details),
{
    if details {
        TaskMode::Details
    } else {
        TaskMode::Review
    }
}

/// The fixed system-instruction text for each task mode.
pub open spec fn system_text(mode: TaskMode) -> Seq<char> {
    match mode {
        TaskMode::Review => "You are an expert at reviewing code. You will be given a set of changes from a pull request as a unified diff. Respond in markdown, with a level-2 heading for each file path you comment on, followed by your comments on its changes in prose; you may add fenced code blocks with suggested snippets. Be selective: skip files that need no remarks. Positive remarks are optional."@,
        TaskMode::Details => "You are an expert software engineer. You will be given a set of changes from a pull request as a unified diff. Explain the implementation details of the change set in markdown: describe what was changed, how the pieces fit together, and why, file by file. Use fenced code blocks for any code you quote."@,
    }
}

/// The fixed scripted user question for each task mode.
pub open spec fn user_question(mode: TaskMode) -> Seq<char> {
    match mode {
        TaskMode::Review => "Can you review some changes from a PR?"@,
        TaskMode::Details => "Can please provide the implementation details for the following PR changes?"@,
    }
}

/// The fixed scripted assistant acknowledgement, identical for both modes.
pub open spec fn ack_text() -> Seq<char> {
    "Sure thing! What are the changes?"@
}

/// The whole assembled conversation as a mathematical value: exactly four
/// messages in the fixed role order system, user, assistant, user, the last
/// carrying the diff text verbatim.
pub open spec fn prompt_spec(mode: TaskMode, diff: Seq<char>) -> Seq<(Role, Seq<char>)> {
    seq![
        (Role::System, system_text(mode)),
        (Role::User, user_question(mode)),
        (Role::Assistant, ack_text()),
        (Role::User, diff),
    ]
}

/// The view of an assembled message list.
pub open spec fn messages_view(msgs: Seq<Message>) -> Seq<(Role, Seq<char>)> {
    msgs.map_values(|m: Message| m@)
}

/// Builds the four-message conversation for `mode` around `diff_text`. The
/// final message's content is the verbatim diff text — empty input still
/// yields a well-formed final message with empty content.
pub fn assemble_prompt(mode: TaskMode, diff_text: String) -> (msgs: Vec<Message>)
    ensures
        messages_view(msgs@) == prompt_spec(mode, diff_text@),
        msgs@.len() == 4,
        msgs@[3].content@ == diff_text@,
{
    let system = match mode {
        TaskMode::Review => String::from_str(
            "You are an expert at reviewing code. You will be given a set of changes from a pull request as a unified diff. Respond in markdown, with a level-2 heading for each file path you comment on, followed by your comments on its changes in prose; you may add fenced code blocks with suggested snippets. Be selective: skip files that need no remarks. Positive remarks are optional.",
        ),
        TaskMode::Details => String::from_str(
            "You are an expert software engineer. You will be given a set of changes from a pull request as a unified diff. Explain the implementation details of the change set in markdown: describe what was changed, how the pieces fit together, and why, file by file. Use fenced code blocks for any code you quote.",
        ),
    };
    let question = match mode {
        TaskMode::Review => String::from_str("Can you review some changes from a PR?"),
        TaskMode::Details => String::from_str(
            "Can please provide the implementation details for the following PR changes?",
        ),
    };
    let ack = String::from_str("Sure thing! What are the changes?");
    let msgs: Vec<Message> = vec![
        Message { role: Role::System, content: system },
        Message { role: Role::User, content: question },
        Message { role: Role::Assistant, content: ack },
        Message { role: Role::User, content: diff_text },
    ];
    proof {
        assert(messages_view(msgs@) =~= prompt_spec(mode, diff_text@));
    }
    msgs
}

/// The prompt text used for a local diff: a newline, then the rendered patch
/// verbatim.
pub fn local_diff_prompt(diff: &str) -> (r: String)
    ensures
        r@ == "\n"@ + diff@,
{
    let mut s = String::from_str("\n");
    s.append(diff);
    s
}

/// Law: the assembled conversation is a function of the task mode and the
/// diff text alone — two assemblies from identical inputs are identical,
/// byte for byte.
pub proof fn lemma_prompt_assembly_deterministic(
    mode: TaskMode,
    diff: Seq<char>,
    a: Seq<(Role, Seq<char>)>,
    b: Seq<(Role, Seq<char>)>,
)
    requires
        a == prompt_spec(mode, diff),
        b == prompt_spec(mode, diff),
    ensures
        a == b,
{
}

} // verus!
