use vstd::prelude::*;

verus! {

/// Something the program around the library is asked to do. The library never touches the
/// terminal, the file system or other processes itself: it hands out actions one at a time
/// and is told what came of each through an [`Event`].
#[derive(Debug, Clone, PartialEq)]
pub enum Action {
    /// Ask for a line of free text under `title`.
    Prompt { title: String },
    /// Ask to pick one of `options`, shown under `title`.
    PromptOptions { title: String, options: Vec<String> },
    /// Ask a yes/no question.
    PromptBool { title: String },
    /// Spawn `command` with `args` and wait for it to end. It runs in `cwd` where one is
    /// given, and its output is thrown away if `silent` is set.
    Command { command: String, args: Vec<String>, cwd: Option<String>, silent: bool },
    /// Create `directory`, with its parents, unless it is there already.
    CreateDirectory { directory: String },
    /// Write `content` to `file` inside `directory`, replacing what the file held. Where the
    /// file cannot be written the program stops with `failure` as its message.
    WriteFile { directory: String, file: String, content: String, failure: String },
    /// Print `message` to standard error and leave with exit code `status`.
    Exit { message: String, status: i32 },
    /// Stop the program at once with `message`.
    Abort { message: String },
    /// Nothing is left to do: the run has succeeded.
    Finished,
}

/// The mathematical value of an [`Action`].
pub enum ActionView {
    Prompt { title: Seq<char> },
    PromptOptions { title: Seq<char>, options: Seq<Seq<char>> },
    PromptBool { title: Seq<char> },
    Command { command: Seq<char>, args: Seq<Seq<char>>, cwd: Option<Seq<char>>, silent: bool },
    CreateDirectory { directory: Seq<char> },
    WriteFile { directory: Seq<char>, file: Seq<char>, content: Seq<char>, failure: Seq<char> },
    Exit { message: Seq<char>, status: i32 },
    Abort { message: Seq<char> },
    Finished,
}

impl View for Action {
    type V = ActionView;

    open spec fn view(&self) -> ActionView {
        match self {
            Action::Prompt { title } => ActionView::Prompt { title: title@ },
            Action::PromptOptions { title, options } => ActionView::PromptOptions {
                title: title@,
                options: options.deep_view(),
            },
            Action::PromptBool { title } => ActionView::PromptBool { title: title@ },
            Action::Command { command, args, cwd, silent } => ActionView::Command {
                command: command@,
                args: args.deep_view(),
                cwd: cwd.deep_view(),
                silent: *silent,
            },
            Action::CreateDirectory { directory } => ActionView::CreateDirectory {
                directory: directory@,
            },
            Action::WriteFile { directory, file, content, failure } => ActionView::WriteFile {
                directory: directory@,
                file: file@,
                content: content@,
                failure: failure@,
            },
            Action::Exit { message, status } => ActionView::Exit {
                message: message@,
                status: *status,
            },
            Action::Abort { message } => ActionView::Abort { message: message@ },
            Action::Finished => ActionView::Finished,
        }
    }
}

impl DeepView for Action {
    type V = ActionView;

    open spec fn deep_view(&self) -> ActionView {
        self.view()
    }
}

impl Action {
    /// Whether the action puts a question to the user.
    pub fn is_prompt(&self) -> (prompt: bool)
        ensures
            prompt == self@.is_prompt(),
    {
        match self {
            Action::Prompt { .. } => true,
            Action::PromptOptions { .. } => true,
            Action::PromptBool { .. } => true,
            _ => false,
        }
    }

    /// Whether the action creates or overwrites something in the file system.
    pub fn changes_files(&self) -> (changes: bool)
        ensures
            changes == self@.changes_files(),
    {
        match self {
            Action::CreateDirectory { .. } => true,
            Action::WriteFile { .. } => true,
            _ => false,
        }
    }
}

impl ActionView {
    /// The action puts a question to the user.
    pub open spec fn is_prompt(self) -> bool {
        self is Prompt || self is PromptOptions || self is PromptBool
    }

    /// The action creates or overwrites something in the file system.
    pub open spec fn changes_files(self) -> bool {
        self is CreateDirectory || self is WriteFile
    }

    /// The action ends the run: no event answers it.
    pub open spec fn is_final(self) -> bool {
        self is Exit || self is Abort || self is Finished
    }
}

/// What came of the last [`Action`].
#[derive(Debug, Clone, PartialEq)]
pub enum Event {
    /// The line that was typed, or the option that was picked.
    Answer { text: String },
    /// A command has ended; `success` tells whether its exit code was zero.
    Exited { success: bool },
    /// A directory is in place or a file has been written.
    Done,
}

/// The mathematical value of an [`Event`].
pub enum EventView {
    Answer { text: Seq<char> },
    Exited { success: bool },
    Done,
}

impl View for Event {
    type V = EventView;

    open spec fn view(&self) -> EventView {
        match self {
            Event::Answer { text } => EventView::Answer { text: text@ },
            Event::Exited { success } => EventView::Exited { success: *success },
            Event::Done => EventView::Done,
        }
    }
}

impl Event {
    /// Whether the event is the kind of report that `action` waits for.
    pub fn answers(&self, action: &Action) -> (fits: bool)
        ensures
            fits == self@.answers(action@),
    {
        match self {
            Event::Answer { .. } => action.is_prompt(),
            Event::Exited { .. } => match action {
                Action::Command { .. } => true,
                _ => false,
            },
            Event::Done => action.changes_files(),
        }
    }
}

impl EventView {
    /// The event is the kind of report that `action` waits for: an answer for a prompt, an
    /// exit for a command, a completion for a change to the file system.
    pub open spec fn answers(self, action: ActionView) -> bool {
        match self {
            EventView::Answer { .. } => action.is_prompt(),
            EventView::Exited { .. } => action is Command,
            EventView::Done => action.changes_files(),
        }
    }
}

} // verus!
