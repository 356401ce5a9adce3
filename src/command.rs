//! Editing commands as objects: each can be executed, kept in a history, and
//! undone.
use vstd::prelude::*;

verus! {

/// What the commands work on: the text being edited and the clipboard.
pub struct Editor {
    pub text: String,
    pub clipboard: String,
}

impl Editor {
    pub fn new() -> (r: Self)
        ensures
            r.text@ == Seq::<char>::empty(),
            r.clipboard@ == Seq::<char>::empty(),
    {
        Editor { text: String::new(), clipboard: String::new() }
    }
}

/// Declares a method for executing (and undoing) a command.
pub trait Command {
    /// Runs the command; true when it changed the text and can be undone.
    fn execute(&mut self, app: &mut Editor) -> bool;

    fn undo(&mut self, app: &mut Editor);
}

/// Copies the text to the clipboard.
pub struct CopyCommand;

impl Default for CopyCommand {
    fn default() -> (r: Self) {
        CopyCommand
    }
}

impl Command for CopyCommand {
    fn execute(&mut self, app: &mut Editor) -> (r: bool)
        ensures
            !r,
            final(app).text@ == old(app).text@,
            final(app).clipboard@ == old(app).text@,
    {
        app.clipboard = app.text.clone();
        false
    }

    fn undo(&mut self, app: &mut Editor)
        ensures
            *final(app) == *old(app),
    {
    }
}

/// Moves the text to the clipboard, and keeps it to undo the move.
pub struct CutCommand {
    backup: String,
}

impl CutCommand {
    pub closed spec fn spec_backup(&self) -> Seq<char> {
        self.backup@
    }
}

impl Default for CutCommand {
    fn default() -> (r: Self)
        ensures
            r.spec_backup() == Seq::<char>::empty(),
    {
        CutCommand { backup: String::new() }
    }
}

impl Command for CutCommand {
    fn execute(&mut self, app: &mut Editor) -> (r: bool)
        ensures
            r,
            final(self).spec_backup() == old(app).text@,
            final(app).clipboard@ == old(app).text@,
            final(app).text@ == Seq::<char>::empty(),
    {
        self.backup = app.text.clone();
        app.clipboard = self.backup.clone();
        app.text = String::new();
        true
    }

    fn undo(&mut self, app: &mut Editor)
        ensures
            *final(self) == *old(self),
            final(app).text@ == old(self).spec_backup(),
            final(app).clipboard == old(app).clipboard,
    {
        app.text = self.backup.clone();
    }
}

/// Replaces the text by the clipboard, and keeps the text to undo it.
pub struct PasteCommand {
    backup: String,
}

impl PasteCommand {
    pub closed spec fn spec_backup(&self) -> Seq<char> {
        self.backup@
    }
}

impl Default for PasteCommand {
    fn default() -> (r: Self)
        ensures
            r.spec_backup() == Seq::<char>::empty(),
    {
        PasteCommand { backup: String::new() }
    }
}

impl Command for PasteCommand {
    fn execute(&mut self, app: &mut Editor) -> (r: bool)
        ensures
            r,
            final(self).spec_backup() == old(app).text@,
            final(app).text@ == old(app).clipboard@,
            final(app).clipboard == old(app).clipboard,
    {
        self.backup = app.text.clone();
        app.text = app.clipboard.clone();
        true
    }

    fn undo(&mut self, app: &mut Editor)
        ensures
            *final(self) == *old(self),
            final(app).text@ == old(self).spec_backup(),
            final(app).clipboard == old(app).clipboard,
    {
        app.text = self.backup.clone();
    }
}

/// Any one of the commands, as the history keeps them.
pub enum AnyCommand {
    Copy(CopyCommand),
    Cut(CutCommand),
    Paste(PasteCommand),
}

/// The text that undoing a command brings back.
pub closed spec fn restores(c: AnyCommand) -> Option<Seq<char>> {
    match c {
        AnyCommand::Copy(_) => None,
        AnyCommand::Cut(x) => Some(x.spec_backup()),
        AnyCommand::Paste(x) => Some(x.spec_backup()),
    }
}

/// The commands that can be undone, oldest first.
pub struct History {
    commands: Vec<AnyCommand>,
}

impl History {
    /// What undoing each command in the history brings back, oldest first.
    pub closed spec fn spec_restores(&self) -> Seq<Option<Seq<char>>> {
        self.commands@.map_values(|c: AnyCommand| restores(c))
    }

    pub fn new() -> (r: Self)
        ensures
            r.spec_restores() == Seq::<Option<Seq<char>>>::empty(),
    {
        History { commands: Vec::new() }
    }

    pub fn len(&self) -> (r: usize)
        ensures
            r == self.spec_restores().len(),
    {
        self.commands.len()
    }
}

/// Executes a command, and keeps it in the history when it can be undone.
pub fn execute(app: &mut Editor, history: &mut History, command: AnyCommand) -> (r: bool)
    ensures
        r == !(command is Copy),
        command is Copy ==> final(app).text@ == old(app).text@ && final(app).clipboard@ == old(
            app,
        ).text@ && final(history).spec_restores() == old(history).spec_restores(),
        command is Cut ==> final(app).text@ == Seq::<char>::empty() && final(app).clipboard@
            == old(app).text@ && final(history).spec_restores() == old(
            history,
        ).spec_restores().push(Some(old(app).text@)),
        command is Paste ==> final(app).text@ == old(app).clipboard@ && final(app).clipboard
            == old(app).clipboard && final(history).spec_restores() == old(
            history,
        ).spec_restores().push(Some(old(app).text@)),
{
    match command {
        AnyCommand::Copy(mut c) => c.execute(app),
        AnyCommand::Cut(mut c) => {
            c.execute(app);
            history.commands.push(AnyCommand::Cut(c));
            assert(history.spec_restores() =~= old(history).spec_restores().push(
                Some(old(app).text@),
            ));
            true
        },
        AnyCommand::Paste(mut c) => {
            c.execute(app);
            history.commands.push(AnyCommand::Paste(c));
            assert(history.spec_restores() =~= old(history).spec_restores().push(
                Some(old(app).text@),
            ));
            true
        },
    }
}

/// Takes the last command out of the history and undoes it; false when the
/// history is empty.
pub fn undo(app: &mut Editor, history: &mut History) -> (r: bool)
    ensures
        r == (old(history).spec_restores().len() > 0),
        !r ==> *final(app) == *old(app) && final(history).spec_restores() == old(
            history,
        ).spec_restores(),
        r ==> final(history).spec_restores() == old(history).spec_restores().drop_last(),
        r ==> final(app).clipboard == old(app).clipboard,
        r ==> match old(history).spec_restores().last() {
            Some(t) => final(app).text@ == t,
            None => final(app).text == old(app).text,
        },
{
    match history.commands.pop() {
        None => false,
        Some(command) => {
            assert(history.spec_restores() =~= old(history).spec_restores().drop_last());
            match command {
                AnyCommand::Copy(mut c) => c.undo(app),
                AnyCommand::Cut(mut c) => c.undo(app),
                AnyCommand::Paste(mut c) => c.undo(app),
            }
            true
        },
    }
}

} // verus!
